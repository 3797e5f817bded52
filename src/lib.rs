//! A MODBUS/TCP client: frame encoding and decoding, request validation,
//! response parsing and a transaction engine over an abstract byte stream.

pub mod codec;
pub mod consts;
pub mod telegram;
pub mod request;
pub mod response;
pub mod outcome;
pub mod timing;
pub mod access;
pub mod ethernet;
pub mod master;
pub mod direct;
