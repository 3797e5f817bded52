//! Protocol constants of MODBUS/TCP.

use vstd::prelude::*;

verus! {

/// Size of the MBAP header in bytes (transaction id, protocol id, length, unit id).
pub const MODBUS_HEADER_SIZE: u16 = 7;

/// Protocol identifier of MODBUS/TCP.
pub const MODBUS_PROTOCOL_IDENTIFIER_TCP: u16 = 0x0000;

/// Length of the unit identifier field.
pub const MODBUS_UNIT_IDENTIFIER_LENGTH: u16 = 1;

/// Length of the function code field.
pub const MODBUS_FUNCTION_CODE_LENGTH: u16 = 1;

/// Shortest accepted payload of a coil or discrete-input response.
pub const MODBUS_READ_COIL_MINIMUM_PAYLOAD_LENGTH: usize = 4;

/// Shortest accepted payload of a register response.
pub const MODBUS_READ_REGISTER_MINIMUM_PAYLOAD_LENGTH: usize = 4;

/// Length of every write confirmation payload.
pub const MODBUS_WRITE_MINIMUM_PAYLOAD_LENGTH: usize = 4;

/// Default TCP port of a MODBUS server.
pub const MODBUS_TCP_PORT: u16 = 502;

/// Unit identifier used when none is given.
pub const MODBUS_DEFAULT_UNIT_IDENTIFIER: u8 = 0x01;

/// First transaction identifier of a client; also the value after 0xFFFF.
pub const MODBUS_TRANSACTION_ID_INITIALIZER: u16 = 0x0001;

/// Single-coil write value that switches a coil off.
pub const WRITE_SINGLE_COIL_OFF: u16 = 0x0000;

/// Single-coil write value that switches a coil on.
pub const WRITE_SINGLE_COIL_ON: u16 = 0xFF00;

pub const FUNCTION_CODE_READ_COILS: u8 = 0x01;

pub const FUNCTION_CODE_READ_DISCRETE_INPUTS: u8 = 0x02;

pub const FUNCTION_CODE_READ_HOLDING_REGISTERS: u8 = 0x03;

pub const FUNCTION_CODE_READ_INPUT_REGISTERS: u8 = 0x04;

pub const FUNCTION_CODE_WRITE_SINGLE_COIL: u8 = 0x05;

pub const FUNCTION_CODE_WRITE_SINGLE_REGISTER: u8 = 0x06;

pub const FUNCTION_CODE_WRITE_MULTIPLE_COILS: u8 = 0x0F;

pub const FUNCTION_CODE_WRITE_MULTIPLE_REGISTERS: u8 = 0x10;

} // verus!
