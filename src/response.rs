//! Response payload parsers, one per function-code family. Each is total:
//! a payload that does not have the expected shape yields no data.

use vstd::prelude::*;

use crate::codec::{
    bytes_to_word, bytes_to_words, extract_byte_from_bytearray, extract_bytes_from_bytearray,
    extract_word_from_bytearray, transform_bytes_to_words,
};
use crate::consts::{
    MODBUS_READ_COIL_MINIMUM_PAYLOAD_LENGTH, MODBUS_READ_REGISTER_MINIMUM_PAYLOAD_LENGTH,
    MODBUS_WRITE_MINIMUM_PAYLOAD_LENGTH, WRITE_SINGLE_COIL_ON,
};

verus! {

/// Bit `k` (0 is the least significant) of a byte.
pub open spec fn bit_at(byte: u8, k: int) -> bool {
    (byte >> (k as u8)) & 1 == 1
}

/// The first `count` bits of `bytes`, least significant bit first within
/// each byte.
pub open spec fn unpack_bits(bytes: Seq<u8>, count: nat) -> Seq<bool> {
    Seq::new(count, |i: int| bit_at(bytes[i / 8], i % 8))
}

/// The data bytes of a read response: `payload[0]` counts them, and there
/// must be at least one.
pub open spec fn counted_bytes(payload: Seq<u8>) -> Option<Seq<u8>> {
    if payload.len() > 0 && payload[0] > 0 && 1 + payload[0] <= payload.len() {
        Some(payload.subrange(1, 1 + payload[0]))
    } else {
        None
    }
}

/// The states of `count` coils or inputs in a read response.
pub open spec fn read_bits_response(payload: Seq<u8>, count: u16) -> Seq<bool> {
    if payload.len() < MODBUS_READ_COIL_MINIMUM_PAYLOAD_LENGTH {
        Seq::empty()
    } else {
        match counted_bytes(payload) {
            Some(data) => if count <= 8 * data.len() {
                unpack_bits(data, count as nat)
            } else {
                Seq::empty()
            },
            None => Seq::empty(),
        }
    }
}

/// The registers of a read response: its data bytes as big-endian words.
pub open spec fn read_registers_response(payload: Seq<u8>) -> Seq<u16> {
    if payload.len() < MODBUS_READ_REGISTER_MINIMUM_PAYLOAD_LENGTH {
        Seq::empty()
    } else {
        match counted_bytes(payload) {
            Some(data) => bytes_to_words(data, 0, (data.len() / 2) as nat),
            None => Seq::empty(),
        }
    }
}

/// The two echoed words (address, then quantity or value) of a write
/// confirmation, which must be exactly four bytes.
pub open spec fn write_echo_response(payload: Seq<u8>) -> Seq<u16> {
    if payload.len() == MODBUS_WRITE_MINIMUM_PAYLOAD_LENGTH {
        seq![bytes_to_word(payload[0], payload[1]), bytes_to_word(payload[2], payload[3])]
    } else {
        Seq::empty()
    }
}

/// Whether a single-coil write confirmation echoes the value 0xFF00.
pub open spec fn write_single_coil_response(payload: Seq<u8>) -> Seq<bool> {
    if payload.len() == MODBUS_WRITE_MINIMUM_PAYLOAD_LENGTH {
        seq![bytes_to_word(payload[2], payload[3]) == WRITE_SINGLE_COIL_ON]
    } else {
        Seq::empty()
    }
}

/// Every parser yields no data on a payload shorter than four bytes.
pub proof fn lemma_short_payload_yields_no_data(payload: Seq<u8>, count: u16)
    requires
        payload.len() < 4,
    ensures
        read_bits_response(payload, count).len() == 0,
        read_registers_response(payload).len() == 0,
        write_echo_response(payload).len() == 0,
        write_single_coil_response(payload).len() == 0,
{
}

/// Whether a coil or discrete-input response payload is long enough.
pub fn is_payload_read_coil_length_valid(payload: &Vec<u8>) -> (r: bool)
    ensures
        r == (payload@.len() >= MODBUS_READ_COIL_MINIMUM_PAYLOAD_LENGTH),
{
    payload.len() >= MODBUS_READ_COIL_MINIMUM_PAYLOAD_LENGTH
}

/// Whether a register response payload is long enough.
pub fn is_payload_read_register_length_valid(payload: &Vec<u8>) -> (r: bool)
    ensures
        r == (payload@.len() >= MODBUS_READ_REGISTER_MINIMUM_PAYLOAD_LENGTH),
{
    payload.len() >= MODBUS_READ_REGISTER_MINIMUM_PAYLOAD_LENGTH
}

/// Whether a write confirmation payload has its fixed length.
pub fn is_payload_write_length_valid(payload: &Vec<u8>) -> (r: bool)
    ensures
        r == (payload@.len() == MODBUS_WRITE_MINIMUM_PAYLOAD_LENGTH),
{
    payload.len() == MODBUS_WRITE_MINIMUM_PAYLOAD_LENGTH
}

/// The first `count` bits of `bytes`, least significant bit first.
fn unpack_bit_array(bytes: &Vec<u8>, count: usize) -> (r: Vec<bool>)
    requires
        count <= 8 * bytes@.len(),
    ensures
        r@ == unpack_bits(bytes@, count as nat),
{
    let mut reply: Vec<bool> = Vec::new();
    let mut i: usize = 0;
    while i < count
        invariant
            i <= count <= 8 * bytes@.len(),
            reply@ == unpack_bits(bytes@, i as nat),
        decreases count - i,
    {
        let byte_index: usize = i / 8;
        let bit: u8 = (i % 8) as u8;
        reply.push((bytes[byte_index] >> bit) & 1 == 1);
        i += 1;
        assert(reply@ =~= unpack_bits(bytes@, i as nat));
    }
    reply
}

/// The bits of a coil or discrete-input response.
fn unpack_read_bits(payload: &Vec<u8>, count: u16) -> (r: Vec<bool>)
    ensures
        r@ == read_bits_response(payload@, count),
{
    if !is_payload_read_coil_length_valid(payload) {
        return Vec::new();
    }
    match extract_byte_from_bytearray(payload, 0) {
        Some(byte_count) => match extract_bytes_from_bytearray(payload, 1, byte_count) {
            Some(data) => {
                if count as usize <= 8 * data.len() {
                    unpack_bit_array(&data, count as usize)
                } else {
                    Vec::new()
                }
            },
            None => Vec::new(),
        },
        None => Vec::new(),
    }
}

/// The registers of a holding- or input-register response.
fn unpack_read_registers(payload: &Vec<u8>) -> (r: Vec<u16>)
    ensures
        r@ == read_registers_response(payload@),
{
    if !is_payload_read_register_length_valid(payload) {
        return Vec::new();
    }
    match extract_byte_from_bytearray(payload, 0) {
        Some(byte_count) => match extract_bytes_from_bytearray(payload, 1, byte_count) {
            Some(register_values) => transform_bytes_to_words(&register_values, 0, byte_count / 2),
            None => Vec::new(),
        },
        None => Vec::new(),
    }
}

/// The two words echoed by a write confirmation.
fn unpack_write_echo(payload: &Vec<u8>) -> (r: Vec<u16>)
    ensures
        r@ == write_echo_response(payload@),
{
    let mut reply: Vec<u16> = Vec::new();
    if is_payload_write_length_valid(payload) {
        match (extract_word_from_bytearray(payload, 0), extract_word_from_bytearray(payload, 2)) {
            (Some(address), Some(quantity)) => {
                reply.push(address);
                reply.push(quantity);
            },
            _ => {},
        }
    }
    assert(reply@ =~= write_echo_response(payload@));
    reply
}

/// Function code 1: `coil_count` coil states, LSB first within each byte.
pub fn prepare_response_read_coils(payload: &Vec<u8>, coil_count: u16) -> (r: Vec<bool>)
    ensures
        r@ == read_bits_response(payload@, coil_count),
{
    unpack_read_bits(payload, coil_count)
}

/// Function code 2: `input_count` input states, LSB first within each byte.
pub fn prepare_response_read_discrete_inputs(payload: &Vec<u8>, input_count: u16) -> (r: Vec<bool>)
    ensures
        r@ == read_bits_response(payload@, input_count),
{
    unpack_read_bits(payload, input_count)
}

/// Function code 3: the holding registers read.
pub fn prepare_response_read_holding_registers(payload: &Vec<u8>) -> (r: Vec<u16>)
    ensures
        r@ == read_registers_response(payload@),
{
    unpack_read_registers(payload)
}

/// Function code 4: the input registers read.
pub fn prepare_response_read_input_registers(payload: &Vec<u8>) -> (r: Vec<u16>)
    ensures
        r@ == read_registers_response(payload@),
{
    unpack_read_registers(payload)
}

/// Function code 5: whether the coil was switched on.
pub fn prepare_response_write_single_coil(payload: &Vec<u8>) -> (r: Vec<bool>)
    ensures
        r@ == write_single_coil_response(payload@),
{
    let mut reply: Vec<bool> = Vec::new();
    if is_payload_write_length_valid(payload) {
        match extract_word_from_bytearray(payload, 2) {
            Some(word) => reply.push(word == WRITE_SINGLE_COIL_ON),
            None => {},
        }
    }
    assert(reply@ =~= write_single_coil_response(payload@));
    reply
}

/// Function code 6: the echoed address and value.
pub fn prepare_response_write_single_register(payload: &Vec<u8>) -> (r: Vec<u16>)
    ensures
        r@ == write_echo_response(payload@),
{
    unpack_write_echo(payload)
}

/// Function code 15: the echoed address and quantity.
pub fn prepare_response_write_multiple_coils(payload: &Vec<u8>) -> (r: Vec<u16>)
    ensures
        r@ == write_echo_response(payload@),
{
    unpack_write_echo(payload)
}

/// Function code 16: the echoed address and quantity.
pub fn prepare_response_write_multiple_registers(payload: &Vec<u8>) -> (r: Vec<u16>)
    ensures
        r@ == write_echo_response(payload@),
{
    unpack_write_echo(payload)
}

/// The coil data of a response, parsed as its function code asks; no data
/// for a function code that does not answer with coils.
pub open spec fn coil_response_data(function_code: u8, payload: Seq<u8>, quantity: u16) -> Seq<bool> {
    if function_code == 1 || function_code == 2 {
        read_bits_response(payload, quantity)
    } else if function_code == 5 {
        write_single_coil_response(payload)
    } else {
        Seq::empty()
    }
}

/// The register data of a response, parsed as its function code asks; no
/// data for a function code that does not answer with words.
pub open spec fn register_response_data(function_code: u8, payload: Seq<u8>) -> Seq<u16> {
    if function_code == 3 || function_code == 4 {
        read_registers_response(payload)
    } else if function_code == 6 || function_code == 0x0F || function_code == 0x10 {
        write_echo_response(payload)
    } else {
        Seq::empty()
    }
}

/// Parses a response with coil data by its function code; `quantity` is the
/// number of coils or inputs that were read.
pub fn parse_coil_response(function_code: u8, payload: &Vec<u8>, quantity: u16) -> (r: Vec<bool>)
    ensures
        r@ == coil_response_data(function_code, payload@, quantity),
{
    match function_code {
        0x01 => prepare_response_read_coils(payload, quantity),
        0x02 => prepare_response_read_discrete_inputs(payload, quantity),
        0x05 => prepare_response_write_single_coil(payload),
        _ => Vec::new(),
    }
}

/// Parses a response with register data by its function code.
pub fn parse_register_response(function_code: u8, payload: &Vec<u8>) -> (r: Vec<u16>)
    ensures
        r@ == register_response_data(function_code, payload@),
{
    match function_code {
        0x03 => prepare_response_read_holding_registers(payload),
        0x04 => prepare_response_read_input_registers(payload),
        0x06 => prepare_response_write_single_register(payload),
        0x0F => prepare_response_write_multiple_coils(payload),
        0x10 => prepare_response_write_multiple_registers(payload),
        _ => Vec::new(),
    }
}

} // verus!
