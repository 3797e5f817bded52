//! Request validation and construction, one builder per function code.

use vstd::prelude::*;

use crate::codec::{
    append_byte_to_bytearray, append_bytearray_to_bytearray, append_word_to_bytearray,
    transform_words_to_bytes, word_to_bytes, words_to_bytes,
};
use crate::consts::{
    FUNCTION_CODE_READ_COILS, FUNCTION_CODE_READ_DISCRETE_INPUTS,
    FUNCTION_CODE_READ_HOLDING_REGISTERS, FUNCTION_CODE_READ_INPUT_REGISTERS,
    FUNCTION_CODE_WRITE_MULTIPLE_COILS, FUNCTION_CODE_WRITE_MULTIPLE_REGISTERS,
    FUNCTION_CODE_WRITE_SINGLE_COIL, FUNCTION_CODE_WRITE_SINGLE_REGISTER, MODBUS_HEADER_SIZE,
    WRITE_SINGLE_COIL_OFF, WRITE_SINGLE_COIL_ON,
};
use crate::telegram::{telegram_view, ModbusTelegram, TelegramModel};

verus! {

// ---------------------------------------------------------------------------
// Models
// ---------------------------------------------------------------------------

/// The message of a failed check, or `None` for a passed one.
pub open spec fn error_view<T>(r: Result<T, String>) -> Option<Seq<char>> {
    match r {
        Ok(_) => None,
        Err(e) => Some(e@),
    }
}

/// The outcome of a request builder: the telegram built, or the message.
pub open spec fn request_view(r: Result<ModbusTelegram, String>) -> Result<TelegramModel, Seq<char>> {
    match r {
        Ok(t) => Ok(t@),
        Err(e) => Err(e@),
    }
}

/// Whether the addressed range ends at or below 0xFFFF.
pub open spec fn address_range_ok(start: u16, quantity: u16) -> bool {
    start as int + quantity as int <= 0xFFFF
}

/// The failure of the address and quantity check of a function that accepts
/// 1 to `max` items: the range overflow first, then a quantity too low or
/// too high; `None` when both pass.
pub open spec fn quantity_fault(
    start: u16,
    quantity: u16,
    max: u16,
    overflow: Seq<char>,
    too_low: Seq<char>,
    too_high: Seq<char>,
) -> Option<Seq<char>> {
    if !address_range_ok(start, quantity) {
        Some(overflow)
    } else if quantity == 0 {
        Some(too_low)
    } else if quantity > max {
        Some(too_high)
    } else {
        None
    }
}

/// The check of Read Coils: 1 to 2000 coils.
pub open spec fn read_coils_fault(start: u16, quantity: u16) -> Option<Seq<char>> {
    quantity_fault(
        start,
        quantity,
        2000,
        "Error - range of starting_address and quantity_of_coils is over 65535."@,
        "Error at parameter quantity_of_coils - value too low, must be at least 1."@,
        "Error at parameter quantity_of_coils - value too high, must be lower or equal 2000."@,
    )
}

/// The check of Read Discrete Inputs: 1 to 2000 inputs.
pub open spec fn read_discrete_inputs_fault(start: u16, quantity: u16) -> Option<Seq<char>> {
    quantity_fault(
        start,
        quantity,
        2000,
        "Error - range of starting_address and quantity_of_inputs is over 65535."@,
        "Error at parameter quantity_of_inputs - value too low, must be at least 1."@,
        "Error at parameter quantity_of_inputs - value too high, must be lower or equal 2000."@,
    )
}

/// The check of Read Holding Registers: 1 to 125 registers.
pub open spec fn read_holding_registers_fault(start: u16, quantity: u16) -> Option<Seq<char>> {
    quantity_fault(
        start,
        quantity,
        125,
        "Error - range of starting_address and quantity_of_registers is over 65535."@,
        "Error at parameter quantity_of_registers - value too low, must be at least 1."@,
        "Error at parameter quantity_of_registers - value too high, must be lower or equal 125."@,
    )
}

/// The check of Read Input Registers: 1 to 125 registers.
pub open spec fn read_input_registers_fault(start: u16, quantity: u16) -> Option<Seq<char>> {
    quantity_fault(
        start,
        quantity,
        125,
        "Error - range of starting_address and quantity_of_input_registers is over 65535."@,
        "Error at parameter quantity_of_input_registers - value too low, must be at least 1."@,
        "Error at parameter quantity_of_input_registers - value too high, must be lower or equal 125."@,
    )
}

/// The check of Write Multiple Coils: 1 to 1968 coils.
pub open spec fn write_multiple_coils_fault(start: u16, quantity: u16) -> Option<Seq<char>> {
    quantity_fault(
        start,
        quantity,
        1968,
        "Error - range of starting_address and quantity_of_output_values is over 65535."@,
        "Error at parameter quantity_of_output_values - value too low, must be at least 1."@,
        "Error at parameter quantity_of_output_values - value too high, must be lower or equal 1968."@,
    )
}

/// The check of Write Multiple Registers: 1 to 123 registers.
pub open spec fn write_multiple_registers_fault(start: u16, quantity: u16) -> Option<Seq<char>> {
    quantity_fault(
        start,
        quantity,
        123,
        "Error - range of starting_address and quantity_of_registers is over 65535."@,
        "Error at parameter quantity_of_registers - value too low, must be at least 1."@,
        "Error at parameter quantity_of_registers - value too high, must be lower or equal 123."@,
    )
}

/// The check of Write Single Coil: the value must be 0x0000 or 0xFF00.
pub open spec fn write_single_coil_fault(output_value: u16) -> Option<Seq<char>> {
    if output_value == 0x0000 || output_value == 0xFF00 {
        None
    } else {
        Some(
            "Error at parameter output_value - valid values are only 0 [0x0000] or 65280 [0xFF00]."@,
        )
    }
}

/// The message of a request whose coil bytes do not fit the one-byte count.
pub open spec fn output_values_too_long() -> Seq<char> {
    "Error at parameter output_values - at most 255 bytes fit the byte count."@
}

/// The message of a telegram that could not be built.
pub open spec fn telegram_creation_failed() -> Seq<char> {
    "Error while creating telegram."@
}

/// Response length of a coil or discrete-input read: header, function code,
/// byte count and one byte per started group of eight bits.
pub open spec fn expected_bytes_read_bits(quantity: u16) -> int {
    MODBUS_HEADER_SIZE + 2 + (quantity as int + 7) / 8
}

/// Response length of a register read: header, function code, byte count and
/// two bytes per register.
pub open spec fn expected_bytes_read_registers(quantity: u16) -> int {
    MODBUS_HEADER_SIZE + 2 + 2 * quantity
}

/// Response length of every write: header, function code, address and
/// quantity or value.
pub open spec fn expected_bytes_write() -> int {
    MODBUS_HEADER_SIZE + 5
}

/// Payload of a request made of two words (address, then quantity or value).
pub open spec fn two_word_payload(first: u16, second: u16) -> Seq<u8> {
    word_to_bytes(first) + word_to_bytes(second)
}

/// Payload of a write-multiple-coils request.
pub open spec fn write_multiple_coils_payload(start: u16, quantity: u16, output_values: Seq<u8>) -> Seq<u8> {
    two_word_payload(start, quantity) + seq![output_values.len() as u8] + output_values
}

/// Payload of a write-multiple-registers request.
pub open spec fn write_multiple_registers_payload(start: u16, register_values: Seq<u16>) -> Seq<u8> {
    two_word_payload(start, register_values.len() as u16) + seq![(2 * register_values.len()) as u8]
        + words_to_bytes(register_values)
}

/// The outcome of building a telegram whose parameters passed their check.
pub open spec fn built_request(
    transaction_identifier: u16,
    unit_identifier: u8,
    function_code: u8,
    payload: Seq<u8>,
    expected_bytes: int,
) -> Result<TelegramModel, Seq<char>> {
    if transaction_identifier > 0 && function_code > 0 {
        Ok(
            TelegramModel {
                transaction_identifier,
                unit_identifier,
                function_code,
                payload,
                expected_bytes: expected_bytes as u16,
            },
        )
    } else {
        Err(telegram_creation_failed())
    }
}

/// The outcome of building a request: the check's message, or the telegram.
pub open spec fn checked_request(
    fault: Option<Seq<char>>,
    transaction_identifier: u16,
    unit_identifier: u8,
    function_code: u8,
    payload: Seq<u8>,
    expected_bytes: int,
) -> Result<TelegramModel, Seq<char>> {
    match fault {
        Some(e) => Err(e),
        None => built_request(
            transaction_identifier,
            unit_identifier,
            function_code,
            payload,
            expected_bytes,
        ),
    }
}

/// The outcome of building a Read Coils request.
pub open spec fn read_coils_request(
    transaction_identifier: u16,
    unit_identifier: u8,
    start: u16,
    quantity: u16,
) -> Result<TelegramModel, Seq<char>> {
    checked_request(
        read_coils_fault(start, quantity),
        transaction_identifier,
        unit_identifier,
        FUNCTION_CODE_READ_COILS,
        two_word_payload(start, quantity),
        expected_bytes_read_bits(quantity),
    )
}

/// The outcome of building a Read Discrete Inputs request.
pub open spec fn read_discrete_inputs_request(
    transaction_identifier: u16,
    unit_identifier: u8,
    start: u16,
    quantity: u16,
) -> Result<TelegramModel, Seq<char>> {
    checked_request(
        read_discrete_inputs_fault(start, quantity),
        transaction_identifier,
        unit_identifier,
        FUNCTION_CODE_READ_DISCRETE_INPUTS,
        two_word_payload(start, quantity),
        expected_bytes_read_bits(quantity),
    )
}

/// The outcome of building a Read Holding Registers request.
pub open spec fn read_holding_registers_request(
    transaction_identifier: u16,
    unit_identifier: u8,
    start: u16,
    quantity: u16,
) -> Result<TelegramModel, Seq<char>> {
    checked_request(
        read_holding_registers_fault(start, quantity),
        transaction_identifier,
        unit_identifier,
        FUNCTION_CODE_READ_HOLDING_REGISTERS,
        two_word_payload(start, quantity),
        expected_bytes_read_registers(quantity),
    )
}

/// The outcome of building a Read Input Registers request.
pub open spec fn read_input_registers_request(
    transaction_identifier: u16,
    unit_identifier: u8,
    start: u16,
    quantity: u16,
) -> Result<TelegramModel, Seq<char>> {
    checked_request(
        read_input_registers_fault(start, quantity),
        transaction_identifier,
        unit_identifier,
        FUNCTION_CODE_READ_INPUT_REGISTERS,
        two_word_payload(start, quantity),
        expected_bytes_read_registers(quantity),
    )
}

/// The outcome of building a Write Single Coil request.
pub open spec fn write_single_coil_request(
    transaction_identifier: u16,
    unit_identifier: u8,
    address: u16,
    value: u16,
) -> Result<TelegramModel, Seq<char>> {
    checked_request(
        write_single_coil_fault(value),
        transaction_identifier,
        unit_identifier,
        FUNCTION_CODE_WRITE_SINGLE_COIL,
        two_word_payload(address, value),
        expected_bytes_write(),
    )
}

/// The outcome of building a Write Single Register request; every
/// address and value passes its check.
pub open spec fn write_single_register_request(
    transaction_identifier: u16,
    unit_identifier: u8,
    address: u16,
    value: u16,
) -> Result<TelegramModel, Seq<char>> {
    built_request(
        transaction_identifier,
        unit_identifier,
        FUNCTION_CODE_WRITE_SINGLE_REGISTER,
        two_word_payload(address, value),
        expected_bytes_write(),
    )
}

/// The outcome of building a Write Multiple Coils request; more than 255
/// coil bytes are refused after the parameter check.
pub open spec fn write_multiple_coils_request(
    transaction_identifier: u16,
    unit_identifier: u8,
    start: u16,
    quantity: u16,
    output_values: Seq<u8>,
) -> Result<TelegramModel, Seq<char>> {
    match write_multiple_coils_fault(start, quantity) {
        Some(e) => Err(e),
        None => if output_values.len() > 255 {
            Err(output_values_too_long())
        } else {
            built_request(
                transaction_identifier,
                unit_identifier,
                FUNCTION_CODE_WRITE_MULTIPLE_COILS,
                write_multiple_coils_payload(start, quantity, output_values),
                expected_bytes_write(),
            )
        },
    }
}

/// The quantity of a register list: its length, held at 0xFFFF.
pub open spec fn register_quantity(register_values: Seq<u16>) -> u16 {
    if register_values.len() > 0xFFFF {
        0xFFFF
    } else {
        register_values.len() as u16
    }
}

/// The outcome of building a Write Multiple Registers request.
pub open spec fn write_multiple_registers_request(
    transaction_identifier: u16,
    unit_identifier: u8,
    start: u16,
    register_values: Seq<u16>,
) -> Result<TelegramModel, Seq<char>> {
    checked_request(
        write_multiple_registers_fault(start, register_quantity(register_values)),
        transaction_identifier,
        unit_identifier,
        FUNCTION_CODE_WRITE_MULTIPLE_REGISTERS,
        write_multiple_registers_payload(start, register_values),
        expected_bytes_write(),
    )
}

// ---------------------------------------------------------------------------
// Parameter checks
// ---------------------------------------------------------------------------

/// Whether `start + quantity` stays within 0xFFFF.
pub fn is_start_and_quantity_ok(start: u16, quantity: u16) -> (r: bool)
    ensures
        r == address_range_ok(start, quantity),
{
    (start as u32 + quantity as u32) <= 0x0000FFFF
}

/// Whether `min_value <= value <= max_value`.
pub fn is_value_in_range(value: u16, min_value: u16, max_value: u16) -> (r: bool)
    ensures
        r == (min_value <= value <= max_value),
{
    value >= min_value && value <= max_value
}

/// The address and quantity check shared by the functions that accept 1 to
/// `max_quantity` items.
fn verify_start_and_quantity(
    starting_address: u16,
    quantity: u16,
    max_quantity: u16,
    overflow: &str,
    too_low: &str,
    too_high: &str,
) -> (r: Result<bool, String>)
    ensures
        r matches Ok(b) ==> b,
        error_view(r) == quantity_fault(
            starting_address,
            quantity,
            max_quantity,
            overflow@,
            too_low@,
            too_high@,
        ),
{
    if !is_start_and_quantity_ok(starting_address, quantity) {
        Err(overflow.to_owned())
    } else if is_value_in_range(quantity, 1, max_quantity) {
        Ok(true)
    } else if quantity == 0 {
        Err(too_low.to_owned())
    } else {
        Err(too_high.to_owned())
    }
}

/// Read Coils accepts 1 to 2000 coils within the address space.
pub fn verify_parameter_read_coils(starting_address: u16, quantity_of_coils: u16) -> (r: Result<
    bool,
    String,
>)
    ensures
        r matches Ok(b) ==> b,
        error_view(r) == read_coils_fault(starting_address, quantity_of_coils),
{
    verify_start_and_quantity(
        starting_address,
        quantity_of_coils,
        2000,
        "Error - range of starting_address and quantity_of_coils is over 65535.",
        "Error at parameter quantity_of_coils - value too low, must be at least 1.",
        "Error at parameter quantity_of_coils - value too high, must be lower or equal 2000.",
    )
}

/// Read Discrete Inputs accepts 1 to 2000 inputs within the address space.
pub fn verify_parameter_read_discrete_inputs(starting_address: u16, quantity_of_inputs: u16) -> (r:
    Result<bool, String>)
    ensures
        r matches Ok(b) ==> b,
        error_view(r) == read_discrete_inputs_fault(starting_address, quantity_of_inputs),
{
    verify_start_and_quantity(
        starting_address,
        quantity_of_inputs,
        2000,
        "Error - range of starting_address and quantity_of_inputs is over 65535.",
        "Error at parameter quantity_of_inputs - value too low, must be at least 1.",
        "Error at parameter quantity_of_inputs - value too high, must be lower or equal 2000.",
    )
}

/// Read Holding Registers accepts 1 to 125 registers within the address space.
pub fn verify_parameter_read_holding_registers(starting_address: u16, quantity_of_registers: u16) -> (r:
    Result<bool, String>)
    ensures
        r matches Ok(b) ==> b,
        error_view(r) == read_holding_registers_fault(starting_address, quantity_of_registers),
{
    verify_start_and_quantity(
        starting_address,
        quantity_of_registers,
        125,
        "Error - range of starting_address and quantity_of_registers is over 65535.",
        "Error at parameter quantity_of_registers - value too low, must be at least 1.",
        "Error at parameter quantity_of_registers - value too high, must be lower or equal 125.",
    )
}

/// Read Input Registers accepts 1 to 125 registers within the address space.
pub fn verify_parameter_read_input_registers(
    starting_address: u16,
    quantity_of_input_registers: u16,
) -> (r: Result<bool, String>)
    ensures
        r matches Ok(b) ==> b,
        error_view(r) == read_input_registers_fault(starting_address, quantity_of_input_registers),
{
    verify_start_and_quantity(
        starting_address,
        quantity_of_input_registers,
        125,
        "Error - range of starting_address and quantity_of_input_registers is over 65535.",
        "Error at parameter quantity_of_input_registers - value too low, must be at least 1.",
        "Error at parameter quantity_of_input_registers - value too high, must be lower or equal 125.",
    )
}

/// Write Multiple Coils accepts 1 to 1968 coils within the address space.
pub fn verify_parameter_write_multiple_coils(
    starting_address: u16,
    quantity_of_output_values: u16,
) -> (r: Result<bool, String>)
    ensures
        r matches Ok(b) ==> b,
        error_view(r) == write_multiple_coils_fault(starting_address, quantity_of_output_values),
{
    verify_start_and_quantity(
        starting_address,
        quantity_of_output_values,
        1968,
        "Error - range of starting_address and quantity_of_output_values is over 65535.",
        "Error at parameter quantity_of_output_values - value too low, must be at least 1.",
        "Error at parameter quantity_of_output_values - value too high, must be lower or equal 1968.",
    )
}

/// Write Multiple Registers accepts 1 to 123 registers within the address space.
pub fn verify_parameter_write_multiple_registers(
    starting_address: u16,
    quantity_of_registers: u16,
) -> (r: Result<bool, String>)
    ensures
        r matches Ok(b) ==> b,
        error_view(r) == write_multiple_registers_fault(starting_address, quantity_of_registers),
{
    verify_start_and_quantity(
        starting_address,
        quantity_of_registers,
        123,
        "Error - range of starting_address and quantity_of_registers is over 65535.",
        "Error at parameter quantity_of_registers - value too low, must be at least 1.",
        "Error at parameter quantity_of_registers - value too high, must be lower or equal 123.",
    )
}

/// Write Single Coil accepts only the values 0x0000 (off) and 0xFF00 (on).
pub fn verify_parameter_write_single_coil(output_value: u16) -> (r: Result<bool, String>)
    ensures
        r matches Ok(b) ==> b,
        error_view(r) == write_single_coil_fault(output_value),
{
    if output_value == WRITE_SINGLE_COIL_OFF || output_value == WRITE_SINGLE_COIL_ON {
        Ok(true)
    } else {
        Err(
            "Error at parameter output_value - valid values are only 0 [0x0000] or 65280 [0xFF00].".to_owned(),
        )
    }
}

/// Write Single Register accepts every address and value.
pub fn verify_parameter_write_single_register() -> (r: Result<bool, String>)
    ensures
        r == Ok::<bool, String>(true),
{
    Ok(true)
}

// ---------------------------------------------------------------------------
// Expected response lengths
// ---------------------------------------------------------------------------

/// Response length of a Read Coils request.
pub fn get_expected_byte_count_read_coils(quantity_of_coils: u16) -> (r: u16)
    ensures
        r == expected_bytes_read_bits(quantity_of_coils),
{
    let mut reply: u16 = MODBUS_HEADER_SIZE + 2;
    if quantity_of_coils % 8 > 0 {
        reply = reply + quantity_of_coils / 8 + 1;
    } else {
        reply = reply + quantity_of_coils / 8;
    }
    reply
}

/// Response length of a Read Discrete Inputs request.
pub fn get_expected_byte_count_read_discrete_inputs(quantity_of_inputs: u16) -> (r: u16)
    ensures
        r == expected_bytes_read_bits(quantity_of_inputs),
{
    get_expected_byte_count_read_coils(quantity_of_inputs)
}

/// Response length of a Read Holding Registers request.
pub fn get_expected_byte_count_read_holding_registers(quantity_of_registers: u16) -> (r: u16)
    requires
        expected_bytes_read_registers(quantity_of_registers) <= u16::MAX,
    ensures
        r == expected_bytes_read_registers(quantity_of_registers),
{
    MODBUS_HEADER_SIZE + 2 * quantity_of_registers + 2
}

/// Response length of a Read Input Registers request.
pub fn get_expected_byte_count_read_input_registers(quantity_of_input_registers: u16) -> (r: u16)
    requires
        expected_bytes_read_registers(quantity_of_input_registers) <= u16::MAX,
    ensures
        r == expected_bytes_read_registers(quantity_of_input_registers),
{
    get_expected_byte_count_read_holding_registers(quantity_of_input_registers)
}

/// Response length of a Write Multiple Coils request.
pub fn get_expected_byte_count_write_multiple_coils() -> (r: u16)
    ensures
        r == expected_bytes_write(),
{
    MODBUS_HEADER_SIZE + 5
}

/// Response length of a Write Multiple Registers request.
pub fn get_expected_byte_count_write_multiple_registers() -> (r: u16)
    ensures
        r == expected_bytes_write(),
{
    MODBUS_HEADER_SIZE + 5
}

/// Response length of a Write Single Coil request.
pub fn get_expected_byte_count_write_single_coil() -> (r: u16)
    ensures
        r == expected_bytes_write(),
{
    MODBUS_HEADER_SIZE + 5
}

/// Response length of a Write Single Register request.
pub fn get_expected_byte_count_write_single_register() -> (r: u16)
    ensures
        r == expected_bytes_write(),
{
    MODBUS_HEADER_SIZE + 5
}

// ---------------------------------------------------------------------------
// Payloads
// ---------------------------------------------------------------------------

/// Two big-endian words, the address first.
fn prepare_two_word_payload(first: u16, second: u16) -> (r: Vec<u8>)
    ensures
        r@ == two_word_payload(first, second),
{
    let mut reply: Vec<u8> = Vec::new();
    append_word_to_bytearray(&mut reply, first);
    append_word_to_bytearray(&mut reply, second);
    assert(reply@ =~= two_word_payload(first, second));
    reply
}

/// Payload of a Read Coils request: address, then quantity.
pub fn prepare_payload_read_coils(starting_address: u16, quantity_of_coils: u16) -> (r: Vec<u8>)
    ensures
        r@ == two_word_payload(starting_address, quantity_of_coils),
{
    prepare_two_word_payload(starting_address, quantity_of_coils)
}

/// Payload of a Read Discrete Inputs request: address, then quantity.
pub fn prepare_payload_read_discrete_inputs(starting_address: u16, quantity_of_inputs: u16) -> (r:
    Vec<u8>)
    ensures
        r@ == two_word_payload(starting_address, quantity_of_inputs),
{
    prepare_two_word_payload(starting_address, quantity_of_inputs)
}

/// Payload of a Read Holding Registers request: address, then quantity.
pub fn prepare_payload_read_holding_registers(starting_address: u16, quantity_of_registers: u16) -> (r:
    Vec<u8>)
    ensures
        r@ == two_word_payload(starting_address, quantity_of_registers),
{
    prepare_two_word_payload(starting_address, quantity_of_registers)
}

/// Payload of a Read Input Registers request: address, then quantity.
pub fn prepare_payload_read_input_registers(
    starting_address: u16,
    quantity_of_input_registers: u16,
) -> (r: Vec<u8>)
    ensures
        r@ == two_word_payload(starting_address, quantity_of_input_registers),
{
    prepare_two_word_payload(starting_address, quantity_of_input_registers)
}

/// Payload of a Write Single Coil request: address, then value.
pub fn prepare_payload_write_single_coil(output_address: u16, output_value: u16) -> (r: Vec<u8>)
    ensures
        r@ == two_word_payload(output_address, output_value),
{
    prepare_two_word_payload(output_address, output_value)
}

/// Payload of a Write Single Register request: address, then value.
pub fn prepare_payload_write_single_register(register_address: u16, register_value: u16) -> (r:
    Vec<u8>)
    ensures
        r@ == two_word_payload(register_address, register_value),
{
    prepare_two_word_payload(register_address, register_value)
}

/// Address, quantity, the byte count and the packed coil bytes.
pub fn prepare_payload_write_multiple_coils(
    starting_address: u16,
    quantity_of_outputs: u16,
    output_values: &Vec<u8>,
) -> (r: Vec<u8>)
    requires
        output_values@.len() <= 255,
    ensures
        r@ == write_multiple_coils_payload(starting_address, quantity_of_outputs, output_values@),
{
    let mut reply = prepare_two_word_payload(starting_address, quantity_of_outputs);
    append_byte_to_bytearray(&mut reply, output_values.len() as u8);
    append_bytearray_to_bytearray(&mut reply, output_values);
    reply
}

/// Address, register count, byte count and the registers as big-endian words.
pub fn prepare_payload_write_multiple_registers(starting_address: u16, register_values: &Vec<u16>) -> (r:
    Vec<u8>)
    requires
        register_values@.len() <= 127,
    ensures
        r@ == write_multiple_registers_payload(starting_address, register_values@),
{
    let mut reply = prepare_two_word_payload(starting_address, register_values.len() as u16);
    let register_values_bytes = transform_words_to_bytes(register_values);
    append_byte_to_bytearray(&mut reply, register_values_bytes.len() as u8);
    append_bytearray_to_bytearray(&mut reply, &register_values_bytes);
    reply
}

// ---------------------------------------------------------------------------
// Requests
// ---------------------------------------------------------------------------

/// The telegram, or the message of a telegram that could not be built.
pub fn pack_telegram(telegram: Option<ModbusTelegram>) -> (r: Result<ModbusTelegram, String>)
    ensures
        request_view(r) == match telegram_view(telegram) {
            Some(t) => Ok(t),
            None => Err(telegram_creation_failed()),
        },
{
    match telegram {
        Some(t) => Ok(t),
        None => Err("Error while creating telegram.".to_owned()),
    }
}

/// Builds a telegram whose parameters passed their check.
fn build_request(
    transaction_identifier: u16,
    unit_identifier: u8,
    function_code: u8,
    payload: &Vec<u8>,
    expected_bytes: u16,
) -> (r: Result<ModbusTelegram, String>)
    ensures
        request_view(r) == built_request(
            transaction_identifier,
            unit_identifier,
            function_code,
            payload@,
            expected_bytes as int,
        ),
{
    pack_telegram(
        ModbusTelegram::new(
            transaction_identifier,
            unit_identifier,
            function_code,
            payload,
            expected_bytes,
        ),
    )
}

/// Function code 1: reads 1 to 2000 contiguous coils.
pub fn create_request_read_coils(
    transaction_identifier: u16,
    unit_identifier: u8,
    starting_address: u16,
    quantity_of_coils: u16,
) -> (r: Result<ModbusTelegram, String>)
    ensures
        request_view(r) == read_coils_request(
            transaction_identifier,
            unit_identifier,
            starting_address,
            quantity_of_coils,
        ),
{
    match verify_parameter_read_coils(starting_address, quantity_of_coils) {
        Ok(_) => {
            let payload = prepare_payload_read_coils(starting_address, quantity_of_coils);
            build_request(
                transaction_identifier,
                unit_identifier,
                FUNCTION_CODE_READ_COILS,
                &payload,
                get_expected_byte_count_read_coils(quantity_of_coils),
            )
        },
        Err(e) => Err(e),
    }
}

/// Function code 2: reads 1 to 2000 contiguous discrete inputs.
pub fn create_request_read_discrete_inputs(
    transaction_identifier: u16,
    unit_identifier: u8,
    starting_address: u16,
    quantity_of_inputs: u16,
) -> (r: Result<ModbusTelegram, String>)
    ensures
        request_view(r) == read_discrete_inputs_request(
            transaction_identifier,
            unit_identifier,
            starting_address,
            quantity_of_inputs,
        ),
{
    match verify_parameter_read_discrete_inputs(starting_address, quantity_of_inputs) {
        Ok(_) => {
            let payload = prepare_payload_read_discrete_inputs(starting_address, quantity_of_inputs);
            build_request(
                transaction_identifier,
                unit_identifier,
                FUNCTION_CODE_READ_DISCRETE_INPUTS,
                &payload,
                get_expected_byte_count_read_discrete_inputs(quantity_of_inputs),
            )
        },
        Err(e) => Err(e),
    }
}

/// Function code 3: reads 1 to 125 contiguous holding registers.
pub fn create_request_read_holding_registers(
    transaction_identifier: u16,
    unit_identifier: u8,
    starting_address: u16,
    quantity_of_registers: u16,
) -> (r: Result<ModbusTelegram, String>)
    ensures
        request_view(r) == read_holding_registers_request(
            transaction_identifier,
            unit_identifier,
            starting_address,
            quantity_of_registers,
        ),
{
    match verify_parameter_read_holding_registers(starting_address, quantity_of_registers) {
        Ok(_) => {
            let payload = prepare_payload_read_holding_registers(
                starting_address,
                quantity_of_registers,
            );
            build_request(
                transaction_identifier,
                unit_identifier,
                FUNCTION_CODE_READ_HOLDING_REGISTERS,
                &payload,
                get_expected_byte_count_read_holding_registers(quantity_of_registers),
            )
        },
        Err(e) => Err(e),
    }
}

/// Function code 4: reads 1 to 125 contiguous input registers.
pub fn create_request_read_input_registers(
    transaction_identifier: u16,
    unit_identifier: u8,
    starting_address: u16,
    quantity_of_input_registers: u16,
) -> (r: Result<ModbusTelegram, String>)
    ensures
        request_view(r) == read_input_registers_request(
            transaction_identifier,
            unit_identifier,
            starting_address,
            quantity_of_input_registers,
        ),
{
    match verify_parameter_read_input_registers(starting_address, quantity_of_input_registers) {
        Ok(_) => {
            let payload = prepare_payload_read_input_registers(
                starting_address,
                quantity_of_input_registers,
            );
            build_request(
                transaction_identifier,
                unit_identifier,
                FUNCTION_CODE_READ_INPUT_REGISTERS,
                &payload,
                get_expected_byte_count_read_input_registers(quantity_of_input_registers),
            )
        },
        Err(e) => Err(e),
    }
}

/// Function code 5: switches one coil on (0xFF00) or off (0x0000).
pub fn create_request_write_single_coil(
    transaction_identifier: u16,
    unit_identifier: u8,
    output_address: u16,
    output_value: u16,
) -> (r: Result<ModbusTelegram, String>)
    ensures
        request_view(r) == write_single_coil_request(
            transaction_identifier,
            unit_identifier,
            output_address,
            output_value,
        ),
{
    match verify_parameter_write_single_coil(output_value) {
        Ok(_) => {
            let payload = prepare_payload_write_single_coil(output_address, output_value);
            build_request(
                transaction_identifier,
                unit_identifier,
                FUNCTION_CODE_WRITE_SINGLE_COIL,
                &payload,
                get_expected_byte_count_write_single_coil(),
            )
        },
        Err(e) => Err(e),
    }
}

/// Function code 6: writes one holding register.
pub fn create_request_write_single_register(
    transaction_identifier: u16,
    unit_identifier: u8,
    register_address: u16,
    register_value: u16,
) -> (r: Result<ModbusTelegram, String>)
    ensures
        request_view(r) == write_single_register_request(
            transaction_identifier,
            unit_identifier,
            register_address,
            register_value,
        ),
{
    match verify_parameter_write_single_register() {
        Ok(_) => {
            let payload = prepare_payload_write_single_register(register_address, register_value);
            build_request(
                transaction_identifier,
                unit_identifier,
                FUNCTION_CODE_WRITE_SINGLE_REGISTER,
                &payload,
                get_expected_byte_count_write_single_register(),
            )
        },
        Err(e) => Err(e),
    }
}

/// Function code 15: forces 1 to 1968 coils from bit-packed bytes.
pub fn create_request_write_multiple_coils(
    transaction_identifier: u16,
    unit_identifier: u8,
    starting_address: u16,
    quantity_of_outputs: u16,
    output_values: Vec<u8>,
) -> (r: Result<ModbusTelegram, String>)
    ensures
        request_view(r) == write_multiple_coils_request(
            transaction_identifier,
            unit_identifier,
            starting_address,
            quantity_of_outputs,
            output_values@,
        ),
{
    match verify_parameter_write_multiple_coils(starting_address, quantity_of_outputs) {
        Ok(_) => {
            if output_values.len() > 255 {
                return Err(
                    "Error at parameter output_values - at most 255 bytes fit the byte count.".to_owned(),
                );
            }
            let payload = prepare_payload_write_multiple_coils(
                starting_address,
                quantity_of_outputs,
                &output_values,
            );
            build_request(
                transaction_identifier,
                unit_identifier,
                FUNCTION_CODE_WRITE_MULTIPLE_COILS,
                &payload,
                get_expected_byte_count_write_multiple_coils(),
            )
        },
        Err(e) => Err(e),
    }
}

/// Function code 16: writes 1 to 123 contiguous registers.
pub fn create_request_write_multiple_registers(
    transaction_identifier: u16,
    unit_identifier: u8,
    starting_address: u16,
    register_values: Vec<u16>,
) -> (r: Result<ModbusTelegram, String>)
    ensures
        request_view(r) == write_multiple_registers_request(
            transaction_identifier,
            unit_identifier,
            starting_address,
            register_values@,
        ),
{
    let quantity_of_registers: u16 = if register_values.len() > 0xFFFF {
        0xFFFF
    } else {
        register_values.len() as u16
    };
    match verify_parameter_write_multiple_registers(starting_address, quantity_of_registers) {
        Ok(_) => {
            let payload = prepare_payload_write_multiple_registers(
                starting_address,
                &register_values,
            );
            build_request(
                transaction_identifier,
                unit_identifier,
                FUNCTION_CODE_WRITE_MULTIPLE_REGISTERS,
                &payload,
                get_expected_byte_count_write_multiple_registers(),
            )
        },
        Err(e) => Err(e),
    }
}

} // verus!
