//! The MBAP-framed telegram: construction, encoding and decoding.

use vstd::prelude::*;

use crate::codec::{
    append_byte_to_bytearray, append_bytearray_to_bytearray, append_word_to_bytearray,
    bytes_to_word, bytes_view, extract_byte_from_bytearray, extract_slice,
    extract_word_from_bytearray, word_to_bytes,
};
use crate::consts::{
    MODBUS_FUNCTION_CODE_LENGTH, MODBUS_HEADER_SIZE, MODBUS_PROTOCOL_IDENTIFIER_TCP,
    MODBUS_UNIT_IDENTIFIER_LENGTH,
};

verus! {

/// What a telegram holds.
pub struct TelegramModel {
    pub transaction_identifier: u16,
    pub unit_identifier: u8,
    pub function_code: u8,
    pub payload: Seq<u8>,
    pub expected_bytes: u16,
}

/// One MODBUS/TCP application data unit.
pub struct ModbusTelegram {
    transaction_identifier: u16,
    unit_identifier: u8,
    function_code: u8,
    payload: Vec<u8>,
    expected_bytes: u16,
}

impl View for ModbusTelegram {
    type V = TelegramModel;

    closed spec fn view(&self) -> TelegramModel {
        TelegramModel {
            transaction_identifier: self.transaction_identifier,
            unit_identifier: self.unit_identifier,
            function_code: self.function_code,
            payload: self.payload@,
            expected_bytes: self.expected_bytes,
        }
    }
}

/// The view of an optional telegram.
pub open spec fn telegram_view(t: Option<ModbusTelegram>) -> Option<TelegramModel> {
    match t {
        Some(x) => Some(x@),
        None => None,
    }
}

/// Function codes of the four read functions, whose responses carry a byte count.
pub open spec fn is_read_function_code(function_code: u8) -> bool {
    1 <= function_code <= 4
}

/// Function codes of the four write functions, whose responses carry none.
pub open spec fn is_write_function_code(function_code: u8) -> bool {
    function_code == 5 || function_code == 6 || function_code == 0x0F || function_code == 0x10
}

/// The payload of a read response: the byte count at offset 8 and that many
/// bytes after it.
pub open spec fn payload_with_byte_count(bytes: Seq<u8>) -> Option<Seq<u8>> {
    if bytes.len() > 8 && 9 + bytes[8] <= bytes.len() {
        Some(bytes.subrange(8, 9 + bytes[8]))
    } else {
        None
    }
}

/// The payload of a write response: everything after the function code.
pub open spec fn payload_without_byte_count(bytes: Seq<u8>) -> Option<Seq<u8>> {
    if bytes.len() > 8 {
        Some(bytes.subrange(8, bytes.len() as int))
    } else {
        None
    }
}

/// The payload of a received frame, framed as its function code asks.
pub open spec fn payload_by_function_code(function_code: u8, bytes: Seq<u8>) -> Option<Seq<u8>> {
    if is_read_function_code(function_code) {
        payload_with_byte_count(bytes)
    } else if is_write_function_code(function_code) {
        payload_without_byte_count(bytes)
    } else {
        None
    }
}

/// The telegram that received bytes decode to.
pub open spec fn decode_telegram(bytes: Seq<u8>) -> Option<TelegramModel> {
    if bytes.len() <= 9 {
        None
    } else {
        match payload_by_function_code(bytes[7], bytes) {
            Some(payload) => Some(
                TelegramModel {
                    transaction_identifier: bytes_to_word(bytes[0], bytes[1]),
                    unit_identifier: bytes[6],
                    function_code: bytes[7],
                    payload,
                    expected_bytes: 0,
                },
            ),
            None => None,
        }
    }
}

/// The wire bytes of a telegram: transaction id, protocol id 0, the count
/// of the bytes that follow, unit id, function code and payload.
pub open spec fn encode_telegram(t: TelegramModel) -> Seq<u8> {
    word_to_bytes(t.transaction_identifier) + word_to_bytes(0) + word_to_bytes(
        (t.payload.len() + 2) as u16,
    ) + seq![t.unit_identifier, t.function_code] + t.payload
}

/// Whether a telegram can be encoded: its length field must hold the payload
/// length plus two.
pub open spec fn is_encodable(t: TelegramModel) -> bool {
    t.payload.len() + 2 <= 0xFFFF
}

impl ModbusTelegram {
    /// A telegram for sending; `None` when the transaction identifier or the
    /// function code is zero.
    pub fn new(
        transaction_identifier: u16,
        unit_identifier: u8,
        function_code: u8,
        payload: &Vec<u8>,
        expected_bytes: u16,
    ) -> (r: Option<ModbusTelegram>)
        ensures
            telegram_view(r) == (if transaction_identifier > 0 && function_code > 0 {
                Some(
                    TelegramModel {
                        transaction_identifier,
                        unit_identifier,
                        function_code,
                        payload: payload@,
                        expected_bytes,
                    },
                )
            } else {
                None::<TelegramModel>
            }),
    {
        if transaction_identifier > 0 && function_code > 0 {
            let mut copy: Vec<u8> = Vec::new();
            append_bytearray_to_bytearray(&mut copy, payload);
            assert(copy@ =~= payload@);
            Some(
                ModbusTelegram {
                    transaction_identifier,
                    unit_identifier,
                    function_code,
                    payload: copy,
                    expected_bytes,
                },
            )
        } else {
            None
        }
    }

    /// Decodes received bytes; `None` when there are at most nine of them, the
    /// function code is not supported, or the payload is cut short.
    pub fn new_from_bytes(bytes: &Vec<u8>) -> (r: Option<ModbusTelegram>)
        ensures
            telegram_view(r) == decode_telegram(bytes@),
    {
        if bytes.len() <= 9 {
            return None;
        }
        let transaction_identifier = extract_word_from_bytearray(bytes, 0);
        let unit_identifier = extract_byte_from_bytearray(bytes, 6);
        let function_code = extract_byte_from_bytearray(bytes, 7);
        match (transaction_identifier, unit_identifier, function_code) {
            (Some(transaction_identifier), Some(unit_identifier), Some(function_code)) => {
                match extract_payload_by_function_code(function_code, bytes) {
                    Some(payload) => Some(
                        ModbusTelegram {
                            transaction_identifier,
                            unit_identifier,
                            function_code,
                            payload,
                            expected_bytes: 0,
                        },
                    ),
                    None => None,
                }
            },
            _ => None,
        }
    }

    /// The wire bytes; `None` when the payload is too long for the length field.
    pub fn get_bytes(&self) -> (r: Option<Vec<u8>>)
        ensures
            bytes_view(r) == (if is_encodable(self@) {
                Some(encode_telegram(self@))
            } else {
                None::<Seq<u8>>
            }),
    {
        if self.payload.len() > 0xFFFF - 2 {
            return None;
        }
        let length_for_header: u16 = self.payload.len() as u16 + MODBUS_UNIT_IDENTIFIER_LENGTH
            + MODBUS_FUNCTION_CODE_LENGTH;
        let mut reply: Vec<u8> = Vec::new();
        append_word_to_bytearray(&mut reply, self.transaction_identifier);
        append_word_to_bytearray(&mut reply, MODBUS_PROTOCOL_IDENTIFIER_TCP);
        append_word_to_bytearray(&mut reply, length_for_header);
        append_byte_to_bytearray(&mut reply, self.unit_identifier);
        append_byte_to_bytearray(&mut reply, self.function_code);
        append_bytearray_to_bytearray(&mut reply, &self.payload);
        assert(reply@ =~= encode_telegram(self@));
        Some(reply)
    }

    /// The number of response bytes expected, when it exceeds the header size.
    pub fn get_expected_byte_count(&self) -> (r: Option<u16>)
        ensures
            r == (if self@.expected_bytes > MODBUS_HEADER_SIZE {
                Some(self@.expected_bytes)
            } else {
                None::<u16>
            }),
    {
        if self.expected_bytes > MODBUS_HEADER_SIZE {
            Some(self.expected_bytes)
        } else {
            None
        }
    }

    /// The function code, when it is not zero.
    pub fn get_function_code(&self) -> (r: Option<u8>)
        ensures
            r == (if self@.function_code > 0 {
                Some(self@.function_code)
            } else {
                None::<u8>
            }),
    {
        if self.function_code > 0 {
            Some(self.function_code)
        } else {
            None
        }
    }

    /// A copy of the payload.
    pub fn get_payload(&self) -> (r: Option<Vec<u8>>)
        ensures
            bytes_view(r) == Some(self@.payload),
    {
        let mut copy: Vec<u8> = Vec::new();
        append_bytearray_to_bytearray(&mut copy, &self.payload);
        assert(copy@ =~= self@.payload);
        Some(copy)
    }
}

/// The payload of a read response: the byte count at offset 8 and that many
/// bytes after it.
pub fn extract_payload_with_byte_count(bytes: &Vec<u8>) -> (r: Option<Vec<u8>>)
    ensures
        bytes_view(r) == payload_with_byte_count(bytes@),
{
    match extract_byte_from_bytearray(bytes, 8) {
        Some(byte_count) => extract_slice(bytes, 8, byte_count as usize + 1),
        None => None,
    }
}

/// The payload of a write response: every byte after the function code.
pub fn extract_payload_without_byte_count(bytes: &Vec<u8>) -> (r: Option<Vec<u8>>)
    ensures
        bytes_view(r) == payload_without_byte_count(bytes@),
{
    if bytes.len() <= 8 {
        return None;
    }
    extract_slice(bytes, 8, bytes.len() - 8)
}

/// The payload of a received frame, framed as its function code asks; `None`
/// for an unsupported function code.
pub fn extract_payload_by_function_code(function_code: u8, bytes: &Vec<u8>) -> (r: Option<Vec<u8>>)
    ensures
        bytes_view(r) == payload_by_function_code(function_code, bytes@),
{
    match function_code {
        0x01 | 0x02 | 0x03 | 0x04 => extract_payload_with_byte_count(bytes),
        0x05 | 0x06 | 0x0F | 0x10 => extract_payload_without_byte_count(bytes),
        _ => None,
    }
}

/// Whether both telegrams carry a function code and the two are equal.
pub fn verify_function_code(request_telegram: &ModbusTelegram, response_telegram: &ModbusTelegram) -> (r:
    bool)
    ensures
        r == (request_telegram@.function_code > 0 && request_telegram@.function_code
            == response_telegram@.function_code),
{
    match (request_telegram.get_function_code(), response_telegram.get_function_code()) {
        (Some(request_code), Some(response_code)) => request_code == response_code,
        _ => false,
    }
}

} // verus!
