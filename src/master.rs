//! The transaction engine: it owns the stream and the transaction counter,
//! and runs one request/response exchange per call.
//!
//! The engine exclusively owns at most one stream and serves one request at
//! a time; calls on one engine must not overlap.

use vstd::prelude::*;

use crate::access::{coil_of, CoilValue};
use crate::consts::MODBUS_TRANSACTION_ID_INITIALIZER;
use crate::ethernet::EthernetMaster;
use crate::outcome::{
    bad_with_codes, bad_with_message, ModbusReturnCoils, ModbusReturnRegisters, OutcomeModel,
    ReturnBad, ReturnGood,
};
use crate::request::{
    create_request_read_coils, create_request_read_discrete_inputs,
    create_request_read_holding_registers, create_request_read_input_registers,
    create_request_write_multiple_coils, create_request_write_multiple_registers,
    create_request_write_single_coil, create_request_write_single_register, read_coils_request,
    read_discrete_inputs_request, read_holding_registers_request, read_input_registers_request,
    request_view, write_multiple_coils_request,
    write_multiple_registers_request, write_single_coil_request, write_single_register_request,
};
use crate::response::{
    coil_response_data, parse_coil_response, parse_register_response, register_response_data,
};
use crate::telegram::{
    decode_telegram, is_encodable, telegram_view, verify_function_code, ModbusTelegram,
    TelegramModel,
};
use crate::timing::Timestamp;

verus! {

/// A byte stream to a MODBUS server.
pub trait ModbusStream {
    /// Writes all of `bytes`; `false` when the write failed.
    fn write_bytes(&mut self, bytes: &Vec<u8>) -> bool;

    /// One read of at most `count` bytes; `None` when the read failed.
    fn read_bytes(&mut self, count: usize) -> Option<Vec<u8>>;
}

// ---------------------------------------------------------------------------
// Models
// ---------------------------------------------------------------------------

/// The transaction identifier after `id`: one more, and 1 after 0xFFFF.
pub open spec fn next_transaction_id(id: u16) -> u16 {
    if id == 0xFFFF {
        MODBUS_TRANSACTION_ID_INITIALIZER
    } else {
        (id + 1) as u16
    }
}

/// Whether a response is absent or the decoding of some received bytes.
pub open spec fn is_received(response: Option<TelegramModel>) -> bool {
    response matches Some(t) ==> exists|bytes: Seq<u8>| decode_telegram(bytes) == Some(t)
}

/// The diagnostic when no response telegram was obtained.
pub open spec fn no_response_message() -> Seq<char> {
    "created modbus telegram is invalid"@
}

/// The diagnostic when the response held no usable data.
pub open spec fn invalid_data_message() -> Seq<char> {
    "modbus response data is invalid"@
}

/// The outcome of parsed response data: success when there is any.
pub open spec fn data_outcome<T>(data: Seq<T>) -> OutcomeModel<T> {
    if data.len() > 0 {
        OutcomeModel::Good(data)
    } else {
        OutcomeModel::Bad(bad_with_message(invalid_data_message()))
    }
}

/// The outcome of a request answered by `response`, whose payload `parsed`
/// gives the data of.
pub open spec fn response_outcome<T>(
    request: TelegramModel,
    response: Option<TelegramModel>,
    parsed: spec_fn(TelegramModel) -> Seq<T>,
) -> OutcomeModel<T> {
    match response {
        None => OutcomeModel::Bad(bad_with_message(no_response_message())),
        Some(t) => if request.function_code > 0 && request.function_code == t.function_code {
            data_outcome(parsed(t))
        } else {
            OutcomeModel::Bad(bad_with_codes(t.function_code, 1))
        },
    }
}

/// The outcome of a request with coil data; `quantity` is the number of
/// coils or inputs read.
pub open spec fn coils_outcome(
    request: TelegramModel,
    response: Option<TelegramModel>,
    quantity: u16,
) -> OutcomeModel<bool> {
    response_outcome(
        request,
        response,
        |t: TelegramModel| coil_response_data(t.function_code, t.payload, quantity),
    )
}

/// The outcome of a request with register data.
pub open spec fn registers_outcome(
    request: TelegramModel,
    response: Option<TelegramModel>,
) -> OutcomeModel<u16> {
    response_outcome(
        request,
        response,
        |t: TelegramModel| register_response_data(t.function_code, t.payload),
    )
}

/// How a call of the engine leaves it: a refused request changes nothing;
/// without a stream nothing is attempted; otherwise the counter advances and
/// the stream is kept.
pub open spec fn engine_after<S>(
    before: ModbusMaster<S>,
    after: ModbusMaster<S>,
    request: Result<TelegramModel, Seq<char>>,
) -> bool {
    if request is Err || !before.is_connected_spec() {
        after == before
    } else {
        &&& after.transaction_identifier() == next_transaction_id(before.transaction_identifier())
        &&& after.unit_identifier() == before.unit_identifier()
        &&& after.is_connected_spec()
    }
}

/// One call of the engine for coil data: a refused request reports its
/// message; without a stream the outcome is absent; otherwise it is the
/// outcome of the response obtained, whatever that was.
pub open spec fn coils_transaction<S>(
    before: ModbusMaster<S>,
    after: ModbusMaster<S>,
    request: Result<TelegramModel, Seq<char>>,
    quantity: u16,
    outcome: OutcomeModel<bool>,
) -> bool {
    &&& engine_after(before, after, request)
    &&& match request {
        Err(e) => outcome == OutcomeModel::<bool>::Bad(bad_with_message(e)),
        Ok(req) => if !before.is_connected_spec() {
            outcome == OutcomeModel::<bool>::Absent
        } else {
            exists|response: Option<TelegramModel>|
                is_received(response) && outcome == #[trigger] coils_outcome(req, response, quantity)
        },
    }
}

/// One call of the engine for register data, as for coil data.
pub open spec fn registers_transaction<S>(
    before: ModbusMaster<S>,
    after: ModbusMaster<S>,
    request: Result<TelegramModel, Seq<char>>,
    outcome: OutcomeModel<u16>,
) -> bool {
    &&& engine_after(before, after, request)
    &&& match request {
        Err(e) => outcome == OutcomeModel::<u16>::Bad(bad_with_message(e)),
        Ok(req) => if !before.is_connected_spec() {
            outcome == OutcomeModel::<u16>::Absent
        } else {
            exists|response: Option<TelegramModel>|
                is_received(response) && outcome == #[trigger] registers_outcome(req, response)
        },
    }
}

/// The coil values of a successful outcome; none otherwise.
pub open spec fn coil_values(outcome: OutcomeModel<bool>) -> Seq<CoilValue> {
    match outcome {
        OutcomeModel::Good(data) => Seq::new(data.len(), |i: int| coil_of(data[i])),
        _ => Seq::empty(),
    }
}

/// The register values of a successful outcome; none otherwise.
pub open spec fn register_values(outcome: OutcomeModel<u16>) -> Seq<u16> {
    match outcome {
        OutcomeModel::Good(data) => data,
        _ => Seq::empty(),
    }
}

/// The transaction identifier never becomes zero, and 0xFFFF is followed by 1.
pub proof fn lemma_transaction_id_wraps_to_one(id: u16)
    ensures
        next_transaction_id(id) != 0,
        id == 0xFFFF ==> next_transaction_id(id) == 1,
        id < 0xFFFF ==> next_transaction_id(id) == id + 1,
{
}

/// A matching response whose payload is too short for its function yields
/// the invalid-data failure.
pub proof fn lemma_short_payload_is_invalid_data(
    request: TelegramModel,
    response: TelegramModel,
    quantity: u16,
)
    requires
        request.function_code > 0,
        request.function_code == response.function_code,
        response.payload.len() < 4,
    ensures
        coils_outcome(request, Some(response), quantity) == OutcomeModel::<bool>::Bad(
            bad_with_message(invalid_data_message()),
        ),
        registers_outcome(request, Some(response)) == OutcomeModel::<u16>::Bad(
            bad_with_message(invalid_data_message()),
        ),
{
    crate::response::lemma_short_payload_yields_no_data(response.payload, quantity);
}

// ---------------------------------------------------------------------------
// Decisions
// ---------------------------------------------------------------------------

/// The transaction identifier after `last_transaction_id`.
pub fn count_up_last_transaction_id(last_transaction_id: u16) -> (r: u16)
    ensures
        r == next_transaction_id(last_transaction_id),
        r != 0,
{
    if last_transaction_id == 0xFFFF {
        MODBUS_TRANSACTION_ID_INITIALIZER
    } else {
        last_transaction_id + 1
    }
}

/// Success with the coil data and the time since `start_time`, or the
/// invalid-data failure when there is no data.
pub fn process_response_of_coils(response_data: Vec<bool>, start_time: &Timestamp) -> (r:
    ModbusReturnCoils)
    ensures
        r@ == data_outcome(response_data@),
{
    if response_data.len() > 0 {
        ModbusReturnCoils::Good(ReturnGood::new(response_data, start_time.elapsed_milliseconds()))
    } else {
        ModbusReturnCoils::Bad(ReturnBad::new_with_message("modbus response data is invalid"))
    }
}

/// Success with the register data and the time since `start_time`, or the
/// invalid-data failure when there is no data.
pub fn process_response_of_registers(response_data: Vec<u16>, start_time: &Timestamp) -> (r:
    ModbusReturnRegisters)
    ensures
        r@ == data_outcome(response_data@),
{
    if response_data.len() > 0 {
        ModbusReturnRegisters::Good(
            ReturnGood::new(response_data, start_time.elapsed_milliseconds()),
        )
    } else {
        ModbusReturnRegisters::Bad(ReturnBad::new_with_message("modbus response data is invalid"))
    }
}

/// The outcome of a request with coil data, given the response obtained.
pub fn conclude_coils(
    request: &ModbusTelegram,
    response: Option<ModbusTelegram>,
    quantity: u16,
    start_time: &Timestamp,
) -> (r: ModbusReturnCoils)
    ensures
        r@ == coils_outcome(request@, telegram_view(response), quantity),
{
    match response {
        None => ModbusReturnCoils::Bad(
            ReturnBad::new_with_message("created modbus telegram is invalid"),
        ),
        Some(response) => {
            if verify_function_code(request, &response) {
                let function_code = match response.get_function_code() {
                    Some(c) => c,
                    None => 0,
                };
                let data = match response.get_payload() {
                    Some(payload) => parse_coil_response(function_code, &payload, quantity),
                    None => Vec::new(),
                };
                process_response_of_coils(data, start_time)
            } else {
                let function_code = match response.get_function_code() {
                    Some(c) => c,
                    None => 0,
                };
                ModbusReturnCoils::Bad(ReturnBad::new_with_codes(function_code, 1))
            }
        },
    }
}

/// The outcome of a request with register data, given the response obtained.
pub fn conclude_registers(
    request: &ModbusTelegram,
    response: Option<ModbusTelegram>,
    start_time: &Timestamp,
) -> (r: ModbusReturnRegisters)
    ensures
        r@ == registers_outcome(request@, telegram_view(response)),
{
    match response {
        None => ModbusReturnRegisters::Bad(
            ReturnBad::new_with_message("created modbus telegram is invalid"),
        ),
        Some(response) => {
            if verify_function_code(request, &response) {
                let function_code = match response.get_function_code() {
                    Some(c) => c,
                    None => 0,
                };
                let data = match response.get_payload() {
                    Some(payload) => parse_register_response(function_code, &payload),
                    None => Vec::new(),
                };
                process_response_of_registers(data, start_time)
            } else {
                let function_code = match response.get_function_code() {
                    Some(c) => c,
                    None => 0,
                };
                ModbusReturnRegisters::Bad(ReturnBad::new_with_codes(function_code, 1))
            }
        },
    }
}

/// The coil values of a successful outcome; none otherwise.
pub fn transform_modbus_return_coils(returned_coils: ModbusReturnCoils) -> (r: Vec<CoilValue>)
    ensures
        r@ == coil_values(returned_coils@),
{
    let mut reply: Vec<CoilValue> = Vec::new();
    match returned_coils {
        ModbusReturnCoils::Good(mut good) => {
            let values = good.get_data();
            let mut i: usize = 0;
            while i < values.len()
                invariant
                    i <= values@.len(),
                    reply@ == Seq::new(i as nat, |k: int| coil_of(values@[k])),
                decreases values.len() - i,
            {
                reply.push(CoilValue::set(values[i]));
                i += 1;
                assert(reply@ =~= Seq::new(i as nat, |k: int| coil_of(values@[k])));
            }
            assert(reply@ =~= coil_values(returned_coils@));
        },
        _ => {},
    }
    reply
}

/// The register values of a successful outcome; none otherwise.
pub fn transform_modbus_return_registers(returned_registers: ModbusReturnRegisters) -> (r: Vec<u16>)
    ensures
        r@ == register_values(returned_registers@),
{
    match returned_registers {
        ModbusReturnRegisters::Good(mut good) => good.get_data(),
        _ => Vec::new(),
    }
}

// ---------------------------------------------------------------------------
// Exchange
// ---------------------------------------------------------------------------

/// Writes the request and reads the response once, as many bytes as the
/// request expects; `None` when there is no request, it cannot be encoded or
/// expects no response, or the write, the read or the decoding fails.
pub fn process_modbus_telegram<S: ModbusStream>(
    stream: &mut S,
    telegram: &Option<ModbusTelegram>,
) -> (r: Option<ModbusTelegram>)
    ensures
        is_received(telegram_view(r)),
        telegram matches Some(t) && (!is_encodable(t@) || t@.expected_bytes <= 7) ==> r is None,
        telegram is None ==> r is None,
{
    match telegram {
        None => None,
        Some(request) => {
            let bytes = match request.get_bytes() {
                Some(b) => b,
                None => {
                    return None;
                },
            };
            let expected_bytes = match request.get_expected_byte_count() {
                Some(n) => n,
                None => {
                    return None;
                },
            };
            if !stream.write_bytes(&bytes) {
                return None;
            }
            match stream.read_bytes(expected_bytes as usize) {
                Some(data) => {
                    let reply = ModbusTelegram::new_from_bytes(&data);
                    assert(reply matches Some(t) ==> decode_telegram(data@) == Some(t@));
                    reply
                },
                None => None,
            }
        },
    }
}

// ---------------------------------------------------------------------------
// Engine
// ---------------------------------------------------------------------------

/// A MODBUS client over a stream of type `S`.
pub struct ModbusMaster<S> {
    last_transaction_id: u16,
    unit_identifier: u8,
    stream: Option<S>,
}

impl<S> ModbusMaster<S> {
    /// The identifier the next request will carry.
    pub closed spec fn transaction_identifier(&self) -> u16 {
        self.last_transaction_id
    }

    pub closed spec fn unit_identifier(&self) -> u8 {
        self.unit_identifier
    }

    /// Whether the engine holds a stream.
    pub closed spec fn is_connected_spec(&self) -> bool {
        self.stream is Some
    }

    /// An engine without a stream whose first request carries transaction
    /// identifier 1.
    pub fn new(unit_identifier: u8) -> (r: ModbusMaster<S>)
        ensures
            r.transaction_identifier() == MODBUS_TRANSACTION_ID_INITIALIZER,
            r.unit_identifier() == unit_identifier,
            !r.is_connected_spec(),
    {
        ModbusMaster {
            last_transaction_id: MODBUS_TRANSACTION_ID_INITIALIZER,
            unit_identifier,
            stream: None,
        }
    }

    /// An engine without a stream whose next request carries
    /// `transaction_identifier`.
    pub fn new_with_transaction_identifier(unit_identifier: u8, transaction_identifier: u16) -> (r:
        ModbusMaster<S>)
        ensures
            r.transaction_identifier() == transaction_identifier,
            r.unit_identifier() == unit_identifier,
            !r.is_connected_spec(),
    {
        ModbusMaster { last_transaction_id: transaction_identifier, unit_identifier, stream: None }
    }

    /// Hands the engine a stream; returns the one it held before, if any.
    pub fn attach_stream(&mut self, stream: S) -> (r: Option<S>)
        ensures
            final(self).is_connected_spec(),
            final(self).transaction_identifier() == old(self).transaction_identifier(),
            final(self).unit_identifier() == old(self).unit_identifier(),
            r is Some == old(self).is_connected_spec(),
    {
        let previous = self.stream.take();
        self.stream = Some(stream);
        previous
    }

    /// Takes the stream back; `None` when the engine held none.
    pub fn detach_stream(&mut self) -> (r: Option<S>)
        ensures
            !final(self).is_connected_spec(),
            final(self).transaction_identifier() == old(self).transaction_identifier(),
            final(self).unit_identifier() == old(self).unit_identifier(),
            r is Some == old(self).is_connected_spec(),
    {
        self.stream.take()
    }

    pub fn is_connected(&self) -> (r: bool)
        ensures
            r == self.is_connected_spec(),
    {
        self.stream.is_some()
    }

    pub fn get_last_transaction_id(&self) -> (r: u16)
        ensures
            r == self.transaction_identifier(),
    {
        self.last_transaction_id
    }

    pub fn get_unit_identifier(&self) -> (r: u8)
        ensures
            r == self.unit_identifier(),
    {
        self.unit_identifier
    }

    fn update_last_transaction_id(&mut self)
        ensures
            final(self).last_transaction_id == next_transaction_id(old(self).last_transaction_id),
            final(self).unit_identifier == old(self).unit_identifier,
            final(self).stream == old(self).stream,
    {
        self.last_transaction_id = count_up_last_transaction_id(self.last_transaction_id);
    }
}

impl<S: ModbusStream> ModbusMaster<S> {
    /// One exchange on the held stream; the counter advances either way.
    fn process_telegram(&mut self, request: &Option<ModbusTelegram>) -> (r: Option<ModbusTelegram>)
        requires
            old(self).stream is Some,
        ensures
            final(self).last_transaction_id == next_transaction_id(old(self).last_transaction_id),
            final(self).unit_identifier == old(self).unit_identifier,
            final(self).stream is Some,
            is_received(telegram_view(r)),
    {
        let mut reply: Option<ModbusTelegram> = None;
        match self.stream.take() {
            Some(mut stream) => {
                reply = process_modbus_telegram(&mut stream, request);
                self.stream = Some(stream);
            },
            None => {},
        }
        self.update_last_transaction_id();
        reply
    }

    /// Runs a built or refused request with coil data.
    fn run_coils(
        &mut self,
        request: Result<ModbusTelegram, String>,
        quantity: u16,
        start_time: &Timestamp,
    ) -> (r: ModbusReturnCoils)
        ensures
            coils_transaction(*old(self), *final(self), request_view(request), quantity, r@),
    {
        let connected = self.stream.is_some();
        match request {
            Err(e) => ModbusReturnCoils::Bad(ReturnBad::new_with_message(e.as_str())),
            Ok(telegram) => {
                if !connected {
                    return ModbusReturnCoils::Absent;
                }
                let request = Some(telegram);
                let response = self.process_telegram(&request);
                match request {
                    Some(t) => {
                        let ghost resp = telegram_view(response);
                        let r = conclude_coils(&t, response, quantity, start_time);
                        assert(is_received(resp) && r@ == coils_outcome(t@, resp, quantity));
                        r
                    },
                    None => ModbusReturnCoils::Absent,
                }
            },
        }
    }

    /// Runs a built or refused request with register data.
    fn run_registers(&mut self, request: Result<ModbusTelegram, String>, start_time: &Timestamp) -> (r:
        ModbusReturnRegisters)
        ensures
            registers_transaction(*old(self), *final(self), request_view(request), r@),
    {
        let connected = self.stream.is_some();
        match request {
            Err(e) => ModbusReturnRegisters::Bad(ReturnBad::new_with_message(e.as_str())),
            Ok(telegram) => {
                if !connected {
                    return ModbusReturnRegisters::Absent;
                }
                let request = Some(telegram);
                let response = self.process_telegram(&request);
                match request {
                    Some(t) => {
                        let ghost resp = telegram_view(response);
                        let r = conclude_registers(&t, response, start_time);
                        assert(is_received(resp) && r@ == registers_outcome(t@, resp));
                        r
                    },
                    None => ModbusReturnRegisters::Absent,
                }
            },
        }
    }
}

impl<S: ModbusStream> EthernetMaster for ModbusMaster<S> {
    fn read_coils(&mut self, starting_address: u16, quantity_of_coils: u16) -> (r: ModbusReturnCoils)
        ensures
            coils_transaction(
                *old(self),
                *final(self),
                read_coils_request(
                    old(self).transaction_identifier(),
                    old(self).unit_identifier(),
                    starting_address,
                    quantity_of_coils,
                ),
                quantity_of_coils,
                r@,
            ),
    {
        let start_time = Timestamp::new();
        let request = create_request_read_coils(
            self.last_transaction_id,
            self.unit_identifier,
            starting_address,
            quantity_of_coils,
        );
        self.run_coils(request, quantity_of_coils, &start_time)
    }

    fn read_discrete_inputs(&mut self, starting_address: u16, quantity_of_inputs: u16) -> (r:
        ModbusReturnCoils)
        ensures
            coils_transaction(
                *old(self),
                *final(self),
                read_discrete_inputs_request(
                    old(self).transaction_identifier(),
                    old(self).unit_identifier(),
                    starting_address,
                    quantity_of_inputs,
                ),
                quantity_of_inputs,
                r@,
            ),
    {
        let start_time = Timestamp::new();
        let request = create_request_read_discrete_inputs(
            self.last_transaction_id,
            self.unit_identifier,
            starting_address,
            quantity_of_inputs,
        );
        self.run_coils(request, quantity_of_inputs, &start_time)
    }

    fn read_holding_registers(&mut self, starting_address: u16, quantity_of_registers: u16) -> (r:
        ModbusReturnRegisters)
        ensures
            registers_transaction(
                *old(self),
                *final(self),
                read_holding_registers_request(
                    old(self).transaction_identifier(),
                    old(self).unit_identifier(),
                    starting_address,
                    quantity_of_registers,
                ),
                r@,
            ),
    {
        let start_time = Timestamp::new();
        let request = create_request_read_holding_registers(
            self.last_transaction_id,
            self.unit_identifier,
            starting_address,
            quantity_of_registers,
        );
        self.run_registers(request, &start_time)
    }

    fn read_input_registers(&mut self, starting_address: u16, quantity_of_input_registers: u16) -> (r:
        ModbusReturnRegisters)
        ensures
            registers_transaction(
                *old(self),
                *final(self),
                read_input_registers_request(
                    old(self).transaction_identifier(),
                    old(self).unit_identifier(),
                    starting_address,
                    quantity_of_input_registers,
                ),
                r@,
            ),
    {
        let start_time = Timestamp::new();
        let request = create_request_read_input_registers(
            self.last_transaction_id,
            self.unit_identifier,
            starting_address,
            quantity_of_input_registers,
        );
        self.run_registers(request, &start_time)
    }

    fn write_single_coil(&mut self, output_address: u16, output_value: u16) -> (r: ModbusReturnCoils)
        ensures
            coils_transaction(
                *old(self),
                *final(self),
                write_single_coil_request(
                    old(self).transaction_identifier(),
                    old(self).unit_identifier(),
                    output_address,
                    output_value,
                ),
                0,
                r@,
            ),
    {
        let start_time = Timestamp::new();
        let request = create_request_write_single_coil(
            self.last_transaction_id,
            self.unit_identifier,
            output_address,
            output_value,
        );
        self.run_coils(request, 0, &start_time)
    }

    fn write_single_register(&mut self, register_address: u16, register_value: u16) -> (r:
        ModbusReturnRegisters)
        ensures
            registers_transaction(
                *old(self),
                *final(self),
                write_single_register_request(
                    old(self).transaction_identifier(),
                    old(self).unit_identifier(),
                    register_address,
                    register_value,
                ),
                r@,
            ),
    {
        let start_time = Timestamp::new();
        let request = create_request_write_single_register(
            self.last_transaction_id,
            self.unit_identifier,
            register_address,
            register_value,
        );
        self.run_registers(request, &start_time)
    }

    fn write_multiple_coils(
        &mut self,
        starting_address: u16,
        quantity_of_outputs: u16,
        outputs_value: Vec<u8>,
    ) -> (r: ModbusReturnRegisters)
        ensures
            registers_transaction(
                *old(self),
                *final(self),
                write_multiple_coils_request(
                    old(self).transaction_identifier(),
                    old(self).unit_identifier(),
                    starting_address,
                    quantity_of_outputs,
                    outputs_value@,
                ),
                r@,
            ),
    {
        let start_time = Timestamp::new();
        let request = create_request_write_multiple_coils(
            self.last_transaction_id,
            self.unit_identifier,
            starting_address,
            quantity_of_outputs,
            outputs_value,
        );
        self.run_registers(request, &start_time)
    }

    fn write_multiple_registers(&mut self, starting_address: u16, register_values: Vec<u16>) -> (r:
        ModbusReturnRegisters)
        ensures
            registers_transaction(
                *old(self),
                *final(self),
                write_multiple_registers_request(
                    old(self).transaction_identifier(),
                    old(self).unit_identifier(),
                    starting_address,
                    register_values@,
                ),
                r@,
            ),
    {
        let start_time = Timestamp::new();
        let request = create_request_write_multiple_registers(
            self.last_transaction_id,
            self.unit_identifier,
            starting_address,
            register_values,
        );
        self.run_registers(request, &start_time)
    }
}

} // verus!
