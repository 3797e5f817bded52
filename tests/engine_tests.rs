use modbus_iiot::access::{CoilValue, MasterAccess};
use modbus_iiot::ethernet::EthernetMaster;
use modbus_iiot::master::{conclude_coils, conclude_registers, process_modbus_telegram, ModbusMaster, ModbusStream};
use modbus_iiot::request::create_request_read_holding_registers;
use modbus_iiot::telegram::ModbusTelegram;
use modbus_iiot::timing::Timestamp;

/// A stream that records what is written and answers every read with a
/// fixed reply.
struct StubStream {
    written: Vec<Vec<u8>>,
    reply: Vec<u8>,
    write_ok: bool,
    read_counts: Vec<usize>,
}

impl StubStream {
    fn answering(reply: Vec<u8>) -> StubStream {
        StubStream { written: vec![], reply, write_ok: true, read_counts: vec![] }
    }
}

impl ModbusStream for StubStream {
    fn write_bytes(&mut self, bytes: &Vec<u8>) -> bool {
        self.written.push(bytes.clone());
        self.write_ok
    }

    fn read_bytes(&mut self, count: usize) -> Option<Vec<u8>> {
        self.read_counts.push(count);
        let n = count.min(self.reply.len());
        Some(self.reply[..n].to_vec())
    }
}

fn holding_registers_reply() -> Vec<u8> {
    vec![
        0x00, 0x01, 0x00, 0x00, 0x00, 0x09, 0x01, 0x03, 0x06, 0xF0, 0x0F, 0x00, 0xFF, 0xFF, 0x00,
    ]
}

fn connected(reply: Vec<u8>) -> ModbusMaster<StubStream> {
    let mut master: ModbusMaster<StubStream> = ModbusMaster::new(0x01);
    assert!(master.attach_stream(StubStream::answering(reply)).is_none());
    master
}

#[test]
fn end_to_end_read_holding_registers() {
    let mut master = connected(holding_registers_reply());
    let result = EthernetMaster::read_holding_registers(&mut master, 0x0010, 3);
    assert!(result.is_good());
    let mut good = result.unwrap_good();
    assert_eq!(good.get_data(), vec![0xF00F, 0x00FF, 0xFF00]);
    assert_eq!(master.get_last_transaction_id(), 2);

    let stream = master.detach_stream().unwrap();
    assert_eq!(
        stream.written,
        vec![vec![0x00, 0x01, 0x00, 0x00, 0x00, 0x06, 0x01, 0x03, 0x00, 0x10, 0x00, 0x03]]
    );
    // 7 header bytes, function code, byte count and six data bytes
    assert_eq!(stream.read_counts, vec![15]);
}

#[test]
fn transaction_id_wraps_from_ffff_to_one() {
    let mut master: ModbusMaster<StubStream> =
        ModbusMaster::new_with_transaction_identifier(0x01, 0xFFFF);
    master.attach_stream(StubStream::answering(holding_registers_reply()));
    let result = EthernetMaster::read_holding_registers(&mut master, 0, 3);
    assert!(result.is_good());
    assert_eq!(master.get_last_transaction_id(), 0x0001);
    let result = EthernetMaster::read_holding_registers(&mut master, 0, 3);
    assert!(result.is_good());
    assert_eq!(master.get_last_transaction_id(), 0x0002);
}

#[test]
fn transaction_id_starts_at_one() {
    let master: ModbusMaster<StubStream> = ModbusMaster::new(0x07);
    assert_eq!(master.get_last_transaction_id(), 1);
    assert_eq!(master.get_unit_identifier(), 0x07);
    assert!(!master.is_connected());
}

#[test]
fn function_code_mismatch_reports_exception_code_one() {
    let payload: Vec<u8> = vec![0x00, 0x10, 0x00, 0x03];
    let request = create_request_read_holding_registers(0x00A0, 0x01, 0x0010, 3).unwrap();
    let response = ModbusTelegram::new(0x00A0, 0x01, 0x83, &vec![0x02], 0).unwrap();
    let result = conclude_registers(&request, Some(response), &Timestamp::new());
    assert!(result.is_bad());
    let bad = result.unwrap_bad();
    assert_eq!(bad.get_error_code(), 0x83);
    assert_eq!(bad.get_exception_code(), 1);
    assert_eq!(bad.get_message(), "Exception Code 01 - ILLEGAL FUNCTION");

    let coil_request = ModbusTelegram::new(0x00A0, 0x01, 0x01, &payload, 10).unwrap();
    let coil_response = ModbusTelegram::new(0x00A0, 0x01, 0x81, &vec![0x02], 0).unwrap();
    let result = conclude_coils(&coil_request, Some(coil_response), 3, &Timestamp::new());
    let bad = result.unwrap_bad();
    assert_eq!(bad.get_error_code(), 0x81);
    assert_eq!(bad.get_exception_code(), 1);
}

#[test]
fn engine_reports_mismatched_function_code() {
    // A read-input-registers reply to a read-holding-registers request.
    let mut reply = holding_registers_reply();
    reply[7] = 0x04;
    let mut master = connected(reply);
    let result = EthernetMaster::read_holding_registers(&mut master, 0, 3);
    let bad = result.unwrap_bad();
    assert_eq!(bad.get_error_code(), 0x04);
    assert_eq!(bad.get_exception_code(), 1);
    assert_eq!(master.get_last_transaction_id(), 2);
}

#[test]
fn engine_reports_short_payload_as_invalid_data() {
    // A write-single-register confirmation with a two-byte payload.
    let reply: Vec<u8> = vec![0x00, 0x01, 0x00, 0x00, 0x00, 0x04, 0x01, 0x06, 0x00, 0x10];
    let mut master = connected(reply);
    let result = EthernetMaster::write_single_register(&mut master, 0x0010, 0x1234);
    assert!(result.is_bad());
    assert_eq!(result.unwrap_bad().get_message(), "modbus response data is invalid");
}

#[test]
fn engine_without_stream_makes_no_attempt() {
    let mut master: ModbusMaster<StubStream> = ModbusMaster::new(0x01);
    let result = EthernetMaster::read_coils(&mut master, 0, 8);
    assert!(result.is_none());
    assert!(!result.is_some());
    assert_eq!(master.get_last_transaction_id(), 1);
}

#[test]
fn engine_refuses_invalid_parameters_without_sending() {
    let mut master = connected(holding_registers_reply());
    let result = EthernetMaster::read_holding_registers(&mut master, 0, 126);
    assert!(result.is_bad());
    let bad = result.unwrap_bad();
    assert_eq!(bad.get_error_code(), 0);
    assert!(bad.get_message().contains("too high"));
    assert_eq!(master.get_last_transaction_id(), 1);
    let stream = master.detach_stream().unwrap();
    assert!(stream.written.is_empty());
}

#[test]
fn engine_reports_write_failure_and_still_advances() {
    let mut stream = StubStream::answering(holding_registers_reply());
    stream.write_ok = false;
    let mut master: ModbusMaster<StubStream> = ModbusMaster::new(0x01);
    master.attach_stream(stream);
    let result = EthernetMaster::read_holding_registers(&mut master, 0, 3);
    assert_eq!(result.unwrap_bad().get_message(), "created modbus telegram is invalid");
    assert_eq!(master.get_last_transaction_id(), 2);
}

#[test]
fn engine_with_zero_transaction_id_reports_creation_failure() {
    let mut master: ModbusMaster<StubStream> = ModbusMaster::new_with_transaction_identifier(1, 0);
    master.attach_stream(StubStream::answering(holding_registers_reply()));
    let result = EthernetMaster::read_holding_registers(&mut master, 0, 3);
    assert_eq!(result.unwrap_bad().get_message(), "Error while creating telegram.");
    assert_eq!(master.get_last_transaction_id(), 0);
}

#[test]
fn engine_reads_coils() {
    let reply: Vec<u8> =
        vec![0x00, 0x01, 0x00, 0x00, 0x00, 0x06, 0x01, 0x01, 0x03, 0xCD, 0x6B, 0x05];
    let mut master = connected(reply);
    let result = EthernetMaster::read_coils(&mut master, 0x0013, 19);
    let data = result.unwrap_good().get_data();
    assert_eq!(
        data,
        vec![
            true, false, true, true, false, false, true, true, true, true, false, true, false,
            true, true, false, true, false, true
        ]
    );
}

#[test]
fn direct_access_reads_coils_as_values() {
    let reply: Vec<u8> =
        vec![0x00, 0x01, 0x00, 0x00, 0x00, 0x06, 0x01, 0x02, 0x03, 0xCD, 0x6B, 0x05];
    let mut master = connected(reply);
    let values = MasterAccess::read_discrete_inputs(&mut master, 0x00C4, 19);
    assert_eq!(values.len(), 19);
    assert_eq!(values[..4].to_vec(), vec![CoilValue::On, CoilValue::Off, CoilValue::On, CoilValue::On]);
    assert_eq!(values[18], CoilValue::On);
}

#[test]
fn direct_access_reads_registers() {
    let mut master = connected(holding_registers_reply());
    let values = MasterAccess::read_holding_registers(&mut master, 0, 3);
    assert_eq!(values, vec![0xF00F, 0x00FF, 0xFF00]);
    let mut master: ModbusMaster<StubStream> = ModbusMaster::new(1);
    let values = MasterAccess::read_input_registers(&mut master, 0, 3);
    assert!(values.is_empty());
}

#[test]
fn direct_access_writes_single_coil() {
    let reply: Vec<u8> =
        vec![0x00, 0x01, 0x00, 0x00, 0x00, 0x06, 0x01, 0x05, 0x00, 0xAC, 0xFF, 0x00];
    let mut master = connected(reply);
    assert!(MasterAccess::write_single_coil(&mut master, 0x00AC, CoilValue::On));
    let stream = master.detach_stream().unwrap();
    assert_eq!(
        stream.written[0],
        vec![0x00, 0x01, 0x00, 0x00, 0x00, 0x06, 0x01, 0x05, 0x00, 0xAC, 0xFF, 0x00]
    );
}

#[test]
fn direct_access_writes_multiple_coils() {
    let reply: Vec<u8> =
        vec![0x00, 0x01, 0x00, 0x00, 0x00, 0x06, 0x01, 0x0F, 0x00, 0x13, 0x00, 0x0A];
    let mut master = connected(reply);
    let coils = vec![
        CoilValue::On,
        CoilValue::Off,
        CoilValue::On,
        CoilValue::On,
        CoilValue::Off,
        CoilValue::Off,
        CoilValue::On,
        CoilValue::On,
        CoilValue::On,
        CoilValue::Off,
    ];
    assert!(MasterAccess::write_multiple_coils(&mut master, 0x0013, coils));
    let stream = master.detach_stream().unwrap();
    assert_eq!(
        stream.written[0],
        vec![
            0x00, 0x01, 0x00, 0x00, 0x00, 0x09, 0x01, 0x0F, 0x00, 0x13, 0x00, 0x0A, 0x02, 0xCD,
            0x01
        ]
    );
    let mut master = connected(vec![]);
    assert!(!MasterAccess::write_multiple_coils(&mut master, 0, vec![]));
    assert_eq!(master.get_last_transaction_id(), 1);
}

#[test]
fn direct_access_writes_registers() {
    let reply: Vec<u8> =
        vec![0x00, 0x01, 0x00, 0x00, 0x00, 0x06, 0x01, 0x10, 0x00, 0x01, 0x00, 0x02];
    let mut master = connected(reply);
    assert!(MasterAccess::write_multiple_registers(&mut master, 0x0001, vec![0x000A, 0x0102]));
    let reply: Vec<u8> =
        vec![0x00, 0x02, 0x00, 0x00, 0x00, 0x06, 0x01, 0x06, 0x00, 0x01, 0x00, 0x03];
    let mut master = connected(reply);
    assert!(MasterAccess::write_single_register(&mut master, 0x0001, 0x0003));
    assert!(!MasterAccess::write_multiple_registers(&mut master, 0x0001, vec![]));
}

#[test]
fn exchange_needs_a_request_with_an_expectation() {
    let mut stream = StubStream::answering(holding_registers_reply());
    let request = ModbusTelegram::new(1, 1, 3, &vec![0x00, 0x00, 0x00, 0x03], 7);
    assert!(process_modbus_telegram(&mut stream, &request).is_none());
    assert!(process_modbus_telegram(&mut stream, &None).is_none());
    let request = ModbusTelegram::new(1, 1, 3, &vec![0x00, 0x00, 0x00, 0x03], 15);
    let response = process_modbus_telegram(&mut stream, &request).unwrap();
    assert_eq!(response.get_function_code(), Some(3));
    assert_eq!(response.get_payload().unwrap(), vec![0x06, 0xF0, 0x0F, 0x00, 0xFF, 0xFF, 0x00]);
}
