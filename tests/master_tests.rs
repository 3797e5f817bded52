use modbus_iiot::access::CoilValue;
use modbus_iiot::master::{
    count_up_last_transaction_id, process_response_of_coils, process_response_of_registers,
    transform_modbus_return_coils, transform_modbus_return_registers,
};
use modbus_iiot::outcome::{ModbusReturnCoils, ModbusReturnRegisters, ReturnBad, ReturnGood};
use modbus_iiot::timing::Timestamp;

#[test]
fn test_count_up_last_transaction_id() {
    let test_data_1: u16 = 0x0001;
    let result_data_1: u16 = count_up_last_transaction_id(test_data_1);
    assert_eq!(result_data_1, 0x0002);

    let test_data_2: u16 = 0xFFFF;
    let result_data_2: u16 = count_up_last_transaction_id(test_data_2);
    assert_eq!(result_data_2, 0x0001);
}

#[test]
fn test_response_of_coils() {
    let timestamp: Timestamp = Timestamp::new();

    let test_data_1: Vec<bool> = vec![false, false, true, false, true, true, false, true];
    let result_1: ModbusReturnCoils = process_response_of_coils(test_data_1, &timestamp);
    assert!(result_1.is_good());

    let test_data_2: Vec<bool> = vec![];
    let result_2: ModbusReturnCoils = process_response_of_coils(test_data_2, &timestamp);
    assert!(result_2.is_bad());
}

#[test]
fn test_process_response_of_registers() {
    let timestamp: Timestamp = Timestamp::new();

    let test_data_1: Vec<u16> = vec![0x000A, 0xFFFF, 0x00A8, 0xFF00];
    let result_1: ModbusReturnRegisters = process_response_of_registers(test_data_1, &timestamp);
    assert!(result_1.is_good());

    let test_data_2: Vec<u16> = vec![];
    let result_2: ModbusReturnRegisters = process_response_of_registers(test_data_2, &timestamp);
    assert!(result_2.is_bad());
}

#[test]
fn test_transform_modbus_return_coils() {
    let result_1: Vec<CoilValue> = transform_modbus_return_coils(ModbusReturnCoils::Absent);
    assert_eq!(result_1.len(), 0);

    let test_data_1: ReturnBad = ReturnBad::new_with_message("some error message");
    let result_2: Vec<CoilValue> =
        transform_modbus_return_coils(ModbusReturnCoils::Bad(test_data_1));
    assert_eq!(result_2.len(), 0);

    let test_data_2: ReturnGood<bool> =
        ReturnGood::new(vec![true, true, false, false, true, true, false, true], 1);
    let result_3: Vec<CoilValue> =
        transform_modbus_return_coils(ModbusReturnCoils::Good(test_data_2));
    assert_eq!(result_3.len(), 8);
}

#[test]
fn test_transform_modbus_return_registers() {
    let result_1: Vec<u16> = transform_modbus_return_registers(ModbusReturnRegisters::Absent);
    assert_eq!(result_1.len(), 0);

    let test_data_1: ReturnBad = ReturnBad::new_with_message("some error message");
    let result_2: Vec<u16> =
        transform_modbus_return_registers(ModbusReturnRegisters::Bad(test_data_1));
    assert_eq!(result_2.len(), 0);

    let test_data_2: ReturnGood<u16> = ReturnGood::new(vec![123, 456, 789], 1);
    let result_3: Vec<u16> =
        transform_modbus_return_registers(ModbusReturnRegisters::Good(test_data_2));
    assert_eq!(result_3.len(), 3);
}
