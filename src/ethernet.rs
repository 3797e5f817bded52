//! The MODBUS client interface, one method per function code.

use vstd::prelude::*;

use crate::outcome::{ModbusReturnCoils, ModbusReturnRegisters};

verus! {

/// The eight MODBUS functions of a client, each answering with the full
/// outcome of the request.
pub trait EthernetMaster {
    /// Function code 1: reads 1 to 2000 contiguous coils.
    fn read_coils(&mut self, starting_address: u16, quantity_of_coils: u16) -> ModbusReturnCoils;

    /// Function code 2: reads 1 to 2000 contiguous discrete inputs.
    fn read_discrete_inputs(&mut self, starting_address: u16, quantity_of_inputs: u16) -> ModbusReturnCoils;

    /// Function code 3: reads 1 to 125 contiguous holding registers.
    fn read_holding_registers(&mut self, starting_address: u16, quantity_of_registers: u16) -> ModbusReturnRegisters;

    /// Function code 4: reads 1 to 125 contiguous input registers.
    fn read_input_registers(
        &mut self,
        starting_address: u16,
        quantity_of_input_registers: u16,
    ) -> ModbusReturnRegisters;

    /// Function code 5: switches one coil on (0xFF00) or off (0x0000).
    fn write_single_coil(&mut self, output_address: u16, output_value: u16) -> ModbusReturnCoils;

    /// Function code 6: writes one holding register.
    fn write_single_register(&mut self, register_address: u16, register_value: u16) -> ModbusReturnRegisters;

    /// Function code 15: forces 1 to 1968 coils from bit-packed bytes.
    fn write_multiple_coils(
        &mut self,
        starting_address: u16,
        quantity_of_outputs: u16,
        outputs_value: Vec<u8>,
    ) -> ModbusReturnRegisters;

    /// Function code 16: writes 1 to 123 contiguous registers.
    fn write_multiple_registers(&mut self, starting_address: u16, register_values: Vec<u16>) -> ModbusReturnRegisters;
}

} // verus!
