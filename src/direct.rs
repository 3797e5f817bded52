//! The direct-access interface of the engine: plain vectors and success
//! flags in place of full outcomes.

use vstd::prelude::*;

use crate::access::{
    coil_states, convert_for_write_single_coil, packs_bits, transform_coils_to_bytearray,
    CoilValue, MasterAccess,
};
use crate::master::{
    coil_values, coils_transaction, register_values, registers_transaction,
    transform_modbus_return_coils, transform_modbus_return_registers, ModbusMaster, ModbusStream,
};
use crate::outcome::OutcomeModel;
use crate::request::{
    read_coils_request, read_discrete_inputs_request, read_holding_registers_request,
    read_input_registers_request, write_multiple_coils_request, write_multiple_registers_request,
    write_single_coil_request, write_single_register_request,
};

verus! {

/// The quantity of a coil list: its length, held at 0xFFFF.
pub open spec fn coil_quantity(values: Seq<CoilValue>) -> u16 {
    if values.len() > 0xFFFF {
        0xFFFF
    } else {
        values.len() as u16
    }
}

/// The single-coil write value of a coil.
pub open spec fn single_coil_value(value: CoilValue) -> u16 {
    if value is On {
        0xFF00
    } else {
        0x0000
    }
}

impl<S: ModbusStream> MasterAccess for ModbusMaster<S> {
    fn read_coils(&mut self, address: u16, quantity: u16) -> (r: Vec<CoilValue>)
        ensures
            exists|o: OutcomeModel<bool>|
                coils_transaction(
                    *old(self),
                    *final(self),
                    read_coils_request(
                        old(self).transaction_identifier(),
                        old(self).unit_identifier(),
                        address,
                        quantity,
                    ),
                    quantity,
                    o,
                ) && r@ == #[trigger] coil_values(o),
    {
        let response = crate::ethernet::EthernetMaster::read_coils(self, address, quantity);
        let ghost o = response@;
        let r = transform_modbus_return_coils(response);
        assert(r@ == coil_values(o));
        r
    }

    fn read_discrete_inputs(&mut self, address: u16, quantity: u16) -> (r: Vec<CoilValue>)
        ensures
            exists|o: OutcomeModel<bool>|
                coils_transaction(
                    *old(self),
                    *final(self),
                    read_discrete_inputs_request(
                        old(self).transaction_identifier(),
                        old(self).unit_identifier(),
                        address,
                        quantity,
                    ),
                    quantity,
                    o,
                ) && r@ == #[trigger] coil_values(o),
    {
        let response = crate::ethernet::EthernetMaster::read_discrete_inputs(self, address, quantity);
        let ghost o = response@;
        let r = transform_modbus_return_coils(response);
        assert(r@ == coil_values(o));
        r
    }

    fn read_holding_registers(&mut self, address: u16, quantity: u16) -> (r: Vec<u16>)
        ensures
            exists|o: OutcomeModel<u16>|
                registers_transaction(
                    *old(self),
                    *final(self),
                    read_holding_registers_request(
                        old(self).transaction_identifier(),
                        old(self).unit_identifier(),
                        address,
                        quantity,
                    ),
                    o,
                ) && r@ == #[trigger] register_values(o),
    {
        let response = crate::ethernet::EthernetMaster::read_holding_registers(self, address, quantity);
        let ghost o = response@;
        let r = transform_modbus_return_registers(response);
        assert(r@ == register_values(o));
        r
    }

    fn read_input_registers(&mut self, address: u16, quantity: u16) -> (r: Vec<u16>)
        ensures
            exists|o: OutcomeModel<u16>|
                registers_transaction(
                    *old(self),
                    *final(self),
                    read_input_registers_request(
                        old(self).transaction_identifier(),
                        old(self).unit_identifier(),
                        address,
                        quantity,
                    ),
                    o,
                ) && r@ == #[trigger] register_values(o),
    {
        let response = crate::ethernet::EthernetMaster::read_input_registers(self, address, quantity);
        let ghost o = response@;
        let r = transform_modbus_return_registers(response);
        assert(r@ == register_values(o));
        r
    }

    fn write_single_coil(&mut self, address: u16, value: CoilValue) -> (r: bool)
        ensures
            exists|o: OutcomeModel<bool>|
                #[trigger] coils_transaction(
                    *old(self),
                    *final(self),
                    write_single_coil_request(
                        old(self).transaction_identifier(),
                        old(self).unit_identifier(),
                        address,
                        single_coil_value(value),
                    ),
                    0,
                    o,
                ) && r == o is Good,
    {
        let response = crate::ethernet::EthernetMaster::write_single_coil(
            self,
            address,
            convert_for_write_single_coil(&value),
        );
        response.is_good()
    }

    fn write_single_register(&mut self, address: u16, value: u16) -> (r: bool)
        ensures
            exists|o: OutcomeModel<u16>|
                #[trigger] registers_transaction(
                    *old(self),
                    *final(self),
                    write_single_register_request(
                        old(self).transaction_identifier(),
                        old(self).unit_identifier(),
                        address,
                        value,
                    ),
                    o,
                ) && r == o is Good,
    {
        let response = crate::ethernet::EthernetMaster::write_single_register(self, address, value);
        response.is_good()
    }

    /// No request is made for an empty list.
    fn write_multiple_coils(&mut self, address: u16, values: Vec<CoilValue>) -> (r: bool)
        ensures
            values@.len() == 0 ==> !r && *final(self) == *old(self),
            values@.len() > 0 ==> exists|o: OutcomeModel<u16>, bytes: Seq<u8>|
                packs_bits(bytes, coil_states(values@)) && #[trigger] registers_transaction(
                    *old(self),
                    *final(self),
                    write_multiple_coils_request(
                        old(self).transaction_identifier(),
                        old(self).unit_identifier(),
                        address,
                        coil_quantity(values@),
                        bytes,
                    ),
                    o,
                ) && r == o is Good,
    {
        if values.len() == 0 {
            return false;
        }
        let quantity: u16 = if values.len() > 0xFFFF {
            0xFFFF
        } else {
            values.len() as u16
        };
        let bytes = transform_coils_to_bytearray(&values);
        let ghost packed = bytes@;
        let ghost before = *self;
        let response = crate::ethernet::EthernetMaster::write_multiple_coils(
            self,
            address,
            quantity,
            bytes,
        );
        assert(quantity == coil_quantity(values@));
        assert(packs_bits(packed, coil_states(values@)) && registers_transaction(
            before,
            *self,
            write_multiple_coils_request(
                before.transaction_identifier(),
                before.unit_identifier(),
                address,
                coil_quantity(values@),
                packed,
            ),
            response@,
        ));
        response.is_good()
    }

    fn write_multiple_registers(&mut self, address: u16, values: Vec<u16>) -> (r: bool)
        ensures
            exists|o: OutcomeModel<u16>|
                #[trigger] registers_transaction(
                    *old(self),
                    *final(self),
                    write_multiple_registers_request(
                        old(self).transaction_identifier(),
                        old(self).unit_identifier(),
                        address,
                        values@,
                    ),
                    o,
                ) && r == o is Good,
    {
        let response = crate::ethernet::EthernetMaster::write_multiple_registers(self, address, values);
        response.is_good()
    }
}

} // verus!
