//! Typed access: coil values and the simplified client interface that hands
//! out plain vectors and flags.

use vstd::prelude::*;

use crate::consts::{WRITE_SINGLE_COIL_OFF, WRITE_SINGLE_COIL_ON};
use crate::response::{bit_at, unpack_bits};

verus! {

/// The state of one coil.
#[derive(Clone, Copy, Debug, PartialEq, Eq, Structural)]
pub enum CoilValue {
    Off,
    On,
}

impl CoilValue {
    /// Whether the coil is on.
    pub fn get(coil: &CoilValue) -> (r: bool)
        ensures
            r == (*coil is On),
    {
        *coil == CoilValue::On
    }

    /// `On` for true, `Off` for false.
    pub fn set(on: bool) -> (r: CoilValue)
        ensures
            r == coil_of(on),
    {
        if on {
            CoilValue::On
        } else {
            CoilValue::Off
        }
    }
}

/// The coil value of a state.
pub open spec fn coil_of(on: bool) -> CoilValue {
    if on {
        CoilValue::On
    } else {
        CoilValue::Off
    }
}

/// The states of a sequence of coils.
pub open spec fn coil_states(coils: Seq<CoilValue>) -> Seq<bool> {
    Seq::new(coils.len(), |i: int| coils[i] is On)
}

/// Whether `bytes` are `bits` packed least significant bit first, one byte
/// per started group of eight, the unused high bits of the last byte clear.
pub open spec fn packs_bits(bytes: Seq<u8>, bits: Seq<bool>) -> bool {
    &&& bytes.len() == (bits.len() + 7) / 8
    &&& forall|i: int|
        0 <= i < 8 * bytes.len() ==> #[trigger] bit_at(bytes[i / 8], i % 8) == (i < bits.len()
            && bits[i])
}

/// Unpacking packed coil bytes gives back the coil states.
pub proof fn lemma_packed_bits_unpack(bytes: Seq<u8>, bits: Seq<bool>)
    requires
        packs_bits(bytes, bits),
    ensures
        unpack_bits(bytes, bits.len()) == bits,
{
    assert forall|i: int| 0 <= i < bits.len() implies #[trigger] unpack_bits(bytes, bits.len())[i]
        == bits[i] by {
        assert(i < 8 * bytes.len());
        assert(bit_at(bytes[i / 8], i % 8) == (i < bits.len() && bits[i]));
    }
    assert(unpack_bits(bytes, bits.len()) =~= bits);
}

/// The single-coil write value of a coil state: 0xFF00 for on, 0x0000 for off.
pub fn convert_for_write_single_coil(coil: &CoilValue) -> (r: u16)
    ensures
        r == (if *coil is On {
            WRITE_SINGLE_COIL_ON
        } else {
            WRITE_SINGLE_COIL_OFF
        }),
{
    if CoilValue::get(coil) {
        WRITE_SINGLE_COIL_ON
    } else {
        WRITE_SINGLE_COIL_OFF
    }
}

proof fn lemma_bit_of_set(b: u8, k: u8, t: u8)
    requires
        k < 8,
        t < 8,
    ensures
        ((b | (1u8 << k)) >> t) & 1 == (if t == k {
            1u8
        } else {
            (b >> t) & 1
        }),
{
    assert(((b | (1u8 << k)) >> t) & 1 == (if t == k {
        1u8
    } else {
        (b >> t) & 1
    })) by (bit_vector)
        requires
            k < 8,
            t < 8,
    ;
}

proof fn lemma_zero_has_no_bits(t: u8)
    requires
        t < 8,
    ensures
        (0u8 >> t) & 1 == 0,
{
    assert((0u8 >> t) & 1 == 0) by (bit_vector);
}

/// Packs the coils with index `8 * byte_index` to `8 * byte_index + 7` into one byte.
fn pack_coil_byte(coils: &Vec<CoilValue>, byte_index: usize) -> (r: u8)
    requires
        byte_index < (coils@.len() + 7) / 8,
    ensures
        forall|t: int|
            0 <= t < 8 ==> #[trigger] bit_at(r, t) == (8 * byte_index + t < coils@.len() && coils@[8
                * byte_index + t] is On),
{
    let mut byte: u8 = 0;
    let mut k: u8 = 0;
    let len: usize = coils.len();
    assert(8 * byte_index < coils@.len()) by (nonlinear_arith)
        requires
            byte_index < (coils@.len() + 7) / 8,
    ;
    let base: usize = 8 * byte_index;
    assert forall|t: int| 0 <= t < 8 implies !#[trigger] bit_at(byte, t) by {
        lemma_zero_has_no_bits(t as u8);
    }
    while k < 8
        invariant
            k <= 8,
            base == 8 * byte_index,
            base < coils@.len(),
            forall|t: int|
                0 <= t < k ==> #[trigger] bit_at(byte, t) == (base + t < coils@.len()
                    && coils@[base + t] is On),
            forall|t: int| k <= t < 8 ==> !#[trigger] bit_at(byte, t),
        decreases 8 - k,
    {
        let index: usize = base + k as usize;
        let old_byte = byte;
        if index < coils.len() && coils[index] == CoilValue::On {
            byte = byte | (1u8 << k);
            assert forall|t: int| 0 <= t < 8 implies #[trigger] bit_at(byte, t) == (t == k || bit_at(
                old_byte,
                t,
            )) by {
                lemma_bit_of_set(old_byte, k, t as u8);
            }
        }
        k += 1;
    }
    byte
}

/// The coils packed least significant bit first, eight to a byte.
pub fn transform_coils_to_bytearray(coils: &Vec<CoilValue>) -> (r: Vec<u8>)
    ensures
        packs_bits(r@, coil_states(coils@)),
{
    let mut reply: Vec<u8> = Vec::new();
    let byte_count: usize = coils.len() / 8 + if coils.len() % 8 > 0 {
        1
    } else {
        0
    };
    let mut j: usize = 0;
    while j < byte_count
        invariant
            byte_count == (coils@.len() + 7) / 8,
            j <= byte_count,
            reply@.len() == j,
            forall|i: int|
                0 <= i < 8 * j ==> #[trigger] bit_at(reply@[i / 8], i % 8) == (i < coils@.len()
                    && coils@[i] is On),
        decreases byte_count - j,
    {
        let byte = pack_coil_byte(coils, j);
        reply.push(byte);
        j += 1;
        assert forall|i: int| 0 <= i < 8 * j implies #[trigger] bit_at(reply@[i / 8], i % 8) == (i
            < coils@.len() && coils@[i] is On) by {
            if i >= 8 * (j - 1) {
                assert(i / 8 == j - 1);
                assert(i == 8 * (j - 1) + i % 8);
                assert(bit_at(byte, i % 8) == (8 * (j - 1) + i % 8 < coils@.len() && coils@[8 * (j
                    - 1) + i % 8] is On));
            }
        }
    }
    reply
}

/// The MODBUS functions for direct use: plain data on success, and no data
/// or `false` on any failure.
pub trait MasterAccess {
    /// Function code 1: the states of 1 to 2000 coils.
    fn read_coils(&mut self, address: u16, quantity: u16) -> Vec<CoilValue>;

    /// Function code 2: the states of 1 to 2000 discrete inputs.
    fn read_discrete_inputs(&mut self, address: u16, quantity: u16) -> Vec<CoilValue>;

    /// Function code 3: the values of 1 to 125 holding registers.
    fn read_holding_registers(&mut self, address: u16, quantity: u16) -> Vec<u16>;

    /// Function code 4: the values of 1 to 125 input registers.
    fn read_input_registers(&mut self, address: u16, quantity: u16) -> Vec<u16>;

    /// Function code 5: whether the coil was written.
    fn write_single_coil(&mut self, address: u16, value: CoilValue) -> bool;

    /// Function code 6: whether the register was written.
    fn write_single_register(&mut self, address: u16, value: u16) -> bool;

    /// Function code 15: whether the coils were written.
    fn write_multiple_coils(&mut self, address: u16, values: Vec<CoilValue>) -> bool;

    /// Function code 16: whether the registers were written.
    fn write_multiple_registers(&mut self, address: u16, values: Vec<u16>) -> bool;
}

} // verus!
