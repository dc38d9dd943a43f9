//! Bit-level facts about register bytes.
use vstd::prelude::*;

verus! {

/// True when bit `i` (0 = least significant) of `byte` is set.
pub open spec fn bit(byte: u8, i: u8) -> bool {
    (byte >> i) & 1u8 == 1u8
}

/// The numeric weight of a flag in a register field: 1 when set, 0 when clear.
pub open spec fn flag(b: bool) -> u8 {
    if b { 1 } else { 0 }
}

/// Testing a byte against a single-bit mask is the same as reading that bit.
pub proof fn lemma_mask_tests_bit(b: u8)
    ensures
        (b & 0x01u8 != 0) == bit(b, 0),
        (b & 0x02u8 != 0) == bit(b, 1),
        (b & 0x04u8 != 0) == bit(b, 2),
        (b & 0x08u8 != 0) == bit(b, 3),
        (b & 0x10u8 != 0) == bit(b, 4),
        (b & 0x20u8 != 0) == bit(b, 5),
        (b & 0x40u8 != 0) == bit(b, 6),
        (b & 0x80u8 != 0) == bit(b, 7),
{
    assert((b & 0x01u8 != 0) == bit(b, 0)) by (bit_vector);
    assert((b & 0x02u8 != 0) == bit(b, 1)) by (bit_vector);
    assert((b & 0x04u8 != 0) == bit(b, 2)) by (bit_vector);
    assert((b & 0x08u8 != 0) == bit(b, 3)) by (bit_vector);
    assert((b & 0x10u8 != 0) == bit(b, 4)) by (bit_vector);
    assert((b & 0x20u8 != 0) == bit(b, 5)) by (bit_vector);
    assert((b & 0x40u8 != 0) == bit(b, 6)) by (bit_vector);
    assert((b & 0x80u8 != 0) == bit(b, 7)) by (bit_vector);
}

} // verus!
