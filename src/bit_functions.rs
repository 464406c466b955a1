//! Small bit helpers on bytes, and the bit-level facts the rest of the crate uses.
use vstd::prelude::*;

verus! {

/// Whether bit `bit` of `value` is set.
pub open spec fn bit_is_set(value: u8, bit: u8) -> bool {
    (value >> bit) & 1 == 1
}

/// Returns whether bit `bit` of `value` is set.
pub fn test(value: u8, bit: u8) -> (r: bool)
    requires
        bit < 8,
    ensures
        r == bit_is_set(value, bit),
{
    val(value, bit) == 1
}

/// Returns bit `bit` of `value` as 0 or 1.
pub fn val(value: u8, bit: u8) -> (r: u8)
    requires
        bit < 8,
    ensures
        r == (value >> bit) & 1,
        r <= 1,
{
    proof {
        lemma_and_one((value >> bit) as u8);
    }
    (value >> bit) & 1
}

/// Returns `value` with bit `bit` (taken modulo 8) set.
pub fn set(value: u8, bit: u8) -> (r: u8)
    ensures
        r == value | (1u8 << (bit % 8)),
{
    value | (1u8 << (bit % 8))
}

/// Returns `value` with bit `bit` (taken modulo 8) cleared.
pub fn reset(value: u8, bit: u8) -> (r: u8)
    ensures
        r == value & !(1u8 << (bit % 8)),
{
    value & !(1u8 << (bit % 8))
}

/// Whether adding the low nibbles of the two bytes carries out of bit 3.
pub fn half_carry_add(value_1: u8, value_2: u8) -> (r: bool)
    ensures
        r == (value_1 % 16 + value_2 % 16 > 15),
{
    proof {
        lemma_low_nibble(value_1);
        lemma_low_nibble(value_2);
    }
    (value_1 & 0xF) + (value_2 & 0xF) > 0xF
}

/// Returns 1 for `true` and 0 for `false`.
pub fn b(value: bool) -> (r: u8)
    ensures
        r == (if value { 1u8 } else { 0u8 }),
{
    if value {
        1
    } else {
        0
    }
}

pub proof fn lemma_and_one(x: u8)
    ensures
        x & 1 <= 1,
        x & 1 == x % 2,
{
    assert(x & 1 <= 1 && x & 1 == x % 2) by (bit_vector);
}

pub proof fn lemma_low_nibble(x: u8)
    ensures
        x & 0xF == x % 16,
{
    assert(x & 0xF == x % 16) by (bit_vector);
}

} // verus!
