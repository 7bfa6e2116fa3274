//! Bit helpers shared by the CPU and the picture and sound units.
use vstd::prelude::*;

verus! {

/// Bit `bit` (0 = least significant) of `value`, read arithmetically.
pub open spec fn bit_of(value: u8, bit: u8) -> bool {
    (value >> bit) & 1u8 == 1u8
}

/// Whether bit `bit` of `value` is set.
pub fn get_bit(value: u8, bit: u8) -> (r: bool)
    requires
        bit < 8,
    ensures
        r == bit_of(value, bit),
{
    assert(((value & (1u8 << bit)) != 0u8) == ((value >> bit) & 1u8 == 1u8)) by (bit_vector)
        requires
            bit < 8u8,
    ;
    (value & (1u8 << bit)) != 0
}

/// `value` with bit `bit` forced to `set`; every other bit is kept.
pub fn set_bit(value: u8, bit: u8, set: bool) -> (r: u8)
    requires
        bit < 8,
    ensures
        bit_of(r, bit) == set,
        forall|j: u8| j < 8 && j != bit ==> bit_of(r, j) == bit_of(value, j),
{
    let r = if set {
        value | (1u8 << bit)
    } else {
        value & !(1u8 << bit)
    };
    assert(forall|j: u8|
        j < 8 && j != bit ==> ((value | (1u8 << bit)) >> j) & 1u8 == (value >> j) & 1u8)
        by (bit_vector)
        requires
            bit < 8u8,
    ;
    assert(forall|j: u8|
        j < 8 && j != bit ==> ((value & !(1u8 << bit)) >> j) & 1u8 == (value >> j) & 1u8)
        by (bit_vector)
        requires
            bit < 8u8,
    ;
    assert(((value | (1u8 << bit)) >> bit) & 1u8 == 1u8) by (bit_vector)
        requires
            bit < 8u8,
    ;
    assert(((value & !(1u8 << bit)) >> bit) & 1u8 == 0u8) by (bit_vector)
        requires
            bit < 8u8,
    ;
    r
}

/// Whether `a + b` overflows eight bits.
pub fn would_carry(a: u8, b: u8) -> (r: bool)
    ensures
        r == (a as int + b as int > 0xFF),
{
    (a as u16 + b as u16) > 0xFF
}

/// Whether `a - b` needs a borrow.
pub fn would_borrow(a: u8, b: u8) -> (r: bool)
    ensures
        r == (a < b),
{
    a < b
}

} // verus!
