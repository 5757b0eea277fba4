//! IEEE 754 single-precision values, held as their bit patterns.

use vstd::prelude::*;

verus! {

/// The bits below the sign bit: exponent and fraction.
pub open spec fn magnitude(bits: u32) -> int {
    bits as int % 0x8000_0000
}

/// Not-a-number: the exponent is all ones and the fraction is not zero.
pub open spec fn is_nan(bits: u32) -> bool {
    magnitude(bits) > 0x7f80_0000
}

/// Positive or negative zero.
pub open spec fn is_zero(bits: u32) -> bool {
    magnitude(bits) == 0
}

/// Equality of the two values as IEEE 754 defines it: a NaN equals nothing,
/// the two zeros equal each other, and any other value equals only itself.
pub open spec fn same_value(a: u32, b: u32) -> bool {
    &&& !is_nan(a)
    &&& !is_nan(b)
    &&& (a == b || (is_zero(a) && is_zero(b)))
}

/// Whether two bit patterns stand for equal values.
pub fn equal(a: u32, b: u32) -> (r: bool)
    ensures
        r == same_value(a, b),
{
    let a_magnitude: u32 = a % 0x8000_0000;
    let b_magnitude: u32 = b % 0x8000_0000;
    if a_magnitude > 0x7f80_0000 || b_magnitude > 0x7f80_0000 {
        false
    } else {
        a == b || (a_magnitude == 0 && b_magnitude == 0)
    }
}

/// Equality of values is symmetric.
pub proof fn lemma_same_value_symmetric(a: u32, b: u32)
    ensures
        same_value(a, b) == same_value(b, a),
{
}

/// Every value but a NaN equals itself.
pub proof fn lemma_same_value_reflexive(a: u32)
    ensures
        same_value(a, a) == !is_nan(a),
{
}

} // verus!
