//! The numeric value of a record, represented by the bit pattern of an
//! IEEE-754 binary64 number held in a `u64`.
//!
//! The store keeps the value as a real number; the pipeline's own logic only
//! ever asks one question of it — whether it is strictly greater than zero —
//! and that question is answered exactly on the bit pattern: a binary64
//! number is strictly positive iff its sign bit is clear, it is not the
//! encoding of positive zero, and it is not a NaN (every comparison with a
//! NaN is false).

use vstd::prelude::*;

verus! {

/// Sign bit of a binary64 bit pattern.
pub open spec fn spec_sign_bit(bits: u64) -> u64 {
    bits >> 63u64
}

/// Exponent field (11 bits) of a binary64 bit pattern.
pub open spec fn spec_exponent(bits: u64) -> u64 {
    (bits >> 52u64) & 0x7ffu64
}

/// Fraction field (52 bits) of a binary64 bit pattern.
pub open spec fn spec_fraction(bits: u64) -> u64 {
    bits & 0xf_ffff_ffff_ffffu64
}

/// A binary64 bit pattern encodes a NaN iff the exponent field is all ones
/// and the fraction field is non-zero.
pub open spec fn spec_is_nan(bits: u64) -> bool {
    spec_exponent(bits) == 0x7ffu64 && spec_fraction(bits) != 0u64
}

/// A binary64 number compares strictly greater than zero iff its sign bit is
/// clear, it is not positive zero (the all-zero pattern), and it is not a NaN.
/// Positive infinity and positive subnormals are strictly positive; both
/// zeroes, every negative number, and every NaN are not.
pub open spec fn spec_is_positive(bits: u64) -> bool {
    &&& spec_sign_bit(bits) == 0u64
    &&& bits != 0u64
    &&& !spec_is_nan(bits)
}

/// Decide whether the binary64 number encoded by `bits` is strictly greater
/// than zero.
pub fn is_positive_bits(bits: u64) -> (r: bool)
    ensures
        r == spec_is_positive(bits),
{
    let sign: u64 = bits >> 63u64;
    let exponent: u64 = (bits >> 52u64) & 0x7ffu64;
    let fraction: u64 = bits & 0xf_ffff_ffff_ffffu64;
    let is_nan: bool = exponent == 0x7ffu64 && fraction != 0u64;
    sign == 0u64 && bits != 0u64 && !is_nan
}

} // verus!
