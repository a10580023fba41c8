//! Single-precision amplitudes as bit patterns.
//!
//! A pattern is the `u32` that encodes a binary32 number: one sign bit, eight
//! exponent bits, twenty-three fraction bits. Every number such a pattern
//! stands for is a whole multiple of 2^-149, so its meaning is given here as
//! an integer count of that unit. Infinity takes the count that its pattern
//! would have as an ordinary number, which puts it above every finite number.
//! A NaN pattern stands for no number.

use vstd::prelude::*;
use vstd::arithmetic::power2::{
    lemma2_to64, lemma_pow2_adds, lemma_pow2_pos, lemma_pow2_strictly_increases, lemma_pow2_unfold,
    pow2,
};

verus! {

/// The pattern of positive zero.
pub const ZERO: u32 = 0;

/// The pattern of positive infinity. Larger magnitudes are NaN.
pub const INFINITY: u32 = 0x7f80_0000;

/// The magnitudes run below this value; the sign bit is this value itself.
pub const SIGN_BIT: u32 = 0x8000_0000;

/// The pattern with the sign bit cleared: the pattern of the absolute value.
pub open spec fn magnitude(bits: u32) -> u32 {
    (bits % 0x8000_0000) as u32
}

/// Whether the sign bit is set.
pub open spec fn is_negative(bits: u32) -> bool {
    bits >= 0x8000_0000
}

/// Whether the pattern stands for no number.
pub open spec fn is_nan(bits: u32) -> bool {
    magnitude(bits) > 0x7f80_0000
}

/// The eight exponent bits.
pub open spec fn exponent(bits: u32) -> nat {
    (magnitude(bits) / 0x80_0000) as nat
}

/// The twenty-three fraction bits.
pub open spec fn fraction(bits: u32) -> nat {
    (magnitude(bits) % 0x80_0000) as nat
}

/// The absolute value, counted in units of 2^-149.
///
/// With a zero exponent the fraction is the count. Otherwise the leading one
/// is put in front of the fraction and the whole is doubled once for each
/// step of the exponent above one.
pub open spec fn scaled_magnitude(bits: u32) -> nat {
    if exponent(bits) == 0 {
        fraction(bits)
    } else {
        (0x80_0000 + fraction(bits)) * pow2((exponent(bits) - 1) as nat)
    }
}

/// The value, counted in units of 2^-149. Both zeros count as zero.
pub open spec fn scaled_value(bits: u32) -> int {
    if is_negative(bits) {
        -(scaled_magnitude(bits) as int)
    } else {
        scaled_magnitude(bits) as int
    }
}

/// Whether `a` is greater than `b` as numbers. A NaN is greater than nothing
/// and nothing is greater than a NaN.
pub open spec fn exceeds(a: u32, b: u32) -> bool {
    !is_nan(a) && !is_nan(b) && scaled_value(a) > scaled_value(b)
}

/// The place of a pattern in the order of numbers: its magnitude, counted
/// downwards from zero where the sign bit is set.
pub open spec fn ordinal(bits: u32) -> int {
    if is_negative(bits) {
        -(magnitude(bits) as int)
    } else {
        magnitude(bits) as int
    }
}

/// Among magnitudes, the larger pattern stands for the larger number.
pub proof fn lemma_magnitude_order(a: u32, b: u32)
    requires
        magnitude(a) < magnitude(b),
    ensures
        scaled_magnitude(a) < scaled_magnitude(b),
{
    let ea: nat = exponent(a);
    let eb: nat = exponent(b);
    let fa: nat = fraction(a);
    let fb: nat = fraction(b);
    assert(magnitude(a) == ea * 0x80_0000 + fa);
    assert(magnitude(b) == eb * 0x80_0000 + fb);
    assert(fa < 0x80_0000 && fb < 0x80_0000);
    if ea == eb {
        assert(fa < fb);
        if ea != 0 {
            let p: nat = pow2((ea - 1) as nat);
            lemma_pow2_pos((ea - 1) as nat);
            assert((0x80_0000 + fa) * p < (0x80_0000 + fb) * p) by (nonlinear_arith)
                requires
                    fa < fb,
                    p > 0,
            ;
        }
    } else {
        assert(ea < eb);
        let q: nat = pow2((eb - 1) as nat);
        lemma_pow2_pos((eb - 1) as nat);
        assert(0x80_0000 * q <= (0x80_0000 + fb) * q) by (nonlinear_arith)
            requires
                q > 0,
        ;
        if ea == 0 {
            assert(0x80_0000 <= 0x80_0000 * q) by (nonlinear_arith)
                requires
                    q > 0,
            ;
        } else {
            let p: nat = pow2((ea - 1) as nat);
            lemma_pow2_pos((ea - 1) as nat);
            lemma_pow2_unfold(ea);
            assert(pow2(ea) == 2 * p);
            if ea < eb - 1 {
                lemma_pow2_strictly_increases(ea, (eb - 1) as nat);
            }
            assert(pow2(ea) <= q);
            assert((0x80_0000 + fa) * p < 0x80_0000 * (2 * p)) by (nonlinear_arith)
                requires
                    fa < 0x80_0000,
                    p > 0,
            ;
            assert(0x80_0000 * (2 * p) <= 0x80_0000 * q) by (nonlinear_arith)
                requires
                    2 * p <= q,
            ;
        }
    }
}

/// The order of magnitudes is the order of the numbers they stand for, and
/// two magnitudes stand for the same number only if they are the same.
pub proof fn lemma_magnitude_order_iff(a: u32, b: u32)
    ensures
        magnitude(a) < magnitude(b) <==> scaled_magnitude(a) < scaled_magnitude(b),
        magnitude(a) == magnitude(b) <==> scaled_magnitude(a) == scaled_magnitude(b),
{
    if magnitude(a) < magnitude(b) {
        lemma_magnitude_order(a, b);
    } else if magnitude(b) < magnitude(a) {
        lemma_magnitude_order(b, a);
    }
}

/// Only the two zeros count as zero.
pub proof fn lemma_zero_magnitude(bits: u32)
    ensures
        scaled_magnitude(bits) == 0 <==> magnitude(bits) == 0,
{
    lemma_magnitude_order_iff(ZERO, bits);
}

/// Numbers compare as the places of their patterns do.
pub proof fn lemma_exceeds_by_ordinal(a: u32, b: u32)
    ensures
        exceeds(a, b) <==> !is_nan(a) && !is_nan(b) && ordinal(a) > ordinal(b),
{
    lemma_magnitude_order_iff(a, b);
    lemma_zero_magnitude(a);
    lemma_zero_magnitude(b);
}

/// Where some well-known numbers stand: the smallest number above zero is
/// one unit, the smallest with a leading one is 2^23 units, and one is 2^149
/// units.
pub proof fn lemma_landmarks()
    ensures
        scaled_magnitude(0x0000_0000) == 0,
        scaled_magnitude(0x0000_0001) == 1,
        scaled_magnitude(0x0080_0000) == pow2(23),
        scaled_magnitude(0x3f80_0000) == pow2(149),
        scaled_value(0xbf80_0000) == -pow2(149),
{
    lemma2_to64();
    lemma_pow2_adds(23, 126);
    assert(exponent(0x0080_0000) == 1 && fraction(0x0080_0000) == 0);
    assert(0x80_0000 * pow2(0) == 0x80_0000) by (nonlinear_arith)
        requires
            pow2(0) == 1,
    ;
    assert(exponent(0x3f80_0000) == 127 && fraction(0x3f80_0000) == 0);
    assert(exponent(0xbf80_0000) == 127 && fraction(0xbf80_0000) == 0);
}

/// Clears the sign bit.
pub fn abs(bits: u32) -> (m: u32)
    ensures
        m == magnitude(bits),
        m < SIGN_BIT,
{
    assert(bits & 0x7fff_ffff == bits % 0x8000_0000) by (bit_vector);
    bits & 0x7fff_ffff
}

/// Tells whether the sign bit is set.
pub fn sign_is_set(bits: u32) -> (negative: bool)
    ensures
        negative == is_negative(bits),
{
    bits >= SIGN_BIT
}

/// Tells whether the pattern stands for no number.
pub fn not_a_number(bits: u32) -> (nan: bool)
    ensures
        nan == is_nan(bits),
{
    abs(bits) > INFINITY
}

/// Computes the place of a pattern in the order of numbers.
pub fn place(bits: u32) -> (p: i64)
    ensures
        p == ordinal(bits),
{
    let m: i64 = abs(bits) as i64;
    if sign_is_set(bits) {
        -m
    } else {
        m
    }
}

/// Compares two patterns as numbers.
pub fn greater_than(a: u32, b: u32) -> (greater: bool)
    ensures
        greater == exceeds(a, b),
{
    proof {
        lemma_exceeds_by_ordinal(a, b);
    }
    !not_a_number(a) && !not_a_number(b) && place(a) > place(b)
}

} // verus!
