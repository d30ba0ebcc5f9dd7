//! Vector components as IEEE single-precision bit patterns.
//!
//! The façade never interprets a component numerically; it only needs two
//! things of the bit patterns: a range check that keeps the engine's
//! distance arithmetic away from overflow and subnormal loss, and the
//! standard order embedding used to state how search results are ranked.

use vstd::prelude::*;

verus! {

/// The bit pattern with the sign bit cleared: sign-less magnitude.
pub open spec fn magnitude_bits(b: u32) -> u32 {
    b & 0x7fff_ffff
}

/// The eight exponent bits of an IEEE single-precision pattern.
pub open spec fn exponent_bits(b: u32) -> u32 {
    (b >> 23u32) & 0xff
}

/// The 23 fraction bits of an IEEE single-precision pattern.
pub open spec fn fraction_bits(b: u32) -> u32 {
    b & 0x7f_ffff
}

/// The pattern encodes a NaN: exponent all ones, fraction nonzero.
pub open spec fn is_nan_bits(b: u32) -> bool {
    exponent_bits(b) == 0xff && fraction_bits(b) != 0
}

/// A component the index engine can take: exactly zero, or a finite
/// value whose magnitude lies between two to the minus 63rd and two to
/// the 63rd (exponent field between 64 and 189).  Then the product of any
/// two components is a normal finite single-precision value, so the
/// engine's similarity arithmetic can neither overflow to infinity nor
/// lose its value to subnormal rounding, which its internal checks do not
/// tolerate.
pub open spec fn component_ok(b: u32) -> bool {
    magnitude_bits(b) == 0 || (64 <= exponent_bits(b) && exponent_bits(b) <= 189)
}

/// Every component of the vector is acceptable to the engine.
pub open spec fn vec_ok(s: Seq<u32>) -> bool {
    forall|i: int| 0 <= i < s.len() ==> component_ok(s[i])
}

/// The standard order embedding of single-precision values into the
/// integers: magnitude, negated for negative values.  It is monotone with
/// the floating-point order on every pair of non-NaN patterns, and maps
/// both zeros to zero.
pub open spec fn float_key(b: u32) -> int {
    if b >> 31u32 == 1 {
        -(magnitude_bits(b) as int)
    } else {
        magnitude_bits(b) as int
    }
}

/// The floating-point "less than or equal", read off the bit patterns;
/// vacuously true when either side is NaN.
pub open spec fn score_le(a: u32, b: u32) -> bool {
    is_nan_bits(a) || is_nan_bits(b) || float_key(a) <= float_key(b)
}

/// Decides `vec_ok` for an actual vector of bit patterns.
pub fn vector_within_range(v: &Vec<u32>) -> (ok: bool)
    ensures
        ok == vec_ok(v@),
{
    let mut i: usize = 0;
    while i < v.len()
        invariant
            0 <= i <= v@.len(),
            forall|j: int| 0 <= j < i ==> component_ok(v@[j]),
        decreases v@.len() - i,
    {
        let b = v[i];
        let m = b & 0x7fff_ffff;
        let e = (b >> 23u32) & 0xff;
        if m != 0 && (e < 64 || e > 189) {
            assert(!component_ok(v@[i as int]));
            return false;
        }
        assert(component_ok(v@[i as int]));
        i = i + 1;
    }
    true
}

} // verus!
