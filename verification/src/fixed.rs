//! Q32 fixed-point encoding of amplitudes and gains.
//!
//! A gain of 1.0 is `ONE` (2^32); a sample amplitude of 1.0 is likewise
//! `ONE` in an `i64`. Applying a gain multiplies by the gain and divides by
//! `ONE`, rounding the magnitude down (toward zero).

use vstd::prelude::*;

verus! {

/// Unit gain (1.0) in the Q32 encoding.
pub const ONE: u64 = 0x1_0000_0000;

/// Largest magnitude an `i64` sample can carry (2^63); every amplitude the
/// meter tracks stays at or below this.
pub const AMP_MAX: u64 = 0x8000_0000_0000_0000;

/// What applying gain `g` to sample `s` yields: the product scaled back down
/// by `ONE`, with the magnitude rounded toward zero so that attenuation never
/// grows a sample.
pub open spec fn scaled(s: int, g: int) -> int {
    if s >= 0 {
        (s * g) / (ONE as int)
    } else {
        -(((-s) * g) / (ONE as int))
    }
}

/// Unit gain passes every sample through unchanged.
pub proof fn lemma_scaled_identity(s: int)
    ensures
        scaled(s, ONE as int) == s,
{
    if s >= 0 {
        assert(s * (ONE as int) / (ONE as int) == s) by (nonlinear_arith);
    } else {
        assert((-s) * (ONE as int) / (ONE as int) == -s) by (nonlinear_arith);
    }
}

/// A gain of at most `ONE` never grows a sample's magnitude.
pub proof fn lemma_scaled_bound(s: int, g: int)
    requires
        0 <= g <= ONE,
    ensures
        s >= 0 ==> 0 <= scaled(s, g) <= s,
        s < 0 ==> s <= scaled(s, g) <= 0,
{
    if s >= 0 {
        assert(0 <= (s * g) / (ONE as int) <= s) by (nonlinear_arith)
            requires
                s >= 0 && 0 <= g <= ONE as int,
        ;
    } else {
        assert(0 <= ((-s) * g) / (ONE as int) <= -s) by (nonlinear_arith)
            requires
                s < 0 && 0 <= g <= ONE as int,
        ;
    }
}

/// For a non-negative sample, scaling is monotone in the gain.
pub proof fn lemma_scaled_monotone_gain(s: int, g1: int, g2: int)
    requires
        s >= 0,
        0 <= g1 <= g2,
    ensures
        scaled(s, g1) <= scaled(s, g2),
{
    assert((s * g1) / (ONE as int) <= (s * g2) / (ONE as int)) by (nonlinear_arith)
        requires
            s >= 0 && 0 <= g1 <= g2,
    ;
}

/// Applies gain `g` (at most unit) to sample `s`, rounding the magnitude
/// toward zero.
pub fn apply_gain(s: i64, g: u64) -> (r: i64)
    requires
        g <= ONE,
    ensures
        r == scaled(s as int, g as int),
{
    proof {
        lemma_scaled_bound(s as int, g as int);
    }
    if s >= 0 {
        let mag: u128 = s as u128;
        let scaled_mag: u128 = (mag * (g as u128)) / (ONE as u128);
        scaled_mag as i64
    } else {
        let mag: u128 = (-(s as i128)) as u128;
        let scaled_mag: u128 = (mag * (g as u128)) / (ONE as u128);
        (-(scaled_mag as i128)) as i64
    }
}

} // verus!
