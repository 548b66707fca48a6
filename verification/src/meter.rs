//! The peak meter's envelope law and its decay weight.
//!
//! The meter is an asymmetric envelope follower: it jumps instantly to any
//! block amplitude above it (attack) and otherwise falls exponentially
//! (release). The per-sample decay weight is derived from the rule that after
//! 150 ms of silence the meter must have fallen by 12 dB, i.e. to a quarter:
//! `weight = 0.25 ^ (1 / (sample_rate * 0.15))`.

use vstd::prelude::*;

verus! {

use crate::fixed::AMP_MAX;
use crate::fixed::ONE;

/// ln 4 in the Q32 encoding (rounded to the nearest integer): the magnitude
/// of the natural logarithm of the 12 dB decay factor 0.25.
pub const LN4_Q32: u64 = 5954088944;

/// The real-time interval over which silence must shrink the meter to a
/// quarter, in milliseconds.
pub const DECAY_MS: u64 = 150;

/// The release level: the old level pulled toward the block amplitude by the
/// decay weight `w` (both in Q32), `(cur * w + amp * (ONE - w)) / ONE`
/// rounded down.
pub open spec fn release_level(cur: int, amp: int, w: int) -> int {
    (cur * w + amp * (ONE - w)) / (ONE as int)
}

/// The envelope law: instant attack above the current level, exponential
/// release at or below it.
pub open spec fn meter_level(cur: int, amp: int, w: int) -> int {
    if amp > cur {
        amp
    } else {
        release_level(cur, amp, w)
    }
}

/// The per-sample exponent of the decay, in Q32: `ln 4 / (0.15 * rate)`,
/// rounded down.
pub open spec fn decay_exponent(rate: int) -> int {
    (LN4_Q32 * 1000) as int / (DECAY_MS * rate)
}

/// The decay weight for a sample rate: `e^-x` for the decay exponent `x`,
/// by its quadratic series `1 - x + x^2 / 2` in Q32 — exact to the last
/// fixed-point digit for every real sample rate, since `x` is then far below
/// one. An absurdly low rate whose exponent reaches 1.0 decays instantly.
pub open spec fn decay_weight(rate: int) -> int {
    let x = decay_exponent(rate);
    if x >= ONE {
        0
    } else {
        ONE - x + (x * x) / (2 * ONE)
    }
}

/// The release never rises: with the amplitude at or below the current
/// level, the next level stays between the two.
pub proof fn lemma_release_between(cur: int, amp: int, w: int)
    requires
        0 <= amp <= cur,
        0 <= w <= ONE,
    ensures
        amp <= release_level(cur, amp, w) <= cur,
{
    let one = ONE as int;
    assert(amp * one <= cur * w + amp * (one - w) <= cur * one) by (nonlinear_arith)
        requires
            0 <= amp <= cur && 0 <= w <= one,
    ;
    assert(amp * one / one == amp) by (nonlinear_arith)
        requires
            one > 0,
    ;
    assert(cur * one / one == cur) by (nonlinear_arith)
        requires
            one > 0,
    ;
    vstd::arithmetic::div_mod::lemma_div_is_ordered(amp * one, cur * w + amp * (one - w), one);
    vstd::arithmetic::div_mod::lemma_div_is_ordered(cur * w + amp * (one - w), cur * one, one);
}

/// Law: a silent block strictly shrinks a positive meter — the release of
/// amplitude zero is exactly `cur * w / ONE`, below `cur` whenever the
/// weight is below one — and leaves a meter at zero alone.
pub proof fn lemma_silent_release(cur: int, w: int)
    requires
        0 <= cur,
        0 <= w < ONE,
    ensures
        meter_level(cur, 0, w) == (cur * w) / (ONE as int),
        cur > 0 ==> meter_level(cur, 0, w) < cur,
        cur == 0 ==> meter_level(cur, 0, w) == 0,
{
    let one = ONE as int;
    assert((cur * w + 0 * (one - w)) == cur * w);
    if cur > 0 {
        assert(cur * w / one < cur) by (nonlinear_arith)
            requires
                cur > 0 && 0 <= w < one,
        ;
    }
}

/// One envelope update. The attack is exact: an amplitude above the current
/// level becomes the level, with no smoothing. The release keeps the level
/// between the amplitude and the old level.
pub fn meter_step(cur: u64, amp: u64, w: u64) -> (r: u64)
    requires
        cur <= AMP_MAX,
        amp <= AMP_MAX,
        w <= ONE,
    ensures
        r == meter_level(cur as int, amp as int, w as int),
        amp > cur ==> r == amp,
        r <= AMP_MAX,
{
    if amp > cur {
        amp
    } else {
        proof {
            lemma_release_between(cur as int, amp as int, w as int);
        }
        let num: u128 = (cur as u128) * (w as u128) + (amp as u128) * ((ONE - w) as u128);
        (num / (ONE as u128)) as u64
    }
}

/// Translates the host's sample rate into the per-sample decay weight, as
/// `decay_weight` states it. Any real rate gives a weight strictly below
/// one, so a positive meter always decays.
pub fn decay_weight_for_rate(sample_rate: u32) -> (w: u64)
    requires
        sample_rate >= 1,
    ensures
        w == decay_weight(sample_rate as int),
        w < ONE,
{
    let num: u64 = LN4_Q32 * 1000;
    let den: u64 = DECAY_MS * (sample_rate as u64);
    let x: u64 = num / den;
    proof {
        vstd::arithmetic::div_mod::lemma_div_is_ordered(
            den as int,
            num as int,
            den as int,
        );
        assert(den as int / den as int == 1) by (nonlinear_arith)
            requires
                den >= 1,
        ;
    }
    if x >= ONE {
        0
    } else {
        proof {
            let xi = x as int;
            let one = ONE as int;
            assert(1 <= xi);
            assert(xi * xi / (2 * one) < xi && xi * xi < one * one) by (nonlinear_arith)
                requires
                    1 <= xi < one,
            ;
        }
        let sq: u64 = (((x as u128) * (x as u128)) / (2 * ONE as u128)) as u64;
        ONE - x + sq
    }
}

} // verus!
