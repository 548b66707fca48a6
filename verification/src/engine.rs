//! The render engine: the real-time entry point invoked once per host audio
//! callback.
//!
//! Per sample index it pulls one smoothed gain (shared across channels, so
//! stereo stays phase-coherent), multiplies every channel's sample in place,
//! and accumulates per-channel sums. After the block, and only while the
//! display is open, each channel's absolute mean amplitude drives the peak
//! meter through the envelope law.

use vstd::prelude::*;

verus! {

use crate::fixed::apply_gain;
use crate::fixed::lemma_scaled_bound;
use crate::fixed::lemma_scaled_identity;
use crate::fixed::lemma_scaled_monotone_gain;
use crate::fixed::scaled;
use crate::fixed::AMP_MAX;
use crate::fixed::ONE;
use crate::meter::decay_weight;
use crate::meter::decay_weight_for_rate;
use crate::meter::lemma_release_between;
use crate::meter::lemma_silent_release;
use crate::meter::meter_level;
use crate::meter::meter_step;
use crate::smoother::GainParam;
use crate::smoother::DEFAULT_WINDOW;
use crate::smoother::SMOOTHING_MS;
use vstd::math::abs;

/// The plugin's host-automatable controls: a single gain.
#[derive(Clone, Copy, Debug, PartialEq, Eq, Structural)]
pub struct BasicParameters {
    pub gain: GainParam,
}

/// The gain stage with its peak meter.
///
/// The render thread is the sole writer of every field; the display reads
/// `peak_meter` as a snapshot by value. The shell around the library is
/// responsible for carrying that snapshot through an atomic cell.
#[derive(Clone, Copy, Debug, PartialEq, Eq, Structural)]
pub struct Basic {
    pub parameters: BasicParameters,
    pub peak_meter: u64,
    pub peak_meter_decay_weight: u64,
}

/// The per-channel sample sequences of a block.
pub open spec fn block_view(b: Seq<Vec<i64>>) -> Seq<Seq<i64>> {
    Seq::new(b.len(), |c: int| b[c]@)
}

/// The number of sample indices a block holds (zero for a channel-less
/// block).
pub open spec fn block_frames(b: Seq<Seq<i64>>) -> nat {
    if b.len() == 0 {
        0
    } else {
        b[0].len()
    }
}

/// Every channel holds the same number of samples.
pub open spec fn uniform_block(b: Seq<Seq<i64>>) -> bool {
    forall|c: int| 0 <= c < b.len() ==> (#[trigger] b[c].len()) == block_frames(b)
}

/// The sum of a channel's first `n` post-gain samples, with the gains the
/// smoother emits from state `g0`.
pub open spec fn channel_sum(ch: Seq<i64>, g0: GainParam, n: nat) -> int
    decreases n,
{
    if n == 0 {
        0
    } else {
        channel_sum(ch, g0, (n - 1) as nat) + scaled(
            ch[n - 1] as int,
            g0.gain_at((n - 1) as nat) as int,
        )
    }
}

/// A channel's block amplitude: the absolute mean of its post-gain samples,
/// rounded down.
pub open spec fn block_amplitude(ch: Seq<i64>, g0: GainParam, m: nat) -> int {
    (abs(channel_sum(ch, g0, m)) as int) / (m as int)
}

/// The meter after the first `c` channels of a processed block have each fed
/// their amplitude through the envelope law, starting from level `p0`.
pub open spec fn meter_after(b: Seq<Seq<i64>>, g0: GainParam, w: int, p0: int, c: nat) -> int
    decreases c,
{
    if c == 0 {
        p0
    } else {
        meter_level(
            meter_after(b, g0, w, p0, (c - 1) as nat),
            block_amplitude(b[c - 1], g0, block_frames(b)),
            w,
        )
    }
}

/// The smoothing window for a sample rate: `SMOOTHING_MS` of samples, and
/// never less than one sample.
pub open spec fn window_for_rate(rate: int) -> int {
    let w = rate * SMOOTHING_MS / 1000;
    if w < 1 {
        1
    } else {
        w
    }
}

impl Basic {
    /// Well-formedness: the smoother is sound, the meter level is a real
    /// amplitude, and the decay weight actually decays.
    pub open spec fn wf(self) -> bool {
        &&& self.parameters.gain.wf()
        &&& self.peak_meter <= AMP_MAX
        &&& self.peak_meter_decay_weight < ONE
    }
}

/// A channel's post-gain sums stay within `n` times the largest sample
/// magnitude.
proof fn lemma_channel_sum_bound(ch: Seq<i64>, g0: GainParam, n: nat)
    requires
        g0.wf(),
        n <= ch.len(),
    ensures
        -(n * AMP_MAX) <= channel_sum(ch, g0, n) <= n * AMP_MAX,
    decreases n,
{
    if n > 0 {
        lemma_channel_sum_bound(ch, g0, (n - 1) as nat);
        g0.lemma_advanced_n_wf(n);
        lemma_scaled_bound(ch[n - 1] as int, g0.gain_at((n - 1) as nat) as int);
    }
}

/// A block amplitude is a real amplitude: at most the largest sample
/// magnitude.
proof fn lemma_amplitude_bound(ch: Seq<i64>, g0: GainParam, m: nat)
    requires
        g0.wf(),
        1 <= m <= ch.len(),
    ensures
        0 <= block_amplitude(ch, g0, m) <= AMP_MAX,
{
    lemma_channel_sum_bound(ch, g0, m);
    let s = channel_sum(ch, g0, m);
    assert(0 <= abs(s) <= m * AMP_MAX);
    assert(0 <= (abs(s) as int) / (m as int) <= AMP_MAX) by (nonlinear_arith)
        requires
            1 <= m && 0 <= abs(s) <= m * (AMP_MAX as int),
    ;
}

/// The meter never leaves the amplitude range, however many channels have
/// fed it.
proof fn lemma_meter_after_bound(b: Seq<Seq<i64>>, g0: GainParam, w: int, p0: int, c: nat)
    requires
        g0.wf(),
        uniform_block(b),
        c <= b.len(),
        block_frames(b) >= 1,
        0 <= p0 <= AMP_MAX,
        0 <= w <= ONE,
    ensures
        0 <= meter_after(b, g0, w, p0, c) <= AMP_MAX,
    decreases c,
{
    if c > 0 {
        lemma_meter_after_bound(b, g0, w, p0, (c - 1) as nat);
        let cur = meter_after(b, g0, w, p0, (c - 1) as nat);
        let amp = block_amplitude(b[c - 1], g0, block_frames(b));
        lemma_amplitude_bound(b[c - 1], g0, block_frames(b));
        if amp <= cur {
            lemma_release_between(cur, amp, w);
        }
    }
}

impl Default for Basic {
    /// A fresh plugin instance: converged unit gain, meter at zero, and no
    /// decay weight until the host establishes a sample rate.
    fn default() -> (b: Basic)
        ensures
            b.wf(),
            b.parameters.gain.current == ONE,
            b.parameters.gain.target == ONE,
            b.parameters.gain.steps_left == 0,
            b.parameters.gain.window == DEFAULT_WINDOW,
            b.peak_meter == 0,
            b.peak_meter_decay_weight == 0,
    {
        Basic {
            parameters: BasicParameters { gain: GainParam::new() },
            peak_meter: 0,
            peak_meter_decay_weight: 0,
        }
    }
}

impl Basic {
    /// The plugin's controls, as the host sees them.
    pub fn params(&self) -> (p: &BasicParameters)
        ensures
            *p == self.parameters,
    {
        &self.parameters
    }

    /// (Re)establishes the sample rate before a processing session: the
    /// decay weight is recomputed — never carried stale across a rate change
    /// — and the smoothing window is re-derived, restarting any running
    /// ramp. Always reports readiness.
    pub fn initialize(&mut self, sample_rate: u32) -> (ok: bool)
        requires
            old(self).wf(),
            sample_rate >= 1,
        ensures
            ok,
            final(self).wf(),
            final(self).peak_meter == old(self).peak_meter,
            final(self).peak_meter_decay_weight == decay_weight(sample_rate as int),
            final(self).parameters.gain == old(self).parameters.gain.rewindowed(
                window_for_rate(sample_rate as int) as u64,
            ),
    {
        self.peak_meter_decay_weight = decay_weight_for_rate(sample_rate);
        let w: u64 = (sample_rate as u64) * SMOOTHING_MS / 1000;
        let w: u64 = if w < 1 {
            1
        } else {
            w
        };
        self.parameters.gain.set_window(w);
        true
    }

    /// Processes one block in place: every sample is multiplied by the
    /// smoothed gain of its sample index, and — only while the display is
    /// open — each channel's absolute mean amplitude feeds the peak meter
    /// through the envelope law, instant on attack, exponential on release.
    /// A closed display leaves the meter untouched whatever the input.
    pub fn process(&mut self, block: &mut Vec<Vec<i64>>, editor_open: bool)
        requires
            old(self).wf(),
            uniform_block(block_view(old(block)@)),
        ensures
            final(self).wf(),
            final(block)@.len() == old(block)@.len(),
            forall|c: int|
                0 <= c < old(block)@.len() ==> (#[trigger] final(block)@[c])@.len() == old(
                    block,
                )@[c]@.len(),
            forall|c: int, i: int|
                0 <= c < old(block)@.len() && 0 <= i < old(block)@[c]@.len() ==> (
                #[trigger] final(block)@[c]@[i]) == scaled(
                    old(block)@[c]@[i] as int,
                    old(self).parameters.gain.gain_at(i as nat) as int,
                ),
            final(self).parameters.gain == old(self).parameters.gain.advanced_n(
                block_frames(block_view(old(block)@)),
            ),
            final(self).peak_meter_decay_weight == old(self).peak_meter_decay_weight,
            editor_open && block_frames(block_view(old(block)@)) > 0 ==> final(self).peak_meter
                == meter_after(
                block_view(old(block)@),
                old(self).parameters.gain,
                old(self).peak_meter_decay_weight as int,
                old(self).peak_meter as int,
                old(block)@.len() as nat,
            ),
            !(editor_open && block_frames(block_view(old(block)@)) > 0)
                ==> final(self).peak_meter == old(self).peak_meter,
    {
        let ghost g0 = self.parameters.gain;
        let ghost dv0 = block_view(old(block)@);
        let nch: usize = block.len();
        if nch == 0 {
            return ;
        }
        let m: usize = block[0].len();
        proof {
            assert forall|c: int|
                0 <= c < nch implies dv0[c] == (#[trigger] old(block)@[c])@ && old(
                    block,
                )@[c]@.len() == m by {
                assert(dv0[c] == old(block)@[c]@);
                assert(dv0[0] == old(block)@[0]@);
                assert(dv0[c].len() == block_frames(dv0));
            }
            assert forall|c: int| 0 <= c < nch implies dv0[c] == (#[trigger] block@[c])@ by {
                assert(dv0[c] == old(block)@[c]@);
            }
            assert(block_frames(dv0) == m);
        }
        if m == 0 {
            return ;
        }

        let mut sums: Vec<i128> = Vec::new();
        let mut k: usize = 0;
        while k < nch
            invariant
                k <= nch,
                sums@.len() == k,
                forall|c: int| 0 <= c < k ==> sums@[c] == 0,
            decreases nch - k,
        {
            sums.push(0);
            k = k + 1;
        }

        let mut i: usize = 0;
        while i < m
            invariant
                old(self).wf(),
                g0 == old(self).parameters.gain,
                dv0 == block_view(old(block)@),
                uniform_block(dv0),
                nch == dv0.len(),
                0 < m == block_frames(dv0),
                i <= m,
                block@.len() == nch,
                forall|c: int| 0 <= c < nch ==> (#[trigger] block@[c])@.len() == m,
                forall|c: int, j: int|
                    0 <= c < nch && 0 <= j < i ==> (#[trigger] block@[c]@[j]) == scaled(
                        dv0[c][j] as int,
                        g0.gain_at(j as nat) as int,
                    ),
                forall|c: int, j: int|
                    0 <= c < nch && i <= j < m ==> (#[trigger] block@[c]@[j]) == dv0[c][j],
                self.parameters.gain == g0.advanced_n(i as nat),
                self.parameters.gain.wf(),
                self.peak_meter == old(self).peak_meter,
                self.peak_meter_decay_weight == old(self).peak_meter_decay_weight,
                sums@.len() == nch,
                forall|c: int|
                    0 <= c < nch ==> (#[trigger] sums@[c]) == channel_sum(dv0[c], g0, i as nat),
                forall|c: int|
                    0 <= c < nch ==> -((i as int) * AMP_MAX) <= (#[trigger] sums@[c]) <= (
                    i as int) * AMP_MAX,
            decreases m - i,
        {
            let g: u64 = self.parameters.gain.next();
            proof {
                assert(g0.advanced_n((i + 1) as nat) == g0.advanced_n(i as nat).advanced());
                assert(g == g0.gain_at(i as nat));
            }
            let mut c: usize = 0;
            while c < nch
                invariant
                    uniform_block(dv0),
                    nch == dv0.len(),
                    0 < m == block_frames(dv0),
                    i < m,
                    c <= nch,
                    g == g0.gain_at(i as nat),
                    g <= ONE,
                    g0.wf(),
                    block@.len() == nch,
                    forall|cc: int| 0 <= cc < nch ==> (#[trigger] block@[cc])@.len() == m,
                    forall|cc: int, j: int|
                        0 <= cc < nch && 0 <= j < i ==> (#[trigger] block@[cc]@[j]) == scaled(
                            dv0[cc][j] as int,
                            g0.gain_at(j as nat) as int,
                        ),
                    forall|cc: int|
                        0 <= cc < c ==> (#[trigger] block@[cc]@[i as int]) == scaled(
                            dv0[cc][i as int] as int,
                            g0.gain_at(i as nat) as int,
                        ),
                    forall|cc: int|
                        c <= cc < nch ==> (#[trigger] block@[cc]@[i as int]) == dv0[cc][i as int],
                    forall|cc: int, j: int|
                        0 <= cc < nch && i < j < m ==> (#[trigger] block@[cc]@[j]) == dv0[cc][j],
                    sums@.len() == nch,
                    forall|cc: int|
                        0 <= cc < c ==> (#[trigger] sums@[cc]) == channel_sum(
                            dv0[cc],
                            g0,
                            (i + 1) as nat,
                        ),
                    forall|cc: int|
                        c <= cc < nch ==> (#[trigger] sums@[cc]) == channel_sum(
                            dv0[cc],
                            g0,
                            i as nat,
                        ),
                    forall|cc: int|
                        0 <= cc < c ==> -(((i + 1) as int) * AMP_MAX) <= (#[trigger] sums@[cc])
                            <= ((i + 1) as int) * AMP_MAX,
                    forall|cc: int|
                        c <= cc < nch ==> -((i as int) * AMP_MAX) <= (#[trigger] sums@[cc]) <= (
                        i as int) * AMP_MAX,
                decreases nch - c,
            {
                let s: i64 = block[c][i];
                proof {
                    assert(s == dv0[c as int][i as int]);
                    lemma_scaled_bound(s as int, g as int);
                }
                let v: i64 = apply_gain(s, g);
                block[c][i] = v;
                let prev: i128 = sums[c];
                sums[c] = prev + (v as i128);
                c = c + 1;
            }
            i = i + 1;
        }

        if editor_open {
            let w: u64 = self.peak_meter_decay_weight;
            let ghost p0 = self.peak_meter as int;
            let mut c: usize = 0;
            while c < nch
                invariant
                    g0.wf(),
                    uniform_block(dv0),
                    nch == dv0.len(),
                    0 < m == block_frames(dv0),
                    c <= nch,
                    w == old(self).peak_meter_decay_weight,
                    w < ONE,
                    p0 == old(self).peak_meter as int,
                    0 <= p0 <= AMP_MAX,
                    sums@.len() == nch,
                    forall|cc: int|
                        0 <= cc < nch ==> (#[trigger] sums@[cc]) == channel_sum(
                            dv0[cc],
                            g0,
                            m as nat,
                        ),
                    forall|cc: int|
                        0 <= cc < nch ==> -((m as int) * AMP_MAX) <= (#[trigger] sums@[cc]) <= (
                        m as int) * AMP_MAX,
                    self.peak_meter == meter_after(dv0, g0, w as int, p0, c as nat),
                    self.peak_meter <= AMP_MAX,
                    self.parameters.gain == g0.advanced_n(m as nat),
                    self.peak_meter_decay_weight == old(self).peak_meter_decay_weight,
                decreases nch - c,
            {
                let s: i128 = sums[c];
                let mag: u128 = if s >= 0 {
                    s as u128
                } else {
                    (-s) as u128
                };
                proof {
                    lemma_amplitude_bound(dv0[c as int], g0, m as nat);
                    assert(mag as int == abs(channel_sum(dv0[c as int], g0, m as nat)));
                }
                let amp: u64 = (mag / (m as u128)) as u64;
                proof {
                    assert(amp as int == block_amplitude(dv0[c as int], g0, m as nat));
                }
                self.peak_meter = meter_step(self.peak_meter, amp, w);
                c = c + 1;
            }
        }
    }

    /// Transport reset: the render path keeps its state, exactly as the
    /// plugin declares by leaving the hook empty.
    pub fn reset(&mut self)
        ensures
            *final(self) == *old(self),
    {
    }
}

/// Law: once the smoother has converged at unit gain, processing is the
/// identity on every sample of every block — whatever the sample index, the
/// emitted gain is one and scaling by it changes nothing.
pub proof fn lemma_identity_processing(g0: GainParam, s: i64, i: nat)
    requires
        g0.wf(),
        g0.steps_left == 0,
        g0.target == ONE,
    ensures
        g0.gain_at(i) == ONE,
        scaled(s as int, g0.gain_at(i) as int) == s,
{
    g0.lemma_converged(i + 1);
    lemma_scaled_identity(s as int);
}

/// During a downward ramp the emitted gains never rise: each advanced state
/// stays between the target and the starting value, and each emission moves
/// the gain down or not at all.
pub proof fn lemma_ramp_down(g0: GainParam, n: nat)
    requires
        g0.wf(),
        g0.target <= g0.current,
    ensures
        g0.advanced_n(n).target == g0.target,
        g0.target <= g0.advanced_n(n).current <= g0.current,
        g0.advanced_n(n + 1).current <= g0.advanced_n(n).current,
    decreases n,
{
    g0.lemma_advanced_n_wf(n);
    g0.lemma_advanced_n_wf(n + 1);
    if n == 0 {
        assert(g0.advanced_n(1) == g0.advanced());
    } else {
        lemma_ramp_down(g0, (n - 1) as nat);
        assert(g0.advanced_n(n) == g0.advanced_n((n - 1) as nat).advanced());
        assert(g0.advanced_n(n + 1) == g0.advanced_n(n).advanced());
    }
}

/// Law: during a downward ramp, a constant non-negative input produces a
/// non-increasing, non-negative output sequence — the gain jump from one to
/// zero becomes a click-free fade.
pub proof fn lemma_ramp_down_output(g0: GainParam, s: i64, i: nat)
    requires
        g0.wf(),
        g0.target <= g0.current,
        s >= 0,
    ensures
        0 <= scaled(s as int, g0.gain_at(i + 1) as int) <= scaled(
            s as int,
            g0.gain_at(i) as int,
        ) <= s,
{
    lemma_ramp_down(g0, i + 1);
    lemma_ramp_down(g0, i + 2);
    g0.lemma_advanced_n_wf(i + 1);
    lemma_scaled_monotone_gain(s as int, g0.gain_at(i + 1) as int, g0.gain_at(i) as int);
    lemma_scaled_bound(s as int, g0.gain_at(i) as int);
    lemma_scaled_bound(s as int, g0.gain_at(i + 1) as int);
}

/// Law: when a block's absolute mean amplitude exceeds the meter, the meter
/// is set exactly to that amplitude — instant attack, no smoothing.
pub proof fn lemma_attack_block(b: Seq<Seq<i64>>, g0: GainParam, w: int, p0: int)
    requires
        b.len() == 1,
        block_frames(b) >= 1,
        block_amplitude(b[0], g0, block_frames(b)) > p0,
    ensures
        meter_after(b, g0, w, p0, 1) == block_amplitude(b[0], g0, block_frames(b)),
{
    let amp = block_amplitude(b[0], g0, block_frames(b));
    assert(meter_after(b, g0, w, p0, 0) == p0);
    assert(meter_after(b, g0, w, p0, 1) == meter_level(p0, amp, w));
}

/// The post-gain samples of an all-zero channel sum to zero.
proof fn lemma_zero_channel_sum(ch: Seq<i64>, g0: GainParam, n: nat)
    requires
        n <= ch.len(),
        forall|j: int| 0 <= j < ch.len() ==> ch[j] == 0,
    ensures
        channel_sum(ch, g0, n) == 0,
    decreases n,
{
    if n > 0 {
        lemma_zero_channel_sum(ch, g0, (n - 1) as nat);
    }
}

/// Law: a silent block, processed while the display is open, can only
/// shrink the meter — strictly so while the meter is positive — and leaves
/// a meter at zero at zero. Each channel's update is exactly
/// `level * weight / ONE`.
pub proof fn lemma_silent_block(b: Seq<Seq<i64>>, g0: GainParam, w: int, p0: int, c: nat)
    requires
        g0.wf(),
        uniform_block(b),
        c <= b.len(),
        block_frames(b) >= 1,
        0 <= p0 <= AMP_MAX,
        0 <= w < ONE,
        forall|cc: int, j: int| 0 <= cc < b.len() && 0 <= j < b[cc].len() ==> b[cc][j] == 0,
    ensures
        meter_after(b, g0, w, p0, c) <= p0,
        c > 0 && p0 > 0 ==> meter_after(b, g0, w, p0, c) < p0,
        p0 == 0 ==> meter_after(b, g0, w, p0, c) == 0,
    decreases c,
{
    if c > 0 {
        lemma_silent_block(b, g0, w, p0, (c - 1) as nat);
        lemma_meter_after_bound(b, g0, w, p0, (c - 1) as nat);
        let cur = meter_after(b, g0, w, p0, (c - 1) as nat);
        lemma_zero_channel_sum(b[c - 1], g0, block_frames(b));
        assert(block_amplitude(b[c - 1], g0, block_frames(b)) == 0);
        lemma_silent_release(cur, w);
    }
}

} // verus!
