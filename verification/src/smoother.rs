//! The gain parameter and its per-sample smoother.
//!
//! The host (or the UI) writes a target gain at arbitrary times; the render
//! thread pulls one smoothed value per sample index. A target change starts a
//! linear ramp from the value being emitted right now — never from a stale
//! starting point — that reaches the target within one smoothing window.

use vstd::prelude::*;

verus! {

use crate::fixed::ONE;

/// Length of a full smoothing ramp, in milliseconds of real time.
pub const SMOOTHING_MS: u64 = 50;

/// Ramp length in samples at the 44.1 kHz default rate (44100 * 50 / 1000),
/// used until the host establishes a sample rate.
pub const DEFAULT_WINDOW: u64 = 2205;

/// Largest ramp length in samples the smoother accepts; any real sample rate
/// (a `u32` of Hz) yields a window far below this.
pub const WINDOW_MAX: u64 = 0x1000_0000;

/// A host-automatable gain control together with its smoothing state.
///
/// `current` is the most recently emitted smoothed value; `target` is the
/// authoritative value the host last wrote. While a ramp is running,
/// `steps_left` counts the samples to go and `step` is the per-sample
/// increment, chosen so the ramp meets the target exactly when the counter
/// runs out.
#[derive(Clone, Copy, Debug, PartialEq, Eq, Structural)]
pub struct GainParam {
    pub current: u64,
    pub target: u64,
    pub step: u64,
    pub steps_left: u64,
    pub window: u64,
}

impl GainParam {
    /// A full-scale swing (`ONE`) spread over one window, rounded up: the
    /// largest move any single emitted sample can make.
    pub open spec fn slew_bound(self) -> int {
        (ONE + self.window - 1) as int / self.window as int
    }

    /// How far the emitted value still is from the target.
    pub open spec fn distance(self) -> int {
        if self.target >= self.current {
            self.target - self.current
        } else {
            self.current - self.target
        }
    }

    /// Well-formedness: values stay in the gain range, the window is sane,
    /// and the remaining ramp can always cover the remaining distance — so a
    /// ramp that runs out of steps has met its target.
    pub open spec fn wf(self) -> bool {
        &&& self.current <= ONE
        &&& self.target <= ONE
        &&& 1 <= self.window <= WINDOW_MAX
        &&& self.steps_left <= self.window
        &&& self.distance() <= self.steps_left * self.step
        &&& self.step <= self.slew_bound()
    }

    /// The value the next emitted sample will carry: one step toward the
    /// target, clamped at the target (no overshoot).
    pub open spec fn next_gain(self) -> u64 {
        if self.steps_left == 0 {
            self.target
        } else if self.target >= self.current {
            if self.target - self.current <= self.step {
                self.target
            } else {
                (self.current + self.step) as u64
            }
        } else {
            if self.current - self.target <= self.step {
                self.target
            } else {
                (self.current - self.step) as u64
            }
        }
    }

    /// State after emitting one sample.
    pub open spec fn advanced(self) -> GainParam {
        GainParam {
            current: self.next_gain(),
            steps_left: if self.steps_left == 0 {
                0
            } else {
                (self.steps_left - 1) as u64
            },
            ..self
        }
    }

    /// State after emitting `n` samples.
    pub open spec fn advanced_n(self, n: nat) -> GainParam
        decreases n,
    {
        if n == 0 {
            self
        } else {
            self.advanced_n((n - 1) as nat).advanced()
        }
    }

    /// The gain emitted for sample index `i` (the `i + 1`-th pull).
    pub open spec fn gain_at(self, i: nat) -> u64 {
        self.advanced_n(i + 1).current
    }

    /// State after a ramp toward `t` has been (re)started from the value
    /// being emitted right now.
    pub open spec fn retargeted(self, t: u64) -> GainParam {
        if t == self.current {
            GainParam { target: t, step: 0, steps_left: 0, ..self }
        } else {
            let d: int = if t >= self.current {
                t - self.current
            } else {
                self.current - t
            };
            GainParam {
                target: t,
                step: ((d + self.window - 1) / self.window as int) as u64,
                steps_left: self.window,
                ..self
            }
        }
    }

    /// State after the smoothing window has been re-established (a sample
    /// rate change): the running ramp restarts from the current value with
    /// the new window.
    pub open spec fn rewindowed(self, w: u64) -> GainParam {
        GainParam { window: w, ..self }.retargeted(self.target)
    }

    /// One emission preserves well-formedness and touches nothing but the
    /// current value and the step counter.
    pub proof fn lemma_advanced_wf(self)
        requires
            self.wf(),
        ensures
            self.advanced().wf(),
            self.advanced().target == self.target,
            self.advanced().step == self.step,
            self.advanced().window == self.window,
    {
        let a = self.advanced();
        if self.steps_left == 0 {
            assert(self.distance() <= 0);
        } else {
            if self.target >= self.current {
                if self.target - self.current <= self.step {
                } else {
                    assert(a.distance() == self.distance() - self.step);
                    assert(self.steps_left * self.step - self.step == (self.steps_left - 1)
                        * self.step) by (nonlinear_arith);
                }
            } else {
                if self.current - self.target <= self.step {
                } else {
                    assert(a.distance() == self.distance() - self.step);
                    assert(self.steps_left * self.step - self.step == (self.steps_left - 1)
                        * self.step) by (nonlinear_arith);
                }
            }
        }
    }

    /// `n` emissions preserve well-formedness and the ramp's fixed fields.
    pub proof fn lemma_advanced_n_wf(self, n: nat)
        requires
            self.wf(),
        ensures
            self.advanced_n(n).wf(),
            self.advanced_n(n).target == self.target,
            self.advanced_n(n).step == self.step,
            self.advanced_n(n).window == self.window,
        decreases n,
    {
        if n > 0 {
            self.lemma_advanced_n_wf((n - 1) as nat);
            self.advanced_n((n - 1) as nat).lemma_advanced_wf();
        }
    }

    /// A smoother whose ramp has run out is a fixed point: it emits its
    /// target forever.
    pub proof fn lemma_converged(self, n: nat)
        requires
            self.wf(),
            self.steps_left == 0,
        ensures
            self.advanced_n(n) == self,
            n > 0 ==> self.gain_at((n - 1) as nat) == self.target,
        decreases n,
    {
        assert(self.distance() <= 0);
        if n > 0 {
            self.lemma_converged((n - 1) as nat);
        }
    }

    /// Emitting `n` samples is one emission followed by `n - 1` more.
    proof fn lemma_advanced_n_front(self, n: nat)
        requires
            n >= 1,
        ensures
            self.advanced_n(n) == self.advanced().advanced_n((n - 1) as nat),
        decreases n,
    {
        if n == 1 {
            assert(self.advanced_n(1) == self.advanced_n(0).advanced());
            assert(self.advanced_n(0) == self);
            assert(self.advanced().advanced_n(0) == self.advanced());
        } else {
            self.lemma_advanced_n_front((n - 1) as nat);
            assert(self.advanced_n(n) == self.advanced_n((n - 1) as nat).advanced());
            assert(self.advanced().advanced_n((n - 1) as nat) == self.advanced().advanced_n(
                (n - 2) as nat,
            ).advanced());
        }
    }

    /// A running ramp meets its target once its remaining steps have been
    /// emitted.
    pub proof fn lemma_converges_within(self, n: nat)
        requires
            self.wf(),
            n >= self.steps_left,
        ensures
            self.advanced_n(n).current == self.target,
        decreases n,
    {
        if self.steps_left == 0 {
            self.lemma_converged(n);
            assert(self.steps_left * self.step == 0) by (nonlinear_arith)
                requires
                    self.steps_left == 0,
            ;
            assert(self.current == self.target);
        } else {
            self.lemma_advanced_wf();
            self.lemma_advanced_n_front(n);
            assert(self.advanced().steps_left == self.steps_left - 1);
            self.advanced().lemma_converges_within((n - 1) as nat);
            assert(self.advanced().advanced_n((n - 1) as nat).current == self.advanced().target);
            assert(self.advanced().target == self.target);
            assert(self.advanced_n(n) == self.advanced().advanced_n((n - 1) as nat));
        }
    }

    /// A freshly retargeted smoother is well formed.
    pub proof fn lemma_retargeted_wf(self, t: u64)
        requires
            self.wf(),
            t <= ONE,
        ensures
            self.retargeted(t).wf(),
            self.retargeted(t).steps_left <= self.window,
    {
        if t != self.current {
            let d: int = if t >= self.current {
                t - self.current
            } else {
                self.current - t
            };
            let w = self.window as int;
            let q = (d + w - 1) / w;
            assert(w * q >= d && q <= (ONE + w - 1) as int / w) by (nonlinear_arith)
                requires
                    1 <= w && 1 <= d <= ONE && q == (d + w - 1) / w,
            ;
        }
    }

    /// Law: a target set now is met within one smoothing window, however far
    /// the emitted value was from it.
    pub proof fn lemma_ramp_meets_target(self, t: u64, n: nat)
        requires
            self.wf(),
            t <= ONE,
            n >= self.window,
        ensures
            self.retargeted(t).advanced_n(n).current == t,
    {
        self.lemma_retargeted_wf(t);
        self.retargeted(t).lemma_converges_within(n);
    }

    /// Law: however the target has been moved, no single emitted sample
    /// moves the gain by more than the slew bound — a full-scale swing
    /// spread over one smoothing window, rounded up.
    pub proof fn lemma_no_jump(self, i: nat)
        requires
            self.wf(),
        ensures
            self.advanced_n(i).current - self.slew_bound() <= self.gain_at(i)
                <= self.advanced_n(i).current + self.slew_bound(),
        decreases i,
    {
        self.lemma_advanced_n_wf(i);
        let p = self.advanced_n(i);
        assert(self.advanced_n(i + 1) == p.advanced());
        if p.steps_left == 0 {
            assert(p.distance() <= 0);
        }
    }

    /// A fresh gain control: unit gain, converged, default window.
    pub fn new() -> (p: GainParam)
        ensures
            p.wf(),
            p.current == ONE,
            p.target == ONE,
            p.step == 0,
            p.steps_left == 0,
            p.window == DEFAULT_WINDOW,
    {
        GainParam { current: ONE, target: ONE, step: 0, steps_left: 0, window: DEFAULT_WINDOW }
    }

    /// The authoritative (unsmoothed) value the host last wrote.
    pub fn value(&self) -> (v: u64)
        ensures
            v == self.target,
    {
        self.target
    }

    /// The most recently emitted smoothed value.
    pub fn current_value(&self) -> (v: u64)
        ensures
            v == self.current,
    {
        self.current
    }

    /// Points the smoother at a new target. The ramp restarts from the value
    /// being emitted right now, so a mid-ramp change never snaps back to a
    /// stale starting point; the emitted value itself does not move here.
    pub fn set_target(&mut self, t: u64)
        requires
            old(self).wf(),
            t <= ONE,
        ensures
            *final(self) == old(self).retargeted(t),
            final(self).wf(),
            final(self).current == old(self).current,
    {
        let d: u64 = if t >= self.current {
            t - self.current
        } else {
            self.current - t
        };
        self.target = t;
        if d == 0 {
            self.step = 0;
            self.steps_left = 0;
        } else {
            self.step = (d + self.window - 1) / self.window;
            self.steps_left = self.window;
            proof {
                let w = self.window as int;
                let q = (d + w - 1) / w;
                assert(w * q >= d && q <= (ONE + w - 1) as int / w) by (nonlinear_arith)
                    requires
                        1 <= w && 1 <= d <= ONE && q == (d + w - 1) / w,
                ;
            }
        }
    }

    /// Re-establishes the smoothing window (after a sample rate change) and
    /// restarts any running ramp from the current value.
    pub fn set_window(&mut self, w: u64)
        requires
            old(self).wf(),
            1 <= w <= WINDOW_MAX,
        ensures
            *final(self) == old(self).rewindowed(w),
            final(self).wf(),
            final(self).current == old(self).current,
            final(self).target == old(self).target,
            final(self).window == w,
    {
        self.window = w;
        let t = self.target;
        let d: u64 = if t >= self.current {
            t - self.current
        } else {
            self.current - t
        };
        if d == 0 {
            self.step = 0;
            self.steps_left = 0;
        } else {
            self.step = (d + self.window - 1) / self.window;
            self.steps_left = self.window;
            proof {
                let wi = self.window as int;
                let q = (d + wi - 1) / wi;
                assert(wi * q >= d && q <= (ONE + wi - 1) as int / wi) by (nonlinear_arith)
                    requires
                        1 <= wi && 1 <= d <= ONE && q == (d + wi - 1) / wi,
                ;
            }
        }
    }

    /// Emits the smoothed gain for the next sample index: one bounded step
    /// toward the target, clamped at the target. Monotone within a ramp
    /// segment, and never moving farther than the slew bound.
    pub fn next(&mut self) -> (g: u64)
        requires
            old(self).wf(),
        ensures
            *final(self) == old(self).advanced(),
            final(self).wf(),
            g == final(self).current,
            old(self).current <= old(self).target ==> old(self).current <= g <= old(
                self,
            ).target,
            old(self).target <= old(self).current ==> old(self).target <= g <= old(
                self,
            ).current,
            old(self).current - old(self).slew_bound() <= g <= old(self).current + old(
                self,
            ).slew_bound(),
    {
        proof {
            old(self).lemma_advanced_wf();
        }
        if self.steps_left == 0 {
            self.current = self.target;
        } else {
            self.steps_left = self.steps_left - 1;
            if self.target >= self.current {
                let d = self.target - self.current;
                if d <= self.step {
                    self.current = self.target;
                } else {
                    self.current = self.current + self.step;
                }
            } else {
                let d = self.current - self.target;
                if d <= self.step {
                    self.current = self.target;
                } else {
                    self.current = self.current - self.step;
                }
            }
        }
        self.current
    }
}

} // verus!
