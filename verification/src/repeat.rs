//! Key repeat: a held key acts at once, again after an initial delay, and
//! from then on at a steady interval.

use vstd::prelude::*;

verus! {

/// Initial delay and steady interval of a repeating key, in microseconds.
#[derive(Clone, Copy, Debug, PartialEq, Eq, Structural)]
pub struct RepeatPolicy {
    pub delay: u64,
    pub interval: u64,
}

/// Time for which a navigation key is held before it repeats, in
/// microseconds.
pub const NAVIGATION_DELAY: u64 = 450_000;

/// Time between two repeats of a navigation key.
pub const NAVIGATION_INTERVAL: u64 = 50_000;

/// Time for which backspace or delete is held before it repeats: a little
/// longer than for the navigation keys.
pub const DELETION_DELAY: u64 = 500_000;

/// Time between two repeats of backspace or delete.
pub const DELETION_INTERVAL: u64 = 50_000;

/// Repeat policy of the arrows, home and end.
pub open spec fn navigation_policy() -> RepeatPolicy {
    RepeatPolicy { delay: NAVIGATION_DELAY, interval: NAVIGATION_INTERVAL }
}

/// Repeat policy of backspace and delete.
pub open spec fn deletion_policy() -> RepeatPolicy {
    RepeatPolicy { delay: DELETION_DELAY, interval: DELETION_INTERVAL }
}

/// Time accumulated by one repeating action since it last acted, and whether
/// the action is armed (its key was pressed and has been held since).
#[derive(Clone, Copy, Debug, PartialEq, Eq, Structural)]
pub struct RepeatTimer {
    pub elapsed: u64,
    pub active: bool,
}

impl RepeatTimer {
    /// `elapsed` after `dt` more microseconds, held at the largest `u64`.
    pub open spec fn accumulated(self, dt: u32) -> u64 {
        if self.elapsed + dt > u64::MAX {
            u64::MAX
        } else {
            (self.elapsed + dt) as u64
        }
    }

    /// Whether the action acts in a frame of `dt` microseconds in which its
    /// key was `pressed` (went down in this frame) and is `down`.
    pub open spec fn fires(self, pressed: bool, down: bool, dt: u32, policy: RepeatPolicy) -> bool {
        pressed || (down && self.active && self.accumulated(dt) > policy.delay)
    }

    /// The timer after that frame.
    ///
    /// A press arms the timer and clears it. While the key stays down the
    /// timer accumulates; when it passes the delay, the interval is taken off
    /// it, so that what was accumulated beyond the delay is kept. A key that
    /// is up disarms the timer.
    pub open spec fn ticked(self, pressed: bool, down: bool, dt: u32, policy: RepeatPolicy)
        -> RepeatTimer {
        if pressed {
            RepeatTimer { elapsed: 0, active: true }
        } else if down && self.active {
            let total = self.accumulated(dt);
            if total > policy.delay {
                RepeatTimer {
                    elapsed: if total >= policy.interval {
                        (total - policy.interval) as u64
                    } else {
                        0
                    },
                    active: true,
                }
            } else {
                RepeatTimer { elapsed: total, active: true }
            }
        } else if !down {
            RepeatTimer { elapsed: 0, active: false }
        } else {
            self
        }
    }

    /// A disarmed timer.
    pub fn new() -> (t: RepeatTimer)
        ensures
            t == (RepeatTimer { elapsed: 0, active: false }),
    {
        RepeatTimer { elapsed: 0, active: false }
    }

    /// Advances the timer by one frame and says whether the action acts in it.
    pub fn tick(&mut self, pressed: bool, down: bool, dt: u32, policy: RepeatPolicy) -> (fire:
        bool)
        ensures
            fire == old(self).fires(pressed, down, dt, policy),
            *final(self) == old(self).ticked(pressed, down, dt, policy),
    {
        if pressed {
            self.elapsed = 0;
            self.active = true;
            true
        } else if down && self.active {
            let total: u64 = self.elapsed.saturating_add(dt as u64);
            if total > policy.delay {
                self.elapsed = total.saturating_sub(policy.interval);
                true
            } else {
                self.elapsed = total;
                false
            }
        } else if !down {
            self.elapsed = 0;
            self.active = false;
            false
        } else {
            false
        }
    }
}

impl RepeatTimer {
    /// The timer after `frames` more frames of `dt` microseconds each,
    /// through which the key stays down.
    pub open spec fn held(self, frames: nat, dt: u32, policy: RepeatPolicy) -> RepeatTimer
        decreases frames,
    {
        if frames == 0 {
            self
        } else {
            self.held((frames - 1) as nat, dt, policy).ticked(false, true, dt, policy)
        }
    }

    /// Number of those frames in which the action acts.
    pub open spec fn repeats(self, frames: nat, dt: u32, policy: RepeatPolicy) -> nat
        decreases frames,
    {
        if frames == 0 {
            0
        } else {
            let before = self.held((frames - 1) as nat, dt, policy);
            self.repeats((frames - 1) as nat, dt, policy) + if before.fires(
                false,
                true,
                dt,
                policy,
            ) {
                1nat
            } else {
                0nat
            }
        }
    }

    /// A key that is held through frames as long as the interval, under a
    /// policy whose delay is `waits` intervals, acts in none of the first
    /// `waits` frames after the press and in every frame after them: held for
    /// a time of at least the delay, it has acted once for every whole
    /// interval of the time beyond the delay, besides the press itself.
    pub proof fn lemma_steady_repeat(frames: nat, waits: nat, policy: RepeatPolicy)
        requires
            0 < policy.interval <= u32::MAX,
            policy.delay == waits * policy.interval,
            policy.delay + policy.interval <= u64::MAX,
        ensures
            ({
                let armed = RepeatTimer { elapsed: 0, active: true };
                let dt = policy.interval as u32;
                &&& frames <= waits ==> armed.repeats(frames, dt, policy) == 0
                &&& frames <= waits ==> armed.held(frames, dt, policy) == (RepeatTimer {
                    elapsed: (frames * policy.interval) as u64,
                    active: true,
                })
                &&& frames > waits ==> armed.repeats(frames, dt, policy) == frames - waits
                &&& frames > waits ==> armed.repeats(frames, dt, policy) == (frames
                    * policy.interval - policy.delay) / (policy.interval as int)
                &&& frames > waits ==> armed.held(frames, dt, policy) == (RepeatTimer {
                    elapsed: policy.delay,
                    active: true,
                })
            }),
        decreases frames,
    {
        let armed = RepeatTimer { elapsed: 0, active: true };
        let dt = policy.interval as u32;
        let step = policy.interval as int;
        if frames == 0 {
            assert(0 * step == 0);
        } else {
            Self::lemma_steady_repeat((frames - 1) as nat, waits, policy);
            let before = armed.held((frames - 1) as nat, dt, policy);
            assert(frames * step == (frames - 1) * step + step) by (nonlinear_arith);
            if frames <= waits {
                assert(frames * step <= waits * step) by (nonlinear_arith)
                    requires
                        frames <= waits,
                        0 < step,
                ;
            } else {
                assert((frames - 1) * step >= waits * step) by (nonlinear_arith)
                    requires
                        frames - 1 >= waits,
                        0 < step,
                ;
                assert(((frames - waits) * step) / step == frames - waits) by (nonlinear_arith)
                    requires
                        0 < step,
                ;
                assert(frames * step - waits * step == (frames - waits) * step)
                    by (nonlinear_arith);
            }
        }
    }
}

/// Repeat policy of the arrows, home and end.
pub fn navigation() -> (p: RepeatPolicy)
    ensures
        p == navigation_policy(),
{
    RepeatPolicy { delay: NAVIGATION_DELAY, interval: NAVIGATION_INTERVAL }
}

/// Repeat policy of backspace and delete.
pub fn deletion() -> (p: RepeatPolicy)
    ensures
        p == deletion_policy(),
{
    RepeatPolicy { delay: DELETION_DELAY, interval: DELETION_INTERVAL }
}

} // verus!
