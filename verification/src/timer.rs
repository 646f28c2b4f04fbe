//! Duration-based timers that drive the booth's timed stages.

use vstd::prelude::*;

verus! {

/// Where a timer stands.
#[derive(Clone, Copy, Debug, PartialEq, Eq, Structural)]
pub enum TimerStatus {
    /// Never begun, or reset.
    Idle,
    /// Begun and not yet at its duration.
    Animating,
    /// The elapsed time has reached the duration.
    Completed,
}

/// A timer that is advanced by elapsed milliseconds and completes once the
/// elapsed time reaches its duration, however the time was split into ticks.
#[derive(Clone, Copy, Debug, PartialEq, Eq, Structural)]
pub struct Timer {
    pub duration_ms: u64,
    pub elapsed_ms: u64,
    pub status: TimerStatus,
}

impl Timer {
    /// The elapsed time after `delta_ms` more milliseconds, held at `u64::MAX`.
    pub open spec fn elapsed_after(self, delta_ms: u64) -> u64 {
        if self.elapsed_ms + delta_ms > u64::MAX {
            u64::MAX
        } else {
            (self.elapsed_ms + delta_ms) as u64
        }
    }

    /// The timer after `delta_ms` more milliseconds: only an animating timer moves.
    pub open spec fn advanced(self, delta_ms: u64) -> Timer {
        if self.status == TimerStatus::Animating {
            Timer {
                duration_ms: self.duration_ms,
                elapsed_ms: self.elapsed_after(delta_ms),
                status: if self.elapsed_after(delta_ms) >= self.duration_ms {
                    TimerStatus::Completed
                } else {
                    TimerStatus::Animating
                },
            }
        } else {
            self
        }
    }

    /// The timer restarted from zero.
    pub open spec fn begun(self) -> Timer {
        Timer { duration_ms: self.duration_ms, elapsed_ms: 0, status: TimerStatus::Animating }
    }

    /// Progress in thousandths: 0 when idle, 1000 when completed, else the
    /// elapsed share of the duration, rounded down.
    pub open spec fn progress(self) -> int {
        match self.status {
            TimerStatus::Idle => 0,
            TimerStatus::Completed => 1000,
            TimerStatus::Animating => if self.duration_ms == 0 || self.elapsed_ms
                >= self.duration_ms {
                1000
            } else {
                self.elapsed_ms * 1000 / (self.duration_ms as int)
            },
        }
    }

    /// An idle timer of the given duration.
    pub fn new(duration_ms: u64) -> (t: Timer)
        ensures
            t == (Timer { duration_ms, elapsed_ms: 0, status: TimerStatus::Idle }),
    {
        Timer { duration_ms, elapsed_ms: 0, status: TimerStatus::Idle }
    }

    /// Restarts the timer from zero.
    pub fn begin(self) -> (t: Timer)
        ensures
            t == self.begun(),
    {
        Timer { duration_ms: self.duration_ms, elapsed_ms: 0, status: TimerStatus::Animating }
    }

    /// Adds `delta_ms` to an animating timer and completes it when the
    /// duration is reached; an idle or completed timer is returned as it is.
    pub fn advance(self, delta_ms: u64) -> (t: Timer)
        ensures
            t == self.advanced(delta_ms),
    {
        match self.status {
            TimerStatus::Animating => {
                let elapsed: u64 = if delta_ms > u64::MAX - self.elapsed_ms {
                    u64::MAX
                } else {
                    self.elapsed_ms + delta_ms
                };
                let status = if elapsed >= self.duration_ms {
                    TimerStatus::Completed
                } else {
                    TimerStatus::Animating
                };
                Timer { duration_ms: self.duration_ms, elapsed_ms: elapsed, status }
            },
            _ => self,
        }
    }

    pub fn is_completed(&self) -> (b: bool)
        ensures
            b == (self.status == TimerStatus::Completed),
    {
        self.status == TimerStatus::Completed
    }

    pub fn is_animating(&self) -> (b: bool)
        ensures
            b == (self.status == TimerStatus::Animating),
    {
        self.status == TimerStatus::Animating
    }

    /// Progress in thousandths, for whoever draws the stage.
    pub fn progress_permille(&self) -> (p: u16)
        ensures
            p == self.progress(),
            p <= 1000,
    {
        match self.status {
            TimerStatus::Idle => 0,
            TimerStatus::Completed => 1000,
            TimerStatus::Animating => {
                if self.duration_ms == 0 || self.elapsed_ms >= self.duration_ms {
                    1000
                } else {
                    let scaled: u128 = (self.elapsed_ms as u128) * 1000;
                    let share: u128 = scaled / (self.duration_ms as u128);
                    assert(share < 1000) by (nonlinear_arith)
                        requires
                            share == scaled / (self.duration_ms as u128),
                            scaled == self.elapsed_ms * 1000,
                            self.elapsed_ms < self.duration_ms,
                    ;
                    share as u16
                }
            },
        }
    }
}

/// Completion depends on the total elapsed time alone: a timer advanced
/// in two ticks is completed exactly when it is after one tick of their sum.
pub proof fn lemma_advance_splits(t: Timer, first_ms: u64, second_ms: u64)
    requires
        first_ms + second_ms <= u64::MAX,
    ensures
        t.advanced((first_ms + second_ms) as u64).status == TimerStatus::Completed
            <==> t.advanced(first_ms).advanced(second_ms).status == TimerStatus::Completed,
{
}

} // verus!
