//! The capture sequence: the timed run of countdown, flash and reveal
//! that takes one shot after the other until the template is filled.

use vstd::prelude::*;
use crate::timer::{Timer, TimerStatus};

verus! {

/// The lead-in before the first countdown, in milliseconds.
pub const GET_READY_MS: u64 = 3000;

/// One step of the countdown, in milliseconds.
pub const COUNTER_MS: u64 = 1000;

/// The flash, in milliseconds.
pub const SNAP_MS: u64 = 500;

/// The reveal of the shot just taken, in milliseconds.
pub const FRAME_SIZE_MS: u64 = 1000;

/// The number from which each countdown starts.
pub const COUNT_FROM: u16 = 3;

/// The stage of the sequence.
#[derive(Clone, Copy, Debug, PartialEq, Eq, Structural)]
pub enum CaptureSequenceState {
    /// No sequence is running.
    Idle,
    /// The lead-in runs.
    GetReady,
    /// The countdown shows this number.
    Counter(u16),
    /// The shot was asked for and the flash runs.
    Snap,
    /// The shot is revealed. With the last shot revealed the sequence
    /// rests here.
    FrameSize,
}

/// What the sequence asks for after a tick.
#[derive(Clone, Copy, Debug, PartialEq, Eq, Structural)]
pub enum SequenceAction {
    /// Nothing.
    Wait,
    /// Capture one frame now.
    CaptureFrame,
    /// Every shot is taken and revealed: hand the frames on.
    Finalize,
}

/// The state of the capture sequence. The frames themselves are kept by
/// its owner; the sequence counts them.
#[derive(Clone, Copy, Debug, PartialEq, Eq, Structural)]
pub struct CaptureSequence {
    pub state: CaptureSequenceState,
    /// How many shots the template places.
    pub shots: usize,
    /// How many frames are stored.
    pub captured: usize,
    /// How many rounds of countdown, flash and reveal have run to their end.
    pub completed_cycles: usize,
    /// Whether a frame was asked for and has not arrived.
    pub awaiting_frame: bool,
    pub get_ready_timeline: Timer,
    pub counter_timeline: Timer,
    pub snap_timeline: Timer,
    pub frame_size_timeline: Timer,
}

impl CaptureSequence {
    /// What holds of every sequence that was started fresh and driven by
    /// its own operations: the frames stored never exceed the shots, each
    /// completed round has stored exactly one frame, and a frame is in
    /// flight only between the end of a countdown and its arrival.
    pub open spec fn wf(self) -> bool {
        &&& self.shots >= 1
        &&& match self.state {
            CaptureSequenceState::Idle | CaptureSequenceState::GetReady => {
                &&& self.captured == 0
                &&& self.completed_cycles == 0
                &&& !self.awaiting_frame
            },
            CaptureSequenceState::Counter(n) => {
                &&& 1 <= n <= COUNT_FROM
                &&& !self.awaiting_frame
                &&& self.captured == self.completed_cycles
                &&& self.captured < self.shots
            },
            CaptureSequenceState::Snap => self.round_open(),
            CaptureSequenceState::FrameSize => self.round_open() || self.is_finished(),
        }
    }

    /// A round is under way: its frame is in flight, or has been stored
    /// and waits for the round to end.
    pub open spec fn round_open(self) -> bool {
        ||| self.awaiting_frame && self.captured == self.completed_cycles && self.captured
            < self.shots
        ||| !self.awaiting_frame && self.captured == self.completed_cycles + 1 && self.captured
            <= self.shots
    }

    /// The sequence has run to its end: every shot is stored and its round
    /// completed.
    pub open spec fn is_finished(self) -> bool {
        &&& self.state == CaptureSequenceState::FrameSize
        &&& !self.awaiting_frame
        &&& self.captured == self.completed_cycles
        &&& self.captured == self.shots
    }

    /// The sequence with every timer moved on by `elapsed_ms`.
    pub open spec fn with_time(self, elapsed_ms: u64) -> CaptureSequence {
        CaptureSequence {
            get_ready_timeline: self.get_ready_timeline.advanced(elapsed_ms),
            counter_timeline: self.counter_timeline.advanced(elapsed_ms),
            snap_timeline: self.snap_timeline.advanced(elapsed_ms),
            frame_size_timeline: self.frame_size_timeline.advanced(elapsed_ms),
            ..self
        }
    }

    /// The sequence at the start of a countdown.
    pub open spec fn counting(self) -> CaptureSequence {
        CaptureSequence {
            state: CaptureSequenceState::Counter(COUNT_FROM),
            counter_timeline: self.counter_timeline.begun(),
            ..self
        }
    }

    /// The completed rounds with one more.
    pub open spec fn cycles_after_round(self) -> usize {
        if self.completed_cycles < usize::MAX {
            (self.completed_cycles + 1) as usize
        } else {
            self.completed_cycles
        }
    }

    /// What a tick of `elapsed_ms` does. Every running timer moves on; then
    /// the stage at hand advances if its timer has completed:
    /// the lead-in to the first countdown; a countdown step to the next
    /// lower number or, after one, to the flash, asking for a frame; the
    /// flash to the reveal; and the reveal, once its frame is stored, to the
    /// next countdown or, with every shot taken, to the end.
    pub open spec fn ticked(self, elapsed_ms: u64) -> (CaptureSequence, SequenceAction) {
        let s = self.with_time(elapsed_ms);
        match self.state {
            CaptureSequenceState::Idle => (s, SequenceAction::Wait),
            CaptureSequenceState::GetReady => if s.get_ready_timeline.status
                == TimerStatus::Completed {
                if s.captured < s.shots {
                    (s.counting(), SequenceAction::Wait)
                } else {
                    (s, SequenceAction::Finalize)
                }
            } else {
                (s, SequenceAction::Wait)
            },
            CaptureSequenceState::Counter(n) => if s.counter_timeline.status
                == TimerStatus::Completed {
                if n > 1 {
                    (
                        CaptureSequence {
                            state: CaptureSequenceState::Counter((n - 1) as u16),
                            counter_timeline: s.counter_timeline.begun(),
                            ..s
                        },
                        SequenceAction::Wait,
                    )
                } else {
                    (
                        CaptureSequence {
                            state: CaptureSequenceState::Snap,
                            snap_timeline: s.snap_timeline.begun(),
                            awaiting_frame: true,
                            ..s
                        },
                        SequenceAction::CaptureFrame,
                    )
                }
            } else {
                (s, SequenceAction::Wait)
            },
            CaptureSequenceState::Snap => if s.snap_timeline.status == TimerStatus::Completed {
                (CaptureSequence { state: CaptureSequenceState::FrameSize, ..s }, SequenceAction::Wait)
            } else {
                (s, SequenceAction::Wait)
            },
            CaptureSequenceState::FrameSize => if !s.awaiting_frame && s.completed_cycles
                < s.captured && s.frame_size_timeline.status == TimerStatus::Completed {
                let done = CaptureSequence { completed_cycles: s.cycles_after_round(), ..s };
                if done.captured < done.shots {
                    (done.counting(), SequenceAction::Wait)
                } else {
                    (done, SequenceAction::Finalize)
                }
            } else {
                (s, SequenceAction::Wait)
            },
        }
    }

    /// Whether an arriving frame is taken: one was asked for and the
    /// template has room for it.
    pub open spec fn takes_frame(self) -> bool {
        self.awaiting_frame && self.captured < self.shots
    }

    /// What the arrival of a frame does: a frame that is taken is counted
    /// and its reveal begins; any other leaves the sequence as it is.
    pub open spec fn with_frame(self) -> CaptureSequence {
        if self.takes_frame() {
            CaptureSequence {
                captured: (self.captured + 1) as usize,
                awaiting_frame: false,
                frame_size_timeline: self.frame_size_timeline.begun(),
                ..self
            }
        } else {
            self
        }
    }

    /// What the capture button does: it starts the lead-in of an idle
    /// sequence and is ignored while a sequence runs.
    pub open spec fn pressed(self) -> CaptureSequence {
        if self.state == CaptureSequenceState::Idle {
            CaptureSequence {
                state: CaptureSequenceState::GetReady,
                get_ready_timeline: self.get_ready_timeline.begun(),
                ..self
            }
        } else {
            self
        }
    }

    /// Whether any timer runs: ticks are wanted only then.
    pub open spec fn is_animating(self) -> bool {
        ||| self.get_ready_timeline.status == TimerStatus::Animating
        ||| self.counter_timeline.status == TimerStatus::Animating
        ||| self.snap_timeline.status == TimerStatus::Animating
        ||| self.frame_size_timeline.status == TimerStatus::Animating
    }

    /// The idle sequence for a template of `shots` shots: nothing stored,
    /// no round run, every timer at rest with its own duration.
    pub open spec fn fresh(shots: usize) -> CaptureSequence {
        CaptureSequence {
            state: CaptureSequenceState::Idle,
            shots,
            captured: 0,
            completed_cycles: 0,
            awaiting_frame: false,
            get_ready_timeline: Timer {
                duration_ms: GET_READY_MS,
                elapsed_ms: 0,
                status: TimerStatus::Idle,
            },
            counter_timeline: Timer { duration_ms: COUNTER_MS, elapsed_ms: 0, status: TimerStatus::Idle },
            snap_timeline: Timer { duration_ms: SNAP_MS, elapsed_ms: 0, status: TimerStatus::Idle },
            frame_size_timeline: Timer {
                duration_ms: FRAME_SIZE_MS,
                elapsed_ms: 0,
                status: TimerStatus::Idle,
            },
        }
    }

    /// An idle sequence for a template of `shots` shots.
    pub fn new(shots: usize) -> (s: CaptureSequence)
        ensures
            s == Self::fresh(shots),
            shots >= 1 ==> s.wf(),
    {
        CaptureSequence {
            state: CaptureSequenceState::Idle,
            shots,
            captured: 0,
            completed_cycles: 0,
            awaiting_frame: false,
            get_ready_timeline: Timer::new(GET_READY_MS),
            counter_timeline: Timer::new(COUNTER_MS),
            snap_timeline: Timer::new(SNAP_MS),
            frame_size_timeline: Timer::new(FRAME_SIZE_MS),
        }
    }

    /// Applies the capture button.
    pub fn press(self) -> (s: CaptureSequence)
        ensures
            s == self.pressed(),
            self.wf() ==> s.wf(),
    {
        match self.state {
            CaptureSequenceState::Idle => CaptureSequence {
                state: CaptureSequenceState::GetReady,
                get_ready_timeline: self.get_ready_timeline.begin(),
                ..self
            },
            _ => self,
        }
    }

    /// Applies the arrival of a frame and tells whether it is taken.
    pub fn frame_arrived(self) -> (r: (CaptureSequence, bool))
        ensures
            r.0 == self.with_frame(),
            r.1 == self.takes_frame(),
            self.wf() ==> r.0.wf(),
    {
        if self.awaiting_frame && self.captured < self.shots {
            (
                CaptureSequence {
                    captured: self.captured + 1,
                    awaiting_frame: false,
                    frame_size_timeline: self.frame_size_timeline.begin(),
                    ..self
                },
                true,
            )
        } else {
            (self, false)
        }
    }

    /// Applies a tick of `elapsed_ms` milliseconds.
    pub fn tick(self, elapsed_ms: u64) -> (r: (CaptureSequence, SequenceAction))
        ensures
            r == self.ticked(elapsed_ms),
            self.wf() ==> r.0.wf(),
            self.wf() && r.1 == SequenceAction::Finalize ==> r.0.is_finished(),
    {
        let s = CaptureSequence {
            get_ready_timeline: self.get_ready_timeline.advance(elapsed_ms),
            counter_timeline: self.counter_timeline.advance(elapsed_ms),
            snap_timeline: self.snap_timeline.advance(elapsed_ms),
            frame_size_timeline: self.frame_size_timeline.advance(elapsed_ms),
            ..self
        };
        match self.state {
            CaptureSequenceState::Idle => (s, SequenceAction::Wait),
            CaptureSequenceState::GetReady => {
                if s.get_ready_timeline.is_completed() {
                    if s.captured < s.shots {
                        (
                            CaptureSequence {
                                state: CaptureSequenceState::Counter(COUNT_FROM),
                                counter_timeline: s.counter_timeline.begin(),
                                ..s
                            },
                            SequenceAction::Wait,
                        )
                    } else {
                        (s, SequenceAction::Finalize)
                    }
                } else {
                    (s, SequenceAction::Wait)
                }
            },
            CaptureSequenceState::Counter(n) => {
                if s.counter_timeline.is_completed() {
                    if n > 1 {
                        (
                            CaptureSequence {
                                state: CaptureSequenceState::Counter(n - 1),
                                counter_timeline: s.counter_timeline.begin(),
                                ..s
                            },
                            SequenceAction::Wait,
                        )
                    } else {
                        (
                            CaptureSequence {
                                state: CaptureSequenceState::Snap,
                                snap_timeline: s.snap_timeline.begin(),
                                awaiting_frame: true,
                                ..s
                            },
                            SequenceAction::CaptureFrame,
                        )
                    }
                } else {
                    (s, SequenceAction::Wait)
                }
            },
            CaptureSequenceState::Snap => {
                if s.snap_timeline.is_completed() {
                    (
                        CaptureSequence { state: CaptureSequenceState::FrameSize, ..s },
                        SequenceAction::Wait,
                    )
                } else {
                    (s, SequenceAction::Wait)
                }
            },
            CaptureSequenceState::FrameSize => {
                if !s.awaiting_frame && s.completed_cycles < s.captured
                    && s.frame_size_timeline.is_completed() {
                    let done = CaptureSequence { completed_cycles: s.completed_cycles + 1, ..s };
                    if done.captured < done.shots {
                        (
                            CaptureSequence {
                                state: CaptureSequenceState::Counter(COUNT_FROM),
                                counter_timeline: done.counter_timeline.begin(),
                                ..done
                            },
                            SequenceAction::Wait,
                        )
                    } else {
                        (done, SequenceAction::Finalize)
                    }
                } else {
                    (s, SequenceAction::Wait)
                }
            },
        }
    }

    /// Whether ticks are wanted.
    pub fn wants_ticks(&self) -> (b: bool)
        ensures
            b == self.is_animating(),
    {
        self.get_ready_timeline.is_animating() || self.counter_timeline.is_animating()
            || self.snap_timeline.is_animating() || self.frame_size_timeline.is_animating()
    }
}

/// After any number of completed rounds exactly that many frames are
/// stored, give or take the frame of the round under way, and never more
/// than the template places. Between rounds, and at the end, the two
/// numbers are equal.
pub proof fn lemma_frames_match_cycles(s: CaptureSequence)
    requires
        s.wf(),
    ensures
        s.captured <= s.shots,
        s.completed_cycles <= s.captured <= s.completed_cycles + 1,
        s.state is Idle || s.state is GetReady || s.state is Counter || s.is_finished()
            ==> s.captured == s.completed_cycles,
        s.captured == s.completed_cycles + 1 ==> !s.awaiting_frame && (s.state is Snap
            || s.state is FrameSize),
{
}

/// A tick completes at most one round, and only a round whose frame is
/// stored; it never stores a frame itself.
pub proof fn lemma_tick_completes_one_round(s: CaptureSequence, elapsed_ms: u64)
    requires
        s.wf(),
    ensures
        s.ticked(elapsed_ms).0.captured == s.captured,
        s.ticked(elapsed_ms).0.completed_cycles == s.completed_cycles || (s.ticked(
            elapsed_ms,
        ).0.completed_cycles == s.completed_cycles + 1 && s.state is FrameSize
            && s.captured == s.completed_cycles + 1),
        s.ticked(elapsed_ms).1 == SequenceAction::Finalize ==> s.ticked(elapsed_ms).0.captured
            == s.shots && s.ticked(elapsed_ms).0.completed_cycles == s.shots,
        s.ticked(elapsed_ms).0.wf(),
{
}

/// A frame is asked for exactly when a countdown ends, and then the
/// template has room for it.
pub proof fn lemma_capture_only_with_room(s: CaptureSequence, elapsed_ms: u64)
    requires
        s.wf(),
        s.ticked(elapsed_ms).1 == SequenceAction::CaptureFrame,
    ensures
        s.state == CaptureSequenceState::Counter(1),
        s.captured < s.shots,
        s.ticked(elapsed_ms).0.state == CaptureSequenceState::Snap,
        s.ticked(elapsed_ms).0.takes_frame(),
{
}

/// The capture button does nothing to a sequence that is running.
pub proof fn lemma_button_ignored_while_running(s: CaptureSequence)
    requires
        s.state != CaptureSequenceState::Idle,
    ensures
        s.pressed() == s,
{
}

} // verus!
