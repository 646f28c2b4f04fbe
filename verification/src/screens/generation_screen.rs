//! The screen that waits while the shots are composed into one image.

use vstd::prelude::*;
use vstd::string::StringExecFns;
use crate::config::{CameraIndex, Config};
use crate::picture::Picture;
use crate::screens::email_screen::EmailScreenFlags;
use crate::screens::error_screen::ErrorScreenFlags;
use crate::screens::{Command, Fault, ScreenFlags, ScreenMessage, ScreenStep, Subscription};
use crate::timer::{Timer, TimerStatus};

verus! {

/// How long the bar takes to its first stop while the image is composed.
pub const COMPOSING_MS: u64 = 3000;

/// How long the bar takes to the end once the image is there.
pub const FINISHING_MS: u64 = 500;

/// Where the bar stops while the image is composed, in thousandths.
pub const COMPOSING_STOP: u16 = 800;

/// The full bar, in thousandths.
pub const FULL_BAR: u16 = 1000;

/// Whether the composed image has arrived.
#[derive(Clone, Copy, Debug, PartialEq, Eq, Structural)]
pub enum ProcessingState {
    GeneratingImage,
    GenerateImageFinished,
}

/// A progress bar that moves from one value to another, in thousandths,
/// while its timer runs.
#[derive(Clone, Copy, Debug, PartialEq, Eq, Structural)]
pub struct ProgressBar {
    pub from: u16,
    pub to: u16,
    pub timer: Timer,
}

impl ProgressBar {
    /// Both ends of the bar's move lie within the bar.
    pub open spec fn wf(self) -> bool {
        self.from <= self.to <= FULL_BAR
    }

    /// Where the bar stands: between its ends, as far as its timer has
    /// come. A bar whose ends are out of order stands at zero.
    pub open spec fn level(self) -> int {
        if self.wf() {
            self.from + (self.to - self.from) * self.timer.progress() / 1000
        } else {
            0
        }
    }

    /// Whether the bar has arrived at its full length.
    pub open spec fn is_full(self) -> bool {
        self.timer.status == TimerStatus::Completed && self.to == FULL_BAR
    }

    /// Where the bar stands, in thousandths.
    pub fn value(&self) -> (v: u16)
        ensures
            v == self.level(),
            self.wf() ==> self.from <= v <= self.to,
    {
        if !(self.from <= self.to && self.to <= FULL_BAR) {
            return 0;
        }
        let progress = self.timer.progress_permille();
        let span: u32 = (self.to - self.from) as u32;
        assert(0 <= span * progress <= 1000 * 1000 && span * progress / 1000 <= span)
            by (nonlinear_arith)
            requires
                0 <= span <= 1000,
                0 <= progress <= 1000,
        ;
        let moved: u32 = span * (progress as u32) / 1000;
        self.from + moved as u16
    }
}

/// The composition under way.
#[derive(Debug, PartialEq, Eq)]
pub struct GenerationScreen {
    pub config: Config,
    pub index: CameraIndex,
    pub progress_bar: ProgressBar,
    pub captured_frames: Option<Vec<Picture>>,
    pub processing_state: ProcessingState,
    pub printable_image: Option<Picture>,
}

/// What the composition screen receives.
#[derive(Debug, PartialEq, Eq)]
pub enum GenerationScreenMessage {
    /// The entry action: start composing.
    GenerateImage,
    /// Composing ended: with the image, or without one.
    FinishProcessImage(Option<Picture>),
    /// Time has passed: this many milliseconds since the last tick.
    Tick(u64),
}

/// What it takes to compose an image.
#[derive(Debug, PartialEq, Eq)]
pub struct GenerationScreenFlags {
    pub config: Config,
    pub index: CameraIndex,
    pub captured_frames: Vec<Picture>,
}

impl GenerationScreen {
    /// The bar is within its range, and a bar on its way to the end means
    /// that the image is there.
    pub open spec fn wf(&self) -> bool {
        &&& self.progress_bar.wf()
        &&& self.progress_bar.to == FULL_BAR ==> self.printable_image is Some
    }

    /// What opening the screen gives: the shots at hand, the bar ready for
    /// its first move, and the entry action that starts composing.
    pub open spec fn opens(flags: GenerationScreenFlags, r: (GenerationScreen, Command)) -> bool {
        &&& r.0 == (GenerationScreen {
            config: flags.config,
            index: flags.index,
            progress_bar: ProgressBar {
                from: 0,
                to: COMPOSING_STOP,
                timer: Timer { duration_ms: COMPOSING_MS, elapsed_ms: 0, status: TimerStatus::Idle },
            },
            captured_frames: Some(flags.captured_frames),
            processing_state: ProcessingState::GeneratingImage,
            printable_image: None,
        })
        &&& r.1 == Command::Deliver(
            ScreenMessage::GenerationScreenMessage(GenerationScreenMessage::GenerateImage),
        )
    }

    /// What an event does to the screen.
    ///
    /// The start sets the bar moving and hands the shots out to be
    /// composed, with the template; a second start finds no shots and only
    /// reports that. The composed image is kept and the bar sent to its
    /// end from where it stands; a failed composition leads to a failure
    /// report. A tick moves the bar; once the bar is full the screen hands
    /// the image over to the recipients screen.
    pub open spec fn steps(
        self,
        message: GenerationScreenMessage,
        r: ScreenStep<GenerationScreen>,
    ) -> bool {
        match message {
            GenerationScreenMessage::GenerateImage => {
                let bar = ProgressBar { timer: self.progress_bar.timer.begun(), ..self.progress_bar };
                match self.captured_frames {
                    Some(frames) => {
                        &&& r matches ScreenStep::Stay(
                            next,
                            Command::Compose { captured_frames, template },
                        )
                        &&& next == (GenerationScreen {
                            progress_bar: bar,
                            captured_frames: None,
                            processing_state: ProcessingState::GeneratingImage,
                            ..self
                        })
                        &&& captured_frames == frames
                        &&& template.width == self.config.template.width
                        &&& template.height == self.config.template.height
                        &&& template.frames@ == self.config.template.frames@
                    },
                    None => r == ScreenStep::Stay(
                        GenerationScreen { progress_bar: bar, ..self },
                        Command::Report(Fault::NoFramesToCompose),
                    ),
                }
            },
            GenerationScreenMessage::FinishProcessImage(Some(image)) => {
                &&& r matches ScreenStep::Stay(next, command)
                &&& command == Command::Idle
                &&& next == (GenerationScreen {
                    progress_bar: ProgressBar {
                        from: self.progress_bar.level() as u16,
                        to: FULL_BAR,
                        timer: Timer {
                            duration_ms: FINISHING_MS,
                            elapsed_ms: 0,
                            status: TimerStatus::Animating,
                        },
                    },
                    processing_state: ProcessingState::GenerateImageFinished,
                    printable_image: Some(image),
                    ..self
                })
            },
            GenerationScreenMessage::FinishProcessImage(None) => {
                &&& r matches ScreenStep::Leave(ScreenFlags::ErrorScreenFlags(flags))
                &&& flags.config == self.config
                &&& flags.index == self.index
                &&& flags.error_title@ == "Something went wrong"@
                &&& flags.error_content@ == "Failed to generate your image."@
            },
            GenerationScreenMessage::Tick(elapsed_ms) => {
                let bar = ProgressBar {
                    timer: self.progress_bar.timer.advanced(elapsed_ms),
                    ..self.progress_bar
                };
                match self.printable_image {
                    Some(image) if bar.is_full() => r == ScreenStep::<GenerationScreen>::Leave(
                        ScreenFlags::EmailScreenFlags(
                            EmailScreenFlags {
                                config: self.config,
                                index: self.index,
                                printable_image: image,
                            },
                        ),
                    ),
                    _ => r == ScreenStep::Stay(
                        GenerationScreen { progress_bar: bar, ..self },
                        Command::Idle,
                    ),
                }
            },
        }
    }

    /// Opens the screen.
    pub fn new(flags: GenerationScreenFlags) -> (r: (GenerationScreen, Command))
        ensures
            Self::opens(flags, r),
            r.0.wf(),
    {
        (
            GenerationScreen {
                config: flags.config,
                index: flags.index,
                progress_bar: ProgressBar {
                    from: 0,
                    to: COMPOSING_STOP,
                    timer: Timer::new(COMPOSING_MS),
                },
                captured_frames: Some(flags.captured_frames),
                processing_state: ProcessingState::GeneratingImage,
                printable_image: None,
            },
            Command::Deliver(
                ScreenMessage::GenerationScreenMessage(GenerationScreenMessage::GenerateImage),
            ),
        )
    }

    /// Applies one event.
    pub fn update(self, message: GenerationScreenMessage) -> (r: ScreenStep<GenerationScreen>)
        ensures
            self.steps(message, r),
            self.wf() ==> (r matches ScreenStep::Stay(next, _) ==> next.wf()),
    {
        match message {
            GenerationScreenMessage::GenerateImage => {
                let bar = ProgressBar {
                    from: self.progress_bar.from,
                    to: self.progress_bar.to,
                    timer: self.progress_bar.timer.begin(),
                };
                match self.captured_frames {
                    Some(frames) => {
                        let template = self.config.template.duplicate();
                        ScreenStep::Stay(
                            GenerationScreen {
                                config: self.config,
                                index: self.index,
                                progress_bar: bar,
                                captured_frames: None,
                                processing_state: ProcessingState::GeneratingImage,
                                printable_image: self.printable_image,
                            },
                            Command::Compose { captured_frames: frames, template },
                        )
                    },
                    None => ScreenStep::Stay(
                        GenerationScreen {
                            config: self.config,
                            index: self.index,
                            progress_bar: bar,
                            captured_frames: None,
                            processing_state: self.processing_state,
                            printable_image: self.printable_image,
                        },
                        Command::Report(Fault::NoFramesToCompose),
                    ),
                }
            },
            GenerationScreenMessage::FinishProcessImage(Some(image)) => {
                let from = self.progress_bar.value();
                ScreenStep::Stay(
                    GenerationScreen {
                        config: self.config,
                        index: self.index,
                        progress_bar: ProgressBar {
                            from,
                            to: FULL_BAR,
                            timer: Timer::new(FINISHING_MS).begin(),
                        },
                        captured_frames: self.captured_frames,
                        processing_state: ProcessingState::GenerateImageFinished,
                        printable_image: Some(image),
                    },
                    Command::Idle,
                )
            },
            GenerationScreenMessage::FinishProcessImage(None) => ScreenStep::Leave(
                ScreenFlags::ErrorScreenFlags(
                    ErrorScreenFlags {
                        config: self.config,
                        index: self.index,
                        error_title: String::from_str("Something went wrong"),
                        error_content: String::from_str("Failed to generate your image."),
                    },
                ),
            ),
            GenerationScreenMessage::Tick(elapsed_ms) => {
                let bar = ProgressBar {
                    from: self.progress_bar.from,
                    to: self.progress_bar.to,
                    timer: self.progress_bar.timer.advance(elapsed_ms),
                };
                let full = bar.timer.is_completed() && bar.to == FULL_BAR;
                match self.printable_image {
                    Some(image) if full => ScreenStep::Leave(
                        ScreenFlags::EmailScreenFlags(
                            EmailScreenFlags {
                                config: self.config,
                                index: self.index,
                                printable_image: image,
                            },
                        ),
                    ),
                    printable_image => ScreenStep::Stay(
                        GenerationScreen {
                            config: self.config,
                            index: self.index,
                            progress_bar: bar,
                            captured_frames: self.captured_frames,
                            processing_state: self.processing_state,
                            printable_image,
                        },
                        Command::Idle,
                    ),
                }
            },
        }
    }

    /// Ticks are wanted while the bar moves.
    pub fn subscription(&self) -> (s: Subscription)
        ensures
            s == if self.progress_bar.timer.status == TimerStatus::Animating {
                Subscription::Ticks
            } else {
                Subscription::Silent
            },
    {
        if self.progress_bar.timer.is_animating() {
            Subscription::Ticks
        } else {
            Subscription::Silent
        }
    }
}

} // verus!
