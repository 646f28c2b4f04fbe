//! The screen with the live preview, on which the shots are taken.

use vstd::prelude::*;
use vstd::string::StringExecFns;
use crate::camera_feed::{CameraFeed, CameraMessage, DeviceError, FeedAction, PreviewSettings};
use crate::capture::{CaptureSequence, SequenceAction};
use crate::config::{CameraIndex, Config};
use crate::picture::Picture;
use crate::screens::error_screen::ErrorScreenFlags;
use crate::screens::generation_screen::GenerationScreenFlags;
use crate::screens::{Command, Fault, ScreenFlags, ScreenMessage, ScreenStep, Subscription};

verus! {

/// The radius of the preview's rounded corners, in pixels.
pub const PREVIEW_BORDER_RADIUS: u32 = 48;

/// The preview, the capture sequence and the shots taken so far.
#[derive(Debug, PartialEq, Eq)]
pub struct CameraScreen {
    pub feed: CameraFeed,
    pub config: Config,
    pub index: CameraIndex,
    pub captured_frames: Vec<Picture>,
    pub sequence: CaptureSequence,
}

/// What it takes to open the camera screen.
#[derive(Debug, PartialEq, Eq)]
pub struct CameraScreenFlags {
    pub index: CameraIndex,
    pub config: Config,
}

/// What the camera screen receives.
#[derive(Debug, PartialEq, Eq)]
pub enum CameraScreenMessage {
    /// An event of the preview.
    CameraFeedMessage(CameraMessage),
    /// The capture button was pressed.
    CaptureButtonPressed,
    /// The frame asked for by the sequence arrived, or the camera failed.
    ImageCaptured(Result<Picture, DeviceError>),
    /// Time has passed: this many milliseconds since the last tick.
    Tick(u64),
}

/// What the failure report says of a camera failure.
pub open spec fn device_error_text(error: DeviceError) -> Seq<char> {
    match error {
        DeviceError::Open => "The camera could not be opened."@,
        DeviceError::Read => "The camera did not deliver a frame."@,
        DeviceError::Decode => "The camera delivered a frame that could not be read."@,
    }
}

/// Whether `flags` describe the failure report for a camera failure, to
/// be acknowledged before the booth returns to the camera.
pub open spec fn reports_device_error(
    flags: ScreenFlags,
    config: Config,
    index: CameraIndex,
    error: DeviceError,
) -> bool {
    &&& flags matches ScreenFlags::ErrorScreenFlags(report)
    &&& report.config == config
    &&& report.index == index
    &&& report.error_title@ == "Camera problem"@
    &&& report.error_content@ == device_error_text(error)
}

/// Builds the failure report for a camera failure.
fn device_error_flags(config: Config, index: CameraIndex, error: DeviceError) -> (flags:
    ScreenFlags)
    ensures
        reports_device_error(flags, config, index, error),
{
    let content = match error {
        DeviceError::Open => String::from_str("The camera could not be opened."),
        DeviceError::Read => String::from_str("The camera did not deliver a frame."),
        DeviceError::Decode => String::from_str(
            "The camera delivered a frame that could not be read.",
        ),
    };
    ScreenFlags::ErrorScreenFlags(
        ErrorScreenFlags {
            config,
            index,
            error_title: String::from_str("Camera problem"),
            error_content: content,
        },
    )
}

impl CameraScreen {
    /// The sequence counts the frames that the screen holds, for the
    /// template that the screen is configured with.
    pub open spec fn wf(&self) -> bool {
        &&& self.config.wf()
        &&& self.sequence.wf()
        &&& self.sequence.captured == self.captured_frames@.len()
        &&& self.sequence.shots == self.config.template.frames@.len()
    }

    /// What opening the screen gives: an empty preview, no frame stored,
    /// an idle sequence, and the entry action that asks for the first
    /// preview frame.
    pub open spec fn opens(flags: CameraScreenFlags, r: (CameraScreen, Command)) -> bool {
        &&& r.0.config == flags.config
        &&& r.0.index == flags.index
        &&& r.0.captured_frames@ == Seq::<Picture>::empty()
        &&& r.0.feed.current_frame is None
        &&& r.0.feed.settings == (PreviewSettings {
            border_radius: PREVIEW_BORDER_RADIUS,
            mirror: flags.config.mirror_preview,
            aspect_ratio: None,
        })
        &&& r.0.sequence == CaptureSequence::fresh(flags.config.template.frames@.len() as usize)
        &&& r.1 == Command::Deliver(
            ScreenMessage::CameraScreenMessage(
                CameraScreenMessage::CameraFeedMessage(CameraMessage::CaptureFrame),
            ),
        )
    }

    /// What an event does to the screen.
    ///
    /// Preview events keep the preview going: a frame is captured when
    /// asked for, put on display when it arrives, and the next is asked for
    /// at once. The button starts the sequence if none runs. A tick drives
    /// the sequence; when it asks for a frame the camera is told, and when
    /// it ends the frames go on to be composed. An arriving frame is stored
    /// if the sequence takes it, and dropped with a report otherwise. A
    /// failure of the camera, in the preview or in a capture, leads to a
    /// failure report.
    pub open spec fn steps(self, message: CameraScreenMessage, r: ScreenStep<CameraScreen>) -> bool {
        match message {
            CameraScreenMessage::CameraFeedMessage(CameraMessage::CaptureFrame) => {
                &&& r matches ScreenStep::Stay(next, Command::CapturePreview { index, settings })
                &&& next == self
                &&& index == self.index
                &&& settings == self.feed.settings
            },
            CameraScreenMessage::CameraFeedMessage(CameraMessage::NewFrame(Ok(frame))) => {
                r == ScreenStep::Stay(
                    CameraScreen {
                        feed: CameraFeed {
                            current_frame: Some(frame),
                            settings: self.feed.settings,
                        },
                        ..self
                    },
                    Command::Deliver(
                        ScreenMessage::CameraScreenMessage(
                            CameraScreenMessage::CameraFeedMessage(CameraMessage::CaptureFrame),
                        ),
                    ),
                )
            },
            CameraScreenMessage::CameraFeedMessage(CameraMessage::NewFrame(Err(error))) => {
                &&& r matches ScreenStep::Leave(flags)
                &&& reports_device_error(flags, self.config, self.index, error)
            },
            CameraScreenMessage::CaptureButtonPressed => r == ScreenStep::Stay(
                CameraScreen { sequence: self.sequence.pressed(), ..self },
                Command::Idle,
            ),
            CameraScreenMessage::Tick(elapsed_ms) => {
                let (sequence, action) = self.sequence.ticked(elapsed_ms);
                match action {
                    SequenceAction::Wait => r == ScreenStep::Stay(
                        CameraScreen { sequence, ..self },
                        Command::Idle,
                    ),
                    SequenceAction::CaptureFrame => {
                        &&& r matches ScreenStep::Stay(next, Command::CaptureShot { index })
                        &&& next == (CameraScreen { sequence, ..self })
                        &&& index == self.index
                    },
                    SequenceAction::Finalize => r == ScreenStep::<CameraScreen>::Leave(
                        ScreenFlags::GenerationScreenFlags(
                            GenerationScreenFlags {
                                config: self.config,
                                index: self.index,
                                captured_frames: self.captured_frames,
                            },
                        ),
                    ),
                }
            },
            CameraScreenMessage::ImageCaptured(Ok(frame)) => {
                if self.sequence.takes_frame() {
                    &&& r matches ScreenStep::Stay(next, command)
                    &&& command == Command::Idle
                    &&& next.captured_frames@ == self.captured_frames@.push(frame)
                    &&& next.sequence == self.sequence.with_frame()
                    &&& next.feed == self.feed
                    &&& next.config == self.config
                    &&& next.index == self.index
                } else {
                    r == ScreenStep::Stay(self, Command::Report(Fault::UnexpectedFrame))
                }
            },
            CameraScreenMessage::ImageCaptured(Err(error)) => {
                &&& r matches ScreenStep::Leave(flags)
                &&& reports_device_error(flags, self.config, self.index, error)
            },
        }
    }

    /// Opens the screen.
    pub fn new(flags: CameraScreenFlags) -> (r: (CameraScreen, Command))
        ensures
            Self::opens(flags, r),
            flags.config.wf() ==> r.0.wf(),
    {
        let (feed, _) = CameraFeed::new(PREVIEW_BORDER_RADIUS, flags.config.mirror_preview, None);
        let sequence = CaptureSequence::new(flags.config.template.frames.len());
        (
            CameraScreen {
                feed,
                config: flags.config,
                index: flags.index,
                captured_frames: Vec::new(),
                sequence,
            },
            Command::Deliver(
                ScreenMessage::CameraScreenMessage(
                    CameraScreenMessage::CameraFeedMessage(CameraMessage::CaptureFrame),
                ),
            ),
        )
    }

    /// Applies one event.
    ///
    /// The screen never holds more frames than the template places, and
    /// the frames that it hands on to be composed are exactly as many.
    pub fn update(self, message: CameraScreenMessage) -> (r: ScreenStep<CameraScreen>)
        ensures
            self.steps(message, r),
            self.wf() ==> (r matches ScreenStep::Stay(next, _) ==> next.wf()),
            self.wf() ==> (r matches ScreenStep::Leave(
                ScreenFlags::GenerationScreenFlags(flags),
            ) ==> flags.captured_frames@.len() == flags.config.template.frames@.len()),
    {
        match message {
            CameraScreenMessage::CameraFeedMessage(feed_message) => {
                let (feed, action) = self.feed.update(feed_message);
                match action {
                    FeedAction::Capture(settings) => {
                        let index = self.index.duplicate();
                        ScreenStep::Stay(
                            CameraScreen {
                                feed,
                                config: self.config,
                                index: self.index,
                                captured_frames: self.captured_frames,
                                sequence: self.sequence,
                            },
                            Command::CapturePreview { index, settings },
                        )
                    },
                    FeedAction::Schedule => ScreenStep::Stay(
                        CameraScreen {
                            feed,
                            config: self.config,
                            index: self.index,
                            captured_frames: self.captured_frames,
                            sequence: self.sequence,
                        },
                        Command::Deliver(
                            ScreenMessage::CameraScreenMessage(
                                CameraScreenMessage::CameraFeedMessage(CameraMessage::CaptureFrame),
                            ),
                        ),
                    ),
                    FeedAction::Failed(error) => ScreenStep::Leave(
                        device_error_flags(self.config, self.index, error),
                    ),
                }
            },
            CameraScreenMessage::CaptureButtonPressed => ScreenStep::Stay(
                CameraScreen {
                    feed: self.feed,
                    config: self.config,
                    index: self.index,
                    captured_frames: self.captured_frames,
                    sequence: self.sequence.press(),
                },
                Command::Idle,
            ),
            CameraScreenMessage::Tick(elapsed_ms) => {
                let (sequence, action) = self.sequence.tick(elapsed_ms);
                match action {
                    SequenceAction::Wait => ScreenStep::Stay(
                        CameraScreen {
                            feed: self.feed,
                            config: self.config,
                            index: self.index,
                            captured_frames: self.captured_frames,
                            sequence,
                        },
                        Command::Idle,
                    ),
                    SequenceAction::CaptureFrame => {
                        let index = self.index.duplicate();
                        ScreenStep::Stay(
                            CameraScreen {
                                feed: self.feed,
                                config: self.config,
                                index: self.index,
                                captured_frames: self.captured_frames,
                                sequence,
                            },
                            Command::CaptureShot { index },
                        )
                    },
                    SequenceAction::Finalize => ScreenStep::Leave(
                        ScreenFlags::GenerationScreenFlags(
                            GenerationScreenFlags {
                                config: self.config,
                                index: self.index,
                                captured_frames: self.captured_frames,
                            },
                        ),
                    ),
                }
            },
            CameraScreenMessage::ImageCaptured(Ok(frame)) => {
                let (sequence, taken) = self.sequence.frame_arrived();
                if taken {
                    let mut captured_frames = self.captured_frames;
                    captured_frames.push(frame);
                    ScreenStep::Stay(
                        CameraScreen {
                            feed: self.feed,
                            config: self.config,
                            index: self.index,
                            captured_frames,
                            sequence,
                        },
                        Command::Idle,
                    )
                } else {
                    ScreenStep::Stay(self, Command::Report(Fault::UnexpectedFrame))
                }
            },
            CameraScreenMessage::ImageCaptured(Err(error)) => ScreenStep::Leave(
                device_error_flags(self.config, self.index, error),
            ),
        }
    }

    /// Ticks are wanted while a timer of the sequence runs.
    pub fn subscription(&self) -> (s: Subscription)
        ensures
            s == if self.sequence.is_animating() {
                Subscription::Ticks
            } else {
                Subscription::Silent
            },
    {
        if self.sequence.wants_ticks() {
            Subscription::Ticks
        } else {
            Subscription::Silent
        }
    }
}

} // verus!
