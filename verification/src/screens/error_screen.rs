//! A full-screen failure report that waits to be acknowledged.

use vstd::prelude::*;
use crate::config::{CameraIndex, Config};
use crate::screens::camera_screen::CameraScreenFlags;
use crate::screens::{Command, ScreenFlags, ScreenStep, Subscription};

verus! {

/// The failure on display.
#[derive(Debug, PartialEq, Eq)]
pub struct ErrorScreen {
    pub config: Config,
    pub index: CameraIndex,
    pub error_title: String,
    pub error_content: String,
}

/// What the failure screen receives: only the acknowledgment.
#[derive(Clone, Copy, Debug, PartialEq, Eq, Structural)]
pub enum ErrorScreenMessage {
    OkPressed,
}

/// What it takes to report a failure.
#[derive(Debug, PartialEq, Eq)]
pub struct ErrorScreenFlags {
    pub config: Config,
    pub index: CameraIndex,
    pub error_title: String,
    pub error_content: String,
}

impl ErrorScreen {
    /// What opening the screen gives: the failure as the flags have it,
    /// and no entry action.
    pub open spec fn opens(flags: ErrorScreenFlags, r: (ErrorScreen, Command)) -> bool {
        &&& r.0 == (ErrorScreen {
            config: flags.config,
            index: flags.index,
            error_title: flags.error_title,
            error_content: flags.error_content,
        })
        &&& r.1 == Command::Idle
    }

    /// What an event does to the screen: once acknowledged the booth
    /// returns to the camera, with the same configuration and camera.
    pub open spec fn steps(self, message: ErrorScreenMessage, r: ScreenStep<ErrorScreen>) -> bool {
        r == ScreenStep::<ErrorScreen>::Leave(
            ScreenFlags::CameraScreenFlags(
                CameraScreenFlags { index: self.index, config: self.config },
            ),
        )
    }

    /// Opens the screen.
    pub fn new(flags: ErrorScreenFlags) -> (r: (ErrorScreen, Command))
        ensures
            Self::opens(flags, r),
    {
        (
            ErrorScreen {
                config: flags.config,
                index: flags.index,
                error_title: flags.error_title,
                error_content: flags.error_content,
            },
            Command::Idle,
        )
    }

    /// Applies one event.
    pub fn update(self, message: ErrorScreenMessage) -> (r: ScreenStep<ErrorScreen>)
        ensures
            self.steps(message, r),
    {
        match message {
            ErrorScreenMessage::OkPressed => ScreenStep::Leave(
                ScreenFlags::CameraScreenFlags(
                    CameraScreenFlags { index: self.index, config: self.config },
                ),
            ),
        }
    }

    /// The failure waits for the acknowledging keys, without a time limit.
    pub fn subscription(&self) -> (s: Subscription)
        ensures
            s == Subscription::AcknowledgeKeys,
    {
        Subscription::AcknowledgeKeys
    }
}

} // verus!
