//! A full-screen notice that returns to the camera by itself.

use vstd::prelude::*;
use crate::config::{CameraIndex, Config};
use crate::screens::camera_screen::CameraScreenFlags;
use crate::screens::{Command, ScreenFlags, ScreenStep, Subscription};

verus! {

/// The notice on display.
#[derive(Debug, PartialEq, Eq)]
pub struct AlertScreen {
    pub config: Config,
    pub index: CameraIndex,
    pub alert_title: String,
    pub alert_content: String,
    pub timeout_ms: u64,
}

/// What the notice screen receives: only its timer.
#[derive(Clone, Copy, Debug, PartialEq, Eq, Structural)]
pub enum AlertScreenMessage {
    TimeoutFinished,
}

/// What it takes to show a notice.
#[derive(Debug, PartialEq, Eq)]
pub struct AlertScreenFlags {
    pub config: Config,
    pub index: CameraIndex,
    pub alert_title: String,
    pub alert_content: String,
    pub timeout_ms: u64,
}

impl AlertScreen {
    /// What opening the screen gives: the notice as the flags have it, and
    /// no entry action.
    pub open spec fn opens(flags: AlertScreenFlags, r: (AlertScreen, Command)) -> bool {
        &&& r.0 == (AlertScreen {
            config: flags.config,
            index: flags.index,
            alert_title: flags.alert_title,
            alert_content: flags.alert_content,
            timeout_ms: flags.timeout_ms,
        })
        &&& r.1 == Command::Idle
    }

    /// What an event does to the screen: when the time is up the booth
    /// returns to the camera, with the same configuration and camera.
    pub open spec fn steps(self, message: AlertScreenMessage, r: ScreenStep<AlertScreen>) -> bool {
        r == ScreenStep::<AlertScreen>::Leave(
            ScreenFlags::CameraScreenFlags(
                CameraScreenFlags { index: self.index, config: self.config },
            ),
        )
    }

    /// Opens the screen.
    pub fn new(flags: AlertScreenFlags) -> (r: (AlertScreen, Command))
        ensures
            Self::opens(flags, r),
    {
        (
            AlertScreen {
                config: flags.config,
                index: flags.index,
                alert_title: flags.alert_title,
                alert_content: flags.alert_content,
                timeout_ms: flags.timeout_ms,
            },
            Command::Idle,
        )
    }

    /// Applies one event.
    pub fn update(self, message: AlertScreenMessage) -> (r: ScreenStep<AlertScreen>)
        ensures
            self.steps(message, r),
    {
        match message {
            AlertScreenMessage::TimeoutFinished => ScreenStep::Leave(
                ScreenFlags::CameraScreenFlags(
                    CameraScreenFlags { index: self.index, config: self.config },
                ),
            ),
        }
    }

    /// The notice's own timer is its one source of events.
    pub fn subscription(&self) -> (s: Subscription)
        ensures
            s == Subscription::Timeout(self.timeout_ms),
    {
        Subscription::Timeout(self.timeout_ms)
    }
}

} // verus!
