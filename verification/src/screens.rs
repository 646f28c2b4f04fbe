//! The flow of screens: one screen is active at a time, and a transition
//! replaces it whole.

use vstd::prelude::*;
use crate::camera_feed::PreviewSettings;
use crate::config::{CameraIndex, Config, Template};
use crate::picture::Picture;

pub mod alert_screen;
pub mod camera_screen;
pub mod config_screen;
pub mod email_screen;
pub mod error_screen;
pub mod generation_screen;
pub mod sending_screen;

verus! {

/// An event for the active screen, or the order to replace it.
#[derive(Debug, PartialEq, Eq)]
pub enum ScreenMessage {
    TransitionToScreen(ScreenFlags),
    AlertScreenMessage(alert_screen::AlertScreenMessage),
    CameraScreenMessage(camera_screen::CameraScreenMessage),
    ConfigScreenMessage(config_screen::ConfigScreenMessage),
    EmailScreenMessage(email_screen::EmailScreenMessage),
    ErrorScreenMessage(error_screen::ErrorScreenMessage),
    GenerationScreenMessage(generation_screen::GenerationScreenMessage),
    SendingScreenMessage(sending_screen::SendingScreenMessage),
}

/// What a transition carries: the data from which the next screen is built.
#[derive(Debug, PartialEq, Eq)]
pub enum ScreenFlags {
    AlertScreenFlags(alert_screen::AlertScreenFlags),
    CameraScreenFlags(camera_screen::CameraScreenFlags),
    ConfigScreenFlags(config_screen::ConfigScreenFlags),
    EmailScreenFlags(email_screen::EmailScreenFlags),
    ErrorScreenFlags(error_screen::ErrorScreenFlags),
    GenerationScreenFlags(generation_screen::GenerationScreenFlags),
    SendingScreenFlags(sending_screen::SendingScreenFlags),
}

/// The active screen with its state.
#[derive(Debug, PartialEq, Eq)]
pub enum Screen {
    AlertScreen(alert_screen::AlertScreen),
    CameraScreen(camera_screen::CameraScreen),
    ConfigScreen(config_screen::ConfigScreen),
    EmailScreen(email_screen::EmailScreen),
    ErrorScreen(error_screen::ErrorScreen),
    GenerationScreen(generation_screen::GenerationScreen),
    SendingScreen(sending_screen::SendingScreen),
}

/// Something that a screen found wrong and that is worth a line in the log.
#[derive(Clone, Copy, Debug, PartialEq, Eq, Structural)]
pub enum Fault {
    /// A captured frame arrived that no capture was waiting for, or that
    /// the template has no room for. It was dropped.
    UnexpectedFrame,
    /// Generation was asked for twice: the frames were already handed out.
    NoFramesToCompose,
    /// Sending was asked for twice: the image was already handed out.
    NoImageToSend,
}

/// Work that a screen asks for. It is carried out away from the screens,
/// and what comes of it returns as a message.
#[derive(Debug, PartialEq, Eq)]
pub enum Command {
    /// Nothing to do.
    Idle,
    /// Hand this message to the active screen, once.
    Deliver(ScreenMessage),
    /// List the cameras of the system; answered by
    /// `ConfigScreenMessage::CamerasListed`.
    ListCameras,
    /// Capture a frame for the preview and prepare it as the settings say;
    /// answered by `CameraMessage::NewFrame`.
    CapturePreview { index: CameraIndex, settings: PreviewSettings },
    /// Capture one frame as it is; answered by
    /// `CameraScreenMessage::ImageCaptured`.
    CaptureShot { index: CameraIndex },
    /// Compose the shots onto the template's background; answered by
    /// `GenerationScreenMessage::FinishProcessImage`.
    Compose { captured_frames: Vec<Picture>, template: Template },
    /// Submit the image to the delivery service; answered by
    /// `SendingScreenMessage::SendFinished`.
    Send { endpoint: String, recipients: Vec<String>, image: Picture },
    /// Write the fault to the log.
    Report(Fault),
}

/// What one event does to a screen: it stays, possibly changed and with
/// work to be done, or it hands over to the screen that the flags describe.
#[derive(Debug, PartialEq, Eq)]
pub enum ScreenStep<S> {
    Stay(S, Command),
    Leave(ScreenFlags),
}

/// What one event does to the flow: the active screen goes on, or a new
/// screen has taken its place. The command is the work to be done next; for
/// a new screen it is the screen's entry action.
#[derive(Debug, PartialEq, Eq)]
pub enum ScreenUpdateOutcome {
    Command(Screen, Command),
    NewScreen(Screen, Command),
}

/// Where events come from while a screen is active.
#[derive(Clone, Copy, Debug, PartialEq, Eq, Structural)]
pub enum Subscription {
    /// The screen waits for the user or for the result of its work.
    Silent,
    /// A tick at sixty per second, each with the time since the last.
    Ticks,
    /// One event after this many milliseconds.
    Timeout(u64),
    /// The acknowledging keys, space and enter.
    AcknowledgeKeys,
}

/// The flags of the screen on which every run starts.
pub fn initial_screen(config: Config) -> (flags: ScreenFlags)
    ensures
        flags == ScreenFlags::ConfigScreenFlags(config_screen::ConfigScreenFlags { config }),
{
    ScreenFlags::ConfigScreenFlags(config_screen::ConfigScreenFlags { config })
}

impl ScreenFlags {
    /// The configuration that the flags carry on to the next screen.
    pub open spec fn config(self) -> Config {
        match self {
            ScreenFlags::AlertScreenFlags(flags) => flags.config,
            ScreenFlags::CameraScreenFlags(flags) => flags.config,
            ScreenFlags::ConfigScreenFlags(flags) => flags.config,
            ScreenFlags::EmailScreenFlags(flags) => flags.config,
            ScreenFlags::ErrorScreenFlags(flags) => flags.config,
            ScreenFlags::GenerationScreenFlags(flags) => flags.config,
            ScreenFlags::SendingScreenFlags(flags) => flags.config,
        }
    }

    /// Whether `screen` and `command` are the screen that these flags
    /// describe and its entry action.
    pub open spec fn opens(self, screen: Screen, command: Command) -> bool {
        match self {
            ScreenFlags::AlertScreenFlags(flags) => screen matches Screen::AlertScreen(s)
                && alert_screen::AlertScreen::opens(flags, (s, command)),
            ScreenFlags::CameraScreenFlags(flags) => screen matches Screen::CameraScreen(s)
                && camera_screen::CameraScreen::opens(flags, (s, command)),
            ScreenFlags::ConfigScreenFlags(flags) => screen matches Screen::ConfigScreen(s)
                && config_screen::ConfigScreen::opens(flags, (s, command)),
            ScreenFlags::EmailScreenFlags(flags) => screen matches Screen::EmailScreen(s)
                && email_screen::EmailScreen::opens(flags, (s, command)),
            ScreenFlags::ErrorScreenFlags(flags) => screen matches Screen::ErrorScreen(s)
                && error_screen::ErrorScreen::opens(flags, (s, command)),
            ScreenFlags::GenerationScreenFlags(flags) => screen matches Screen::GenerationScreen(s)
                && generation_screen::GenerationScreen::opens(flags, (s, command)),
            ScreenFlags::SendingScreenFlags(flags) => screen matches Screen::SendingScreen(s)
                && sending_screen::SendingScreen::opens(flags, (s, command)),
        }
    }

    /// Builds the screen that the flags describe, with its entry action.
    /// The screen keeps the configuration, and is sound where the
    /// configuration is.
    pub fn into_screen(self) -> (r: (Screen, Command))
        ensures
            self.opens(r.0, r.1),
            r.0.config() == self.config(),
            self.config().wf() ==> r.0.wf(),
    {
        match self {
            ScreenFlags::AlertScreenFlags(flags) => {
                let (screen, command) = alert_screen::AlertScreen::new(flags);
                (Screen::AlertScreen(screen), command)
            },
            ScreenFlags::CameraScreenFlags(flags) => {
                let (screen, command) = camera_screen::CameraScreen::new(flags);
                (Screen::CameraScreen(screen), command)
            },
            ScreenFlags::ConfigScreenFlags(flags) => {
                let (screen, command) = config_screen::ConfigScreen::new(flags);
                (Screen::ConfigScreen(screen), command)
            },
            ScreenFlags::EmailScreenFlags(flags) => {
                let (screen, command) = email_screen::EmailScreen::new(flags);
                (Screen::EmailScreen(screen), command)
            },
            ScreenFlags::ErrorScreenFlags(flags) => {
                let (screen, command) = error_screen::ErrorScreen::new(flags);
                (Screen::ErrorScreen(screen), command)
            },
            ScreenFlags::GenerationScreenFlags(flags) => {
                let (screen, command) = generation_screen::GenerationScreen::new(flags);
                (Screen::GenerationScreen(screen), command)
            },
            ScreenFlags::SendingScreenFlags(flags) => {
                let (screen, command) = sending_screen::SendingScreen::new(flags);
                (Screen::SendingScreen(screen), command)
            },
        }
    }
}

/// Whether `r` is what the step of a screen comes to in the flow: the
/// screen stays, wrapped again, or the screen that the flags describe has
/// taken its place, with its entry action as the command.
pub open spec fn follows<S>(
    step: ScreenStep<S>,
    wrap: spec_fn(S) -> Screen,
    r: ScreenUpdateOutcome,
) -> bool {
    match step {
        ScreenStep::Stay(next, command) => r == ScreenUpdateOutcome::Command(wrap(next), command),
        ScreenStep::Leave(flags) => r matches ScreenUpdateOutcome::NewScreen(screen, command)
            && flags.opens(screen, command),
    }
}

/// Replaces the active screen by the one that the flags describe.
fn enter(flags: ScreenFlags) -> (r: ScreenUpdateOutcome)
    ensures
        r matches ScreenUpdateOutcome::NewScreen(screen, command) && flags.opens(screen, command)
            && screen.config() == flags.config() && (flags.config().wf() ==> screen.wf()),
{
    let (screen, command) = flags.into_screen();
    ScreenUpdateOutcome::NewScreen(screen, command)
}

impl ScreenUpdateOutcome {
    /// The screen that is active after the event.
    pub open spec fn screen(self) -> Screen {
        match self {
            ScreenUpdateOutcome::Command(screen, _) => screen,
            ScreenUpdateOutcome::NewScreen(screen, _) => screen,
        }
    }
}

impl Screen {
    /// The configuration that the screen holds.
    pub open spec fn config(self) -> Config {
        match self {
            Screen::AlertScreen(screen) => screen.config,
            Screen::CameraScreen(screen) => screen.config,
            Screen::ConfigScreen(screen) => screen.config,
            Screen::EmailScreen(screen) => screen.config,
            Screen::ErrorScreen(screen) => screen.config,
            Screen::GenerationScreen(screen) => screen.config,
            Screen::SendingScreen(screen) => screen.config,
        }
    }

    /// The configuration is usable and the screen's own state is sound.
    pub open spec fn wf(self) -> bool {
        &&& self.config().wf()
        &&& match self {
            Screen::CameraScreen(screen) => screen.wf(),
            Screen::EmailScreen(screen) => screen.wf(),
            Screen::GenerationScreen(screen) => screen.wf(),
            _ => true,
        }
    }

    /// What an event does to the flow.
    ///
    /// The order to replace the screen is obeyed whatever screen is active.
    /// An event for the active screen is applied to it; where the screen
    /// leaves, the next screen takes its place in the same step. An event
    /// for any other screen changes nothing.
    pub open spec fn steps(self, message: ScreenMessage, r: ScreenUpdateOutcome) -> bool {
        match (self, message) {
            (_, ScreenMessage::TransitionToScreen(flags)) => r matches ScreenUpdateOutcome::NewScreen(
                screen,
                command,
            ) && flags.opens(screen, command),
            (Screen::AlertScreen(screen), ScreenMessage::AlertScreenMessage(m)) => exists|
                step: ScreenStep<alert_screen::AlertScreen>,
            |
                #[trigger] screen.steps(m, step) && follows(
                    step,
                    |s: alert_screen::AlertScreen| Screen::AlertScreen(s),
                    r,
                ),
            (Screen::CameraScreen(screen), ScreenMessage::CameraScreenMessage(m)) => exists|
                step: ScreenStep<camera_screen::CameraScreen>,
            |
                #[trigger] screen.steps(m, step) && follows(
                    step,
                    |s: camera_screen::CameraScreen| Screen::CameraScreen(s),
                    r,
                ),
            (Screen::ConfigScreen(screen), ScreenMessage::ConfigScreenMessage(m)) => exists|
                step: ScreenStep<config_screen::ConfigScreen>,
            |
                #[trigger] screen.steps(m, step) && follows(
                    step,
                    |s: config_screen::ConfigScreen| Screen::ConfigScreen(s),
                    r,
                ),
            (Screen::EmailScreen(screen), ScreenMessage::EmailScreenMessage(m)) => exists|
                step: ScreenStep<email_screen::EmailScreen>,
            |
                #[trigger] screen.steps(m, step) && follows(
                    step,
                    |s: email_screen::EmailScreen| Screen::EmailScreen(s),
                    r,
                ),
            (Screen::ErrorScreen(screen), ScreenMessage::ErrorScreenMessage(m)) => exists|
                step: ScreenStep<error_screen::ErrorScreen>,
            |
                #[trigger] screen.steps(m, step) && follows(
                    step,
                    |s: error_screen::ErrorScreen| Screen::ErrorScreen(s),
                    r,
                ),
            (Screen::GenerationScreen(screen), ScreenMessage::GenerationScreenMessage(m)) => exists|
                step: ScreenStep<generation_screen::GenerationScreen>,
            |
                #[trigger] screen.steps(m, step) && follows(
                    step,
                    |s: generation_screen::GenerationScreen| Screen::GenerationScreen(s),
                    r,
                ),
            (Screen::SendingScreen(screen), ScreenMessage::SendingScreenMessage(m)) => exists|
                step: ScreenStep<sending_screen::SendingScreen>,
            |
                #[trigger] screen.steps(m, step) && follows(
                    step,
                    |s: sending_screen::SendingScreen| Screen::SendingScreen(s),
                    r,
                ),
            _ => r == ScreenUpdateOutcome::Command(self, Command::Idle),
        }
    }

    /// Applies one event to the flow.
    ///
    /// The configuration travels through every screen unchanged, and a
    /// sound screen stays sound or is replaced by a sound one, as long as an
    /// order to replace the screen carries a usable configuration.
    pub fn update(self, message: ScreenMessage) -> (r: ScreenUpdateOutcome)
        ensures
            self.steps(message, r),
            !(message is TransitionToScreen) ==> r.screen().config() == self.config(),
            message matches ScreenMessage::TransitionToScreen(flags) ==> r.screen().config()
                == flags.config(),
            self.wf() && (message matches ScreenMessage::TransitionToScreen(flags)
                ==> flags.config().wf()) ==> r.screen().wf(),
    {
        match (self, message) {
            (_, ScreenMessage::TransitionToScreen(flags)) => enter(flags),
            (Screen::AlertScreen(screen), ScreenMessage::AlertScreenMessage(m)) => {
                let step = screen.update(m);
                match step {
                    ScreenStep::Stay(next, command) => ScreenUpdateOutcome::Command(
                        Screen::AlertScreen(next),
                        command,
                    ),
                    ScreenStep::Leave(flags) => enter(flags),
                }
            },
            (Screen::CameraScreen(screen), ScreenMessage::CameraScreenMessage(m)) => {
                let step = screen.update(m);
                match step {
                    ScreenStep::Stay(next, command) => ScreenUpdateOutcome::Command(
                        Screen::CameraScreen(next),
                        command,
                    ),
                    ScreenStep::Leave(flags) => enter(flags),
                }
            },
            (Screen::ConfigScreen(screen), ScreenMessage::ConfigScreenMessage(m)) => {
                let step = screen.update(m);
                match step {
                    ScreenStep::Stay(next, command) => ScreenUpdateOutcome::Command(
                        Screen::ConfigScreen(next),
                        command,
                    ),
                    ScreenStep::Leave(flags) => enter(flags),
                }
            },
            (Screen::EmailScreen(screen), ScreenMessage::EmailScreenMessage(m)) => {
                let step = screen.update(m);
                match step {
                    ScreenStep::Stay(next, command) => ScreenUpdateOutcome::Command(
                        Screen::EmailScreen(next),
                        command,
                    ),
                    ScreenStep::Leave(flags) => enter(flags),
                }
            },
            (Screen::ErrorScreen(screen), ScreenMessage::ErrorScreenMessage(m)) => {
                let step = screen.update(m);
                match step {
                    ScreenStep::Stay(next, command) => ScreenUpdateOutcome::Command(
                        Screen::ErrorScreen(next),
                        command,
                    ),
                    ScreenStep::Leave(flags) => enter(flags),
                }
            },
            (Screen::GenerationScreen(screen), ScreenMessage::GenerationScreenMessage(m)) => {
                let step = screen.update(m);
                match step {
                    ScreenStep::Stay(next, command) => ScreenUpdateOutcome::Command(
                        Screen::GenerationScreen(next),
                        command,
                    ),
                    ScreenStep::Leave(flags) => enter(flags),
                }
            },
            (Screen::SendingScreen(screen), ScreenMessage::SendingScreenMessage(m)) => {
                let step = screen.update(m);
                match step {
                    ScreenStep::Stay(next, command) => ScreenUpdateOutcome::Command(
                        Screen::SendingScreen(next),
                        command,
                    ),
                    ScreenStep::Leave(flags) => enter(flags),
                }
            },
            (screen, _) => ScreenUpdateOutcome::Command(screen, Command::Idle),
        }
    }

    /// Whether `s` is where events come from while this screen is
    /// active: the notice has its time limit, the failure report its keys,
    /// the camera and the composition their ticks while something moves,
    /// and every other screen only the user and the results of its work.
    pub open spec fn subscription_of(self, s: Subscription) -> bool {
        s == match self {
            Screen::AlertScreen(screen) => Subscription::Timeout(screen.timeout_ms),
            Screen::CameraScreen(screen) => if screen.sequence.is_animating() {
                Subscription::Ticks
            } else {
                Subscription::Silent
            },
            Screen::ErrorScreen(_) => Subscription::AcknowledgeKeys,
            Screen::GenerationScreen(screen) => if screen.progress_bar.timer.status
                == crate::timer::TimerStatus::Animating {
                Subscription::Ticks
            } else {
                Subscription::Silent
            },
            _ => Subscription::Silent,
        }
    }

    /// Where events come from while this screen is active.
    pub fn subscription(&self) -> (s: Subscription)
        ensures
            self.subscription_of(s),
    {
        match self {
            Screen::AlertScreen(screen) => screen.subscription(),
            Screen::CameraScreen(screen) => screen.subscription(),
            Screen::ErrorScreen(screen) => screen.subscription(),
            Screen::GenerationScreen(screen) => screen.subscription(),
            _ => Subscription::Silent,
        }
    }

    /// The configuration that the screen holds.
    pub fn configuration(&self) -> (config: &Config)
        ensures
            *config == self.config(),
    {
        match self {
            Screen::AlertScreen(screen) => &screen.config,
            Screen::CameraScreen(screen) => &screen.config,
            Screen::ConfigScreen(screen) => &screen.config,
            Screen::EmailScreen(screen) => &screen.config,
            Screen::ErrorScreen(screen) => &screen.config,
            Screen::GenerationScreen(screen) => &screen.config,
            Screen::SendingScreen(screen) => &screen.config,
        }
    }
}

/// Whether `screen` is a camera screen just opened for `config` and
/// `index`: no frame stored, no sequence running.
pub open spec fn is_fresh_camera(screen: Screen, config: Config, index: CameraIndex) -> bool {
    &&& screen matches Screen::CameraScreen(camera)
    &&& camera.config == config
    &&& camera.index == index
    &&& camera.captured_frames@.len() == 0
    &&& camera.sequence == crate::capture::CaptureSequence::fresh(
        config.template.frames@.len() as usize,
    )
}

/// An acknowledged failure report leads back to the camera, and whatever
/// was captured before is gone: the shoot starts over.
pub proof fn lemma_acknowledged_failure_restarts_capture(
    report: error_screen::ErrorScreen,
    r: ScreenUpdateOutcome,
)
    requires
        Screen::ErrorScreen(report).steps(
            ScreenMessage::ErrorScreenMessage(error_screen::ErrorScreenMessage::OkPressed),
            r,
        ),
    ensures
        r is NewScreen,
        is_fresh_camera(r.screen(), report.config, report.index),
{
}

/// A notice whose time is up leads back to the camera in the same way.
pub proof fn lemma_notice_restarts_capture(notice: alert_screen::AlertScreen, r: ScreenUpdateOutcome)
    requires
        Screen::AlertScreen(notice).steps(
            ScreenMessage::AlertScreenMessage(alert_screen::AlertScreenMessage::TimeoutFinished),
            r,
        ),
    ensures
        r is NewScreen,
        is_fresh_camera(r.screen(), notice.config, notice.index),
{
}

/// The end of a delivery decides the next screen: success leads to a
/// notice, every other outcome to a failure report.
pub proof fn lemma_delivery_decides_next_screen(
    sending: sending_screen::SendingScreen,
    result: crate::delivery::SendResult,
    r: ScreenUpdateOutcome,
)
    requires
        Screen::SendingScreen(sending).steps(
            ScreenMessage::SendingScreenMessage(
                sending_screen::SendingScreenMessage::SendFinished(result),
            ),
            r,
        ),
    ensures
        r is NewScreen,
        result@ is Success <==> r.screen() is AlertScreen,
        !(result@ is Success) <==> r.screen() is ErrorScreen,
{
}

/// When the capture sequence of a sound camera screen ends, the screen
/// that composes the image takes over with exactly as many frames as the
/// template places.
pub proof fn lemma_finished_capture_fills_template(
    camera: camera_screen::CameraScreen,
    elapsed_ms: u64,
    r: ScreenUpdateOutcome,
)
    requires
        camera.wf(),
        camera.sequence.ticked(elapsed_ms).1 == crate::capture::SequenceAction::Finalize,
        Screen::CameraScreen(camera).steps(
            ScreenMessage::CameraScreenMessage(
                camera_screen::CameraScreenMessage::Tick(elapsed_ms),
            ),
            r,
        ),
    ensures
        r matches ScreenUpdateOutcome::NewScreen(Screen::GenerationScreen(generation), _)
            && generation.captured_frames == Some(camera.captured_frames)
            && camera.captured_frames@.len() == camera.config.template.frames@.len()
            && generation.config == camera.config,
{
    crate::capture::lemma_tick_completes_one_round(camera.sequence, elapsed_ms);
}

} // verus!
