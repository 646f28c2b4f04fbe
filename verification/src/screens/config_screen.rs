//! The screen on which the operator picks the camera before the booth starts.

use vstd::prelude::*;
use crate::config::{CameraIndex, Config};
use crate::screens::camera_screen::CameraScreenFlags;
use crate::screens::{Command, ScreenFlags, ScreenStep};

verus! {

/// A camera of the system, as the list shows it.
#[derive(Debug, PartialEq, Eq)]
pub struct CameraWrapper {
    pub human_name: String,
    pub index: CameraIndex,
}

impl CameraWrapper {
    /// The name under which the camera is listed.
    pub fn to_string(&self) -> (name: String)
        ensures
            name == self.human_name,
    {
        self.human_name.clone()
    }
}

/// The choice as it stands.
#[derive(Debug, PartialEq, Eq)]
pub struct ConfigScreen {
    pub cameras: Vec<CameraWrapper>,
    pub selected_camera: Option<CameraWrapper>,
    pub text: String,
    pub config: Config,
}

/// What the setup screen receives.
#[derive(Debug, PartialEq, Eq)]
pub enum ConfigScreenMessage {
    /// The cameras of the system, in answer to the entry action.
    CamerasListed(Vec<CameraWrapper>),
    /// A camera was picked.
    CameraSelected(CameraWrapper),
    /// The pointer rests on a camera of the list.
    OptionHovered(CameraWrapper),
    /// The list was closed.
    Closed,
    /// The choice is confirmed.
    Next,
}

/// What it takes to set the booth up.
#[derive(Debug, PartialEq, Eq)]
pub struct ConfigScreenFlags {
    pub config: Config,
}

impl ConfigScreen {
    /// What opening the screen gives: nothing listed, nothing picked, and
    /// the entry action that lists the cameras.
    pub open spec fn opens(flags: ConfigScreenFlags, r: (ConfigScreen, Command)) -> bool {
        &&& r.0.config == flags.config
        &&& r.0.cameras@ == Seq::<CameraWrapper>::empty()
        &&& r.0.selected_camera is None
        &&& r.0.text@ == Seq::<char>::empty()
        &&& r.1 == Command::ListCameras
    }

    /// What an event does to the screen.
    ///
    /// The input field shows the name of the camera picked or pointed at,
    /// and after the list closes that of the camera picked, if any.
    /// Confirming leads to the camera with the picked index; with nothing
    /// picked it does nothing.
    pub open spec fn steps(self, message: ConfigScreenMessage, r: ScreenStep<ConfigScreen>) -> bool {
        match message {
            ConfigScreenMessage::CamerasListed(cameras) => r == ScreenStep::Stay(
                ConfigScreen { cameras, ..self },
                Command::Idle,
            ),
            ConfigScreenMessage::CameraSelected(camera) => r == ScreenStep::Stay(
                ConfigScreen { text: camera.human_name, selected_camera: Some(camera), ..self },
                Command::Idle,
            ),
            ConfigScreenMessage::OptionHovered(camera) => r == ScreenStep::Stay(
                ConfigScreen { text: camera.human_name, ..self },
                Command::Idle,
            ),
            ConfigScreenMessage::Closed => match self.selected_camera {
                Some(camera) => r == ScreenStep::Stay(
                    ConfigScreen { text: camera.human_name, ..self },
                    Command::Idle,
                ),
                None => {
                    &&& r matches ScreenStep::Stay(next, command)
                    &&& command == Command::Idle
                    &&& next.text@ == Seq::<char>::empty()
                    &&& next.cameras == self.cameras
                    &&& next.selected_camera == self.selected_camera
                    &&& next.config == self.config
                },
            },
            ConfigScreenMessage::Next => match self.selected_camera {
                Some(camera) => r == ScreenStep::<ConfigScreen>::Leave(
                    ScreenFlags::CameraScreenFlags(
                        CameraScreenFlags { index: camera.index, config: self.config },
                    ),
                ),
                None => r == ScreenStep::Stay(self, Command::Idle),
            },
        }
    }

    /// Opens the screen.
    pub fn new(flags: ConfigScreenFlags) -> (r: (ConfigScreen, Command))
        ensures
            Self::opens(flags, r),
    {
        (
            ConfigScreen {
                cameras: Vec::new(),
                selected_camera: None,
                text: String::new(),
                config: flags.config,
            },
            Command::ListCameras,
        )
    }

    /// Applies one event.
    pub fn update(self, message: ConfigScreenMessage) -> (r: ScreenStep<ConfigScreen>)
        ensures
            self.steps(message, r),
    {
        match message {
            ConfigScreenMessage::CamerasListed(cameras) => ScreenStep::Stay(
                ConfigScreen {
                    cameras,
                    selected_camera: self.selected_camera,
                    text: self.text,
                    config: self.config,
                },
                Command::Idle,
            ),
            ConfigScreenMessage::CameraSelected(camera) => {
                let text = camera.to_string();
                ScreenStep::Stay(
                    ConfigScreen {
                        cameras: self.cameras,
                        selected_camera: Some(camera),
                        text,
                        config: self.config,
                    },
                    Command::Idle,
                )
            },
            ConfigScreenMessage::OptionHovered(camera) => ScreenStep::Stay(
                ConfigScreen {
                    cameras: self.cameras,
                    selected_camera: self.selected_camera,
                    text: camera.human_name,
                    config: self.config,
                },
                Command::Idle,
            ),
            ConfigScreenMessage::Closed => {
                let text = match &self.selected_camera {
                    Some(camera) => camera.to_string(),
                    None => String::new(),
                };
                ScreenStep::Stay(
                    ConfigScreen {
                        cameras: self.cameras,
                        selected_camera: self.selected_camera,
                        text,
                        config: self.config,
                    },
                    Command::Idle,
                )
            },
            ConfigScreenMessage::Next => {
                match self.selected_camera {
                    Some(camera) => ScreenStep::Leave(
                        ScreenFlags::CameraScreenFlags(
                            CameraScreenFlags { index: camera.index, config: self.config },
                        ),
                    ),
                    None => ScreenStep::Stay(
                        ConfigScreen {
                            cameras: self.cameras,
                            selected_camera: None,
                            text: self.text,
                            config: self.config,
                        },
                        Command::Idle,
                    ),
                }
            },
        }
    }

    /// Whether the choice can be confirmed: only with a camera picked.
    pub fn can_start(&self) -> (b: bool)
        ensures
            b == (self.selected_camera is Some),
    {
        self.selected_camera.is_some()
    }
}

} // verus!
