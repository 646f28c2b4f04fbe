//! The live preview: which frame is on display, how a captured frame is
//! prepared for it, and when the next one is asked for.

use vstd::prelude::*;
use crate::compositor::{centered_crop, crop_region};
use crate::picture::{Picture, Raster};

verus! {

/// A width-to-height ratio, as a pair of whole numbers.
#[derive(Clone, Copy, Debug, PartialEq, Eq, Structural)]
pub struct AspectRatio {
    pub width: u32,
    pub height: u32,
}

/// How a captured frame is prepared for the preview.
#[derive(Clone, Copy, Debug, PartialEq, Eq, Structural)]
pub struct PreviewSettings {
    /// The radius, in pixels, of the rounded corners; zero leaves them square.
    pub border_radius: u32,
    /// Whether the frame is mirrored left to right.
    pub mirror: bool,
    /// The aspect ratio to which the frame is cropped around its centre, if any.
    pub aspect_ratio: Option<AspectRatio>,
}

/// Why the camera gave no frame.
#[derive(Clone, Copy, Debug, PartialEq, Eq, Structural)]
pub enum DeviceError {
    /// The camera could not be opened.
    Open,
    /// No frame could be read.
    Read,
    /// The frame that was read could not be decoded.
    Decode,
}

/// What the preview receives.
#[derive(Debug, PartialEq, Eq)]
pub enum CameraMessage {
    /// Time to capture the next frame.
    CaptureFrame,
    /// The capture ended: with the prepared frame, or with the camera's failure.
    NewFrame(Result<Picture, DeviceError>),
}

/// What the preview asks for after an event.
#[derive(Clone, Copy, Debug, PartialEq, Eq, Structural)]
pub enum FeedAction {
    /// Capture a frame and prepare it as the settings say.
    Capture(PreviewSettings),
    /// Ask for the next frame at once.
    Schedule,
    /// The camera failed; the preview cannot go on.
    Failed(DeviceError),
}

/// The live preview.
#[derive(Debug, PartialEq, Eq)]
pub struct CameraFeed {
    pub current_frame: Option<Picture>,
    pub settings: PreviewSettings,
}

/// The frame cropped around its centre to the ratio, where one is set.
pub open spec fn preview_window(frame: Raster, aspect_ratio: Option<AspectRatio>) -> Raster {
    match aspect_ratio {
        Some(ratio) => {
            let region = centered_crop(
                frame.width as u32,
                frame.height as u32,
                ratio.width,
                ratio.height,
            );
            frame.window(
                region.left as nat,
                region.top as nat,
                region.width as nat,
                region.height as nat,
            )
        },
        None => frame,
    }
}

/// The frame as the preview shows it: cropped to the ratio, then mirrored,
/// then with its corners rounded.
pub open spec fn prepared(frame: Raster, settings: PreviewSettings) -> Raster {
    let window = preview_window(frame, settings.aspect_ratio);
    let turned = if settings.mirror {
        window.flipped()
    } else {
        window
    };
    turned.rounded(settings.border_radius as nat)
}

/// Prepares a captured frame for the preview.
pub fn prepare_preview(frame: Picture, settings: &PreviewSettings) -> (r: Picture)
    ensures
        r@ == prepared(frame@, *settings),
{
    let window = match settings.aspect_ratio {
        Some(ratio) => {
            let region = crop_region(frame.width(), frame.height(), ratio.width, ratio.height);
            match frame.crop(region.left, region.top, region.width, region.height) {
                Some(window) => window,
                None => frame,
            }
        },
        None => frame,
    };
    let turned = if settings.mirror {
        window.flip_horizontal()
    } else {
        window
    };
    turned.round_corners(settings.border_radius)
}

impl CameraFeed {
    /// A preview with nothing on display yet; its first event asks for a frame.
    pub fn new(border_radius: u32, mirror: bool, aspect_ratio: Option<AspectRatio>) -> (r: (
        CameraFeed,
        Option<CameraMessage>,
    ))
        ensures
            r.0.current_frame is None,
            r.0.settings == (PreviewSettings { border_radius, mirror, aspect_ratio }),
            r.1 == Some(CameraMessage::CaptureFrame),
    {
        (
            CameraFeed {
                current_frame: None,
                settings: PreviewSettings { border_radius, mirror, aspect_ratio },
            },
            Some(CameraMessage::CaptureFrame),
        )
    }

    /// Asked for a frame, the preview has one captured. Given a frame, it
    /// puts it on display and asks for the next at once. Given a failure,
    /// it keeps what it shows and reports the failure.
    pub fn update(self, message: CameraMessage) -> (r: (CameraFeed, FeedAction))
        ensures
            r.0.settings == self.settings,
            match message {
                CameraMessage::CaptureFrame => r.0 == self && r.1 == FeedAction::Capture(
                    self.settings,
                ),
                CameraMessage::NewFrame(Ok(frame)) => r.0.current_frame == Some(frame) && r.1
                    == FeedAction::Schedule,
                CameraMessage::NewFrame(Err(error)) => r.0 == self && r.1 == FeedAction::Failed(
                    error,
                ),
            },
    {
        match message {
            CameraMessage::CaptureFrame => {
                let settings = self.settings;
                (self, FeedAction::Capture(settings))
            },
            CameraMessage::NewFrame(Ok(frame)) => (
                CameraFeed { current_frame: Some(frame), settings: self.settings },
                FeedAction::Schedule,
            ),
            CameraMessage::NewFrame(Err(error)) => (self, FeedAction::Failed(error)),
        }
    }

    /// The frame on display, if one has arrived.
    pub fn handle(&self) -> (r: Option<&Picture>)
        ensures
            match r {
                Some(frame) => self.current_frame == Some(*frame),
                None => self.current_frame is None,
            },
    {
        self.current_frame.as_ref()
    }
}

} // verus!
