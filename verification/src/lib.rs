//! Logic of a kiosk photo booth: timed multi-shot capture, template
//! compositing, recipient validation and delivery, and the flow of screens
//! that ties them together.

pub mod address;
pub mod booth;
pub mod camera_button;
pub mod camera_feed;
pub mod capture;
pub mod compositor;
pub mod config;
pub mod delivery;
pub mod email;
pub mod encoding;
pub mod imaging;
pub mod json;
pub mod picture;
pub mod screens;
pub mod text;
pub mod timer;
