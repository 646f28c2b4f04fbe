//! The booth's configuration, as it arrives already read and checked.

use vstd::prelude::*;

verus! {

/// A rectangle of the template that one captured shot fills: the position
/// of its top left corner and its size, in pixels of the template.
#[derive(Clone, Copy, Debug, PartialEq, Eq, Structural)]
pub struct Frame {
    pub x: i64,
    pub y: i64,
    pub width: u32,
    pub height: u32,
}

/// The geometry of the printed image: its size and where each shot goes,
/// in the order in which the shots are taken.
#[derive(Debug, PartialEq, Eq)]
pub struct Template {
    pub width: u32,
    pub height: u32,
    pub frames: Vec<Frame>,
}

impl Template {
    /// A template places at least one shot.
    pub open spec fn wf(&self) -> bool {
        self.frames@.len() >= 1
    }

    /// Builds a template, or `None` where no frame is given.
    pub fn new(width: u32, height: u32, frames: Vec<Frame>) -> (r: Option<Template>)
        ensures
            r is Some <==> frames@.len() >= 1,
            r is Some ==> r->0.wf() && r->0.width == width && r->0.height == height
                && r->0.frames@ == frames@,
    {
        if frames.len() >= 1 {
            Some(Template { width, height, frames })
        } else {
            None
        }
    }

    /// How many shots the template places.
    pub fn frame_count(&self) -> (n: usize)
        ensures
            n == self.frames@.len(),
    {
        self.frames.len()
    }

    /// A copy of the template.
    pub fn duplicate(&self) -> (r: Template)
        ensures
            r.width == self.width,
            r.height == self.height,
            r.frames@ == self.frames@,
    {
        let mut frames: Vec<Frame> = Vec::new();
        let mut i: usize = 0;
        while i < self.frames.len()
            invariant
                i <= self.frames@.len(),
                frames@ == self.frames@.subrange(0, i as int),
            decreases self.frames@.len() - i,
        {
            frames.push(self.frames[i]);
            i = i + 1;
        }
        Template { width: self.width, height: self.height, frames }
    }
}

/// Which camera the booth uses: a position in the system's list, or a name.
#[derive(Debug, PartialEq, Eq)]
pub enum CameraIndex {
    Index(u32),
    Name(String),
}

impl CameraIndex {
    /// A copy of the index.
    pub fn duplicate(&self) -> (r: CameraIndex)
        ensures
            r == *self,
    {
        match self {
            CameraIndex::Index(i) => CameraIndex::Index(*i),
            CameraIndex::Name(name) => CameraIndex::Name(name.clone()),
        }
    }
}

/// Everything the operator configures.
#[derive(Debug, PartialEq, Eq)]
pub struct Config {
    pub name: String,
    pub fullscreen: bool,
    pub template: Template,
    pub email_example_domain: String,
    pub email_whitelisted_domains: Vec<String>,
    pub email_blacklisted_domains: Vec<String>,
    pub email_validation_failed_help: String,
    pub email_server_endpoint: String,
    pub email_max_recipients: u32,
    pub mirror_preview: bool,
    pub mirror_output: bool,
}

/// Why a configuration was refused.
#[derive(Clone, Copy, Debug, PartialEq, Eq, Structural)]
pub enum ConfigError {
    /// The template places no shot; at least `expected_length` are needed.
    TemplateWithoutFrames { length: usize, expected_length: usize },
}

impl Config {
    /// A configuration is usable when its template is.
    pub open spec fn wf(&self) -> bool {
        self.template.wf()
    }

    /// Accepts a configuration whose template places at least one shot,
    /// and refuses any other.
    pub fn new(draft: Config) -> (r: Result<Config, ConfigError>)
        ensures
            draft.wf() ==> r == Ok::<Config, ConfigError>(draft),
            !draft.wf() ==> r == Err::<Config, ConfigError>(
                ConfigError::TemplateWithoutFrames { length: 0, expected_length: 1 },
            ),
    {
        if draft.template.frames.len() >= 1 {
            Ok(draft)
        } else {
            Err(ConfigError::TemplateWithoutFrames { length: 0, expected_length: 1 })
        }
    }
}

} // verus!
