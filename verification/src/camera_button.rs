//! The round capture button: what it sends when it is pressed.

use vstd::prelude::*;

verus! {

/// A capture button. Without a message to send it is disabled.
#[derive(Debug)]
pub struct CameraButton<Message: Clone> {
    pub on_press: Option<Message>,
}

/// What the button's own surface reports.
#[derive(Clone, Copy, Debug, PartialEq, Eq, Structural)]
pub enum Event {
    ButtonPressed,
}

/// A capture button that sends nothing yet.
pub fn camera_button<Message: Clone>() -> (button: CameraButton<Message>)
    ensures
        button.on_press is None,
{
    CameraButton::new()
}

impl<Message: Clone> CameraButton<Message> {
    /// A capture button that sends nothing yet.
    pub fn new() -> (button: Self)
        ensures
            button.on_press is None,
    {
        Self { on_press: None }
    }

    /// The button with the message that a press sends.
    pub fn on_press(self, on_press: Message) -> (button: Self)
        ensures
            button.on_press == Some(on_press),
    {
        Self { on_press: Some(on_press) }
    }

    /// Whether a press does anything.
    pub fn is_enabled(&self) -> (b: bool)
        ensures
            b == (self.on_press is Some),
    {
        self.on_press.is_some()
    }

    /// What a press sends: a copy of the button's message, if it has one.
    pub fn update(&self, event: Event) -> (message: Option<Message>)
        ensures
            message is Some <==> self.on_press is Some,
            message is Some ==> cloned(self.on_press->0, message->0),
    {
        match event {
            Event::ButtonPressed => match &self.on_press {
                Some(message) => Some(message.clone()),
                None => None,
            },
        }
    }
}

} // verus!
