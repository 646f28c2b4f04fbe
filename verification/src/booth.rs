//! The booth as a whole: the active screen, and the numbering that keeps
//! late results of an earlier screen away from the screen that replaced it.

use vstd::prelude::*;
use crate::config::Config;
use crate::screens::config_screen::ConfigScreenFlags;
use crate::screens::{
    initial_screen, Command, Screen, ScreenFlags, ScreenMessage, ScreenUpdateOutcome, Subscription,
};

verus! {

/// What the booth receives.
#[derive(Debug, PartialEq, Eq)]
pub enum Message {
    /// An event for the screen that was active under the given number.
    ScreenMessage { generation: u64, message: ScreenMessage },
    /// The exit button was pressed.
    ExitPressed,
}

/// What the booth asks for after an event.
#[derive(Debug, PartialEq, Eq)]
pub enum Effect {
    /// Carry the command out; what comes of it returns as a message with
    /// the same number.
    Run { generation: u64, command: Command },
    /// Close the window.
    CloseWindow,
}

/// The active screen and its number. Every replacement of the screen
/// takes a new number.
#[derive(Debug, PartialEq, Eq)]
pub struct PhotoBooth {
    pub screen: Screen,
    pub generation: u64,
}

/// The number after `generation`: the next one, starting over after the last.
pub open spec fn next_generation(generation: u64) -> u64 {
    if generation == u64::MAX {
        0
    } else {
        (generation + 1) as u64
    }
}

impl PhotoBooth {
    /// What an event does to the booth.
    ///
    /// An event with another number than the active screen's is a late
    /// result of a screen that is gone: it is dropped and changes nothing.
    /// An event with the screen's number is applied to the flow; where the
    /// screen is replaced, the number moves on, and the entry action runs
    /// under the new number.
    pub open spec fn steps(self, message: Message, r: (PhotoBooth, Effect)) -> bool {
        match message {
            Message::ExitPressed => r.0 == self && r.1 == Effect::CloseWindow,
            Message::ScreenMessage { generation, message } => if generation != self.generation {
                r.0 == self && r.1 == (Effect::Run {
                    generation: self.generation,
                    command: Command::Idle,
                })
            } else {
                exists|outcome: ScreenUpdateOutcome| #[trigger]
                    self.screen.steps(message, outcome) && match outcome {
                        ScreenUpdateOutcome::Command(screen, command) => r.0 == (PhotoBooth {
                            screen,
                            generation: self.generation,
                        }) && r.1 == (Effect::Run { generation: self.generation, command }),
                        ScreenUpdateOutcome::NewScreen(screen, command) => r.0 == (PhotoBooth {
                            screen,
                            generation: next_generation(self.generation),
                        }) && r.1 == (Effect::Run {
                            generation: next_generation(self.generation),
                            command,
                        }),
                    }
            },
        }
    }

    /// Starts the booth on the setup screen, under the number zero.
    pub fn new(config: Config) -> (r: (PhotoBooth, Effect))
        ensures
            r.0.generation == 0,
            r.1 matches Effect::Run { generation, command } && generation == 0
                && ScreenFlags::ConfigScreenFlags(ConfigScreenFlags { config }).opens(
                r.0.screen,
                command,
            ),
            r.0.screen.config() == config,
            config.wf() ==> r.0.screen.wf(),
    {
        let (screen, command) = initial_screen(config).into_screen();
        (PhotoBooth { screen, generation: 0 }, Effect::Run { generation: 0, command })
    }

    /// Applies one event.
    ///
    /// The configuration travels through every screen unchanged, and a
    /// sound screen stays sound or is replaced by a sound one, as long as an
    /// order to replace the screen carries a usable configuration.
    pub fn update(self, message: Message) -> (r: (PhotoBooth, Effect))
        ensures
            self.steps(message, r),
            message matches Message::ScreenMessage { generation, .. } && generation
                != self.generation ==> r.0 == self,
            self.screen.wf() && (message matches Message::ScreenMessage {
                message: ScreenMessage::TransitionToScreen(flags),
                ..
            } ==> flags.config().wf()) ==> r.0.screen.wf(),
    {
        match message {
            Message::ExitPressed => (self, Effect::CloseWindow),
            Message::ScreenMessage { generation, message } => {
                if generation != self.generation {
                    let current = self.generation;
                    (self, Effect::Run { generation: current, command: Command::Idle })
                } else {
                    match self.screen.update(message) {
                        ScreenUpdateOutcome::Command(screen, command) => (
                            PhotoBooth { screen, generation },
                            Effect::Run { generation, command },
                        ),
                        ScreenUpdateOutcome::NewScreen(screen, command) => {
                            let next = if generation == u64::MAX {
                                0
                            } else {
                                generation + 1
                            };
                            (
                                PhotoBooth { screen, generation: next },
                                Effect::Run { generation: next, command },
                            )
                        },
                    }
                }
            },
        }
    }

    /// Where events come from now.
    pub fn subscription(&self) -> (s: Subscription)
        ensures
            self.screen.subscription_of(s),
    {
        self.screen.subscription()
    }

    /// The window's title: the configured name of the booth.
    pub fn title(&self) -> (title: String)
        ensures
            title == self.screen.config().name,
    {
        self.screen.configuration().name.clone()
    }
}

/// The number of a new screen always differs from that of the screen it
/// replaced, so no result of the old screen is taken for one of the new.
pub proof fn lemma_generation_moves(generation: u64)
    ensures
        next_generation(generation) != generation,
{
}

} // verus!
