//! The screen that collects the recipients of the composed image.

use vstd::prelude::*;
use vstd::string::StringExecFns;
use crate::address::email_domain;
use crate::config::{CameraIndex, Config};
use crate::email::{validate_address, validity_for, EmailAddressValidity};
use crate::picture::Picture;
use crate::screens::alert_screen::AlertScreenFlags;
use crate::screens::sending_screen::SendingScreenFlags;
use crate::screens::{Command, ScreenFlags, ScreenMessage, ScreenStep};
use crate::text::texts;

verus! {

/// How long the notice of a cancelled session stays, in milliseconds.
pub const CANCEL_NOTICE_MS: u64 = 4000;

/// The recipients collected so far and the address being typed.
#[derive(Debug, PartialEq, Eq)]
pub struct EmailScreen {
    pub config: Config,
    pub index: CameraIndex,
    pub printable_image: Picture,
    pub email_addresses: Vec<String>,
    pub current_email_address_validity: EmailAddressValidity,
    pub current_email_address: String,
}

/// What the recipients screen receives.
#[derive(Debug, PartialEq, Eq)]
pub enum EmailScreenMessage {
    /// The entry action; it changes nothing.
    Tick,
    /// The typed text is now this.
    CurrentEmailAddressChanged(String),
    /// Enter was pressed.
    CurrentEmailAddressSubmitted,
}

/// What it takes to collect recipients.
#[derive(Debug, PartialEq, Eq)]
pub struct EmailScreenFlags {
    pub config: Config,
    pub index: CameraIndex,
    pub printable_image: Picture,
}

/// Which guidance the screen shows under the input field.
#[derive(Clone, Copy, Debug, PartialEq, Eq, Structural)]
pub enum Guidance {
    /// The list is full; enter sends.
    LimitReached,
    /// The typed text is not an address.
    InvalidAddress,
    /// The typed address is at a refused domain; the configured help is shown.
    DomainBlocked,
    /// The typed address may be added.
    LooksGood,
    /// Nothing is typed and the list has entries; enter sends.
    AddMore,
    /// Nothing is typed and the list is empty; enter cancels.
    Welcome,
}

/// What enter does now.
#[derive(Clone, Copy, Debug, PartialEq, Eq, Structural)]
pub enum SubmitAction {
    /// The typed address is added to the list.
    AddAddress,
    /// The image is sent to the list.
    Finish,
    /// The session is cancelled and the image discarded.
    Cancel,
}

impl EmailScreen {
    /// The list never holds more than the configured number of recipients.
    pub open spec fn wf(&self) -> bool {
        self.email_addresses@.len() <= self.config.email_max_recipients
    }

    /// Whether the list has reached the configured number of recipients.
    pub open spec fn is_full(&self) -> bool {
        self.email_addresses@.len() >= self.config.email_max_recipients
    }

    /// The screen after the typed text changed to `address`: a full list
    /// ignores the input; otherwise the text is kept with its validity.
    pub open spec fn after_change(self, address: String) -> EmailScreen {
        if self.is_full() {
            self
        } else {
            EmailScreen {
                current_email_address: address,
                current_email_address_validity: validity_for(
                    email_domain(address@),
                    texts(self.config.email_whitelisted_domains@),
                    texts(self.config.email_blacklisted_domains@),
                ),
                ..self
            }
        }
    }

    /// Whether enter adds the typed address: something is typed, it was
    /// found valid, and the list has room.
    pub open spec fn adds_on_submit(&self) -> bool {
        self.current_email_address@.len() > 0 && self.current_email_address_validity
            == EmailAddressValidity::Valid && !self.is_full()
    }

    /// What an event does to the screen.
    ///
    /// A change of the typed text is classified and kept, unless the list is
    /// full. Enter with a typed address adds it if it is valid and there is
    /// room, and does nothing otherwise; enter with nothing typed sends the
    /// image to the list, or cancels the session where the list is empty.
    pub open spec fn steps(self, message: EmailScreenMessage, r: ScreenStep<EmailScreen>) -> bool {
        match message {
            EmailScreenMessage::Tick => r == ScreenStep::Stay(self, Command::Idle),
            EmailScreenMessage::CurrentEmailAddressChanged(address) => r == ScreenStep::Stay(
                self.after_change(address),
                Command::Idle,
            ),
            EmailScreenMessage::CurrentEmailAddressSubmitted => {
                if self.current_email_address@.len() > 0 {
                    if self.adds_on_submit() {
                        &&& r matches ScreenStep::Stay(next, command)
                        &&& command == Command::Idle
                        &&& next.config == self.config
                        &&& next.index == self.index
                        &&& next.printable_image == self.printable_image
                        &&& next.email_addresses@ == self.email_addresses@.push(
                            self.current_email_address,
                        )
                        &&& next.current_email_address@ == Seq::<char>::empty()
                        &&& next.current_email_address_validity
                            == self.current_email_address_validity
                    } else {
                        r == ScreenStep::Stay(self, Command::Idle)
                    }
                } else if self.email_addresses@.len() > 0 {
                    r == ScreenStep::<EmailScreen>::Leave(
                        ScreenFlags::SendingScreenFlags(
                            SendingScreenFlags {
                                config: self.config,
                                index: self.index,
                                image: self.printable_image,
                                addresses: self.email_addresses,
                            },
                        ),
                    )
                } else {
                    &&& r matches ScreenStep::Leave(ScreenFlags::AlertScreenFlags(flags))
                    &&& flags.config == self.config
                    &&& flags.index == self.index
                    &&& flags.alert_title@ == "Successfully deleted"@
                    &&& flags.alert_content@
                        == "Your photos were deleted without being saved and were not uploaded to our sever"@
                    &&& flags.timeout_ms == CANCEL_NOTICE_MS
                }
            },
        }
    }

    /// What opening the screen gives: an empty list, nothing typed, and a
    /// tick as the entry action.
    pub open spec fn opens(flags: EmailScreenFlags, r: (EmailScreen, Command)) -> bool {
        &&& r.0.config == flags.config
        &&& r.0.index == flags.index
        &&& r.0.printable_image == flags.printable_image
        &&& r.0.email_addresses@ == Seq::<String>::empty()
        &&& r.0.current_email_address@ == Seq::<char>::empty()
        &&& r.0.current_email_address_validity == EmailAddressValidity::Invalid
        &&& r.1 == Command::Deliver(ScreenMessage::EmailScreenMessage(EmailScreenMessage::Tick))
    }

    /// Opens the screen.
    pub fn new(flags: EmailScreenFlags) -> (r: (EmailScreen, Command))
        ensures
            Self::opens(flags, r),
            r.0.wf(),
    {
        (
            EmailScreen {
                config: flags.config,
                index: flags.index,
                printable_image: flags.printable_image,
                email_addresses: Vec::new(),
                current_email_address_validity: EmailAddressValidity::Invalid,
                current_email_address: String::new(),
            },
            Command::Deliver(ScreenMessage::EmailScreenMessage(EmailScreenMessage::Tick)),
        )
    }

    /// Applies one event.
    ///
    /// The list never grows beyond the configured number of recipients, and
    /// once it has reached that number no event changes it or the typed text.
    pub fn update(self, message: EmailScreenMessage) -> (r: ScreenStep<EmailScreen>)
        ensures
            self.steps(message, r),
            self.wf() ==> (r matches ScreenStep::Stay(next, _) ==> next.wf()),
            self.is_full() ==> (r matches ScreenStep::Stay(next, _) ==> next.email_addresses@
                == self.email_addresses@ && next.current_email_address
                == self.current_email_address),
    {
        let room = self.email_addresses.len() < self.config.email_max_recipients as usize;
        match message {
            EmailScreenMessage::Tick => ScreenStep::Stay(self, Command::Idle),
            EmailScreenMessage::CurrentEmailAddressChanged(address) => {
                if room {
                    let validity = validate_address(address.as_str(), &self.config);
                    ScreenStep::Stay(
                        EmailScreen {
                            config: self.config,
                            index: self.index,
                            printable_image: self.printable_image,
                            email_addresses: self.email_addresses,
                            current_email_address_validity: validity,
                            current_email_address: address,
                        },
                        Command::Idle,
                    )
                } else {
                    ScreenStep::Stay(self, Command::Idle)
                }
            },
            EmailScreenMessage::CurrentEmailAddressSubmitted => {
                if !self.current_email_address.as_str().is_empty() {
                    if room && self.current_email_address_validity == EmailAddressValidity::Valid {
                        let mut email_addresses = self.email_addresses;
                        email_addresses.push(self.current_email_address);
                        ScreenStep::Stay(
                            EmailScreen {
                                config: self.config,
                                index: self.index,
                                printable_image: self.printable_image,
                                email_addresses,
                                current_email_address_validity: self.current_email_address_validity,
                                current_email_address: String::new(),
                            },
                            Command::Idle,
                        )
                    } else {
                        ScreenStep::Stay(self, Command::Idle)
                    }
                } else if self.email_addresses.len() > 0 {
                    ScreenStep::Leave(
                        ScreenFlags::SendingScreenFlags(
                            SendingScreenFlags {
                                config: self.config,
                                index: self.index,
                                image: self.printable_image,
                                addresses: self.email_addresses,
                            },
                        ),
                    )
                } else {
                    ScreenStep::Leave(
                        ScreenFlags::AlertScreenFlags(
                            AlertScreenFlags {
                                config: self.config,
                                index: self.index,
                                alert_title: String::from_str("Successfully deleted"),
                                alert_content: String::from_str(
                                    "Your photos were deleted without being saved and were not uploaded to our sever",
                                ),
                                timeout_ms: CANCEL_NOTICE_MS,
                            },
                        ),
                    )
                }
            },
        }
    }

    /// Whether the input field takes text: not once the list is full.
    pub fn accepts_input(&self) -> (b: bool)
        ensures
            b == !self.is_full(),
    {
        self.email_addresses.len() < self.config.email_max_recipients as usize
    }

    /// What enter does now.
    pub fn submit_action(&self) -> (action: SubmitAction)
        ensures
            action == if self.current_email_address@.len() > 0 {
                SubmitAction::AddAddress
            } else if self.email_addresses@.len() > 0 {
                SubmitAction::Finish
            } else {
                SubmitAction::Cancel
            },
    {
        if !self.current_email_address.as_str().is_empty() {
            SubmitAction::AddAddress
        } else if self.email_addresses.len() > 0 {
            SubmitAction::Finish
        } else {
            SubmitAction::Cancel
        }
    }

    /// Whether enter is offered: with nothing typed, or with a valid address typed.
    pub fn can_submit(&self) -> (b: bool)
        ensures
            b == (self.current_email_address@.len() == 0 || self.current_email_address_validity
                == EmailAddressValidity::Valid),
    {
        self.current_email_address.as_str().is_empty() || self.current_email_address_validity
            == EmailAddressValidity::Valid
    }

    /// Which guidance is shown: a full list first, then what the typed
    /// address is found to be, then what the list holds.
    pub fn guidance(&self) -> (g: Guidance)
        ensures
            g == if self.is_full() {
                Guidance::LimitReached
            } else if self.current_email_address@.len() > 0 {
                match self.current_email_address_validity {
                    EmailAddressValidity::Invalid => Guidance::InvalidAddress,
                    EmailAddressValidity::DomainBlocked => Guidance::DomainBlocked,
                    EmailAddressValidity::Valid => Guidance::LooksGood,
                }
            } else if self.email_addresses@.len() > 0 {
                Guidance::AddMore
            } else {
                Guidance::Welcome
            },
    {
        if self.email_addresses.len() >= self.config.email_max_recipients as usize {
            Guidance::LimitReached
        } else if !self.current_email_address.as_str().is_empty() {
            match self.current_email_address_validity {
                EmailAddressValidity::Invalid => Guidance::InvalidAddress,
                EmailAddressValidity::DomainBlocked => Guidance::DomainBlocked,
                EmailAddressValidity::Valid => Guidance::LooksGood,
            }
        } else if self.email_addresses.len() > 0 {
            Guidance::AddMore
        } else {
            Guidance::Welcome
        }
    }
}

} // verus!
