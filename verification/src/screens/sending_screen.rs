//! The screen that waits while the image is delivered, and decides what
//! the outcome leads to.

use vstd::prelude::*;
use vstd::string::StringExecFns;
use crate::config::{CameraIndex, Config};
use crate::delivery::{join, joined, SendOutcome, SendResult};
use crate::picture::Picture;
use crate::screens::alert_screen::AlertScreenFlags;
use crate::screens::error_screen::ErrorScreenFlags;
use crate::screens::{Command, Fault, ScreenFlags, ScreenMessage, ScreenStep};
use crate::text::duplicate_texts;

verus! {

/// How long the notice of a successful delivery stays, in milliseconds.
pub const SUCCESS_NOTICE_MS: u64 = 4000;

/// The delivery under way: the image is held until the one attempt starts.
#[derive(Debug, PartialEq, Eq)]
pub struct SendingScreen {
    pub config: Config,
    pub index: CameraIndex,
    pub image: Option<Picture>,
    pub addresses: Vec<String>,
}

/// What the delivery screen receives.
#[derive(Debug, PartialEq, Eq)]
pub enum SendingScreenMessage {
    /// The entry action: start the attempt.
    StartSend,
    /// The attempt ended.
    SendFinished(SendResult),
}

/// What it takes to deliver an image.
#[derive(Debug, PartialEq, Eq)]
pub struct SendingScreenFlags {
    pub config: Config,
    pub index: CameraIndex,
    pub image: Picture,
    pub addresses: Vec<String>,
}

/// The title of the failure report for an outcome other than success.
pub open spec fn failure_title(outcome: SendOutcome) -> Seq<char> {
    match outcome {
        SendOutcome::PartialSuccess { .. } => "Failed to send to some addresses"@,
        _ => "Something went wrong"@,
    }
}

/// The text of the failure report for an outcome other than success: the
/// service's reason, the exact addresses that failed, or what went wrong
/// with the exchange.
pub open spec fn failure_content(outcome: SendOutcome) -> Seq<char> {
    match outcome {
        SendOutcome::Failure(reason) => "Error message: "@ + reason,
        SendOutcome::PartialSuccess { failed_addresses } =>
            "This could be because of a typo. The failed addresses are: "@ + joined(
            failed_addresses,
            ", "@,
        ),
        SendOutcome::DecodeFailure =>
            "We couldn't parse the response from the server. Try again later."@,
        _ => "The request didn't go through. Try again later."@,
    }
}

impl SendingScreen {
    /// What an event does to the screen.
    ///
    /// The start hands the image out for its one attempt, with the endpoint
    /// and the recipients; a second start finds no image and only reports
    /// that. A finished attempt always leaves the screen: success leads to
    /// a notice, anything else to a failure report with its own text.
    pub open spec fn steps(self, message: SendingScreenMessage, r: ScreenStep<SendingScreen>) -> bool {
        match message {
            SendingScreenMessage::StartSend => match self.image {
                Some(image) => {
                    &&& r matches ScreenStep::Stay(next, Command::Send { endpoint, recipients, image: sent })
                    &&& next == (SendingScreen { image: None, ..self })
                    &&& endpoint@ == self.config.email_server_endpoint@
                    &&& recipients@ == self.addresses@
                    &&& sent == image
                },
                None => r == ScreenStep::Stay(self, Command::Report(Fault::NoImageToSend)),
            },
            SendingScreenMessage::SendFinished(result) => match result@ {
                SendOutcome::Success => {
                    &&& r matches ScreenStep::Leave(ScreenFlags::AlertScreenFlags(flags))
                    &&& flags.config == self.config
                    &&& flags.index == self.index
                    &&& flags.alert_title@ == "All done!"@
                    &&& flags.alert_content@
                        == "You should have received an email with your photos attached."@
                    &&& flags.timeout_ms == SUCCESS_NOTICE_MS
                },
                outcome => {
                    &&& r matches ScreenStep::Leave(ScreenFlags::ErrorScreenFlags(flags))
                    &&& flags.config == self.config
                    &&& flags.index == self.index
                    &&& flags.error_title@ == failure_title(outcome)
                    &&& flags.error_content@ == failure_content(outcome)
                },
            },
        }
    }

    /// What opening the screen gives: the image at hand, and the entry
    /// action that starts the attempt.
    pub open spec fn opens(flags: SendingScreenFlags, r: (SendingScreen, Command)) -> bool {
        &&& r.0 == (SendingScreen {
            config: flags.config,
            index: flags.index,
            image: Some(flags.image),
            addresses: flags.addresses,
        })
        &&& r.1 == Command::Deliver(
            ScreenMessage::SendingScreenMessage(SendingScreenMessage::StartSend),
        )
    }

    /// Opens the screen.
    pub fn new(flags: SendingScreenFlags) -> (r: (SendingScreen, Command))
        ensures
            Self::opens(flags, r),
    {
        (
            SendingScreen {
                config: flags.config,
                index: flags.index,
                image: Some(flags.image),
                addresses: flags.addresses,
            },
            Command::Deliver(ScreenMessage::SendingScreenMessage(SendingScreenMessage::StartSend)),
        )
    }

    /// Applies one event.
    pub fn update(self, message: SendingScreenMessage) -> (r: ScreenStep<SendingScreen>)
        ensures
            self.steps(message, r),
    {
        match message {
            SendingScreenMessage::StartSend => {
                match self.image {
                    Some(image) => {
                        let endpoint = self.config.email_server_endpoint.clone();
                        let recipients = duplicate_texts(&self.addresses);
                        ScreenStep::Stay(
                            SendingScreen {
                                config: self.config,
                                index: self.index,
                                image: None,
                                addresses: self.addresses,
                            },
                            Command::Send { endpoint, recipients, image },
                        )
                    },
                    None => ScreenStep::Stay(
                        SendingScreen {
                            config: self.config,
                            index: self.index,
                            image: None,
                            addresses: self.addresses,
                        },
                        Command::Report(Fault::NoImageToSend),
                    ),
                }
            },
            SendingScreenMessage::SendFinished(result) => {
                let flags = match result {
                    SendResult::Success => ScreenFlags::AlertScreenFlags(
                        AlertScreenFlags {
                            config: self.config,
                            index: self.index,
                            alert_title: String::from_str("All done!"),
                            alert_content: String::from_str(
                                "You should have received an email with your photos attached.",
                            ),
                            timeout_ms: SUCCESS_NOTICE_MS,
                        },
                    ),
                    SendResult::Failure(reason) => {
                        let mut content = String::from_str("Error message: ");
                        content.append(reason.as_str());
                        ScreenFlags::ErrorScreenFlags(
                            ErrorScreenFlags {
                                config: self.config,
                                index: self.index,
                                error_title: String::from_str("Something went wrong"),
                                error_content: content,
                            },
                        )
                    },
                    SendResult::PartialSuccess { failed_addresses } => {
                        let mut content = String::from_str(
                            "This could be because of a typo. The failed addresses are: ",
                        );
                        content.append(join(&failed_addresses, ", ").as_str());
                        ScreenFlags::ErrorScreenFlags(
                            ErrorScreenFlags {
                                config: self.config,
                                index: self.index,
                                error_title: String::from_str("Failed to send to some addresses"),
                                error_content: content,
                            },
                        )
                    },
                    SendResult::DecodeFailure => ScreenFlags::ErrorScreenFlags(
                        ErrorScreenFlags {
                            config: self.config,
                            index: self.index,
                            error_title: String::from_str("Something went wrong"),
                            error_content: String::from_str(
                                "We couldn't parse the response from the server. Try again later.",
                            ),
                        },
                    ),
                    SendResult::TransferFailure => ScreenFlags::ErrorScreenFlags(
                        ErrorScreenFlags {
                            config: self.config,
                            index: self.index,
                            error_title: String::from_str("Something went wrong"),
                            error_content: String::from_str(
                                "The request didn't go through. Try again later.",
                            ),
                        },
                    ),
                };
                ScreenStep::Leave(flags)
            },
        }
    }
}

} // verus!
