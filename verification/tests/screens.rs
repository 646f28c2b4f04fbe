use photobooth::booth::{Effect, Message, PhotoBooth};
use photobooth::camera_feed::{CameraMessage, DeviceError, PreviewSettings};
use photobooth::capture::CaptureSequenceState;
use photobooth::compositor::image_strip_renderer;
use photobooth::config::{CameraIndex, Config, Frame, Template};
use photobooth::delivery::{delivery_result, SendResult};
use photobooth::email::EmailAddressValidity;
use photobooth::picture::Picture;
use photobooth::screens::alert_screen::{AlertScreen, AlertScreenFlags, AlertScreenMessage};
use photobooth::screens::camera_screen::{CameraScreen, CameraScreenFlags, CameraScreenMessage};
use photobooth::screens::config_screen::{
    CameraWrapper, ConfigScreen, ConfigScreenFlags, ConfigScreenMessage,
};
use photobooth::screens::email_screen::{
    EmailScreen, EmailScreenFlags, EmailScreenMessage, Guidance, SubmitAction,
};
use photobooth::screens::error_screen::{ErrorScreen, ErrorScreenFlags, ErrorScreenMessage};
use photobooth::screens::generation_screen::{
    GenerationScreen, GenerationScreenFlags, GenerationScreenMessage, ProcessingState,
};
use photobooth::screens::sending_screen::{SendingScreen, SendingScreenFlags, SendingScreenMessage};
use photobooth::screens::{
    initial_screen, Command, Fault, Screen, ScreenFlags, ScreenMessage, ScreenStep,
    ScreenUpdateOutcome, Subscription,
};
use photobooth::timer::TimerStatus;

fn config(max_recipients: u32) -> Config {
    let frames = vec![
        Frame { x: 1, y: 1, width: 4, height: 3 },
        Frame { x: 1, y: 5, width: 4, height: 3 },
        Frame { x: 1, y: 9, width: 4, height: 3 },
    ];
    Config {
        name: "Booth".to_string(),
        fullscreen: false,
        template: Template::new(6, 13, frames).unwrap(),
        email_example_domain: "example.com".to_string(),
        email_whitelisted_domains: vec!["ok.com".to_string()],
        email_blacklisted_domains: vec!["bad.com".to_string()],
        email_validation_failed_help: "Use another address.".to_string(),
        email_server_endpoint: "https://mail.example.com/send".to_string(),
        email_max_recipients: max_recipients,
        mirror_preview: true,
        mirror_output: false,
    }
}

fn index() -> CameraIndex {
    CameraIndex::Index(2)
}

fn shot(shade: u8) -> Picture {
    Picture::from_raw(8, 6, [shade, shade, shade, 255].repeat(48)).unwrap()
}

fn stay<S>(step: ScreenStep<S>) -> (S, Command) {
    match step {
        ScreenStep::Stay(screen, command) => (screen, command),
        ScreenStep::Leave(flags) => panic!("left for {flags:?}"),
    }
}

fn leave<S: std::fmt::Debug>(step: ScreenStep<S>) -> ScreenFlags {
    match step {
        ScreenStep::Leave(flags) => flags,
        ScreenStep::Stay(screen, _) => panic!("stayed on {screen:?}"),
    }
}

fn camera_flags(max_recipients: u32) -> ScreenFlags {
    ScreenFlags::CameraScreenFlags(CameraScreenFlags { index: index(), config: config(max_recipients) })
}

fn email_screen(max_recipients: u32) -> EmailScreen {
    EmailScreen::new(EmailScreenFlags {
        config: config(max_recipients),
        index: index(),
        printable_image: shot(9),
    })
    .0
}

fn typed(screen: EmailScreen, text: &str) -> EmailScreen {
    let step = screen.update(EmailScreenMessage::CurrentEmailAddressChanged(text.to_string()));
    let (screen, command) = stay(step);
    assert_eq!(command, Command::Idle);
    screen
}

fn submitted(screen: EmailScreen) -> EmailScreen {
    let (screen, command) = stay(screen.update(EmailScreenMessage::CurrentEmailAddressSubmitted));
    assert_eq!(command, Command::Idle);
    screen
}

fn sending_screen() -> SendingScreen {
    SendingScreen::new(SendingScreenFlags {
        config: config(3),
        index: index(),
        image: shot(9),
        addresses: vec!["a@ok.com".to_string()],
    })
    .0
}

fn error_flags(title: &str, content: &str) -> ScreenFlags {
    ScreenFlags::ErrorScreenFlags(ErrorScreenFlags {
        config: config(3),
        index: index(),
        error_title: title.to_string(),
        error_content: content.to_string(),
    })
}

#[test]
fn every_run_starts_on_the_setup_screen() {
    assert_eq!(
        initial_screen(config(3)),
        ScreenFlags::ConfigScreenFlags(ConfigScreenFlags { config: config(3) })
    );
    let (booth, effect) = PhotoBooth::new(config(3));
    assert_eq!(booth.generation, 0);
    assert_eq!(effect, Effect::Run { generation: 0, command: Command::ListCameras });
    assert!(matches!(booth.screen, Screen::ConfigScreen(_)));
    assert_eq!(booth.title(), "Booth");
    assert_eq!(booth.subscription(), Subscription::Silent);
}

#[test]
fn setup_screen_leads_to_the_camera_once_a_camera_is_picked() {
    let (screen, command) = ConfigScreen::new(ConfigScreenFlags { config: config(3) });
    assert_eq!(command, Command::ListCameras);
    assert!(!screen.can_start());
    let (screen, _) = stay(screen.update(ConfigScreenMessage::Next));
    let cameras = vec![
        CameraWrapper { human_name: "Front".to_string(), index: CameraIndex::Index(0) },
        CameraWrapper { human_name: "Back".to_string(), index: CameraIndex::Name("usb".to_string()) },
    ];
    let (screen, _) = stay(screen.update(ConfigScreenMessage::CamerasListed(cameras)));
    assert_eq!(screen.cameras.len(), 2);
    let back = CameraWrapper { human_name: "Back".to_string(), index: CameraIndex::Name("usb".to_string()) };
    let front = CameraWrapper { human_name: "Front".to_string(), index: CameraIndex::Index(0) };
    let (screen, _) = stay(screen.update(ConfigScreenMessage::OptionHovered(front)));
    assert_eq!(screen.text, "Front");
    assert_eq!(screen.selected_camera, None);
    let (screen, _) = stay(screen.update(ConfigScreenMessage::Closed));
    assert_eq!(screen.text, "");
    let (screen, _) = stay(screen.update(ConfigScreenMessage::CameraSelected(back)));
    assert_eq!(screen.text, "Back");
    assert!(screen.can_start());
    let (screen, _) = stay(screen.update(ConfigScreenMessage::OptionHovered(CameraWrapper {
        human_name: "Front".to_string(),
        index: CameraIndex::Index(0),
    })));
    let (screen, _) = stay(screen.update(ConfigScreenMessage::Closed));
    assert_eq!(screen.text, "Back");
    assert_eq!(
        leave(screen.update(ConfigScreenMessage::Next)),
        ScreenFlags::CameraScreenFlags(CameraScreenFlags {
            index: CameraIndex::Name("usb".to_string()),
            config: config(3),
        })
    );
}

#[test]
fn camera_screen_opens_empty_and_asks_for_the_preview() {
    let (screen, command) = CameraScreen::new(CameraScreenFlags { index: index(), config: config(3) });
    assert!(screen.captured_frames.is_empty());
    assert_eq!(screen.sequence.state, CaptureSequenceState::Idle);
    assert_eq!(screen.sequence.shots, 3);
    assert_eq!(screen.subscription(), Subscription::Silent);
    let first = CameraScreenMessage::CameraFeedMessage(CameraMessage::CaptureFrame);
    assert_eq!(command, Command::Deliver(ScreenMessage::CameraScreenMessage(first)));
    let (screen, command) =
        stay(screen.update(CameraScreenMessage::CameraFeedMessage(CameraMessage::CaptureFrame)));
    assert_eq!(
        command,
        Command::CapturePreview {
            index: index(),
            settings: PreviewSettings { border_radius: 48, mirror: true, aspect_ratio: None },
        }
    );
    let frame = CameraMessage::NewFrame(Ok(shot(1)));
    let (screen, command) = stay(screen.update(CameraScreenMessage::CameraFeedMessage(frame)));
    assert_eq!(screen.feed.handle(), Some(&shot(1)));
    assert_eq!(
        command,
        Command::Deliver(ScreenMessage::CameraScreenMessage(
            CameraScreenMessage::CameraFeedMessage(CameraMessage::CaptureFrame)
        ))
    );
}

#[test]
fn camera_failure_leads_to_a_failure_report() {
    let cases = [
        (DeviceError::Open, "The camera could not be opened."),
        (DeviceError::Read, "The camera did not deliver a frame."),
        (DeviceError::Decode, "The camera delivered a frame that could not be read."),
    ];
    for (error, text) in cases {
        let (screen, _) = CameraScreen::new(CameraScreenFlags { index: index(), config: config(3) });
        let failed = CameraScreenMessage::CameraFeedMessage(CameraMessage::NewFrame(Err(error)));
        assert_eq!(leave(screen.update(failed)), error_flags("Camera problem", text));
        let (screen, _) = CameraScreen::new(CameraScreenFlags { index: index(), config: config(3) });
        let failed = CameraScreenMessage::ImageCaptured(Err(error));
        assert_eq!(leave(screen.update(failed)), error_flags("Camera problem", text));
    }
}

#[test]
fn frame_that_the_sequence_did_not_ask_for_is_reported() {
    let (screen, _) = CameraScreen::new(CameraScreenFlags { index: index(), config: config(3) });
    let (screen, command) = stay(screen.update(CameraScreenMessage::ImageCaptured(Ok(shot(1)))));
    assert_eq!(command, Command::Report(Fault::UnexpectedFrame));
    assert!(screen.captured_frames.is_empty());
}

#[test]
fn capture_sequence_stores_one_frame_a_cycle_and_hands_them_on() {
    let (screen, _) = CameraScreen::new(CameraScreenFlags { index: index(), config: config(3) });
    let (mut screen, _) = stay(screen.update(CameraScreenMessage::CaptureButtonPressed));
    assert_eq!(screen.subscription(), Subscription::Ticks);
    let (next, command) = stay(screen.update(CameraScreenMessage::Tick(3000)));
    assert_eq!(command, Command::Idle);
    screen = next;
    for cycle in 1..=3u8 {
        for _ in 0..2 {
            let (next, command) = stay(screen.update(CameraScreenMessage::Tick(1000)));
            assert_eq!(command, Command::Idle);
            screen = next;
        }
        let (next, command) = stay(screen.update(CameraScreenMessage::Tick(1000)));
        assert_eq!(command, Command::CaptureShot { index: index() });
        let (next, _) = stay(next.update(CameraScreenMessage::CaptureButtonPressed));
        assert_eq!(next.sequence.state, CaptureSequenceState::Snap);
        let (next, command) = stay(next.update(CameraScreenMessage::ImageCaptured(Ok(shot(cycle)))));
        assert_eq!(command, Command::Idle);
        assert_eq!(next.captured_frames.len(), cycle as usize);
        let (next, _) = stay(next.update(CameraScreenMessage::Tick(500)));
        assert_eq!(next.sequence.state, CaptureSequenceState::FrameSize);
        let step = next.update(CameraScreenMessage::Tick(500));
        if cycle < 3 {
            let (next, command) = stay(step);
            assert_eq!(command, Command::Idle);
            assert_eq!(next.sequence.state, CaptureSequenceState::Counter(3));
            assert_eq!(next.sequence.completed_cycles, cycle as usize);
            assert_eq!(next.captured_frames.len(), cycle as usize);
            screen = next;
        } else {
            assert_eq!(
                leave(step),
                ScreenFlags::GenerationScreenFlags(GenerationScreenFlags {
                    config: config(3),
                    index: index(),
                    captured_frames: vec![shot(1), shot(2), shot(3)],
                })
            );
            return;
        }
    }
}

#[test]
fn generation_hands_the_frames_out_once() {
    let flags = GenerationScreenFlags {
        config: config(3),
        index: index(),
        captured_frames: vec![shot(1), shot(2)],
    };
    let (screen, command) = GenerationScreen::new(flags);
    assert_eq!(
        command,
        Command::Deliver(ScreenMessage::GenerationScreenMessage(
            GenerationScreenMessage::GenerateImage
        ))
    );
    assert_eq!(screen.subscription(), Subscription::Silent);
    assert_eq!(screen.progress_bar.value(), 0);
    let (screen, command) = stay(screen.update(GenerationScreenMessage::GenerateImage));
    assert_eq!(
        command,
        Command::Compose {
            captured_frames: vec![shot(1), shot(2)],
            template: config(3).template,
        }
    );
    assert_eq!(screen.captured_frames, None);
    assert_eq!(screen.subscription(), Subscription::Ticks);
    let (screen, command) = stay(screen.update(GenerationScreenMessage::GenerateImage));
    assert_eq!(command, Command::Report(Fault::NoFramesToCompose));
    assert_eq!(screen.processing_state, ProcessingState::GeneratingImage);
}

#[test]
fn generation_bar_stops_short_until_the_image_arrives() {
    let flags =
        GenerationScreenFlags { config: config(3), index: index(), captured_frames: vec![shot(1)] };
    let (screen, _) = GenerationScreen::new(flags);
    let (screen, _) = stay(screen.update(GenerationScreenMessage::GenerateImage));
    let (screen, _) = stay(screen.update(GenerationScreenMessage::Tick(1500)));
    assert_eq!(screen.progress_bar.value(), 400);
    let (screen, command) = stay(screen.update(GenerationScreenMessage::Tick(60_000)));
    assert_eq!(command, Command::Idle);
    assert_eq!(screen.progress_bar.value(), 800);
    assert_eq!(screen.subscription(), Subscription::Silent);
    let (screen, command) =
        stay(screen.update(GenerationScreenMessage::FinishProcessImage(Some(shot(7)))));
    assert_eq!(command, Command::Idle);
    assert_eq!(screen.processing_state, ProcessingState::GenerateImageFinished);
    assert_eq!(screen.progress_bar.from, 800);
    assert_eq!(screen.progress_bar.to, 1000);
    assert_eq!(screen.progress_bar.timer.duration_ms, 500);
    assert_eq!(screen.progress_bar.timer.status, TimerStatus::Animating);
    assert_eq!(screen.subscription(), Subscription::Ticks);
    let (screen, _) = stay(screen.update(GenerationScreenMessage::Tick(250)));
    assert_eq!(screen.progress_bar.value(), 900);
    assert_eq!(
        leave(screen.update(GenerationScreenMessage::Tick(250))),
        ScreenFlags::EmailScreenFlags(EmailScreenFlags {
            config: config(3),
            index: index(),
            printable_image: shot(7),
        })
    );
}

#[test]
fn early_image_sends_the_bar_on_from_where_it_stands() {
    let flags =
        GenerationScreenFlags { config: config(3), index: index(), captured_frames: vec![shot(1)] };
    let (screen, _) = GenerationScreen::new(flags);
    let (screen, _) = stay(screen.update(GenerationScreenMessage::GenerateImage));
    let (screen, _) = stay(screen.update(GenerationScreenMessage::Tick(750)));
    assert_eq!(screen.progress_bar.value(), 200);
    let (screen, _) = stay(screen.update(GenerationScreenMessage::FinishProcessImage(Some(shot(7)))));
    assert_eq!(screen.progress_bar.value(), 200);
    let (screen, _) = stay(screen.update(GenerationScreenMessage::Tick(125)));
    assert_eq!(screen.progress_bar.value(), 400);
}

#[test]
fn failed_composition_leads_to_a_failure_report() {
    let flags =
        GenerationScreenFlags { config: config(3), index: index(), captured_frames: vec![shot(1)] };
    let (screen, _) = GenerationScreen::new(flags);
    let (screen, _) = stay(screen.update(GenerationScreenMessage::GenerateImage));
    assert_eq!(
        leave(screen.update(GenerationScreenMessage::FinishProcessImage(None))),
        error_flags("Something went wrong", "Failed to generate your image.")
    );
}

#[test]
fn email_screen_opens_empty() {
    let flags = EmailScreenFlags { config: config(3), index: index(), printable_image: shot(9) };
    let (screen, command) = EmailScreen::new(flags);
    assert_eq!(command, Command::Deliver(ScreenMessage::EmailScreenMessage(EmailScreenMessage::Tick)));
    assert!(screen.email_addresses.is_empty());
    assert_eq!(screen.current_email_address, "");
    assert_eq!(screen.guidance(), Guidance::Welcome);
    assert_eq!(screen.submit_action(), SubmitAction::Cancel);
    assert!(screen.can_submit());
    assert!(screen.accepts_input());
    let (screen, command) = stay(screen.update(EmailScreenMessage::Tick));
    assert_eq!(command, Command::Idle);
    assert!(screen.email_addresses.is_empty());
}

#[test]
fn typed_address_is_classified() {
    let screen = typed(email_screen(3), "a@");
    assert_eq!(screen.current_email_address, "a@");
    assert_eq!(screen.current_email_address_validity, EmailAddressValidity::Invalid);
    assert_eq!(screen.guidance(), Guidance::InvalidAddress);
    assert_eq!(screen.submit_action(), SubmitAction::AddAddress);
    assert!(!screen.can_submit());
    let screen = typed(screen, "a@bad.com");
    assert_eq!(screen.current_email_address_validity, EmailAddressValidity::DomainBlocked);
    assert_eq!(screen.guidance(), Guidance::DomainBlocked);
    assert!(!screen.can_submit());
    let screen = typed(screen, "a@other.org");
    assert_eq!(screen.current_email_address_validity, EmailAddressValidity::Valid);
    assert_eq!(screen.guidance(), Guidance::LooksGood);
    assert!(screen.can_submit());
}

#[test]
fn only_a_valid_address_is_added() {
    let screen = submitted(typed(email_screen(3), "nonsense"));
    assert!(screen.email_addresses.is_empty());
    assert_eq!(screen.current_email_address, "nonsense");
    let screen = submitted(typed(screen, "a@bad.com"));
    assert!(screen.email_addresses.is_empty());
    let screen = submitted(typed(screen, "a@ok.com"));
    assert_eq!(screen.email_addresses, vec!["a@ok.com".to_string()]);
    assert_eq!(screen.current_email_address, "");
    assert_eq!(screen.guidance(), Guidance::AddMore);
    assert_eq!(screen.submit_action(), SubmitAction::Finish);
}

#[test]
fn full_list_ignores_further_input() {
    let mut screen = email_screen(2);
    for address in ["a@ok.com", "b@ok.com"] {
        screen = submitted(typed(screen, address));
    }
    assert_eq!(screen.email_addresses.len(), 2);
    assert_eq!(screen.guidance(), Guidance::LimitReached);
    assert!(!screen.accepts_input());
    let screen = typed(screen, "c@ok.com");
    assert_eq!(screen.current_email_address, "");
    assert_eq!(screen.email_addresses.len(), 2);
    assert_eq!(screen.submit_action(), SubmitAction::Finish);
    let mut forced = screen;
    forced.current_email_address = "c@ok.com".to_string();
    forced.current_email_address_validity = EmailAddressValidity::Valid;
    let forced = submitted(forced);
    assert_eq!(forced.email_addresses, vec!["a@ok.com".to_string(), "b@ok.com".to_string()]);
}

#[test]
fn list_of_no_recipients_takes_none() {
    let screen = typed(email_screen(0), "a@ok.com");
    assert_eq!(screen.current_email_address, "");
    assert_eq!(screen.guidance(), Guidance::LimitReached);
    assert!(matches!(
        leave(screen.update(EmailScreenMessage::CurrentEmailAddressSubmitted)),
        ScreenFlags::AlertScreenFlags(_)
    ));
}

#[test]
fn empty_submit_with_recipients_sends() {
    let screen = submitted(typed(email_screen(3), "a@ok.com"));
    let screen = submitted(typed(screen, "b@other.org"));
    assert_eq!(
        leave(screen.update(EmailScreenMessage::CurrentEmailAddressSubmitted)),
        ScreenFlags::SendingScreenFlags(SendingScreenFlags {
            config: config(3),
            index: index(),
            image: shot(9),
            addresses: vec!["a@ok.com".to_string(), "b@other.org".to_string()],
        })
    );
}

#[test]
fn empty_submit_without_recipients_cancels() {
    assert_eq!(
        leave(email_screen(3).update(EmailScreenMessage::CurrentEmailAddressSubmitted)),
        ScreenFlags::AlertScreenFlags(AlertScreenFlags {
            config: config(3),
            index: index(),
            alert_title: "Successfully deleted".to_string(),
            alert_content:
                "Your photos were deleted without being saved and were not uploaded to our sever"
                    .to_string(),
            timeout_ms: 4000,
        })
    );
}

#[test]
fn sending_hands_the_image_out_once() {
    let flags = SendingScreenFlags {
        config: config(3),
        index: index(),
        image: shot(9),
        addresses: vec!["a@ok.com".to_string()],
    };
    let (screen, command) = SendingScreen::new(flags);
    assert_eq!(
        command,
        Command::Deliver(ScreenMessage::SendingScreenMessage(SendingScreenMessage::StartSend))
    );
    let (screen, command) = stay(screen.update(SendingScreenMessage::StartSend));
    assert_eq!(
        command,
        Command::Send {
            endpoint: "https://mail.example.com/send".to_string(),
            recipients: vec!["a@ok.com".to_string()],
            image: shot(9),
        }
    );
    assert_eq!(screen.image, None);
    let (_, command) = stay(screen.update(SendingScreenMessage::StartSend));
    assert_eq!(command, Command::Report(Fault::NoImageToSend));
}

#[test]
fn success_leads_to_a_notice() {
    assert_eq!(
        leave(sending_screen().update(SendingScreenMessage::SendFinished(SendResult::Success))),
        ScreenFlags::AlertScreenFlags(AlertScreenFlags {
            config: config(3),
            index: index(),
            alert_title: "All done!".to_string(),
            alert_content: "You should have received an email with your photos attached."
                .to_string(),
            timeout_ms: 4000,
        })
    );
}

#[test]
fn each_failure_leads_to_its_own_report() {
    let cases = [
        (
            SendResult::Failure("quota".to_string()),
            "Something went wrong",
            "Error message: quota",
        ),
        (
            SendResult::PartialSuccess {
                failed_addresses: vec!["a@x.com".to_string(), "b@y.org".to_string()],
            },
            "Failed to send to some addresses",
            "This could be because of a typo. The failed addresses are: a@x.com, b@y.org",
        ),
        (
            SendResult::DecodeFailure,
            "Something went wrong",
            "We couldn't parse the response from the server. Try again later.",
        ),
        (
            SendResult::TransferFailure,
            "Something went wrong",
            "The request didn't go through. Try again later.",
        ),
    ];
    for (result, title, content) in cases {
        assert_eq!(
            leave(sending_screen().update(SendingScreenMessage::SendFinished(result))),
            error_flags(title, content)
        );
    }
}

#[test]
fn reply_of_the_service_decides_the_next_screen() {
    let reply = br#"{"status":"partial","failed_addresses":["a@x.com","b@y.org"]}"#.to_vec();
    let result = delivery_result(Some(reply));
    assert_eq!(
        leave(sending_screen().update(SendingScreenMessage::SendFinished(result))),
        error_flags(
            "Failed to send to some addresses",
            "This could be because of a typo. The failed addresses are: a@x.com, b@y.org"
        )
    );
    let result = delivery_result(None);
    assert!(matches!(
        leave(sending_screen().update(SendingScreenMessage::SendFinished(result))),
        ScreenFlags::ErrorScreenFlags(_)
    ));
}

#[test]
fn notice_returns_to_the_camera_by_its_timer() {
    let flags = AlertScreenFlags {
        config: config(3),
        index: index(),
        alert_title: "All done!".to_string(),
        alert_content: "Bye".to_string(),
        timeout_ms: 4000,
    };
    let (screen, command) = AlertScreen::new(flags);
    assert_eq!(command, Command::Idle);
    assert_eq!(screen.subscription(), Subscription::Timeout(4000));
    assert_eq!(leave(screen.update(AlertScreenMessage::TimeoutFinished)), camera_flags(3));
}

#[test]
fn failure_report_returns_to_the_camera_when_acknowledged() {
    let flags = ErrorScreenFlags {
        config: config(3),
        index: index(),
        error_title: "Something went wrong".to_string(),
        error_content: "Sorry".to_string(),
    };
    let (screen, command) = ErrorScreen::new(flags);
    assert_eq!(command, Command::Idle);
    assert_eq!(screen.subscription(), Subscription::AcknowledgeKeys);
    assert_eq!(leave(screen.update(ErrorScreenMessage::OkPressed)), camera_flags(3));
}

#[test]
fn event_for_another_screen_changes_nothing() {
    let (screen, _) = camera_flags(3).into_screen();
    let (same, _) = camera_flags(3).into_screen();
    let message = ScreenMessage::AlertScreenMessage(AlertScreenMessage::TimeoutFinished);
    assert_eq!(screen.update(message), ScreenUpdateOutcome::Command(same, Command::Idle));
    let (screen, _) = error_flags("a", "b").into_screen();
    let (same, _) = error_flags("a", "b").into_screen();
    let message = ScreenMessage::EmailScreenMessage(EmailScreenMessage::CurrentEmailAddressSubmitted);
    assert_eq!(screen.update(message), ScreenUpdateOutcome::Command(same, Command::Idle));
}

#[test]
fn transition_replaces_any_screen() {
    let (screen, _) = error_flags("a", "b").into_screen();
    let outcome = screen.update(ScreenMessage::TransitionToScreen(camera_flags(3)));
    let (expected, entry) = camera_flags(3).into_screen();
    assert_eq!(outcome, ScreenUpdateOutcome::NewScreen(expected, entry));
}

#[test]
fn leaving_screen_is_replaced_in_the_same_step() {
    let (screen, _) = error_flags("a", "b").into_screen();
    let outcome = screen.update(ScreenMessage::ErrorScreenMessage(ErrorScreenMessage::OkPressed));
    let (expected, entry) = camera_flags(3).into_screen();
    assert_eq!(outcome, ScreenUpdateOutcome::NewScreen(expected, entry));
    assert_eq!(Screen::subscription(&camera_flags(3).into_screen().0), Subscription::Silent);
}

#[test]
fn late_result_of_an_earlier_screen_is_dropped() {
    let (booth, _) = PhotoBooth::new(config(3));
    let to_camera = ScreenMessage::TransitionToScreen(camera_flags(3));
    let (booth, effect) = booth.update(Message::ScreenMessage { generation: 0, message: to_camera });
    assert_eq!(booth.generation, 1);
    assert!(matches!(effect, Effect::Run { generation: 1, command: Command::Deliver(_) }));
    let late = ScreenMessage::CameraScreenMessage(CameraScreenMessage::CaptureButtonPressed);
    let (booth, effect) = booth.update(Message::ScreenMessage { generation: 0, message: late });
    assert_eq!(effect, Effect::Run { generation: 1, command: Command::Idle });
    match &booth.screen {
        Screen::CameraScreen(screen) => {
            assert_eq!(screen.sequence.state, CaptureSequenceState::Idle)
        }
        other => panic!("on {other:?}"),
    }
    let now = ScreenMessage::CameraScreenMessage(CameraScreenMessage::CaptureButtonPressed);
    let (booth, _) = booth.update(Message::ScreenMessage { generation: 1, message: now });
    assert_eq!(booth.generation, 1);
    match &booth.screen {
        Screen::CameraScreen(screen) => {
            assert_eq!(screen.sequence.state, CaptureSequenceState::GetReady)
        }
        other => panic!("on {other:?}"),
    }
}

#[test]
fn exit_closes_the_window() {
    let (booth, _) = PhotoBooth::new(config(3));
    let (booth, effect) = booth.update(Message::ExitPressed);
    assert_eq!(effect, Effect::CloseWindow);
    assert_eq!(booth.generation, 0);
    assert!(matches!(booth.screen, Screen::ConfigScreen(_)));
}

#[test]
fn generation_starts_over_after_the_last_number() {
    let (screen, _) = error_flags("a", "b").into_screen();
    let booth = PhotoBooth { screen, generation: u64::MAX };
    let message = ScreenMessage::ErrorScreenMessage(ErrorScreenMessage::OkPressed);
    let (booth, effect) = booth.update(Message::ScreenMessage { generation: u64::MAX, message });
    assert_eq!(booth.generation, 0);
    assert!(matches!(effect, Effect::Run { generation: 0, .. }));
}

/// Carries an effect out as the runner would, with a camera that delivers
/// numbered shots, the real compositor and a service that always succeeds,
/// and hands back the message that results, if any.
fn carry_out(effect: Effect, shots_taken: &mut u8) -> Option<Message> {
    let Effect::Run { generation, command } = effect else {
        return None;
    };
    let message = match command {
        Command::Idle | Command::Report(_) => return None,
        Command::Deliver(message) => message,
        Command::ListCameras => {
            ScreenMessage::ConfigScreenMessage(ConfigScreenMessage::CamerasListed(vec![
                CameraWrapper { human_name: "X".to_string(), index: index() },
            ]))
        }
        // The preview loop would go on for ever; one frame is enough here.
        Command::CapturePreview { .. } => return None,
        Command::CaptureShot { .. } => {
            *shots_taken += 1;
            ScreenMessage::CameraScreenMessage(CameraScreenMessage::ImageCaptured(Ok(shot(
                *shots_taken,
            ))))
        }
        Command::Compose { captured_frames, template } => {
            let background = Picture::from_raw(6, 13, vec![255; 6 * 13 * 4]).unwrap();
            let composed = image_strip_renderer(background, &captured_frames, &template).ok();
            ScreenMessage::GenerationScreenMessage(GenerationScreenMessage::FinishProcessImage(
                composed,
            ))
        }
        Command::Send { .. } => {
            let reply = br#"{"status":"success"}"#.to_vec();
            ScreenMessage::SendingScreenMessage(SendingScreenMessage::SendFinished(
                delivery_result(Some(reply)),
            ))
        }
    };
    Some(Message::ScreenMessage { generation, message })
}

/// Applies a message and everything that follows from its effects.
fn settle(mut booth: PhotoBooth, message: Message, shots_taken: &mut u8) -> PhotoBooth {
    let mut pending = Some(message);
    while let Some(message) = pending {
        let (next, effect) = booth.update(message);
        booth = next;
        pending = carry_out(effect, shots_taken);
    }
    booth
}

fn to_screen(booth: &PhotoBooth, message: ScreenMessage) -> Message {
    Message::ScreenMessage { generation: booth.generation, message }
}

#[test]
fn whole_session_from_setup_back_to_the_camera() {
    let mut shots_taken = 0;
    let (booth, effect) = PhotoBooth::new(config(3));
    let first = carry_out(effect, &mut shots_taken).unwrap();
    let mut booth = settle(booth, first, &mut shots_taken);

    // Setup: pick camera X and confirm.
    let pick = ConfigScreenMessage::CameraSelected(CameraWrapper {
        human_name: "X".to_string(),
        index: index(),
    });
    let message = to_screen(&booth, ScreenMessage::ConfigScreenMessage(pick));
    booth = settle(booth, message, &mut shots_taken);
    let message = to_screen(&booth, ScreenMessage::ConfigScreenMessage(ConfigScreenMessage::Next));
    booth = settle(booth, message, &mut shots_taken);
    match &booth.screen {
        Screen::CameraScreen(screen) => assert_eq!(screen.index, index()),
        other => panic!("on {other:?}"),
    }

    // Camera: press the button and let time pass until three shots are taken.
    let press = CameraScreenMessage::CaptureButtonPressed;
    let message = to_screen(&booth, ScreenMessage::CameraScreenMessage(press));
    booth = settle(booth, message, &mut shots_taken);
    let mut ticks = 0;
    while let Screen::CameraScreen(screen) = &booth.screen {
        assert!(screen.captured_frames.len() <= 3);
        assert_eq!(booth.subscription(), Subscription::Ticks);
        let tick = ScreenMessage::CameraScreenMessage(CameraScreenMessage::Tick(100));
        let message = to_screen(&booth, tick);
        booth = settle(booth, message, &mut shots_taken);
        ticks += 1;
        assert!(ticks < 1000);
    }
    assert_eq!(shots_taken, 3);
    // Lead-in, then three rounds of countdown and reveal.
    assert_eq!(ticks, 30 + 3 * (30 + 10));

    // Generation: the image is composed at once; the bar then runs to its end.
    match &booth.screen {
        Screen::GenerationScreen(screen) => {
            assert_eq!(screen.processing_state, ProcessingState::GenerateImageFinished);
            let image = screen.printable_image.as_ref().unwrap();
            assert_eq!((image.width(), image.height()), (6, 13));
        }
        other => panic!("on {other:?}"),
    }
    let tick = ScreenMessage::GenerationScreenMessage(GenerationScreenMessage::Tick(500));
    let message = to_screen(&booth, tick);
    booth = settle(booth, message, &mut shots_taken);

    // Email: enter an address, then submit with nothing typed.
    assert!(matches!(booth.screen, Screen::EmailScreen(_)));
    for message in [
        EmailScreenMessage::CurrentEmailAddressChanged("a@ok.com".to_string()),
        EmailScreenMessage::CurrentEmailAddressSubmitted,
    ] {
        let message = to_screen(&booth, ScreenMessage::EmailScreenMessage(message));
        booth = settle(booth, message, &mut shots_taken);
    }
    match &booth.screen {
        Screen::EmailScreen(screen) => {
            assert_eq!(screen.email_addresses, vec!["a@ok.com".to_string()])
        }
        other => panic!("on {other:?}"),
    }
    let submit = EmailScreenMessage::CurrentEmailAddressSubmitted;
    let message = to_screen(&booth, ScreenMessage::EmailScreenMessage(submit));
    booth = settle(booth, message, &mut shots_taken);

    // Sending succeeded at once: the notice is shown.
    match &booth.screen {
        Screen::AlertScreen(screen) => assert_eq!(screen.alert_title, "All done!"),
        other => panic!("on {other:?}"),
    }
    assert_eq!(booth.subscription(), Subscription::Timeout(4000));

    // The timeout fires: back on the camera, with nothing stored.
    let timeout = ScreenMessage::AlertScreenMessage(AlertScreenMessage::TimeoutFinished);
    let message = to_screen(&booth, timeout);
    booth = settle(booth, message, &mut shots_taken);
    match &booth.screen {
        Screen::CameraScreen(screen) => {
            assert!(screen.captured_frames.is_empty());
            assert_eq!(screen.sequence.state, CaptureSequenceState::Idle);
            assert_eq!(screen.sequence.captured, 0);
            assert_eq!(screen.index, index());
            assert_eq!(screen.config, config(3));
        }
        other => panic!("on {other:?}"),
    }
    // Setup, camera, generation, email, sending, notice, camera.
    assert_eq!(booth.generation, 6);
}
