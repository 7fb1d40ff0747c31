use afrasyab::format_queue::{FormatAction, FormatEvent, FormatQueueFlow};
use afrasyab::job::YtDlpFormat;
use afrasyab::replies::Lookup;
use afrasyab::status::JobSummary;

fn reply_of(a: FormatAction) -> Option<String> {
    match a {
        FormatAction::Answer { reply } => reply,
        other => panic!("expected an answer, got {other:?}"),
    }
}

#[test]
fn chosen_format_is_queued_and_acknowledged() {
    let mut flow = FormatQueueFlow::new("audio");
    assert!(matches!(flow.start(), FormatAction::TakePending));
    assert!(matches!(flow.next(FormatEvent::Pending(Some("https://youtu.be/x".into()))), FormatAction::CheckReadiness));
    match flow.next(FormatEvent::Readiness { credentials: Lookup::Present, folder: Lookup::Present }) {
        FormatAction::InsertJob { url, format } => {
            assert_eq!(url, "https://youtu.be/x");
            assert_eq!(format, YtDlpFormat::Audio);
        }
        other => panic!("unexpected {other:?}"),
    }
    let row = JobSummary {
        id: [0x12; 16],
        status: "queued".into(),
        progress_current: 0,
        progress_total: 0,
        error_message: None,
    };
    match flow.next(FormatEvent::Inserted(row)) {
        FormatAction::SendStatus { status } => assert_eq!(status, "Queued (#12121212)"),
        other => panic!("unexpected {other:?}"),
    }
    assert!(matches!(flow.next(FormatEvent::MessageSent(99)), FormatAction::SetStatusMessage { message_id: 99 }));
    assert_eq!(reply_of(flow.next(FormatEvent::Done)).as_deref(), Some("Queued."));
    match flow.next(FormatEvent::Done) {
        FormatAction::Edit { text } => assert_eq!(text, "Queued for download."),
        other => panic!("unexpected {other:?}"),
    }
    assert!(matches!(flow.next(FormatEvent::Done), FormatAction::Finish));
}

#[test]
fn format_button_for_a_user_not_ready_is_not_queued() {
    let mut flow = FormatQueueFlow::new("video");
    flow.start();
    flow.next(FormatEvent::Pending(Some("u".into())));
    match flow.next(FormatEvent::Readiness { credentials: Lookup::Failed, folder: Lookup::Missing }) {
        FormatAction::Notify { message } => {
            assert_eq!(message, "Could not verify your Google connection. Try again or use /connect.");
        }
        other => panic!("unexpected {other:?}"),
    }
    assert_eq!(
        reply_of(flow.next(FormatEvent::Done)).as_deref(),
        Some("Not queued \u{2014} complete /connect and /folder first.")
    );
    assert!(matches!(flow.next(FormatEvent::Done), FormatAction::Edit { .. }));
}

#[test]
fn unknown_format_key_gets_a_bare_answer() {
    let mut flow = FormatQueueFlow::new("flac");
    assert_eq!(reply_of(flow.start()), None);
    assert!(matches!(flow.next(FormatEvent::Done), FormatAction::Finish));
}

#[test]
fn expired_format_prompt_is_answered() {
    let mut flow = FormatQueueFlow::new("best");
    flow.start();
    assert_eq!(
        reply_of(flow.next(FormatEvent::Pending(None))).as_deref(),
        Some("This prompt expired. Send the link again.")
    );
    assert!(matches!(flow.next(FormatEvent::Done), FormatAction::Finish));
}
