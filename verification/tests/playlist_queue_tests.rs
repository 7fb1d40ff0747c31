use afrasyab::job::YtDlpFormat;
use afrasyab::playlist_queue::{PlaylistQueueFlow, QueueAction, QueueEvent};
use afrasyab::replies::Lookup;
use afrasyab::status::JobSummary;

fn queued_row(first_byte: u8) -> JobSummary {
    let mut id = [0u8; 16];
    id[0] = first_byte;
    JobSummary {
        id,
        status: "queued".to_string(),
        progress_current: 0,
        progress_total: 0,
        error_message: None,
    }
}

fn answer_text(a: QueueAction) -> Option<String> {
    match a {
        QueueAction::Answer { text } => text,
        other => panic!("expected an answer, got {other:?}"),
    }
}

fn edit_text(a: QueueAction) -> String {
    match a {
        QueueAction::Edit { text } => text,
        other => panic!("expected an edit, got {other:?}"),
    }
}

#[test]
fn accepted_playlist_queues_each_entry_in_order() {
    let entries = vec!["https://y/1".to_string(), "https://y/2".to_string()];
    let mut flow = PlaylistQueueFlow::new("yes");
    assert!(matches!(flow.start(), QueueAction::TakePending));
    assert!(matches!(flow.next(QueueEvent::Pending(Some(entries.clone()))), QueueAction::CheckReadiness));
    let mut action = flow.next(QueueEvent::Readiness { credentials: Lookup::Present, folder: Lookup::Present });
    for (idx, url) in entries.iter().enumerate() {
        match action {
            QueueAction::InsertJob { url: u, format } => {
                assert_eq!(&u, url);
                assert_eq!(format, YtDlpFormat::Best);
            }
            other => panic!("unexpected {other:?}"),
        }
        match flow.next(QueueEvent::Inserted(queued_row(0xab))) {
            QueueAction::UpdateProgress { current, total } => assert_eq!((current, total), (idx as i32 + 1, 2)),
            other => panic!("unexpected {other:?}"),
        }
        match flow.next(QueueEvent::Done) {
            QueueAction::SendStatus { text } => assert_eq!(text, "Queued (#ab000000)"),
            other => panic!("unexpected {other:?}"),
        }
        assert!(matches!(
            flow.next(QueueEvent::MessageSent(700 + idx as i64)),
            QueueAction::SetStatusMessage { message_id } if message_id == 700 + idx as i64
        ));
        action = flow.next(QueueEvent::Done);
    }
    assert_eq!(answer_text(action).as_deref(), Some("Queued 2 items."));
    assert_eq!(edit_text(flow.next(QueueEvent::Done)), "Queued 2 playlist items.");
    assert!(matches!(flow.next(QueueEvent::Done), QueueAction::Finish));
}

#[test]
fn expired_playlist_prompt_is_answered() {
    let mut flow = PlaylistQueueFlow::new("yes");
    assert_eq!(
        answer_text(flow.next(QueueEvent::Pending(None))).as_deref(),
        Some("This prompt expired. Send the playlist link again.")
    );
    assert!(matches!(flow.next(QueueEvent::Done), QueueAction::Finish));
}

#[test]
fn declined_playlist_is_cancelled() {
    let mut flow = PlaylistQueueFlow::new("no");
    assert_eq!(answer_text(flow.next(QueueEvent::Pending(Some(vec!["u".to_string()])))), None);
    assert_eq!(edit_text(flow.next(QueueEvent::Done)), "Playlist download cancelled.");
    assert!(matches!(flow.next(QueueEvent::Done), QueueAction::Finish));
}

#[test]
fn playlist_needs_connection_and_folder() {
    let mut flow = PlaylistQueueFlow::new("yes");
    flow.next(QueueEvent::Pending(Some(vec!["u".to_string()])));
    let a = flow.next(QueueEvent::Readiness { credentials: Lookup::Present, folder: Lookup::Missing });
    assert_eq!(answer_text(a).as_deref(), Some("Set up your upload folder with /folder before sending files."));
    assert_eq!(edit_text(flow.next(QueueEvent::Done)), "Set up your upload folder with /folder before sending files.");

    let mut flow = PlaylistQueueFlow::new("yes");
    flow.next(QueueEvent::Pending(Some(vec!["u".to_string()])));
    let a = flow.next(QueueEvent::Readiness { credentials: Lookup::Missing, folder: Lookup::Missing });
    assert_eq!(answer_text(a).as_deref(), Some("Connect Google Drive first with /connect."));
}

#[test]
fn empty_playlist_queues_nothing() {
    let mut flow = PlaylistQueueFlow::new("yes");
    flow.next(QueueEvent::Pending(Some(Vec::new())));
    let a = flow.next(QueueEvent::Readiness { credentials: Lookup::Present, folder: Lookup::Present });
    assert_eq!(answer_text(a).as_deref(), Some("Queued 0 items."));
    assert_eq!(edit_text(flow.next(QueueEvent::Done)), "Queued 0 playlist items.");
}
