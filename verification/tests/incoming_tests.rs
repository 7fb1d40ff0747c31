use afrasyab::incoming::{user_command_access, CommandAccess};
use afrasyab::commands::{AdminCommand, UserCommand};
use afrasyab::incoming::{
    after_playlist_entries, after_playlist_probe, callback_format, folder_callback_data,
    format_callback_data, playlist_accepted, playlist_callback_data, route_callback,
    route_message, select_telegram_file, telegram_file_too_large, CallbackRoute, FileRef,
    IncomingAction, IncomingEvent, IncomingFlow, MessageAttachments, MessageRoute,
    PlaylistProbeStep, TelegramFileMeta,
};
use afrasyab::job::YtDlpFormat;
use afrasyab::records::FolderPendingMode;

fn file(id: &str, name: Option<&str>, size: u32) -> FileRef {
    FileRef { file_id: id.into(), file_unique_id: format!("u-{id}"), file_name: name.map(Into::into), size }
}

fn none() -> MessageAttachments {
    MessageAttachments { document: None, video: None, audio: None, voice: None, photos: None }
}

#[test]
fn attachment_priority() {
    let mut a = none();
    a.video = Some(file("v", Some("clip.mp4"), 10));
    a.document = Some(file("d", Some("doc.pdf"), 20));
    let m = select_telegram_file(&a).unwrap();
    assert_eq!(m.file_id, "d");
    assert_eq!(m.file_unique_id, "u-d");
    assert_eq!(m.file_name.as_deref(), Some("doc.pdf"));
    assert_eq!(m.file_size, Some(20));

    let mut v = none();
    v.voice = Some(file("n", Some("ignored"), 3));
    assert_eq!(select_telegram_file(&v).unwrap().file_name, None);

    let mut p = none();
    p.photos = Some(vec![file("small", None, 1), file("large", None, 9)]);
    assert_eq!(select_telegram_file(&p).unwrap().file_id, "large");

    let mut empty_photo = none();
    empty_photo.photos = Some(Vec::new());
    assert!(select_telegram_file(&empty_photo).is_none());
    assert!(select_telegram_file(&none()).is_none());
}

#[test]
fn telegram_size_limit() {
    assert!(!telegram_file_too_large(None));
    assert!(!telegram_file_too_large(Some(20 * 1024 * 1024)));
    assert!(telegram_file_too_large(Some(20 * 1024 * 1024 + 1)));
}

#[test]
fn message_routes() {
    assert_eq!(route_message(false, Some(1), "/start", "", 1), MessageRoute::Ignore);
    assert_eq!(route_message(true, None, "/start", "", 1), MessageRoute::Ignore);
    assert_eq!(route_message(true, Some(7), "/adduser 5", "", 7), MessageRoute::Admin(AdminCommand::Adduser(5)));
    assert_eq!(route_message(true, Some(7), "/adduser", "", 7), MessageRoute::AdminUsage("Usage: /adduser <telegram_id>"));
    assert_eq!(route_message(true, Some(7), "/removeuser abc", "", 7), MessageRoute::AdminUsage("Usage: /removeuser <telegram_id>"));
    assert_eq!(route_message(true, Some(8), "/adduser 5", "", 7), MessageRoute::Content);
    assert_eq!(route_message(true, Some(8), "/status", "", 7), MessageRoute::User(UserCommand::Status));
    assert_eq!(route_message(true, Some(8), "https://x.y/z", "", 7), MessageRoute::Content);
}

#[test]
fn link_steps() {
    assert!(matches!(after_playlist_probe(None, 25), PlaylistProbeStep::AskFormat));
    match after_playlist_probe(Some(30), 25) {
        PlaylistProbeStep::Refuse(m) => assert_eq!(m, "Playlist has 30 items (max 25)."),
        other => panic!("unexpected {other:?}"),
    }
    assert!(matches!(after_playlist_probe(Some(25), 25), PlaylistProbeStep::FetchEntries { count: 25 }));
    assert_eq!(after_playlist_entries(3, 3).unwrap(), "Download all 3 items from this playlist?");
    assert!(after_playlist_entries(3, 1).is_none());
}

#[test]
fn callback_routes_and_round_trips() {
    let data = format_callback_data(YtDlpFormat::Audio, "0b5e-11");
    assert_eq!(data, "fmt:audio:0b5e-11");
    assert_eq!(route_callback(&data), CallbackRoute::Format { key: "audio".into(), pending_id: "0b5e-11".into() });
    assert_eq!(callback_format("audio"), Some(YtDlpFormat::Audio));
    assert_eq!(callback_format("mp4"), None);
    assert_eq!(route_callback("fmt:video:id:extra"), CallbackRoute::Format { key: "video".into(), pending_id: "id".into() });
    assert_eq!(route_callback("fmt:video"), CallbackRoute::Format { key: "video".into(), pending_id: "".into() });
    let yes = playlist_callback_data(true, "p:1");
    assert_eq!(yes, "pl:yes:p:1");
    assert_eq!(route_callback(&yes), CallbackRoute::Playlist { answer: "yes".into(), pending_id: "p:1".into() });
    assert_eq!(playlist_callback_data(false, "x"), "pl:no:x");
    assert_eq!(route_callback(folder_callback_data(FolderPendingMode::Rename)), CallbackRoute::FolderMode(FolderPendingMode::Rename));
    assert_eq!(route_callback(folder_callback_data(FolderPendingMode::CreateNew)), CallbackRoute::FolderMode(FolderPendingMode::CreateNew));
    assert_eq!(route_callback("folder:other"), CallbackRoute::Ignore);
    assert_eq!(route_callback(""), CallbackRoute::Ignore);
}

fn tg_file(size: Option<u64>) -> TelegramFileMeta {
    TelegramFileMeta { file_id: "F".into(), file_unique_id: "U".into(), file_name: None, file_size: size }
}

fn describe(a: &IncomingAction) -> String {
    match a {
        IncomingAction::EnqueueDirect { url } => format!("direct {url}"),
        IncomingAction::ProbePlaylist { url } => format!("probe {url}"),
        IncomingAction::Reply { text } => format!("reply {text}"),
        IncomingAction::FetchEntries { url } => format!("fetch {url}"),
        IncomingAction::ConfirmPlaylist { url, question } => format!("confirm {url} {question}"),
        IncomingAction::AskFormat { url } => format!("format {url}"),
        IncomingAction::RefuseFile { text } => format!("refuse {text}"),
        IncomingAction::EnqueueFile { file } => format!("file {}", file.file_id),
        IncomingAction::Finish => "finish".to_string(),
    }
}

#[test]
fn message_flow_handles_links_then_file() {
    let links = vec![
        "mailto:x@y.z".to_string(),
        "https://example.com/a.pdf".to_string(),
        "https://youtu.be/one".to_string(),
        "https://www.youtube.com/playlist?list=big".to_string(),
        "https://soundcloud.com/set".to_string(),
    ];
    let mut flow = IncomingFlow::new(links, Some(tg_file(Some(10))), 25);
    let mut log = Vec::new();
    let mut a = flow.start();
    log.push(describe(&a));
    for event in [
        IncomingEvent::Done,
        IncomingEvent::PlaylistSize(None),
        IncomingEvent::Done,
        IncomingEvent::PlaylistSize(Some(30)),
        IncomingEvent::Done,
        IncomingEvent::PlaylistSize(Some(3)),
        IncomingEvent::EntryUrls(3),
        IncomingEvent::Done,
        IncomingEvent::Done,
        IncomingEvent::Done,
    ] {
        a = flow.next(event);
        log.push(describe(&a));
    }
    assert_eq!(
        log,
        vec![
            "direct https://example.com/a.pdf",
            "probe https://youtu.be/one",
            "format https://youtu.be/one",
            "probe https://www.youtube.com/playlist?list=big",
            "reply Playlist has 30 items (max 25).",
            "probe https://soundcloud.com/set",
            "fetch https://soundcloud.com/set",
            "confirm https://soundcloud.com/set Download all 3 items from this playlist?",
            "file F",
            "finish",
            "finish",
        ]
    );
}

#[test]
fn message_flow_single_entry_playlist_and_large_file() {
    let mut flow = IncomingFlow::new(vec!["https://youtu.be/x".to_string()], Some(tg_file(Some(30_000_000))), 25);
    assert_eq!(describe(&flow.start()), "probe https://youtu.be/x");
    assert_eq!(describe(&flow.next(IncomingEvent::PlaylistSize(Some(2)))), "fetch https://youtu.be/x");
    assert_eq!(describe(&flow.next(IncomingEvent::EntryUrls(1))), "format https://youtu.be/x");
    assert_eq!(
        describe(&flow.next(IncomingEvent::Done)),
        "refuse File too large for the Telegram bot API (max 20 MB). Send a direct link instead."
    );
    assert_eq!(describe(&flow.next(IncomingEvent::Done)), "finish");
    let mut empty = IncomingFlow::new(Vec::new(), None, 25);
    assert_eq!(describe(&empty.start()), "finish");
    assert!(playlist_accepted("yes"));
    assert!(!playlist_accepted("no"));
}

#[test]
fn user_command_access_rules() {
    assert_eq!(user_command_access(UserCommand::Help, false), CommandAccess::ShowHelp);
    assert_eq!(user_command_access(UserCommand::Start, false), CommandAccess::Deny);
    assert_eq!(user_command_access(UserCommand::Status, false), CommandAccess::Ignore);
    assert_eq!(user_command_access(UserCommand::Folder, true), CommandAccess::Run);
}
