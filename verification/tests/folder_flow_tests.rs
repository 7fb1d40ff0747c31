use afrasyab::crypto::TokenCipher;
use afrasyab::folder_flow::{FolderAction, FolderEvent, FolderFlow};
use afrasyab::records::FolderPendingMode;

fn show(a: &FolderAction) -> String {
    format!("{a:?}")
}

#[test]
fn folder_name_creates_a_folder() {
    let cipher = TokenCipher::new(&[5u8; 32]);
    let mut flow = FolderFlow::new("  Clips  ");
    assert!(matches!(flow.start(), FolderAction::CheckPending));
    assert!(matches!(flow.next(FolderEvent::Pending(true), &cipher), FolderAction::LoadMode));
    assert!(matches!(flow.next(FolderEvent::Mode(Some(FolderPendingMode::CreateNew)), &cipher), FolderAction::LoadUser));
    assert!(matches!(flow.next(FolderEvent::Done, &cipher), FolderAction::LoadCredentials));
    match flow.next(FolderEvent::Credentials(Some(cipher.encrypt(b"rt"))), &cipher) {
        FolderAction::RefreshAccess { refresh_token } => assert_eq!(refresh_token, "rt"),
        other => panic!("unexpected {other:?}"),
    }
    assert!(matches!(flow.next(FolderEvent::AccessToken("acc".into()), &cipher), FolderAction::LoadFolder));
    match flow.next(FolderEvent::Folder(Some("old".into())), &cipher) {
        FolderAction::CreateFolder { access_token, name } => {
            assert_eq!(access_token, "acc");
            assert_eq!(name, "Clips");
        }
        other => panic!("unexpected {other:?}"),
    }
    match flow.next(FolderEvent::Created { folder_id: "new-id".into(), display: "Clips".into() }, &cipher) {
        FolderAction::SaveFolder { folder_id, display } => assert_eq!((folder_id.as_str(), display.as_str()), ("new-id", "Clips")),
        other => panic!("unexpected {other:?}"),
    }
    assert!(matches!(flow.next(FolderEvent::Done, &cipher), FolderAction::ClearPending { ignore_errors: false }));
    assert!(matches!(flow.next(FolderEvent::Done, &cipher), FolderAction::MarkOnboarded));
    match flow.next(FolderEvent::Done, &cipher) {
        FolderAction::Reply { text } => assert_eq!(text, "Uploads now go to “Clips”."),
        other => panic!("unexpected {other:?}"),
    }
    assert!(matches!(flow.next(FolderEvent::Done, &cipher), FolderAction::Finish { handled: true }));
}

#[test]
fn folder_name_renames_the_current_folder() {
    let cipher = TokenCipher::new(&[5u8; 32]);
    let mut flow = FolderFlow::new("Music");
    flow.next(FolderEvent::Pending(true), &cipher);
    flow.next(FolderEvent::Mode(Some(FolderPendingMode::Rename)), &cipher);
    flow.next(FolderEvent::Done, &cipher);
    flow.next(FolderEvent::Credentials(Some(cipher.encrypt(b"rt"))), &cipher);
    flow.next(FolderEvent::AccessToken("acc".into()), &cipher);
    match flow.next(FolderEvent::Folder(Some("fid".into())), &cipher) {
        FolderAction::RenameFolder { access_token, folder_id, name } => {
            assert_eq!((access_token.as_str(), folder_id.as_str(), name.as_str()), ("acc", "fid", "Music"));
        }
        other => panic!("unexpected {other:?}"),
    }
    assert_eq!(show(&flow.next(FolderEvent::Renamed("Music".into()), &cipher)), show(&FolderAction::SaveFolder { folder_id: "fid".into(), display: "Music".into() }));
    flow.next(FolderEvent::Done, &cipher);
    flow.next(FolderEvent::Done, &cipher);
    match flow.next(FolderEvent::Done, &cipher) {
        FolderAction::Reply { text } => assert_eq!(text, "Folder renamed to “Music”."),
        other => panic!("unexpected {other:?}"),
    }
}

#[test]
fn folder_name_refusals() {
    let cipher = TokenCipher::new(&[5u8; 32]);
    let mut flow = FolderFlow::new("anything");
    assert!(matches!(flow.next(FolderEvent::Pending(false), &cipher), FolderAction::Finish { handled: false }));

    let mut flow = FolderFlow::new("anything");
    flow.next(FolderEvent::Pending(true), &cipher);
    assert!(matches!(flow.next(FolderEvent::Mode(None), &cipher), FolderAction::Finish { handled: false }));

    let mut flow = FolderFlow::new("/start");
    flow.next(FolderEvent::Pending(true), &cipher);
    match flow.next(FolderEvent::Mode(Some(FolderPendingMode::CreateNew)), &cipher) {
        FolderAction::Reply { text } => assert_eq!(text, "That looks like a command, not a folder name."),
        other => panic!("unexpected {other:?}"),
    }
    assert!(matches!(flow.next(FolderEvent::Done, &cipher), FolderAction::Finish { handled: true }));

    let mut flow = FolderFlow::new("Docs");
    flow.next(FolderEvent::Pending(true), &cipher);
    flow.next(FolderEvent::Mode(Some(FolderPendingMode::CreateNew)), &cipher);
    flow.next(FolderEvent::Done, &cipher);
    match flow.next(FolderEvent::Credentials(None), &cipher) {
        FolderAction::Reply { text } => assert_eq!(text, "Connect Google first with /connect."),
        other => panic!("unexpected {other:?}"),
    }
    assert!(matches!(flow.next(FolderEvent::Done, &cipher), FolderAction::ClearPending { ignore_errors: true }));
    assert!(matches!(flow.next(FolderEvent::Done, &cipher), FolderAction::Finish { handled: true }));

    let mut flow = FolderFlow::new("Docs");
    flow.next(FolderEvent::Pending(true), &cipher);
    flow.next(FolderEvent::Mode(Some(FolderPendingMode::Rename)), &cipher);
    flow.next(FolderEvent::Done, &cipher);
    match flow.next(FolderEvent::Credentials(Some(vec![1u8; 30])), &cipher) {
        FolderAction::Abort { message } => assert_eq!(message, "stored Google credentials are invalid; use /connect"),
        other => panic!("unexpected {other:?}"),
    }

    let mut flow = FolderFlow::new("Docs");
    flow.next(FolderEvent::Pending(true), &cipher);
    flow.next(FolderEvent::Mode(Some(FolderPendingMode::Rename)), &cipher);
    flow.next(FolderEvent::Done, &cipher);
    flow.next(FolderEvent::Credentials(Some(cipher.encrypt(b"rt"))), &cipher);
    flow.next(FolderEvent::AccessToken("a".into()), &cipher);
    match flow.next(FolderEvent::Folder(None), &cipher) {
        FolderAction::Reply { text } => assert_eq!(text, "No folder to rename. Run /folder again."),
        other => panic!("unexpected {other:?}"),
    }
    assert!(matches!(flow.next(FolderEvent::Done, &cipher), FolderAction::ClearPending { ignore_errors: false }));
}

#[test]
fn folder_name_with_non_utf8_token_aborts_with_the_conversion_error() {
    let cipher = TokenCipher::new(&[5u8; 32]);
    let mut flow = FolderFlow::new("Clips");
    flow.next(FolderEvent::Pending(true), &cipher);
    flow.next(FolderEvent::Mode(Some(FolderPendingMode::CreateNew)), &cipher);
    flow.next(FolderEvent::Done, &cipher);
    let bad = vec![b'o', b'k', 0xff, 0xfe];
    let expected = String::from_utf8(bad.clone()).unwrap_err().to_string();
    match flow.next(FolderEvent::Credentials(Some(cipher.encrypt(&bad))), &cipher) {
        FolderAction::Abort { message } => assert_eq!(message, expected),
        other => panic!("unexpected {other:?}"),
    }
}
