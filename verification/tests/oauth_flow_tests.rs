use afrasyab::crypto::TokenCipher;
use afrasyab::oauth_flow::{CallbackAction, CallbackEvent, CallbackFlow};
use afrasyab::replies::{success_html, OAuthRefusal};
use afrasyab::runner::open_refresh_token;

fn refused(a: CallbackAction) -> u16 {
    match a {
        CallbackAction::Refuse(r) => r.status_code(),
        other => panic!("expected a refusal, got {other:?}"),
    }
}

/// Runs a callback up to the exchange of its code.
fn allowed_flow(cipher: &TokenCipher) -> CallbackFlow {
    let mut flow = CallbackFlow::new("the-code", "st-1");
    match flow.start() {
        CallbackAction::TakeState { state } => assert_eq!(state, "st-1"),
        other => panic!("unexpected {other:?}"),
    }
    assert!(matches!(
        flow.next(CallbackEvent::StateOwner(Some(42)), cipher),
        CallbackAction::CheckAllowed { telegram_user_id: 42 }
    ));
    match flow.next(CallbackEvent::Allowed(true), cipher) {
        CallbackAction::ExchangeCode { code } => assert_eq!(code, "the-code"),
        other => panic!("unexpected {other:?}"),
    }
    flow
}

#[test]
fn callback_connects_and_creates_the_default_folder() {
    let cipher = TokenCipher::new(&[3u8; 32]);
    let mut flow = allowed_flow(&cipher);
    assert!(matches!(
        flow.next(CallbackEvent::Tokens { refresh_token: Some("refresh-xyz".into()) }, &cipher),
        CallbackAction::LoadUser { telegram_user_id: 42 }
    ));
    match flow.next(CallbackEvent::Done, &cipher) {
        CallbackAction::SaveCredentials { encrypted } => {
            assert_eq!(encrypted.len(), 12 + "refresh-xyz".len() + 16);
            assert_eq!(open_refresh_token(&cipher, &encrypted), Ok("refresh-xyz".to_string()));
        }
        other => panic!("unexpected {other:?}"),
    }
    match flow.next(CallbackEvent::Done, &cipher) {
        CallbackAction::RefreshAccess { refresh_token } => assert_eq!(refresh_token, "refresh-xyz"),
        other => panic!("unexpected {other:?}"),
    }
    match flow.next(CallbackEvent::AccessToken("acc".into()), &cipher) {
        CallbackAction::CreateFolder { access_token, name } => {
            assert_eq!((access_token.as_str(), name.as_str()), ("acc", "Afrasyab"));
        }
        other => panic!("unexpected {other:?}"),
    }
    match flow.next(CallbackEvent::FolderCreated { folder_id: "fid".into(), display: "Afrasyab".into() }, &cipher) {
        CallbackAction::SaveFolder { folder_id, display } => {
            assert_eq!((folder_id.as_str(), display.as_str()), ("fid", "Afrasyab"));
        }
        other => panic!("unexpected {other:?}"),
    }
    match flow.next(CallbackEvent::Done, &cipher) {
        CallbackAction::Respond { html } => {
            assert_eq!(html, success_html(true));
            assert!(html.contains("Uploads will go to the <strong>Afrasyab</strong> folder"));
        }
        other => panic!("unexpected {other:?}"),
    }
}

#[test]
fn callback_still_connects_when_the_folder_cannot_be_created() {
    let cipher = TokenCipher::new(&[3u8; 32]);
    for failing_step in 0..3 {
        let mut flow = allowed_flow(&cipher);
        flow.next(CallbackEvent::Tokens { refresh_token: Some("rt".into()) }, &cipher);
        flow.next(CallbackEvent::Done, &cipher);
        flow.next(CallbackEvent::Done, &cipher);
        let mut last = if failing_step == 0 {
            flow.next(CallbackEvent::Failed, &cipher)
        } else {
            flow.next(CallbackEvent::AccessToken("acc".into()), &cipher)
        };
        if failing_step == 1 {
            last = flow.next(CallbackEvent::Failed, &cipher);
        } else if failing_step == 2 {
            flow.next(CallbackEvent::FolderCreated { folder_id: "f".into(), display: "Afrasyab".into() }, &cipher);
            last = flow.next(CallbackEvent::Failed, &cipher);
        }
        match last {
            CallbackAction::Respond { html } => {
                assert_eq!(html, success_html(false));
                assert!(html.contains("could not create your upload folder automatically"));
            }
            other => panic!("unexpected {other:?}"),
        }
    }
}

#[test]
fn callback_with_empty_parameters_is_a_bad_request() {
    assert_eq!(refused(CallbackFlow::new("", "st").start()), 400);
    assert_eq!(refused(CallbackFlow::new("code", "").start()), 400);
}

#[test]
fn callback_with_unknown_state_is_a_bad_request() {
    let cipher = TokenCipher::new(&[3u8; 32]);
    let mut flow = CallbackFlow::new("code", "stale");
    flow.start();
    assert_eq!(refused(flow.next(CallbackEvent::StateOwner(None), &cipher)), 400);
}

#[test]
fn callback_for_a_user_not_on_the_allowlist_is_forbidden() {
    let cipher = TokenCipher::new(&[3u8; 32]);
    let mut flow = CallbackFlow::new("code", "st");
    flow.start();
    flow.next(CallbackEvent::StateOwner(Some(7)), &cipher);
    assert_eq!(refused(flow.next(CallbackEvent::Allowed(false), &cipher)), 403);
}

#[test]
fn callback_exchange_problems_are_bad_gateway_or_internal() {
    let cipher = TokenCipher::new(&[3u8; 32]);
    let mut failed = allowed_flow(&cipher);
    assert_eq!(refused(failed.next(CallbackEvent::Failed, &cipher)), 502);
    let mut no_token = allowed_flow(&cipher);
    assert_eq!(refused(no_token.next(CallbackEvent::Tokens { refresh_token: None }, &cipher)), 502);
    let mut no_client = allowed_flow(&cipher);
    assert_eq!(refused(no_client.next(CallbackEvent::ClientError, &cipher)), 500);
}

#[test]
fn callback_storage_failures_are_internal_errors() {
    let cipher = TokenCipher::new(&[3u8; 32]);
    let mut at_state = CallbackFlow::new("code", "st");
    at_state.start();
    assert_eq!(refused(at_state.next(CallbackEvent::Failed, &cipher)), 500);

    let mut at_allowlist = CallbackFlow::new("code", "st");
    at_allowlist.start();
    at_allowlist.next(CallbackEvent::StateOwner(Some(1)), &cipher);
    assert_eq!(refused(at_allowlist.next(CallbackEvent::Failed, &cipher)), 500);

    let mut at_user = allowed_flow(&cipher);
    at_user.next(CallbackEvent::Tokens { refresh_token: Some("rt".into()) }, &cipher);
    assert_eq!(refused(at_user.next(CallbackEvent::Failed, &cipher)), 500);

    let mut at_credentials = allowed_flow(&cipher);
    at_credentials.next(CallbackEvent::Tokens { refresh_token: Some("rt".into()) }, &cipher);
    at_credentials.next(CallbackEvent::Done, &cipher);
    assert_eq!(refused(at_credentials.next(CallbackEvent::Failed, &cipher)), 500);
    assert_eq!(OAuthRefusal::Internal.status_code(), 500);
}
