use afrasyab::crypto::TokenCipher;
use afrasyab::job::{JobStatus, SourceType, YtDlpFormat};
use afrasyab::job_run::{JobRun, RunAction, RunEvent};
use afrasyab::runner::{DownloadPlan, JobSource};
use afrasyab::ytdlp_errors::YtDlpFailureKind;

fn meta(url: Option<&str>, format: Option<&str>) -> JobSource {
    JobSource { url: url.map(Into::into), format: format.map(Into::into), file_id: None, file_name: None }
}

fn failure_message(a: &RunAction) -> String {
    match a {
        RunAction::Fail(f) => f.user_message.clone(),
        other => panic!("expected a failure, got {other:?}"),
    }
}

#[test]
fn job_run_happy_path() {
    let cipher = TokenCipher::new(&[3u8; 32]);
    let blob = cipher.encrypt(b"refresh-123");
    let mut run = JobRun::new(&[7u8; 16]);
    assert!(matches!(run.next(RunEvent::Done, &cipher), RunAction::LoadJob));
    let a = run.next(
        RunEvent::JobFound { source_type: Some(SourceType::LinkYtDlp), meta: meta(Some("https://youtu.be/x"), Some("audio")), pressured: false },
        &cipher,
    );
    assert!(matches!(a, RunAction::LoadUser));
    assert!(matches!(run.next(RunEvent::UserFound(true), &cipher), RunAction::LoadFolder));
    assert!(matches!(run.next(RunEvent::FolderFound(Some("folder-1".into())), &cipher), RunAction::LoadCredentials));
    match run.next(RunEvent::CredentialsFound(Some(blob)), &cipher) {
        RunAction::RefreshAccess { refresh_token } => assert_eq!(refresh_token, "refresh-123"),
        other => panic!("unexpected {other:?}"),
    }
    assert!(matches!(run.next(RunEvent::AccessToken("acc".into()), &cipher), RunAction::SetStatus(JobStatus::Downloading)));
    match run.next(RunEvent::Done, &cipher) {
        RunAction::Download(DownloadPlan::YtDlp { url, format }) => {
            assert_eq!(url, "https://youtu.be/x");
            assert_eq!(format, YtDlpFormat::Audio);
        }
        other => panic!("unexpected {other:?}"),
    }
    assert!(matches!(run.next(RunEvent::Downloaded("/tmp/j/song.mp3".into()), &cipher), RunAction::SetStatus(JobStatus::Uploading)));
    match run.next(RunEvent::Done, &cipher) {
        RunAction::Upload { access_token, folder_id, local_path, file_name } => {
            assert_eq!((access_token.as_str(), folder_id.as_str(), local_path.as_str(), file_name.as_str()), ("acc", "folder-1", "/tmp/j/song.mp3", "song.mp3"));
        }
        other => panic!("unexpected {other:?}"),
    }
    match run.next(RunEvent::Uploaded("drive-9".into()), &cipher) {
        RunAction::SaveFileId { file_id } => assert_eq!(file_id, "drive-9"),
        other => panic!("unexpected {other:?}"),
    }
    assert!(matches!(run.next(RunEvent::Done, &cipher), RunAction::SetStatus(JobStatus::Completed)));
    assert!(matches!(run.next(RunEvent::Done, &cipher), RunAction::Finish { ok: true }));
    assert!(matches!(run.next(RunEvent::Done, &cipher), RunAction::Finish { ok: true }));
}

#[test]
fn job_run_failures() {
    let cipher = TokenCipher::new(&[3u8; 32]);
    let mut run = JobRun::new(&[1u8; 16]);
    run.next(RunEvent::Done, &cipher);
    let a = run.next(RunEvent::JobFound { source_type: Some(SourceType::LinkDirect), meta: meta(None, None), pressured: true }, &cipher);
    assert_eq!(failure_message(&a), "Job failed: Server storage is full. Try again in a few minutes.");
    assert!(matches!(run.next(RunEvent::Done, &cipher), RunAction::Finish { ok: false }));

    let mut run = JobRun::new(&[1u8; 16]);
    run.next(RunEvent::Done, &cipher);
    assert_eq!(failure_message(&run.next(RunEvent::JobMissing, &cipher)), "Job failed: job not found");

    let mut run = JobRun::new(&[1u8; 16]);
    run.next(RunEvent::Done, &cipher);
    run.next(RunEvent::JobFound { source_type: Some(SourceType::LinkDirect), meta: meta(None, None), pressured: false }, &cipher);
    run.next(RunEvent::UserFound(true), &cipher);
    assert_eq!(failure_message(&run.next(RunEvent::FolderFound(None), &cipher)), "Drive folder not set. Run /folder.");

    let mut run = JobRun::new(&[1u8; 16]);
    run.next(RunEvent::Done, &cipher);
    run.next(RunEvent::JobFound { source_type: Some(SourceType::LinkDirect), meta: meta(None, None), pressured: false }, &cipher);
    run.next(RunEvent::UserFound(true), &cipher);
    run.next(RunEvent::FolderFound(Some("f".into())), &cipher);
    assert_eq!(
        failure_message(&run.next(RunEvent::CredentialsFound(Some(vec![0u8; 40])), &cipher)),
        "Google connection missing or expired. Run /connect."
    );

    let other = TokenCipher::new(&[4u8; 32]).encrypt(b"tok");
    let mut run = JobRun::new(&[1u8; 16]);
    run.next(RunEvent::Done, &cipher);
    run.next(RunEvent::JobFound { source_type: Some(SourceType::LinkDirect), meta: meta(None, None), pressured: false }, &cipher);
    run.next(RunEvent::UserFound(true), &cipher);
    run.next(RunEvent::FolderFound(Some("f".into())), &cipher);
    run.next(RunEvent::CredentialsFound(Some(cipher.encrypt(b"tok"))), &cipher);
    assert_eq!(
        failure_message(&run.next(RunEvent::Failed { message: "invalid_grant".into(), ytdlp_kind: None }, &cipher)),
        "Google connection missing or expired. Run /connect."
    );
    let _ = other;

    let mut run = JobRun::new(&[1u8; 16]);
    run.next(RunEvent::Done, &cipher);
    run.next(RunEvent::JobFound { source_type: Some(SourceType::LinkDirect), meta: meta(None, None), pressured: false }, &cipher);
    run.next(RunEvent::UserFound(true), &cipher);
    run.next(RunEvent::FolderFound(Some("f".into())), &cipher);
    run.next(RunEvent::CredentialsFound(Some(cipher.encrypt(b"tok"))), &cipher);
    run.next(RunEvent::AccessToken("a".into()), &cipher);
    assert_eq!(failure_message(&run.next(RunEvent::Done, &cipher)), "Job failed: direct job missing url");

    let mut run = JobRun::new(&[1u8; 16]);
    run.next(RunEvent::Done, &cipher);
    run.next(RunEvent::JobFound { source_type: Some(SourceType::LinkYtDlp), meta: meta(Some("u"), None), pressured: false }, &cipher);
    run.next(RunEvent::UserFound(true), &cipher);
    run.next(RunEvent::FolderFound(Some("f".into())), &cipher);
    run.next(RunEvent::CredentialsFound(Some(cipher.encrypt(b"tok"))), &cipher);
    run.next(RunEvent::AccessToken("a".into()), &cipher);
    run.next(RunEvent::Done, &cipher);
    match run.next(RunEvent::Failed { message: "yt-dlp failed: ERROR: Video unavailable".into(), ytdlp_kind: Some(YtDlpFailureKind::Unavailable) }, &cipher) {
        RunAction::Fail(f) => {
            assert_eq!(f.user_message, "This video isn't available (private, removed, or restricted).");
            assert_eq!(f.failure_kind, Some("unavailable"));
            assert!(!f.force_pressure);
        }
        other => panic!("unexpected {other:?}"),
    }

    let mut run = JobRun::new(&[1u8; 16]);
    run.next(RunEvent::Done, &cipher);
    let a = run.next(RunEvent::JobFound { source_type: None, meta: meta(None, None), pressured: false }, &cipher);
    assert_eq!(failure_message(&a), "Job failed: unknown source_type in database");
}

#[test]
fn direct_link_job_uploads_once_and_completes() {
    let cipher = TokenCipher::new(&[3u8; 32]);
    let mut run = JobRun::new(&[9u8; 16]);
    run.next(RunEvent::Done, &cipher);
    run.next(
        RunEvent::JobFound { source_type: Some(SourceType::LinkDirect), meta: meta(Some("https://e.com/a.pdf"), None), pressured: false },
        &cipher,
    );
    run.next(RunEvent::UserFound(true), &cipher);
    run.next(RunEvent::FolderFound(Some("F".into())), &cipher);
    run.next(RunEvent::CredentialsFound(Some(cipher.encrypt(b"r"))), &cipher);
    run.next(RunEvent::AccessToken("a".into()), &cipher);
    match run.next(RunEvent::Done, &cipher) {
        RunAction::Download(DownloadPlan::Direct { url }) => assert_eq!(url, "https://e.com/a.pdf"),
        other => panic!("unexpected {other:?}"),
    }
    run.next(RunEvent::Downloaded("/tmp/j/a.pdf".into()), &cipher);
    let mut uploads = 0;
    match run.next(RunEvent::Done, &cipher) {
        RunAction::Upload { access_token, folder_id, local_path, file_name } => {
            uploads += 1;
            assert_eq!((access_token.as_str(), folder_id.as_str(), local_path.as_str(), file_name.as_str()), ("a", "F", "/tmp/j/a.pdf", "a.pdf"));
        }
        other => panic!("unexpected {other:?}"),
    }
    assert!(matches!(run.next(RunEvent::Uploaded("id-1".into()), &cipher), RunAction::SaveFileId { .. }));
    assert!(matches!(run.next(RunEvent::Done, &cipher), RunAction::SetStatus(JobStatus::Completed)));
    assert!(matches!(run.next(RunEvent::Done, &cipher), RunAction::Finish { ok: true }));
    assert_eq!(uploads, 1);
}

#[test]
fn failed_run_finishes_without_ok() {
    let cipher = TokenCipher::new(&[3u8; 32]);
    let mut run = JobRun::new(&[9u8; 16]);
    run.next(RunEvent::Done, &cipher);
    assert!(matches!(run.next(RunEvent::JobMissing, &cipher), RunAction::Fail(_)));
    assert!(matches!(run.next(RunEvent::Done, &cipher), RunAction::Finish { ok: false }));
    assert!(matches!(run.next(RunEvent::Done, &cipher), RunAction::Finish { ok: false }));
}
