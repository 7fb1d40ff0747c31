use afrasyab::job::{JobStatus, SourceType, YtDlpFormat};
use afrasyab::records::JobPhase;
use afrasyab::runner::{
    direct_file_name, failure_kind_for, format_key, job_failure, parse_ytdlp_format, phase_after_status,
    plan_download, should_record_status, telegram_local_filename, user_facing_error,
    DownloadPlan, JobSource, TELEGRAM_MAX_BYTES,
};
use afrasyab::weburl::parse_url;
use afrasyab::ytdlp_errors::YtDlpFailureKind;
use uuid::Uuid;

fn id_bytes(s: &str) -> [u8; 16] {
    *Uuid::parse_str(s).unwrap().as_bytes()
}

#[test]
fn telegram_local_filename_uses_job_id_when_name_missing() {
    let job_id = id_bytes("a1b2c3d4-e5f6-7890-abcd-ef1234567890");
    assert_eq!(telegram_local_filename(None, &job_id), "file_a1b2c3d4");
}

#[test]
fn telegram_local_filename_keeps_provided_name() {
    let job_id = *Uuid::new_v4().as_bytes();
    assert_eq!(telegram_local_filename(Some("photo.jpg"), &job_id), "photo.jpg");
}

#[test]
fn telegram_local_filename_blank_name_falls_back() {
    let job_id = id_bytes("00ff10ab-0000-0000-0000-000000000000");
    assert_eq!(telegram_local_filename(Some("  \t"), &job_id), "file_00ff10ab");
}

#[test]
fn parse_format_keys() {
    assert!(matches!(parse_ytdlp_format("video"), YtDlpFormat::Video));
    assert!(matches!(parse_ytdlp_format("audio"), YtDlpFormat::Audio));
    assert!(matches!(parse_ytdlp_format("best"), YtDlpFormat::Best));
}

#[test]
fn format_keys_round_trip() {
    for f in [YtDlpFormat::Video, YtDlpFormat::Audio, YtDlpFormat::Best] {
        assert_eq!(parse_ytdlp_format(format_key(f)), f);
    }
    assert_eq!(parse_ytdlp_format("VIDEO"), YtDlpFormat::Best);
}

#[test]
fn user_facing_upload_limit_without_path() {
    let msg = user_facing_error(None, "file size 3000000000 exceeds file limit 2147483648");
    assert!(msg.contains("too large"));
    assert!(msg.contains("2 GB"));
    assert!(!msg.contains("/tmp"));
}

#[test]
fn user_facing_ytdlp_uses_kind_not_stderr() {
    let msg = user_facing_error(Some(YtDlpFailureKind::JsRuntime), "yt-dlp failed: WARNING: No supported JavaScript runtime");
    assert!(!msg.contains("JavaScript"));
    assert!(msg.contains("server update"));
}

#[test]
fn user_facing_error_rules_in_order() {
    assert_eq!(user_facing_error(None, "[Errno 28] No space left on device"), "Server storage is full. Try again in a few minutes.");
    assert_eq!(user_facing_error(None, "google credentials missing"), "Google connection missing or expired. Run /connect.");
    assert_eq!(user_facing_error(None, "drive folder not configured"), "Drive folder not set. Run /folder.");
    assert_eq!(user_facing_error(None, "yt-dlp timed out"), "Download failed. The link may be unsupported or temporarily unavailable.");
    assert_eq!(user_facing_error(None, "HTTP 404 Not Found for x"), "Download failed.");
    assert_eq!(user_facing_error(None, "telegram file size 30000000 exceeds limit"), "Telegram file is too large (max 20 MB for bots). Send a direct link instead.");
    assert_eq!(user_facing_error(None, "download exceeded size limit 5"), "File is too large (max 2 GB).");
    assert_eq!(user_facing_error(None, "Drive chunk upload failed (500)"), "Google Drive upload failed: Drive chunk upload failed (500)");
    assert_eq!(user_facing_error(None, "job not found"), "Job failed: job not found");
}

#[test]
fn failure_kinds_and_pressure() {
    assert_eq!(failure_kind_for(Some(YtDlpFailureKind::Unavailable), "x"), Some("unavailable"));
    assert_eq!(failure_kind_for(None, "ERRNO 28"), Some("disk_full"));
    assert_eq!(failure_kind_for(None, "boom"), None);
    let f = job_failure(None, "No space left on device");
    assert!(f.force_pressure);
    assert_eq!(f.failure_kind, Some("disk_full"));
    assert!(!job_failure(Some(YtDlpFailureKind::Other), "boom").force_pressure);
}

#[test]
fn status_changes_recorded() {
    assert!(should_record_status(Some(JobStatus::Queued), JobStatus::Downloading));
    assert!(!should_record_status(Some(JobStatus::Queued), JobStatus::Uploading));
    assert!(should_record_status(Some(JobStatus::Completed), JobStatus::Failed));
    assert!(!should_record_status(Some(JobStatus::Completed), JobStatus::Uploading));
    assert!(should_record_status(None, JobStatus::Downloading));
    assert_eq!(phase_after_status(JobStatus::Uploading), Some(JobPhase::Uploading));
    assert_eq!(phase_after_status(JobStatus::Downloading), None);
}

fn source(url: Option<&str>, format: Option<&str>, file_id: Option<&str>, file_name: Option<&str>) -> JobSource {
    JobSource {
        url: url.map(str::to_string),
        format: format.map(str::to_string),
        file_id: file_id.map(str::to_string),
        file_name: file_name.map(str::to_string),
    }
}

#[test]
fn download_plans() {
    let id = id_bytes("a1b2c3d4-e5f6-7890-abcd-ef1234567890");
    match plan_download(SourceType::PlaylistItem, &source(Some("https://y/v"), Some("audio"), None, None), &id) {
        Ok(DownloadPlan::YtDlp { url, format }) => {
            assert_eq!(url, "https://y/v");
            assert_eq!(format, YtDlpFormat::Audio);
        }
        other => panic!("unexpected {other:?}"),
    }
    match plan_download(SourceType::TelegramFile, &source(None, None, Some("F1"), Some("my photo.jpg")), &id) {
        Ok(DownloadPlan::Telegram { file_id, file_name }) => {
            assert_eq!(file_id, "F1");
            assert_eq!(file_name, "my_photo.jpg");
        }
        other => panic!("unexpected {other:?}"),
    }
    assert_eq!(plan_download(SourceType::LinkDirect, &source(None, None, None, None), &id).unwrap_err(), "direct job missing url");
    assert_eq!(plan_download(SourceType::LinkYtDlp, &source(None, None, Some("x"), None), &id).unwrap_err(), "yt-dlp job missing url");
    assert_eq!(plan_download(SourceType::TelegramFile, &source(Some("u"), None, None, None), &id).unwrap_err(), "telegram job missing file_id");
}

#[test]
fn direct_file_names() {
    let id = id_bytes("a1b2c3d4-e5f6-7890-abcd-ef1234567890");
    let u = parse_url("https://cdn.example.com/a/my%20report.pdf").unwrap();
    assert_eq!(direct_file_name(&u, &id), "my_report.pdf");
    let root = parse_url("https://example.com/").unwrap();
    assert_eq!(direct_file_name(&root, &id), "file_a1b2c3d4");
    assert_eq!(TELEGRAM_MAX_BYTES, 20 * 1024 * 1024);
}

#[test]
fn refresh_token_that_is_not_utf8_reports_the_conversion_error() {
    let cipher = afrasyab::crypto::TokenCipher::new(&[2u8; 32]);
    let blob = cipher.encrypt(&[0xc3]);
    let expected = String::from_utf8(vec![0xc3]).unwrap_err().to_string();
    assert_eq!(
        afrasyab::runner::open_refresh_token(&cipher, &blob),
        Err(afrasyab::runner::RefreshTokenError::NotUtf8(expected))
    );
}
