use afrasyab::records::{
    expires_in_secs, parse_job_status, parse_source_type, source_type_name, source_type_slug,
    FolderPendingMode, JobPhase,
};
use afrasyab::job::{status_name, JobStatus, SourceType};
use afrasyab::status::{short_id, short_user_id, status_line, status_report, status_text, uuid_text, JobSummary};
use uuid::Uuid;

fn summary(id: &str, status: &str, cur: i32, total: i32, err: Option<&str>) -> JobSummary {
    JobSummary {
        id: *Uuid::parse_str(id).unwrap().as_bytes(),
        status: status.to_string(),
        progress_current: cur,
        progress_total: total,
        error_message: err.map(str::to_string),
    }
}

#[test]
fn uuid_text_matches_uuid_display() {
    for _ in 0..20 {
        let u = Uuid::new_v4();
        assert_eq!(uuid_text(u.as_bytes()), u.to_string());
        assert_eq!(short_id(u.as_bytes()), u.to_string()[..8].to_string());
    }
    let u = Uuid::parse_str("A1B2C3D4-E5F6-7890-ABCD-EF1234567890").unwrap();
    assert_eq!(uuid_text(u.as_bytes()), "a1b2c3d4-e5f6-7890-abcd-ef1234567890");
}

#[test]
fn status_texts() {
    let id = "a1b2c3d4-e5f6-7890-abcd-ef1234567890";
    assert_eq!(status_text(&summary(id, "queued", 0, 0, None)), "Queued (#a1b2c3d4)");
    assert_eq!(status_text(&summary(id, "downloading", 2, 5, None)), "Downloading (#a1b2c3d4) 2/5");
    assert_eq!(status_text(&summary(id, "uploading", 0, 0, None)), "Uploading to Drive (#a1b2c3d4)");
    assert_eq!(status_text(&summary(id, "completed", 0, 0, None)), "Done ✓ (#a1b2c3d4)");
    assert_eq!(status_text(&summary(id, "failed", 0, 0, Some("boom"))), "Failed (#a1b2c3d4): boom");
    assert_eq!(status_text(&summary(id, "failed", 0, 0, None)), "Failed (#a1b2c3d4): unknown");
    assert_eq!(status_text(&summary(id, "weird", 0, 0, None)), "Queued (#a1b2c3d4)");
}

#[test]
fn status_report_lines() {
    let a = summary("a1b2c3d4-e5f6-7890-abcd-ef1234567890", "downloading", 1, 3, None);
    let b = summary("00000000-e5f6-7890-abcd-ef1234567890", "bogus", 0, 0, None);
    let c = summary("ffffffff-e5f6-7890-abcd-ef1234567890", "completed", -1, 0, None);
    assert_eq!(status_line(&a).unwrap(), "#a1b2c3d4 — Downloading (1/3)");
    assert!(status_line(&b).is_none());
    assert_eq!(
        status_report(&vec![a, b, c]),
        "#a1b2c3d4 — Downloading (1/3)\n#ffffffff — Completed (-1/0)"
    );
    assert_eq!(status_report(&Vec::new()), "No recent jobs.");
}

#[test]
fn stored_names_round_trip() {
    for s in [JobStatus::Queued, JobStatus::Downloading, JobStatus::Uploading, JobStatus::Completed, JobStatus::Failed] {
        assert_eq!(parse_job_status(status_name(s)), Some(s));
    }
    for t in [SourceType::LinkYtDlp, SourceType::LinkDirect, SourceType::TelegramFile, SourceType::PlaylistItem] {
        assert_eq!(parse_source_type(source_type_name(t)), Some(t));
        assert_eq!(source_type_slug(t), source_type_name(t));
    }
    assert_eq!(source_type_name(SourceType::LinkYtDlp), "link_yt_dlp");
    assert_eq!(parse_job_status("Queued"), None);
    assert_eq!(parse_source_type(""), None);
    for m in [FolderPendingMode::Rename, FolderPendingMode::CreateNew] {
        assert_eq!(FolderPendingMode::parse(m.as_str()), Some(m));
    }
    assert_eq!(FolderPendingMode::CreateNew.as_str(), "create_new");
    assert_eq!(FolderPendingMode::parse("new"), None);
}

#[test]
fn expiry_expression_and_phases() {
    assert_eq!(expires_in_secs(600), "datetime('now', '+600 seconds')");
    assert_eq!(expires_in_secs(0), "datetime('now', '+0 seconds')");
    assert_eq!(JobPhase::Claimed.as_str(), "claimed");
    assert_eq!(JobPhase::Failed.as_str(), "failed");
}

#[test]
fn short_user_id_is_the_first_eight_characters() {
    let u = Uuid::parse_str("0a1b2c3d-0000-4000-8000-000000000000").unwrap();
    assert_eq!(short_user_id(u.as_bytes()), "0a1b2c3d");
}
