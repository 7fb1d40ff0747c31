use afrasyab::ytdlp_errors::{
    classify_ytdlp_stderr, failure_kind_slug, friendly_ytdlp_message, user_message_for_kind,
    YtDlpFailureKind,
};

#[test]
fn classifies_js_runtime_warning() {
    let stderr = "WARNING: [youtube] No supported JavaScript runtime could be found.";
    assert_eq!(classify_ytdlp_stderr(stderr), YtDlpFailureKind::JsRuntime);
}

#[test]
fn classifies_disk_full() {
    assert_eq!(
        classify_ytdlp_stderr("ERROR: unable to write data: [Errno 28] No space left on device"),
        YtDlpFailureKind::DiskFull
    );
}

#[test]
fn classifies_unavailable() {
    assert_eq!(
        classify_ytdlp_stderr("ERROR: Video unavailable"),
        YtDlpFailureKind::Unavailable
    );
}

#[test]
fn classifies_file_too_large() {
    assert_eq!(
        classify_ytdlp_stderr("ERROR: File is larger than max-filesize (2G)"),
        YtDlpFailureKind::FileTooLarge
    );
}

#[test]
fn classifies_other() {
    assert_eq!(
        classify_ytdlp_stderr("ERROR: Unsupported URL"),
        YtDlpFailureKind::Other
    );
}

#[test]
fn js_runtime_takes_priority_over_disk_full() {
    assert_eq!(
        classify_ytdlp_stderr("js-runtimes missing; [Errno 28] No space left on device"),
        YtDlpFailureKind::JsRuntime
    );
}

#[test]
fn slugs_and_messages() {
    assert_eq!(failure_kind_slug(YtDlpFailureKind::FileTooLarge), "file_too_large");
    assert_eq!(failure_kind_slug(YtDlpFailureKind::DiskFull), "disk_full");
    assert_eq!(user_message_for_kind(YtDlpFailureKind::FileTooLarge), "File is too large (max 2 GB).");
    assert_eq!(
        friendly_ytdlp_message("ERROR: Private video. Sign in"),
        "This video isn't available (private, removed, or restricted)."
    );
}
