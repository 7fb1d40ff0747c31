use afrasyab::config::{encryption_key_from, ConfigError};
use afrasyab::download::{direct_attempt_step, retry_failed_message, DirectStep};
use afrasyab::drive_reply::{created_folder, renamed_folder, uploaded_file_id, DriveReplyError};
use afrasyab::playlist::{playlist_size_from_stdout, playlist_urls_from_stdout};

#[test]
fn listing_size_counts_entries() {
    let three = br#"{"entries":[{"url":"https://a"},{"url":"https://b"},{"webpage_url":"https://c"}]}"#;
    assert_eq!(playlist_size_from_stdout(three), Ok(Some(3)));
    assert_eq!(playlist_size_from_stdout(br#"{"entries":[{"url":"u"}]}"#), Ok(None));
    assert_eq!(playlist_size_from_stdout(br#"{"id":"single-video"}"#), Ok(None));
    assert_eq!(playlist_size_from_stdout(br#"{"entries":"nope"}"#), Ok(None));
}

#[test]
fn listing_urls_follow_url_then_webpage_url() {
    let stdout = br#"{"entries":[
        {"url":"https://a","webpage_url":"https://w"},
        {"webpage_url":"https://b"},
        {"url":null,"webpage_url":"https://c"},
        {"url":5},
        "not an object",
        {"title":"no link"}
    ]}"#;
    assert_eq!(
        playlist_urls_from_stdout(stdout),
        Ok(vec!["https://a".to_string(), "https://b".to_string()])
    );
    assert_eq!(playlist_urls_from_stdout(br#"{}"#), Ok(Vec::new()));
}

#[test]
fn listing_that_is_not_json_reports_the_parser_error() {
    let expected = serde_json::from_slice::<serde_json::Value>(b"not json").unwrap_err().to_string();
    assert_eq!(playlist_size_from_stdout(b"not json").unwrap_err().message, expected);
    assert_eq!(playlist_urls_from_stdout(b"not json").unwrap_err().message, expected);
}

#[test]
fn drive_created_folder_answer() {
    assert_eq!(
        created_folder(r#"{"id":"fid","name":"Afrasyab"}"#),
        Ok(("fid".to_string(), "Afrasyab".to_string()))
    );
    assert_eq!(created_folder(r#"{"name":"Afrasyab"}"#), Err(DriveReplyError::MissingFolderId));
    assert_eq!(created_folder(r#"{"id":"fid","name":7}"#), Err(DriveReplyError::MissingFolderName));
    let err = created_folder("<html>").unwrap_err();
    assert_eq!(err, DriveReplyError::CreateUnreadable);
    assert_eq!(err.message(), "parse create folder response");
    assert_eq!(DriveReplyError::MissingFolderId.message(), "missing folder id");
}

#[test]
fn drive_renamed_folder_answer() {
    assert_eq!(renamed_folder(r#"{"name":"Music"}"#), Ok("Music".to_string()));
    assert_eq!(renamed_folder(r#"{}"#).unwrap_err().message(), "rename response missing name");
    assert_eq!(renamed_folder("oops").unwrap_err().message(), "parse rename response");
}

#[test]
fn drive_upload_answer() {
    assert_eq!(uploaded_file_id(r#"{"id":"file-9","name":"a.pdf"}"#), Ok("file-9".to_string()));
    assert_eq!(uploaded_file_id("").unwrap_err().message(), "upload response missing file id");
    assert_eq!(uploaded_file_id(r#"{"id":null}"#), Err(DriveReplyError::MissingFileId));
}

#[test]
fn direct_download_is_tried_twice() {
    assert_eq!(direct_attempt_step(1, true), DirectStep::Done);
    assert_eq!(direct_attempt_step(1, false), DirectStep::Retry);
    assert_eq!(direct_attempt_step(2, true), DirectStep::Done);
    assert_eq!(direct_attempt_step(2, false), DirectStep::Fail);
    assert_eq!(retry_failed_message("timeout"), "retry failed after: timeout");
}

#[test]
fn encryption_key_needs_32_decoded_bytes() {
    assert_eq!(encryption_key_from(Some(vec![4u8; 32])), Ok([4u8; 32]));
    assert_eq!(encryption_key_from(Some(vec![4u8; 31])), Err(ConfigError::InvalidKeyLength));
    assert_eq!(encryption_key_from(None), Err(ConfigError::InvalidKeyEncoding));
}
