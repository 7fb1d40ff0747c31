use afrasyab::download::{
    check_content_length, check_telegram_size, http_over_limit_message,
    telegram_over_limit_message, DownloadBudget,
};
use afrasyab::playlist::{playlist_entry_urls, playlist_size, JsonField, PlaylistEntry};
use afrasyab::upload::{
    check_upload_size, chunk_outcome, chunk_range, content_range, parse_bytes_range_end,
    stalled_message, ChunkOutcome,
};

#[test]
fn upload_size_and_ranges() {
    assert!(check_upload_size(10, 10).is_ok());
    assert_eq!(check_upload_size(3000000000, 2147483648).unwrap_err(), "file size 3000000000 exceeds file limit 2147483648");
    assert_eq!(chunk_range(262144, 262144), (262144, 524287));
    assert_eq!(content_range(0, 262143, 300000), "bytes 0-262143/300000");
    assert_eq!(stalled_message(5, 9), "drive resumable upload stalled at offset 5/9");
}

#[test]
fn range_header_parsing() {
    assert_eq!(parse_bytes_range_end("bytes=0-262143"), Some(262143));
    assert_eq!(parse_bytes_range_end("bytes=0-"), None);
    assert_eq!(parse_bytes_range_end("0-5"), None);
    assert_eq!(parse_bytes_range_end("bytes=0"), None);
    assert_eq!(parse_bytes_range_end("bytes=0-+7"), Some(7));
}

#[test]
fn chunk_outcomes() {
    assert_eq!(chunk_outcome(200, 0, None, 9), ChunkOutcome::Done);
    assert_eq!(chunk_outcome(201, 2, None, 9), ChunkOutcome::Done);
    assert_eq!(chunk_outcome(308, 0, Some("bytes=0-262143"), 299999), ChunkOutcome::ResumeFrom(262144));
    assert_eq!(chunk_outcome(308, 0, None, 99), ChunkOutcome::ResumeFrom(100));
    assert_eq!(chunk_outcome(308, 0, Some("garbage"), 99), ChunkOutcome::ResumeFrom(100));
    assert_eq!(chunk_outcome(503, 0, None, 9), ChunkOutcome::Retry { attempt: 1, delay_secs: 2 });
    assert_eq!(chunk_outcome(429, 1, None, 9), ChunkOutcome::Retry { attempt: 2, delay_secs: 4 });
    assert_eq!(chunk_outcome(500, 2, None, 9), ChunkOutcome::Retry { attempt: 3, delay_secs: 4 });
    assert_eq!(chunk_outcome(500, 3, None, 9), ChunkOutcome::Fail);
    assert_eq!(chunk_outcome(404, 0, None, 9), ChunkOutcome::Fail);
}

#[test]
fn download_limits() {
    let mut b = DownloadBudget::new(10);
    assert!(b.add(4));
    assert!(b.add(6));
    assert_eq!(b.downloaded(), 10);
    assert!(!b.add(1));
    assert_eq!(b.downloaded(), 10);
    let mut big = DownloadBudget::new(u64::MAX);
    assert!(big.add(u64::MAX));
    assert!(!big.add(1));
    assert!(check_content_length(None, 5).is_ok());
    assert!(check_content_length(Some(5), 5).is_ok());
    assert_eq!(check_content_length(Some(9999), 100).unwrap_err(), "remote file size 9999 exceeds limit 100");
    assert_eq!(http_over_limit_message(100), "download exceeded size limit 100");
    assert_eq!(check_telegram_size(21, 20).unwrap_err(), "telegram file size 21 exceeds limit 20");
    assert!(check_telegram_size(20, 20).is_ok());
    assert_eq!(telegram_over_limit_message(20), "telegram download exceeded limit 20");
}

#[test]
fn playlist_listing() {
    let entries = vec![
        PlaylistEntry { url: JsonField::Text("https://a".into()), webpage_url: JsonField::Text("https://w".into()) },
        PlaylistEntry { url: JsonField::Missing, webpage_url: JsonField::Text("https://b".into()) },
        PlaylistEntry { url: JsonField::Other, webpage_url: JsonField::Text("https://c".into()) },
        PlaylistEntry { url: JsonField::Missing, webpage_url: JsonField::Other },
    ];
    assert_eq!(playlist_entry_urls(Some(&entries)), vec!["https://a".to_string(), "https://b".to_string()]);
    assert!(playlist_entry_urls(None).is_empty());
    assert_eq!(playlist_size(None), None);
    assert_eq!(playlist_size(Some(1)), None);
    assert_eq!(playlist_size(Some(2)), Some(2));
}
