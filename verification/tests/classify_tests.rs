use afrasyab::classify::{classify_url, extract_urls, is_yt_dlp_host, LinkKind};

#[test]
fn youtube_is_yt_dlp() {
    let (kind, _) = classify_url("https://www.youtube.com/watch?v=dQw4w9WgXcQ").unwrap();
    assert_eq!(kind, LinkKind::YtDlp);
}

#[test]
fn soundcloud_is_yt_dlp() {
    let (kind, _) = classify_url("https://soundcloud.com/artist/track").unwrap();
    assert_eq!(kind, LinkKind::YtDlp);
}

#[test]
fn pdf_is_direct() {
    let (kind, _) = classify_url("https://example.com/file.pdf").unwrap();
    assert_eq!(kind, LinkKind::DirectHttp);
}

#[test]
fn extracts_urls_from_message_text() {
    let urls = extract_urls("see https://example.com/file.pdf here");
    assert_eq!(urls.len(), 1);
}

#[test]
fn classify_trims_and_lowercases_host() {
    let (kind, url) = classify_url("  https://M.YouTube.com/watch?v=x \n").unwrap();
    assert_eq!(kind, LinkKind::YtDlp);
    assert_eq!(url.host.as_deref(), Some("m.youtube.com"));
}

#[test]
fn classify_rejects_other_schemes_and_garbage() {
    assert!(classify_url("ftp://example.com/file").is_none());
    assert!(classify_url("not a url").is_none());
}

#[test]
fn soundcloud_subdomains_are_yt_dlp() {
    assert!(is_yt_dlp_host("on.soundcloud.com"));
    assert!(!is_yt_dlp_host("soundcloud.com.evil.org"));
    assert!(!is_yt_dlp_host("notyoutube.com"));
}

#[test]
fn extract_urls_strips_closing_parens_and_stops_at_angle_brackets() {
    let urls = extract_urls("(see https://a.example/x)) and <http://b.example/y> end");
    let hrefs: Vec<&str> = urls.iter().map(|u| u.href.as_str()).collect();
    assert_eq!(hrefs, vec!["https://a.example/x", "http://b.example/y"]);
}
