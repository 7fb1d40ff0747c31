use afrasyab::sanitize::sanitize_for_log;

#[test]
fn redacts_https_url() {
    let out = sanitize_for_log("GET failed: https://example.com/video?id=1");
    assert!(!out.contains("example.com"));
    assert!(out.contains("[url]"));
}

#[test]
fn redacts_multiple_urls() {
    let out = sanitize_for_log("a https://a.com x http://b.org/y");
    assert_eq!(out.matches("[url]").count(), 2);
}

#[test]
fn leaves_plain_errors() {
    let msg = "HTTP 403 for host";
    assert_eq!(sanitize_for_log(msg), msg);
}

#[test]
fn redacts_tme_link() {
    let out = sanitize_for_log("see t.me/somechannel/123");
    assert!(out.contains("[url]"));
}

#[test]
fn url_redaction_stops_at_white_space() {
    assert_eq!(
        sanitize_for_log("GET https://example.com/a?b=1\tfailed"),
        "GET [url]\tfailed"
    );
}

#[test]
fn bare_scheme_is_not_a_url() {
    assert_eq!(sanitize_for_log("x https:// y"), "x https:// y");
}

#[test]
fn redacts_bearer_token_in_any_case() {
    assert_eq!(
        sanitize_for_log("auth: BeArEr abc.DEF-123_x; retry"),
        "auth: [token]; retry"
    );
}

#[test]
fn redacts_long_file_id_only() {
    assert_eq!(
        sanitize_for_log("file_id=AgACAgIAAxkBAAIB12345 done"),
        "[file_id] done"
    );
    assert_eq!(sanitize_for_log("FILE_ID: short"), "FILE_ID: short");
}

#[test]
fn redacts_tg_scheme() {
    assert_eq!(sanitize_for_log("open tg://resolve?domain=x now"), "open [url] now");
}

#[test]
fn no_link_survives_sanitizing() {
    let inputs = [
        "see http://a.b/c and https://x.y/z?q=1",
        "hthttp://x then t.me/chan and tg://resolve?x=1",
        "http:// followed by a space, https://\tand t.me/",
        "bearer http://x.y file_id=http://aaaaaaaaaaaaaaaaaaaaaaaa",
        "ahttps://ttg://t.me/xhttp://",
    ];
    for input in inputs {
        let out = sanitize_for_log(input);
        for pre in ["http://", "https://", "tg://", "t.me/"] {
            let mut rest = out.as_str();
            while let Some(pos) = rest.find(pre) {
                let after = &rest[pos + pre.len()..];
                assert!(after.chars().next().map_or(true, char::is_whitespace), "{out:?} keeps a link");
                rest = &rest[pos + 1..];
            }
        }
    }
}
