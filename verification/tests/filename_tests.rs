use afrasyab::filename::{
    extension_from_content_type, filename_from_content_disposition, filename_from_url_path,
    percent_decode, resolve_direct_dest, sanitize_filename,
};
use afrasyab::weburl::parse_url;

#[test]
fn filename_from_url_path_uses_last_segment() {
    let url = parse_url("https://cdn.example.com/a/report.pdf").unwrap();
    assert_eq!(filename_from_url_path(&url).as_deref(), Some("report.pdf"));
}

#[test]
fn filename_from_url_path_decodes_percent_encoding() {
    let url = parse_url("https://cdn.example.com/my%2520doc.pdf").unwrap();
    assert_eq!(filename_from_url_path(&url).as_deref(), Some("my%20doc.pdf"));
    let url = parse_url("https://cdn.example.com/my%20doc.pdf").unwrap();
    assert_eq!(filename_from_url_path(&url).as_deref(), Some("my doc.pdf"));
}

#[test]
fn filename_from_url_path_empty_for_root() {
    let url = parse_url("https://example.com/").unwrap();
    assert!(filename_from_url_path(&url).is_none());
}

#[test]
fn resolve_direct_dest_uses_content_disposition() {
    let dest = resolve_direct_dest(
        "/tmp/download.bin",
        Some("attachment; filename=\"invoice.pdf\""),
        None,
    );
    assert_eq!(dest, "/tmp/invoice.pdf");
}

#[test]
fn resolve_direct_dest_adds_extension_from_content_type() {
    let dest = resolve_direct_dest("/tmp/download", None, Some("application/pdf"));
    assert_eq!(dest, "/tmp/download.pdf");
}

#[test]
fn filename_from_url_path_skips_dot_segments() {
    let url = parse_url("https://example.com/files/report.pdf/").unwrap();
    assert_eq!(filename_from_url_path(&url).as_deref(), Some("report.pdf"));
}

#[test]
fn percent_decode_edge_cases() {
    assert_eq!(percent_decode("a%41b").as_deref(), Some("aAb"));
    assert_eq!(percent_decode("100%").as_deref(), Some("100%"));
    assert_eq!(percent_decode("%4").as_deref(), Some("%4"));
    assert_eq!(percent_decode("%+9x").as_deref(), Some("\u{9}x"));
    assert!(percent_decode("%zz").is_none());
    assert!(percent_decode("%ff").is_none());
    assert_eq!(percent_decode("caf%C3%A9").as_deref(), Some("café"));
}

#[test]
fn content_disposition_variants() {
    assert_eq!(
        filename_from_content_disposition("attachment; filename*=UTF-8''na%C3%AFve.txt").as_deref(),
        Some("naïve.txt")
    );
    assert_eq!(
        filename_from_content_disposition("attachment; filename=\"\"; filename=b.txt").as_deref(),
        Some("b.txt")
    );
    assert_eq!(
        filename_from_content_disposition("attachment; filename*=UTF-8''%zz; filename=c.txt")
            .as_deref(),
        Some("c.txt")
    );
    assert!(filename_from_content_disposition("inline").is_none());
}

#[test]
fn content_type_extension_ignores_parameters() {
    assert_eq!(
        extension_from_content_type("application/pdf; charset=binary").as_deref(),
        Some("pdf")
    );
    assert!(extension_from_content_type("not a mime").is_none());
}

#[test]
fn sanitize_filename_replaces_unsafe_characters() {
    assert_eq!(sanitize_filename("my doc (1).pdf"), "my_doc__1_.pdf");
    assert_eq!(sanitize_filename("a/b\\c"), "a_b_c");
    assert_eq!(sanitize_filename("näme"), "n_me");
}

#[test]
fn resolve_direct_dest_without_parent_uses_current_dir() {
    let dest = resolve_direct_dest("download", Some("attachment; filename=\"x y.txt\""), None);
    assert_eq!(dest, "./x_y.txt");
}
