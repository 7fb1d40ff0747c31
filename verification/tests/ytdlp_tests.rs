use afrasyab::job::YtDlpFormat;
use afrasyab::ytdlp::{build_args, bytes_to_ytdlp_max_filesize, newest_file, DirEntryInfo};

#[test]
fn bytes_to_ytdlp_max_filesize_formats_binary_units() {
    assert_eq!(bytes_to_ytdlp_max_filesize(2 * 1024 * 1024 * 1024), "2G");
    assert_eq!(bytes_to_ytdlp_max_filesize(512 * 1024 * 1024), "512M");
    assert_eq!(bytes_to_ytdlp_max_filesize(1500), "1500");
}

#[test]
fn build_args_includes_max_filesize() {
    let args = build_args("https://youtu.be/abc", "/tmp", YtDlpFormat::Best, 2 * 1024 * 1024 * 1024);
    let idx = args.argv.iter().position(|a| a == "--max-filesize").unwrap();
    assert_eq!(args.argv[idx + 1], "2G");
}

#[test]
fn build_args_video_includes_format_selector() {
    let args = build_args(
        "https://www.youtube.com/watch?v=dQw4w9WgXcQ",
        "/tmp/out",
        YtDlpFormat::Video,
        2 * 1024 * 1024 * 1024,
    );
    assert_eq!(args.argv[0], "yt-dlp");
    assert!(args.argv.contains(&"--no-playlist".to_string()));
    assert!(args.argv.contains(&"-f".to_string()));
    assert!(args.argv.contains(&"bv*+ba/b".to_string()));
    assert!(args.argv.iter().any(|a| a.contains("%(title).200B [%(id)s].%(ext)s")));
    assert!(args.argv.contains(&"https://www.youtube.com/watch?v=dQw4w9WgXcQ".to_string()));
}

#[test]
fn build_args_audio_extracts_mp3() {
    let args = build_args(
        "https://soundcloud.com/example/track",
        "/data/dl",
        YtDlpFormat::Audio,
        2 * 1024 * 1024 * 1024,
    );
    assert!(args.argv.windows(2).any(|w| w == ["-x", "--audio-format"]));
    assert!(args.argv.contains(&"mp3".to_string()));
    assert!(!args.argv.contains(&"-f".to_string()));
}

#[test]
fn build_args_best_has_no_extra_format_flags() {
    let args = build_args("https://youtu.be/abc", "/tmp", YtDlpFormat::Best, 2 * 1024 * 1024 * 1024);
    assert!(!args.argv.contains(&"-f".to_string()));
    assert!(!args.argv.contains(&"-x".to_string()));
}

#[test]
fn build_args_output_template_under_output_dir() {
    let args = build_args("https://example.com", "/var/tmp/jobs/1", YtDlpFormat::Best, 2 * 1024 * 1024 * 1024);
    let o_idx = args.argv.iter().position(|a| a == "-o").unwrap();
    let template = &args.argv[o_idx + 1];
    assert!(template.starts_with("/var/tmp/jobs/1/"));
}

#[test]
fn max_filesize_plain_bytes_just_above_a_mebibyte() {
    assert_eq!(bytes_to_ytdlp_max_filesize(1024 * 1024 + 1), "1048577");
    assert_eq!(bytes_to_ytdlp_max_filesize(0), "0");
    assert_eq!(bytes_to_ytdlp_max_filesize(1024 * 1024 * 1024 + 1024 * 1024), "1025M");
}

#[test]
fn build_args_full_command_line() {
    let args = build_args("u", "/d", YtDlpFormat::Audio, 100);
    assert_eq!(
        args.argv,
        vec!["yt-dlp", "--no-playlist", "--max-filesize", "100", "-o", "/d/%(title).200B [%(id)s].%(ext)s", "u", "-x", "--audio-format", "mp3"]
    );
    assert_eq!(args.output_dir, "/d");
}

fn entry(path: &str, is_file: bool, modified: u128) -> DirEntryInfo {
    DirEntryInfo { path: path.to_string(), is_file, modified }
}

#[test]
fn newest_file_skips_directories_and_keeps_first_of_ties() {
    let entries = vec![
        entry("a", true, 5),
        entry("dir", false, 99),
        entry("b", true, 7),
        entry("c", true, 7),
    ];
    assert_eq!(newest_file(&entries), Some(2));
    assert_eq!(newest_file(&vec![entry("dir", false, 1)]), None);
    assert_eq!(newest_file(&Vec::new()), None);
}
