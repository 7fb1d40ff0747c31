use afrasyab::classify::{classify_url, extract_urls, LinkKind};
use regex::Regex;

/// Link extraction written with the `regex` and `url` crates.
fn reference_links(re: &Regex, text: &str) -> Vec<String> {
    re.find_iter(text)
        .filter_map(|m| url::Url::parse(m.as_str().trim_end_matches(')')).ok())
        .map(|u| u.as_str().to_string())
        .collect()
}

/// Link classification written with the `url` crate.
fn reference_kind(raw: &str) -> Option<(LinkKind, String)> {
    let url = url::Url::parse(raw.trim()).ok()?;
    if !matches!(url.scheme(), "http" | "https") {
        return None;
    }
    let host = url.host_str()?.to_lowercase();
    let yt = matches!(
        host.as_str(),
        "youtube.com"
            | "www.youtube.com"
            | "m.youtube.com"
            | "youtu.be"
            | "music.youtube.com"
            | "soundcloud.com"
            | "www.soundcloud.com"
    ) || host.ends_with(".soundcloud.com");
    Some((if yt { LinkKind::YtDlp } else { LinkKind::DirectHttp }, url.as_str().to_string()))
}

struct Gen(u64);

impl Gen {
    fn next(&mut self) -> u64 {
        self.0 ^= self.0 << 13;
        self.0 ^= self.0 >> 7;
        self.0 ^= self.0 << 17;
        self.0
    }

    fn text(&mut self, pieces: &[&str], len: usize) -> String {
        let mut out = String::new();
        for _ in 0..len {
            let i = (self.next() % pieces.len() as u64) as usize;
            out.push_str(pieces[i]);
        }
        out
    }
}

#[test]
fn extraction_agrees_with_the_regular_expression() {
    let re = Regex::new(r"https?://[^\s<>]+").unwrap();
    let pieces = [
        "http://", "https://", "HTTP://", "www.youtube.com", "youtu.be/x", "a.b", "/", "(", ")",
        ")", " ", "\n", "<", ">", "\u{a0}", "é", "%20", "?q=1", ":", "@", "[::1]", "x",
    ];
    let mut g = Gen(0x1234_5678_9abc_def1);
    for round in 0..1500 {
        let s = g.text(&pieces, (round % 10) + 1);
        let ours: Vec<String> = extract_urls(&s).into_iter().map(|u| u.href).collect();
        assert_eq!(ours, reference_links(&re, &s), "input {s:?}");
    }
}

#[test]
fn classification_agrees_with_the_url_crate() {
    for raw in [
        "https://www.youtube.com/watch?v=dQw4w9WgXcQ",
        "  https://SoundCloud.com/artist/track  ",
        "https://music.YOUTUBE.com/x",
        "https://a.b.soundcloud.com/x",
        "https://notsoundcloud.com/x",
        "https://example.com/file.pdf",
        "ftp://example.com/file",
        "mailto:a@b.c",
        "http://[::1]/x",
        "not a url",
        "https://xn--nxasmq6b.com/",
        "https://ÉXAMPLE.com/",
    ] {
        let ours = classify_url(raw).map(|(k, u)| (k, u.href));
        assert_eq!(ours, reference_kind(raw), "input {raw:?}");
    }
}
