//! Which links go to yt-dlp and which are fetched directly, and finding links in text.
use vstd::prelude::*;
use crate::scan::{lemma_run_len_bound, prefixed_run, prefixed_run_at, run_len, CharClass};
use crate::text::{
    chars_of, has_prefix, lemma_occurs_at_skip, matches_at, occurs_at, str_eq, string_from_chars,
    trim, trim_chars,
};
use crate::weburl::{parse_url, parsed_url, WebUrl, WebUrlView};

verus! {

/// How a link is downloaded.
#[derive(Debug, Clone, Copy, PartialEq, Eq, Structural)]
pub enum LinkKind {
    /// A media page handled by yt-dlp (YouTube, SoundCloud).
    YtDlp,
    /// Any other http(s) link, fetched as a file.
    DirectHttp,
}

/// `s` ends with `suffix`.
pub open spec fn has_suffix(s: Seq<char>, suffix: Seq<char>) -> bool {
    suffix.len() <= s.len() && s.skip(s.len() - suffix.len()) == suffix
}

/// The (lowercase) hosts whose links go to yt-dlp.
pub open spec fn yt_dlp_host(host: Seq<char>) -> bool {
    ||| host == "youtube.com"@
    ||| host == "www.youtube.com"@
    ||| host == "m.youtube.com"@
    ||| host == "youtu.be"@
    ||| host == "music.youtube.com"@
    ||| host == "soundcloud.com"@
    ||| host == "www.soundcloud.com"@
    ||| has_suffix(host, ".soundcloud.com"@)
}

/// The kind of link for a lowercase host.
pub open spec fn kind_for_host(host: Seq<char>) -> LinkKind {
    if yt_dlp_host(host) {
        LinkKind::YtDlp
    } else {
        LinkKind::DirectHttp
    }
}

/// What `str::to_lowercase` makes of `s` (Unicode lowercase mapping).
pub uninterp spec fn unicode_lowercase(s: Seq<char>) -> Seq<char>;

/// Lowercases a string.
///
/// Trusted: `str::to_lowercase` (std). The contract names the result
/// `unicode_lowercase(s)`; the Unicode case tables are not stated.
#[verifier::external_body]
fn to_lowercase(s: &str) -> (res: String)
    ensures
        res@ == unicode_lowercase(s@),
{
    s.to_lowercase()
}

/// Whether `host` (already lowercase) is a yt-dlp host.
pub fn is_yt_dlp_host(host: &str) -> (res: bool)
    ensures
        res == yt_dlp_host(host@),
{
    let h = chars_of(host);
    let suffix = chars_of(".soundcloud.com");
    let ends = if suffix.len() <= h.len() {
        let start = h.len() - suffix.len();
        let hit = matches_at(h.as_slice(), start, suffix.as_slice());
        proof {
            lemma_occurs_at_skip(h@, start as int, suffix@);
            assert(h@.skip(start as int).subrange(0, suffix@.len() as int) =~= h@.skip(
                start as int,
            ));
        }
        hit
    } else {
        false
    };
    str_eq(host, "youtube.com") || str_eq(host, "www.youtube.com") || str_eq(host, "m.youtube.com")
        || str_eq(host, "youtu.be") || str_eq(host, "music.youtube.com") || str_eq(
        host,
        "soundcloud.com",
    ) || str_eq(host, "www.soundcloud.com") || ends
}

/// The classification of a parsed URL: only http(s) URLs with a host are links, and
/// the lowercased host decides the kind.
pub open spec fn classify_parsed_spec(u: WebUrlView) -> Option<(LinkKind, WebUrlView)> {
    if u.scheme == "http"@ || u.scheme == "https"@ {
        match u.host {
            Some(h) => Some((kind_for_host(unicode_lowercase(h)), u)),
            None => None,
        }
    } else {
        None
    }
}

/// The classification of raw text: it is trimmed, parsed, then classified.
pub open spec fn classify_url_spec(raw: Seq<char>) -> Option<(LinkKind, WebUrlView)> {
    match parsed_url(trim(raw)) {
        Some(u) => classify_parsed_spec(u),
        None => None,
    }
}

/// Links to YouTube and SoundCloud pages go to yt-dlp and every other http(s) link with a
/// host is fetched directly; the host is compared in lowercase. The hosts are
/// `youtube.com`, `www.youtube.com`, `m.youtube.com`, `music.youtube.com`, `youtu.be`,
/// `soundcloud.com` and any host ending in `.soundcloud.com` (`www.soundcloud.com`
/// among them).
pub proof fn lemma_media_hosts_go_to_ytdlp(u: WebUrlView)
    requires
        u.scheme == "http"@ || u.scheme == "https"@,
        u.host is Some,
    ensures
        classify_parsed_spec(u) matches Some((k, v)) && v == u,
        ({
            let h = unicode_lowercase(u.host->0);
            (classify_parsed_spec(u) == Some((LinkKind::YtDlp, u))) <==> (h == "youtube.com"@
                || h == "www.youtube.com"@ || h == "m.youtube.com"@ || h == "music.youtube.com"@
                || h == "youtu.be"@ || h == "soundcloud.com"@ || (15 <= h.len() && h.skip(
                h.len() - 15,
            ) == ".soundcloud.com"@))
        }),
        ({
            let h = unicode_lowercase(u.host->0);
            (classify_parsed_spec(u) == Some((LinkKind::DirectHttp, u))) <==> !(h == "youtube.com"@
                || h == "www.youtube.com"@ || h == "m.youtube.com"@ || h == "music.youtube.com"@
                || h == "youtu.be"@ || h == "soundcloud.com"@ || (15 <= h.len() && h.skip(
                h.len() - 15,
            ) == ".soundcloud.com"@))
        }),
{
    reveal_strlit(".soundcloud.com");
    reveal_strlit("www.soundcloud.com");
    let h = unicode_lowercase(u.host->0);
    if h == "www.soundcloud.com"@ {
        reveal_strlit("www.soundcloud.com");
        assert(h.skip(h.len() - 15) =~= ".soundcloud.com"@);
    }
}

/// A text that is not an http(s) URL with a host is no link.
pub proof fn lemma_only_web_links(u: WebUrlView)
    requires
        !(u.scheme == "http"@ || u.scheme == "https"@) || u.host is None,
    ensures
        classify_parsed_spec(u) is None,
{
}

/// Classifies an already parsed URL.
pub fn classify_parsed(url: WebUrl) -> (res: Option<(LinkKind, WebUrl)>)
    ensures
        match res {
            Some((k, u)) => classify_parsed_spec(url@) == Some((k, u@)),
            None => classify_parsed_spec(url@) is None,
        },
{
    let http = str_eq(url.scheme.as_str(), "http") || str_eq(url.scheme.as_str(), "https");
    if !http {
        return None;
    }
    let kind = match &url.host {
        Some(h) => {
            let lower = to_lowercase(h.as_str());
            if is_yt_dlp_host(lower.as_str()) {
                LinkKind::YtDlp
            } else {
                LinkKind::DirectHttp
            }
        },
        None => {
            return None;
        },
    };
    Some((kind, url))
}

/// Parses `raw` (trimmed) as an http(s) URL and says how it is downloaded.
pub fn classify_url(raw: &str) -> (res: Option<(LinkKind, WebUrl)>)
    ensures
        match res {
            Some((k, u)) => classify_url_spec(raw@) == Some((k, u@)),
            None => classify_url_spec(raw@) is None,
        },
{
    let trimmed = string_from_chars(trim_chars(chars_of(raw).as_slice()).as_slice());
    match parse_url(trimmed.as_str()) {
        Ok(u) => classify_parsed(u),
        Err(_) => None,
    }
}

// ---------------------------------------------------------------------------
// Finding links in message text
// ---------------------------------------------------------------------------

/// The length of a link candidate at the start of `s`: `http://` or `https://` followed
/// by at least one character other than white space, `<` and `>`.
pub open spec fn link_match_len(s: Seq<char>) -> Option<nat> {
    if has_prefix(s, "http://"@) {
        prefixed_run(s, "http://"@, CharClass::LinkChar)
    } else {
        prefixed_run(s, "https://"@, CharClass::LinkChar)
    }
}

/// The link candidates of `s`, scanning left to right without overlap.
pub open spec fn link_candidates(s: Seq<char>) -> Seq<Seq<char>>
    decreases s.len(),
{
    if s.len() == 0 {
        Seq::empty()
    } else {
        match link_match_len(s) {
            Some(l) => if 0 < l <= s.len() {
                seq![s.take(l as int)] + link_candidates(s.skip(l as int))
            } else {
                link_candidates(s.drop_first())
            },
            None => link_candidates(s.drop_first()),
        }
    }
}

/// Number of `)` at the end of `s`.
pub open spec fn trailing_parens(s: Seq<char>) -> nat
    decreases s.len(),
{
    if s.len() > 0 && s.last() == ')' {
        1 + trailing_parens(s.drop_last())
    } else {
        0
    }
}

/// `s` without its trailing `)` characters (`str::trim_end_matches(')')`).
pub open spec fn trim_end_parens(s: Seq<char>) -> Seq<char> {
    s.take(s.len() - trailing_parens(s))
}

/// The candidates, each stripped of trailing `)`, that parse as URLs, in order.
pub open spec fn parsed_links(cands: Seq<Seq<char>>) -> Seq<WebUrlView>
    decreases cands.len(),
{
    if cands.len() == 0 {
        Seq::empty()
    } else {
        match parsed_url(trim_end_parens(cands[0])) {
            Some(u) => seq![u] + parsed_links(cands.drop_first()),
            None => parsed_links(cands.drop_first()),
        }
    }
}

/// The views of a list of URLs.
pub open spec fn url_views(v: Seq<WebUrl>) -> Seq<WebUrlView> {
    v.map_values(|u: WebUrl| u@)
}

pub proof fn lemma_link_match_len_bound(s: Seq<char>)
    ensures
        link_match_len(s) matches Some(l) ==> 0 < l <= s.len(),
{
    reveal_strlit("http://");
    reveal_strlit("https://");
    lemma_run_len_bound(s.skip(7), CharClass::LinkChar);
    lemma_run_len_bound(s.skip(8), CharClass::LinkChar);
}

pub proof fn lemma_trailing_parens_bound(s: Seq<char>)
    ensures
        trailing_parens(s) <= s.len(),
    decreases s.len(),
{
    if s.len() > 0 && s.last() == ')' {
        lemma_trailing_parens_bound(s.drop_last());
    }
}

/// The link candidate starting at `i`, by its length.
fn link_match_at(s: &[char], i: usize) -> (res: Option<usize>)
    requires
        i <= s@.len(),
    ensures
        match res {
            Some(l) => link_match_len(s@.skip(i as int)) == Some(l as nat) && 0 < l && i + l
                <= s@.len(),
            None => link_match_len(s@.skip(i as int)) is None,
        },
{
    proof {
        lemma_link_match_len_bound(s@.skip(i as int));
    }
    let a = chars_of("http://");
    let is_http = matches_at(s, i, a.as_slice());
    proof {
        lemma_occurs_at_skip(s@, i as int, a@);
    }
    if is_http {
        prefixed_run_at(s, i, "http://", CharClass::LinkChar)
    } else {
        prefixed_run_at(s, i, "https://", CharClass::LinkChar)
    }
}

/// Strips trailing `)` characters.
fn trim_end_parens_exec(s: &[char]) -> (res: Vec<char>)
    ensures
        res@ == trim_end_parens(s@),
{
    let mut end: usize = s.len();
    assert(s@.take(s@.len() as int) =~= s@);
    while end > 0 && s[end - 1] == ')'
        invariant
            end <= s@.len(),
            trailing_parens(s@) == (s@.len() - end) + trailing_parens(s@.take(end as int)),
        decreases end,
    {
        assert(s@.take(end as int).drop_last() =~= s@.take(end - 1));
        end = end - 1;
    }
    assert(trailing_parens(s@.take(end as int)) == 0);
    proof {
        assert(s@.take(s@.len() as int) =~= s@);
    }
    let mut out: Vec<char> = Vec::new();
    let mut k: usize = 0;
    while k < end
        invariant
            end <= s@.len(),
            k <= end,
            out@ == s@.take(k as int),
        decreases end - k,
    {
        out.push(s[k]);
        assert(s@.take(k + 1) =~= s@.take(k as int).push(s@[k as int]));
        k = k + 1;
    }
    assert(out@ =~= trim_end_parens(s@));
    out
}

/// The http(s) links in `text` that parse as URLs, in order of appearance.
pub fn extract_urls(text: &str) -> (res: Vec<WebUrl>)
    ensures
        url_views(res@) == parsed_links(link_candidates(text@)),
{
    let s = chars_of(text);
    let n = s.len();
    let mut out: Vec<WebUrl> = Vec::new();
    let mut i: usize = 0;
    assert(s@.skip(0) =~= s@);
    while i < n
        invariant
            n == s@.len(),
            s@ == text@,
            i <= n,
            url_views(out@) + parsed_links(link_candidates(s@.skip(i as int))) == parsed_links(
                link_candidates(s@),
            ),
        decreases n - i,
    {
        let ghost t = s@.skip(i as int);
        match link_match_at(s.as_slice(), i) {
            Some(l) => {
                let cand = crate::text::slice_to_vec(s.as_slice(), i, i + l);
                assert(cand@ =~= t.take(l as int));
                assert(t.skip(l as int) =~= s@.skip(i + l));
                let ghost rest = link_candidates(t.skip(l as int));
                assert(link_candidates(t) == seq![t.take(l as int)] + rest);
                assert((seq![t.take(l as int)] + rest)[0] == t.take(l as int));
                assert((seq![t.take(l as int)] + rest).drop_first() =~= rest);
                let trimmed = trim_end_parens_exec(cand.as_slice());
                let as_string = string_from_chars(trimmed.as_slice());
                let ghost before = out@;
                match parse_url(as_string.as_str()) {
                    Ok(u) => {
                        out.push(u);
                        assert(url_views(out@) =~= url_views(before) + seq![u@]);
                    },
                    Err(_) => {},
                }
                assert(url_views(out@) + parsed_links(rest) =~= url_views(before)
                    + parsed_links(link_candidates(t)));
                i = i + l;
            },
            None => {
                assert(t.drop_first() =~= s@.skip(i + 1));
                i = i + 1;
            },
        }
    }
    assert(link_candidates(s@.skip(n as int)) =~= Seq::<Seq<char>>::empty());
    assert(url_views(out@) =~= parsed_links(link_candidates(s@)));
    out
}

} // verus!
