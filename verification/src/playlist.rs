//! Reading yt-dlp's flat playlist listing: how many entries a link has, and their URLs.
use vstd::prelude::*;

verus! {

/// A field of a JSON object, as far as the listing's reader cares.
#[derive(Debug, Clone)]
pub enum JsonField {
    /// The key is absent (or the entry is no object).
    Missing,
    /// A string value.
    Text(String),
    /// Any other value, `null` included.
    Other,
}

/// The plain content of a [`JsonField`].
pub enum JsonFieldView {
    Missing,
    Text(Seq<char>),
    Other,
}

impl View for JsonField {
    type V = JsonFieldView;

    open spec fn view(&self) -> JsonFieldView {
        match self {
            JsonField::Missing => JsonFieldView::Missing,
            JsonField::Text(s) => JsonFieldView::Text(s@),
            JsonField::Other => JsonFieldView::Other,
        }
    }
}

/// One entry of the listing's `entries` array.
#[derive(Debug, Clone)]
pub struct PlaylistEntry {
    pub url: JsonField,
    pub webpage_url: JsonField,
}

/// The plain content of a [`PlaylistEntry`].
pub struct PlaylistEntryView {
    pub url: JsonFieldView,
    pub webpage_url: JsonFieldView,
}

impl View for PlaylistEntry {
    type V = PlaylistEntryView;

    open spec fn view(&self) -> PlaylistEntryView {
        PlaylistEntryView { url: self.url@, webpage_url: self.webpage_url@ }
    }
}

/// The plain contents of a list of entries.
pub open spec fn entries_view(es: Seq<PlaylistEntry>) -> Seq<PlaylistEntryView> {
    es.map_values(|e: PlaylistEntry| e@)
}

/// The URL of an entry: its `url` when that key is present (a string, or nothing),
/// else its `webpage_url` when that is a string.
pub open spec fn entry_url(e: PlaylistEntryView) -> Option<Seq<char>> {
    match e.url {
        JsonFieldView::Text(s) => Some(s),
        JsonFieldView::Other => None,
        JsonFieldView::Missing => match e.webpage_url {
            JsonFieldView::Text(s) => Some(s),
            _ => None,
        },
    }
}

/// The URLs of the entries that have one, in order.
pub open spec fn entry_urls_spec(entries: Seq<PlaylistEntryView>) -> Seq<Seq<char>>
    decreases entries.len(),
{
    if entries.len() == 0 {
        Seq::empty()
    } else {
        let prev = entry_urls_spec(entries.drop_last());
        match entry_url(entries.last()) {
            Some(u) => prev.push(u),
            None => prev,
        }
    }
}

/// The texts of a list of strings.
pub open spec fn texts(v: Seq<String>) -> Seq<Seq<char>> {
    v.map_values(|s: String| s@)
}

fn entry_url_of(e: &PlaylistEntry) -> (res: Option<String>)
    ensures
        match res {
            Some(s) => entry_url(e@) == Some(s@),
            None => entry_url(e@) is None,
        },
{
    match &e.url {
        JsonField::Text(s) => Some(s.clone()),
        JsonField::Other => None,
        JsonField::Missing => match &e.webpage_url {
            JsonField::Text(s) => Some(s.clone()),
            _ => None,
        },
    }
}

/// The entry URLs of a listing; no `entries` array gives none.
pub fn playlist_entry_urls(entries: Option<&Vec<PlaylistEntry>>) -> (res: Vec<String>)
    ensures
        texts(res@) == match entries {
            Some(es) => entry_urls_spec(entries_view(es@)),
            None => Seq::empty(),
        },
{
    let mut out: Vec<String> = Vec::new();
    match entries {
        None => {
            assert(texts(out@) =~= Seq::<Seq<char>>::empty());
            out
        },
        Some(es) => {
            let mut k: usize = 0;
            while k < es.len()
                invariant
                    k <= es@.len(),
                    texts(out@) == entry_urls_spec(entries_view(es@.take(k as int))),
                decreases es@.len() - k,
            {
                proof {
                    assert(entries_view(es@.take(k + 1)).drop_last() =~= entries_view(
                        es@.take(k as int),
                    ));
                    assert(entries_view(es@.take(k + 1)).last() == es@[k as int]@);
                }
                match entry_url_of(&es[k]) {
                    Some(u) => {
                        let ghost before = out@;
                        out.push(u);
                        assert(texts(out@) =~= texts(before).push(u@));
                    },
                    None => {},
                }
                k = k + 1;
            }
            assert(es@.take(es@.len() as int) =~= es@);
            out
        },
    }
}

/// The entry count of a multi-entry playlist; `None` for a single item (one entry or
/// none).
pub fn playlist_size(entry_count: Option<usize>) -> (res: Option<usize>)
    ensures
        res == match entry_count {
            Some(n) => if n <= 1 {
                None
            } else {
                Some(n)
            },
            None => None::<usize>,
        },
{
    let n = match entry_count {
        Some(n) => n,
        None => 0,
    };
    if n <= 1 {
        None
    } else {
        Some(n)
    }
}

/// Why yt-dlp's listing could not be read: the JSON parser's error text.
#[derive(Debug, Clone, PartialEq, Eq)]
pub struct ListingError {
    pub message: String,
}

/// What `serde_json` reads from yt-dlp's listing `stdout`: its error text when the bytes
/// are not JSON; otherwise the `entries` array (`None` when there is no such array) with
/// each entry's `url` and `webpage_url` fields.
pub uninterp spec fn listing_of(stdout: Seq<u8>) -> Result<Option<Seq<PlaylistEntryView>>, Seq<char>>;

/// Reads yt-dlp's flat listing.
///
/// Trusted: `serde_json::from_slice` into `serde_json::Value`, then `Value::get` of
/// `entries`, `Value::as_array`, and `Value::get` of `url` and `webpage_url` on each
/// entry; a failed parse gives the error's `Display` text. The contract names the result
/// `listing_of(stdout)`; JSON syntax is not stated.
#[verifier::external_body]
fn parse_listing(stdout: &[u8]) -> (res: Result<Option<Vec<PlaylistEntry>>, ListingError>)
    ensures
        match res {
            Ok(o) => listing_of(stdout@) == Ok::<Option<Seq<PlaylistEntryView>>, Seq<char>>(
                match o {
                    Some(es) => Some(entries_view(es@)),
                    None => None,
                },
            ),
            Err(e) => listing_of(stdout@) == Err::<Option<Seq<PlaylistEntryView>>, Seq<char>>(
                e.message@,
            ),
        },
{
    let v: serde_json::Value = match serde_json::from_slice(stdout) {
        Ok(v) => v,
        Err(e) => return Err(ListingError { message: e.to_string() }),
    };
    let field = |e: &serde_json::Value, k: &str| match e.get(k) {
        None => JsonField::Missing,
        Some(serde_json::Value::String(s)) => JsonField::Text(s.clone()),
        Some(_) => JsonField::Other,
    };
    Ok(v.get("entries").and_then(|e| e.as_array()).map(|es| {
        es.iter().map(|e| PlaylistEntry { url: field(e, "url"), webpage_url: field(e, "webpage_url") }).collect()
    }))
}

/// The playlist size a listing shows: the number of entries when more than one, else
/// `None` (no `entries` array counts as none).
pub open spec fn listing_size(o: Option<Seq<PlaylistEntryView>>) -> Option<usize> {
    match o {
        Some(es) => if es.len() <= 1 {
            None
        } else {
            Some(es.len() as usize)
        },
        None => None,
    }
}

/// The playlist size in yt-dlp's listing output, or the parse error.
pub fn playlist_size_from_stdout(stdout: &[u8]) -> (res: Result<Option<usize>, ListingError>)
    ensures
        match listing_of(stdout@) {
            Ok(o) => res == Ok::<Option<usize>, ListingError>(listing_size(o)),
            Err(m) => res matches Err(e) && e.message@ == m,
        },
{
    match parse_listing(stdout) {
        Err(e) => Err(e),
        Ok(o) => {
            let count = match &o {
                Some(es) => Some(es.len()),
                None => None,
            };
            Ok(playlist_size(count))
        },
    }
}

/// The entry URLs in yt-dlp's listing output, or the parse error.
pub fn playlist_urls_from_stdout(stdout: &[u8]) -> (res: Result<Vec<String>, ListingError>)
    ensures
        match listing_of(stdout@) {
            Ok(o) => res matches Ok(v) && texts(v@) == match o {
                Some(es) => entry_urls_spec(es),
                None => Seq::empty(),
            },
            Err(m) => res matches Err(e) && e.message@ == m,
        },
{
    match parse_listing(stdout) {
        Err(e) => Err(e),
        Ok(o) => Ok(playlist_entry_urls(o.as_ref())),
    }
}

} // verus!
