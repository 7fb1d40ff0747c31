//! Absolute URLs, parsed by the `url` crate and held as plain strings.
use vstd::prelude::*;

verus! {

/// A parsed absolute URL: the parts of `url::Url` that the bot reads.
#[derive(Debug, Clone)]
pub struct WebUrl {
    /// The serialization (`Url::as_str`).
    pub href: String,
    /// The scheme, lowercase, without `:` (`Url::scheme`).
    pub scheme: String,
    /// The host, when the URL has one (`Url::host_str`).
    pub host: Option<String>,
    /// The percent-encoded path (`Url::path`).
    pub path: String,
}

/// The plain content of a [`WebUrl`].
pub struct WebUrlView {
    pub href: Seq<char>,
    pub scheme: Seq<char>,
    pub host: Option<Seq<char>>,
    pub path: Seq<char>,
}

/// The content of an optional string.
pub open spec fn opt_view(s: Option<String>) -> Option<Seq<char>> {
    match s {
        Some(t) => Some(t@),
        None => None,
    }
}

impl View for WebUrl {
    type V = WebUrlView;

    open spec fn view(&self) -> WebUrlView {
        WebUrlView {
            href: self.href@,
            scheme: self.scheme@,
            host: opt_view(self.host),
            path: self.path@,
        }
    }
}

/// What `url::Url::parse` makes of `input`: `None` when it is no absolute URL.
pub uninterp spec fn parsed_url(input: Seq<char>) -> Option<WebUrlView>;

/// Parses an absolute URL; a refusal carries the parser's error text.
///
/// Trusted: `url::Url::parse`, whose result is read through `as_str`, `scheme`,
/// `host_str` and `path`, and whose error is read through its `Display`. The contract
/// names the result `parsed_url(input)` and states nothing of what the parser accepts,
/// how it normalises, or what the error text says.
#[verifier::external_body]
pub fn parse_url(input: &str) -> (res: Result<WebUrl, String>)
    ensures
        match res {
            Ok(u) => parsed_url(input@) == Some(u@),
            Err(_) => parsed_url(input@) is None,
        },
{
    match url::Url::parse(input) {
        Ok(u) => Ok(
            WebUrl {
                href: u.as_str().to_string(),
                scheme: u.scheme().to_string(),
                host: match u.host_str() {
                    Some(h) => Some(h.to_string()),
                    None => None,
                },
                path: u.path().to_string(),
            },
        ),
        Err(e) => Err(e.to_string()),
    }
}

} // verus!
