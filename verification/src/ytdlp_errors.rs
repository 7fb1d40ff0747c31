//! Classification of yt-dlp failures from its standard error output.
use vstd::prelude::*;
use crate::text::{ascii_lowercase, chars_of, contains_chars, contains_seq, to_ascii_lowercase};

verus! {

/// Why a yt-dlp run failed, as far as its error output tells.
#[derive(Debug, Clone, Copy, PartialEq, Eq, Structural)]
pub enum YtDlpFailureKind {
    JsRuntime,
    DiskFull,
    Unavailable,
    FileTooLarge,
    Other,
}

/// Markers of a missing JavaScript runtime (checked first).
pub open spec fn js_runtime_marker(low: Seq<char>) -> bool {
    contains_seq(low, "no supported javascript runtime"@) || contains_seq(low, "js-runtimes"@)
        || contains_seq(low, "ejs"@)
}

/// Markers of a full disk.
pub open spec fn disk_full_marker(low: Seq<char>) -> bool {
    contains_seq(low, "no space left on device"@) || contains_seq(low, "errno 28"@)
}

/// Markers of content that cannot be fetched.
pub open spec fn unavailable_marker(low: Seq<char>) -> bool {
    contains_seq(low, "video unavailable"@) || contains_seq(low, "private video"@) || contains_seq(
        low,
        "age-restricted"@,
    ) || contains_seq(low, "sign in"@)
}

/// Markers of the size limit being hit.
pub open spec fn too_large_marker(low: Seq<char>) -> bool {
    contains_seq(low, "max-filesize"@) || contains_seq(low, "file is larger than"@)
}

/// The failure kind of an error output: the first matching group of markers, compared
/// without regard to ASCII case.
pub open spec fn classify_spec(stderr: Seq<char>) -> YtDlpFailureKind {
    let low = ascii_lowercase(stderr);
    if js_runtime_marker(low) {
        YtDlpFailureKind::JsRuntime
    } else if disk_full_marker(low) {
        YtDlpFailureKind::DiskFull
    } else if unavailable_marker(low) {
        YtDlpFailureKind::Unavailable
    } else if too_large_marker(low) {
        YtDlpFailureKind::FileTooLarge
    } else {
        YtDlpFailureKind::Other
    }
}

/// The user-facing sentence for a failure kind.
pub open spec fn user_message_spec(kind: YtDlpFailureKind) -> Seq<char> {
    match kind {
        YtDlpFailureKind::JsRuntime =>
            "YouTube needs a server update. Try again later or send a direct file link."@,
        YtDlpFailureKind::DiskFull => "Server storage is full. Try again in a few minutes."@,
        YtDlpFailureKind::Unavailable =>
            "This video isn't available (private, removed, or restricted)."@,
        YtDlpFailureKind::FileTooLarge => "File is too large (max 2 GB)."@,
        YtDlpFailureKind::Other =>
            "Download failed. The link may be unsupported or temporarily unavailable."@,
    }
}

/// The log slug of a failure kind.
pub open spec fn failure_slug_spec(kind: YtDlpFailureKind) -> Seq<char> {
    match kind {
        YtDlpFailureKind::JsRuntime => "js_runtime"@,
        YtDlpFailureKind::DiskFull => "disk_full"@,
        YtDlpFailureKind::Unavailable => "unavailable"@,
        YtDlpFailureKind::FileTooLarge => "file_too_large"@,
        YtDlpFailureKind::Other => "other"@,
    }
}

/// Whether the ASCII-lowercased `low` contains the literal `pat`.
pub(crate) fn has(low: &[char], pat: &str) -> (res: bool)
    ensures
        res == contains_seq(low@, pat@),
{
    let p = chars_of(pat);
    contains_chars(low, p.as_slice())
}

/// Classifies yt-dlp's error output into a failure kind.
pub fn classify_ytdlp_stderr(stderr: &str) -> (res: YtDlpFailureKind)
    ensures
        res == classify_spec(stderr@),
{
    let raw = chars_of(stderr);
    let low = to_ascii_lowercase(raw.as_slice());
    let l = low.as_slice();
    if has(l, "no supported javascript runtime") || has(l, "js-runtimes") || has(l, "ejs") {
        return YtDlpFailureKind::JsRuntime;
    }
    if has(l, "no space left on device") || has(l, "errno 28") {
        return YtDlpFailureKind::DiskFull;
    }
    if has(l, "video unavailable") || has(l, "private video") || has(l, "age-restricted") || has(
        l,
        "sign in",
    ) {
        return YtDlpFailureKind::Unavailable;
    }
    if has(l, "max-filesize") || has(l, "file is larger than") {
        return YtDlpFailureKind::FileTooLarge;
    }
    YtDlpFailureKind::Other
}

/// The sentence shown to the user for a failure kind.
pub fn user_message_for_kind(kind: YtDlpFailureKind) -> (res: &'static str)
    ensures
        res@ == user_message_spec(kind),
{
    match kind {
        YtDlpFailureKind::JsRuntime =>
            "YouTube needs a server update. Try again later or send a direct file link.",
        YtDlpFailureKind::DiskFull => "Server storage is full. Try again in a few minutes.",
        YtDlpFailureKind::Unavailable =>
            "This video isn't available (private, removed, or restricted).",
        YtDlpFailureKind::FileTooLarge => "File is too large (max 2 GB).",
        YtDlpFailureKind::Other =>
            "Download failed. The link may be unsupported or temporarily unavailable.",
    }
}

/// The slug under which a failure kind is logged.
pub fn failure_kind_slug(kind: YtDlpFailureKind) -> (res: &'static str)
    ensures
        res@ == failure_slug_spec(kind),
{
    match kind {
        YtDlpFailureKind::JsRuntime => "js_runtime",
        YtDlpFailureKind::DiskFull => "disk_full",
        YtDlpFailureKind::Unavailable => "unavailable",
        YtDlpFailureKind::FileTooLarge => "file_too_large",
        YtDlpFailureKind::Other => "other",
    }
}

/// The user-facing sentence for a yt-dlp error output.
pub fn friendly_ytdlp_message(stderr: &str) -> (res: String)
    ensures
        res@ == user_message_spec(classify_spec(stderr@)),
{
    user_message_for_kind(classify_ytdlp_stderr(stderr)).to_owned()
}


/// What each marker in yt-dlp's error output means, compared without ASCII case: a
/// missing JavaScript runtime (`no supported javascript runtime`, `js-runtimes`, `ejs`)
/// wins over everything; then a full disk (`no space left on device`, `errno 28`); then
/// unavailable content (`video unavailable`, `private video`, `age-restricted`,
/// `sign in`); then the size limit (`max-filesize`, `file is larger than`); an output
/// with none of these is some other failure.
pub proof fn lemma_stderr_markers(stderr: Seq<char>)
    ensures
        ({
            let low = ascii_lowercase(stderr);
            let js = contains_seq(low, "no supported javascript runtime"@) || contains_seq(
                low,
                "js-runtimes"@,
            ) || contains_seq(low, "ejs"@);
            let disk = contains_seq(low, "no space left on device"@) || contains_seq(
                low,
                "errno 28"@,
            );
            let gone = contains_seq(low, "video unavailable"@) || contains_seq(
                low,
                "private video"@,
            ) || contains_seq(low, "age-restricted"@) || contains_seq(low, "sign in"@);
            let big = contains_seq(low, "max-filesize"@) || contains_seq(
                low,
                "file is larger than"@,
            );
            &&& js ==> classify_spec(stderr) == YtDlpFailureKind::JsRuntime
            &&& !js && disk ==> classify_spec(stderr) == YtDlpFailureKind::DiskFull
            &&& !js && !disk && gone ==> classify_spec(stderr) == YtDlpFailureKind::Unavailable
            &&& !js && !disk && !gone && big ==> classify_spec(stderr)
                == YtDlpFailureKind::FileTooLarge
            &&& !js && !disk && !gone && !big ==> classify_spec(stderr) == YtDlpFailureKind::Other
        }),
{
}

/// ASCII lowercasing twice is lowercasing once.
pub proof fn lemma_ascii_lowercase_idempotent(s: Seq<char>)
    ensures
        ascii_lowercase(ascii_lowercase(s)) == ascii_lowercase(s),
{
    assert(ascii_lowercase(ascii_lowercase(s)) =~= ascii_lowercase(s));
}

/// Classification ignores ASCII case: an output and its lowercase get the same kind.
pub proof fn lemma_classify_ignores_case(stderr: Seq<char>)
    ensures
        classify_spec(ascii_lowercase(stderr)) == classify_spec(stderr),
{
    lemma_ascii_lowercase_idempotent(stderr);
}

} // verus!
