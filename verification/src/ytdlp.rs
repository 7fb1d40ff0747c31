//! The yt-dlp command line, its size-limit syntax, and picking the file it wrote.
use vstd::prelude::*;
use crate::filename::{path_join, path_joined};
use crate::job::YtDlpFormat;
use crate::text::{
    all_digits, chars_of, decimal, digits_value, lemma_decimal_digits, push_decimal, push_str,
    string_from_chars,
};
use crate::ytdlp_errors::YtDlpFailureKind;

verus! {

/// One gibibyte.
pub const GIB: u64 = 1073741824;

/// One mebibyte.
pub const MIB: u64 = 1048576;

/// The output template, relative to the job's directory.
pub open spec fn output_template() -> Seq<char> {
    "%(title).200B [%(id)s].%(ext)s"@
}

/// A failed yt-dlp run: the classified cause and the raw error output.
#[derive(Debug, Clone)]
pub struct YtDlpRunError {
    pub kind: YtDlpFailureKind,
    pub stderr: String,
}

impl YtDlpRunError {
    /// The error's text: `yt-dlp failed: ` and the error output.
    pub fn message(&self) -> (res: String)
        ensures
            res@ == "yt-dlp failed: "@ + self.stderr@,
    {
        let mut out = chars_of("yt-dlp failed: ");
        push_str(&mut out, self.stderr.as_str());
        string_from_chars(out.as_slice())
    }
}

/// The command line of a yt-dlp run and the directory it writes into.
#[derive(Debug, Clone)]
pub struct YtDlpArgs {
    pub argv: Vec<String>,
    pub output_dir: String,
}

/// The texts of a list of strings.
pub open spec fn strings_view(v: Seq<String>) -> Seq<Seq<char>> {
    v.map_values(|s: String| s@)
}

/// The `--max-filesize` value: whole gibibytes as `<n>G`, else whole mebibytes as `<n>M`,
/// else plain bytes.
pub open spec fn max_filesize_text(bytes: u64) -> Seq<char> {
    if bytes >= GIB && bytes % GIB == 0 {
        decimal((bytes / GIB) as nat) + "G"@
    } else if bytes >= MIB && bytes % MIB == 0 {
        decimal((bytes / MIB) as nat) + "M"@
    } else {
        decimal(bytes as nat)
    }
}

/// The number of bytes a `--max-filesize` value stands for.
pub open spec fn max_filesize_value(s: Seq<char>) -> nat {
    if s.len() > 0 && s.last() == 'G' {
        digits_value(s.drop_last()) * (GIB as nat)
    } else if s.len() > 0 && s.last() == 'M' {
        digits_value(s.drop_last()) * (MIB as nat)
    } else {
        digits_value(s)
    }
}

/// Formats a byte limit for yt-dlp's `--max-filesize` (binary `G`/`M` suffixes).
pub fn bytes_to_ytdlp_max_filesize(bytes: u64) -> (res: String)
    ensures
        res@ == max_filesize_text(bytes),
{
    let mut out: Vec<char> = Vec::new();
    if bytes >= GIB && bytes % GIB == 0 {
        push_decimal(&mut out, bytes / GIB);
        push_str(&mut out, "G");
    } else if bytes >= MIB && bytes % MIB == 0 {
        push_decimal(&mut out, bytes / MIB);
        push_str(&mut out, "M");
    } else {
        push_decimal(&mut out, bytes);
    }
    assert(out@ =~= max_filesize_text(bytes));
    string_from_chars(out.as_slice())
}

/// The formatted limit stands for exactly the given number of bytes.
pub proof fn lemma_max_filesize_round_trip(bytes: u64)
    ensures
        max_filesize_value(max_filesize_text(bytes)) == bytes,
{
    reveal_strlit("G");
    reveal_strlit("M");
    let t = max_filesize_text(bytes);
    if bytes >= GIB && bytes % GIB == 0 {
        let q = (bytes / GIB) as nat;
        lemma_decimal_digits(q);
        assert(t.drop_last() =~= decimal(q));
        assert(q * GIB == bytes);
    } else if bytes >= MIB && bytes % MIB == 0 {
        let q = (bytes / MIB) as nat;
        lemma_decimal_digits(q);
        assert(t.drop_last() =~= decimal(q));
        assert(q * MIB == bytes);
    } else {
        lemma_decimal_digits(bytes as nat);
        lemma_decimal_last_not_suffix(t);
    }
}

/// The last character of a decimal is a digit, hence neither `G` nor `M`.
proof fn lemma_decimal_last_not_suffix(t: Seq<char>)
    requires
        t.len() > 0,
        all_digits(t),
    ensures
        t.last() != 'G' && t.last() != 'M',
{
    assert(crate::text::is_digit(t[t.len() - 1]));
}

/// The flags that select a format.
pub open spec fn format_flags(format: YtDlpFormat) -> Seq<Seq<char>> {
    match format {
        YtDlpFormat::Video => seq!["-f"@, "bv*+ba/b"@],
        YtDlpFormat::Audio => seq!["-x"@, "--audio-format"@, "mp3"@],
        YtDlpFormat::Best => Seq::empty(),
    }
}

/// The full command line for a download.
pub open spec fn argv_spec(
    url: Seq<char>,
    output_dir: Seq<char>,
    format: YtDlpFormat,
    max_file_bytes: u64,
) -> Seq<Seq<char>> {
    seq![
        "yt-dlp"@,
        "--no-playlist"@,
        "--max-filesize"@,
        max_filesize_text(max_file_bytes),
        "-o"@,
        path_joined(output_dir, output_template()),
        url,
    ] + format_flags(format)
}

/// Builds the yt-dlp command line: single item, size limit, output template under
/// `output_dir`, then the format flags.
pub fn build_args(url: &str, output_dir: &str, format: YtDlpFormat, max_file_bytes: u64) -> (res:
    YtDlpArgs)
    ensures
        strings_view(res.argv@) == argv_spec(url@, output_dir@, format, max_file_bytes),
        res.output_dir@ == output_dir@,
{
    let template = path_join(output_dir, "%(title).200B [%(id)s].%(ext)s");
    let max_size = bytes_to_ytdlp_max_filesize(max_file_bytes);
    let mut argv: Vec<String> = Vec::new();
    argv.push("yt-dlp".to_owned());
    argv.push("--no-playlist".to_owned());
    argv.push("--max-filesize".to_owned());
    argv.push(max_size);
    argv.push("-o".to_owned());
    argv.push(template);
    argv.push(url.to_owned());
    match format {
        YtDlpFormat::Video => {
            argv.push("-f".to_owned());
            argv.push("bv*+ba/b".to_owned());
        },
        YtDlpFormat::Audio => {
            argv.push("-x".to_owned());
            argv.push("--audio-format".to_owned());
            argv.push("mp3".to_owned());
        },
        YtDlpFormat::Best => {},
    }
    assert(strings_view(argv@) =~= argv_spec(url@, output_dir@, format, max_file_bytes));
    YtDlpArgs { argv, output_dir: output_dir.to_owned() }
}

// ---------------------------------------------------------------------------
// The file a run produced
// ---------------------------------------------------------------------------

/// An entry of the output directory, as listed after a run.
#[derive(Debug, Clone)]
pub struct DirEntryInfo {
    pub path: String,
    pub is_file: bool,
    /// Modification time in nanoseconds since the Unix epoch (0 when unknown).
    pub modified: u128,
}

/// The newest file among the first `n` entries; the earliest one listed wins a tie.
pub open spec fn newest_among(es: Seq<DirEntryInfo>, n: nat) -> Option<int>
    decreases n,
{
    if n == 0 {
        None
    } else {
        let k = (n - 1) as int;
        let prev = newest_among(es, (n - 1) as nat);
        if !es[k].is_file {
            prev
        } else {
            match prev {
                Some(j) => if es[k].modified <= es[j].modified {
                    Some(j)
                } else {
                    Some(k)
                },
                None => Some(k),
            }
        }
    }
}

/// Picks the newest regular file of a directory listing, by index.
pub fn newest_file(entries: &Vec<DirEntryInfo>) -> (res: Option<usize>)
    ensures
        match res {
            Some(i) => newest_among(entries@, entries@.len()) == Some(i as int),
            None => newest_among(entries@, entries@.len()) is None,
        },
{
    let mut best: Option<usize> = None;
    let mut k: usize = 0;
    while k < entries.len()
        invariant
            k <= entries@.len(),
            match best {
                Some(j) => newest_among(entries@, k as nat) == Some(j as int) && j < k,
                None => newest_among(entries@, k as nat) is None,
            },
        decreases entries@.len() - k,
    {
        if entries[k].is_file {
            match best {
                Some(j) => {
                    if !(entries[k].modified <= entries[j].modified) {
                        best = Some(k);
                    }
                },
                None => {
                    best = Some(k);
                },
            }
        }
        k = k + 1;
    }
    best
}

/// The chosen entry is a file, no listed file is newer, and every earlier file is older.
pub proof fn lemma_newest_is_newest(es: Seq<DirEntryInfo>, n: nat)
    requires
        n <= es.len(),
    ensures
        match newest_among(es, n) {
            Some(j) => {
                &&& 0 <= j < n
                &&& es[j].is_file
                &&& forall|k: int| 0 <= k < n && es[k].is_file ==> es[k].modified <= es[j].modified
                &&& forall|k: int| 0 <= k < j && es[k].is_file ==> es[k].modified < es[j].modified
            },
            None => forall|k: int| 0 <= k < n ==> !es[k].is_file,
        },
    decreases n,
{
    if n > 0 {
        lemma_newest_is_newest(es, (n - 1) as nat);
    }
}

} // verus!
