//! Local file names for downloads: from the URL path, from `Content-Disposition`, and
//! from `Content-Type`.
use vstd::prelude::*;
use vstd::utf8::{decode_utf8, encode_utf8, valid_utf8};
use crate::text::{
    chars_of, contains_seq, find_chars, first_occurrence, has_prefix, is_ascii_alnum, push_chars,
    push_str, slice_to_vec, split_chars, split_on, starts_with_chars, string_from_chars, trim,
    trim_char, trim_char_exec, trim_chars, views_of,
};
use crate::weburl::{opt_view, WebUrl};

verus! {

// ---------------------------------------------------------------------------
// Sanitising
// ---------------------------------------------------------------------------

/// A character kept in file names: ASCII letters and digits, `.`, `-`, `_`.
pub open spec fn filename_char(c: char) -> bool {
    is_ascii_alnum(c) || c == '.' || c == '-' || c == '_'
}

/// `name` with every other character replaced by `_`.
pub open spec fn sanitize_filename_spec(name: Seq<char>) -> Seq<char> {
    name.map_values(|c: char| if filename_char(c) { c } else { '_' })
}

/// Replaces every character that is not safe in a file name with `_`.
pub fn sanitize_filename(name: &str) -> (res: String)
    ensures
        res@ == sanitize_filename_spec(name@),
        res@.len() == name@.len(),
{
    let s = chars_of(name);
    let mut out: Vec<char> = Vec::new();
    let mut i: usize = 0;
    while i < s.len()
        invariant
            s@ == name@,
            i <= s@.len(),
            out@ == sanitize_filename_spec(s@.take(i as int)),
        decreases s@.len() - i,
    {
        let c = s[i];
        let keep = ('0' <= c && c <= '9') || ('A' <= c && c <= 'Z') || ('a' <= c && c <= 'z') || c
            == '.' || c == '-' || c == '_';
        if keep {
            out.push(c);
        } else {
            out.push('_');
        }
        assert(s@.take(i + 1) =~= s@.take(i as int).push(c));
        assert(out@ =~= sanitize_filename_spec(s@.take(i + 1)));
        i = i + 1;
    }
    assert(s@.take(s@.len() as int) =~= s@);
    string_from_chars(out.as_slice())
}

/// Sanitising keeps the length, keeps every ASCII letter and digit and `.`, `-`, `_` in
/// place, and turns every other character into `_`.
pub proof fn lemma_sanitize_keeps_safe_chars(name: Seq<char>)
    ensures
        sanitize_filename_spec(name).len() == name.len(),
        forall|i: int|
            0 <= i < name.len() ==> #[trigger] sanitize_filename_spec(name)[i] == if ('0'
                <= name[i] <= '9') || ('A' <= name[i] <= 'Z') || ('a' <= name[i] <= 'z')
                || name[i] == '.' || name[i] == '-' || name[i] == '_' {
                name[i]
            } else {
                '_'
            },
{
}

/// Sanitised names hold only safe characters.
pub proof fn lemma_sanitized_chars_are_safe(name: Seq<char>)
    ensures
        forall|i: int|
            0 <= i < name.len() ==> filename_char(#[trigger] sanitize_filename_spec(name)[i]),
{
}

/// Sanitising is idempotent.
pub proof fn lemma_sanitize_idempotent(name: Seq<char>)
    ensures
        sanitize_filename_spec(sanitize_filename_spec(name)) == sanitize_filename_spec(name),
{
    assert(sanitize_filename_spec(sanitize_filename_spec(name)) =~= sanitize_filename_spec(name));
}

// ---------------------------------------------------------------------------
// Percent-decoding
// ---------------------------------------------------------------------------

/// The value of an ASCII hex digit.
pub open spec fn hex_digit(b: u8) -> Option<nat> {
    if 48 <= b <= 57 {
        Some((b - 48) as nat)
    } else if 97 <= b <= 102 {
        Some((b - 87) as nat)
    } else if 65 <= b <= 70 {
        Some((b - 55) as nat)
    } else {
        None
    }
}

/// What `u8::from_str_radix(_, 16)` gives for the two bytes after a `%`: two hex digits,
/// or `+` and one hex digit.
pub open spec fn hex_pair(b1: u8, b2: u8) -> Option<u8> {
    if b1 == 43 {
        match hex_digit(b2) {
            Some(l) => Some(l as u8),
            None => None,
        }
    } else {
        match (hex_digit(b1), hex_digit(b2)) {
            (Some(h), Some(l)) => Some((h * 16 + l) as u8),
            _ => None,
        }
    }
}

/// Percent-decoding of bytes: `%` followed by two more bytes must be a valid pair, any
/// other byte (including a `%` near the end) stays.
pub open spec fn percent_decode_bytes(b: Seq<u8>) -> Option<Seq<u8>>
    decreases b.len(),
{
    if b.len() == 0 {
        Some(Seq::empty())
    } else if b[0] == 37 && b.len() > 2 {
        match hex_pair(b[1], b[2]) {
            Some(v) => match percent_decode_bytes(b.skip(3)) {
                Some(r) => Some(seq![v] + r),
                None => None,
            },
            None => None,
        }
    } else {
        match percent_decode_bytes(b.drop_first()) {
            Some(r) => Some(seq![b[0]] + r),
            None => None,
        }
    }
}

/// Percent-decoding of text: decode the UTF-8 bytes, and the result must be UTF-8.
pub open spec fn percent_decode_spec(s: Seq<char>) -> Option<Seq<char>> {
    match percent_decode_bytes(encode_utf8(s)) {
        Some(bs) => if valid_utf8(bs) {
            Some(decode_utf8(bs))
        } else {
            None
        },
        None => None,
    }
}

/// The text `String::from_utf8` gives for bytes that are not UTF-8 (`FromUtf8Error`'s
/// `Display`).
pub uninterp spec fn utf8_error_text(bytes: Seq<u8>) -> Seq<char>;

/// Builds a `String` from UTF-8 bytes.
///
/// Trusted: `String::from_utf8` (std), which fails exactly when the bytes are not UTF-8
/// and otherwise holds the decoded characters. A failure carries the error's `Display`
/// text, named `utf8_error_text(bytes)`; what that text says is not stated.
#[verifier::external_body]
pub(crate) fn string_from_utf8(bytes: Vec<u8>) -> (res: Result<String, String>)
    ensures
        match res {
            Ok(s) => valid_utf8(bytes@) && s@ == decode_utf8(bytes@),
            Err(e) => !valid_utf8(bytes@) && e@ == utf8_error_text(bytes@),
        },
{
    match String::from_utf8(bytes) {
        Ok(s) => Ok(s),
        Err(e) => Err(e.to_string()),
    }
}

fn hex_digit_exec(b: u8) -> (res: Option<u8>)
    ensures
        match res {
            Some(v) => hex_digit(b) == Some(v as nat) && v < 16,
            None => hex_digit(b) is None,
        },
{
    if 48 <= b && b <= 57 {
        Some(b - 48)
    } else if 97 <= b && b <= 102 {
        Some(b - 87)
    } else if 65 <= b && b <= 70 {
        Some(b - 55)
    } else {
        None
    }
}

fn hex_pair_exec(b1: u8, b2: u8) -> (res: Option<u8>)
    ensures
        res == hex_pair(b1, b2),
{
    if b1 == 43 {
        return hex_digit_exec(b2);
    }
    match (hex_digit_exec(b1), hex_digit_exec(b2)) {
        (Some(h), Some(l)) => Some(h * 16 + l),
        _ => None,
    }
}

/// Decodes `%XX` escapes; fails on a malformed escape or when the result is not UTF-8.
pub fn percent_decode(input: &str) -> (res: Option<String>)
    ensures
        opt_view(res) == percent_decode_spec(input@),
{
    let b = input.as_bytes();
    let n = b.len();
    let mut out: Vec<u8> = Vec::new();
    let mut i: usize = 0;
    assert(b@.skip(0) =~= b@);
    while i < n
        invariant
            n == b@.len(),
            b@ == encode_utf8(input@),
            i <= n,
            percent_decode_bytes(b@) == (match percent_decode_bytes(b@.skip(i as int)) {
                Some(r) => Some(out@ + r),
                None => None,
            }),
        decreases n - i,
    {
        let ghost t = b@.skip(i as int);
        if b[i] == 37 && n - i > 2 {
            assert(t[0] == 37 && t[1] == b@[i + 1] && t[2] == b@[i + 2]);
            match hex_pair_exec(b[i + 1], b[i + 2]) {
                Some(v) => {
                    assert(t.skip(3) =~= b@.skip(i + 3));
                    let ghost before = out@;
                    out.push(v);
                    assert forall|r: Seq<u8>| before + (seq![v] + r) == out@ + r by {
                        assert(before + (seq![v] + r) =~= out@ + r);
                    }
                    i = i + 3;
                },
                None => {
                    return None;
                },
            }
        } else {
            assert(t.drop_first() =~= b@.skip(i + 1));
            assert(t[0] == b@[i as int]);
            let ghost before = out@;
            out.push(b[i]);
            assert forall|r: Seq<u8>| before + (seq![b@[i as int]] + r) == out@ + r by {
                assert(before + (seq![b@[i as int]] + r) =~= out@ + r);
            }
            i = i + 1;
        }
    }
    assert(percent_decode_bytes(b@.skip(n as int)) == Some(Seq::<u8>::empty()));
    assert(out@ + Seq::<u8>::empty() =~= out@);
    match string_from_utf8(out) {
        Ok(t) => Some(t),
        Err(_) => None,
    }
}

// ---------------------------------------------------------------------------
// Content-Disposition
// ---------------------------------------------------------------------------

/// The encoded value of a `filename*=` parameter: after the `''` that ends the charset
/// and language, trimmed and stripped of quotes.
pub open spec fn extended_value(rest: Seq<char>) -> Seq<char> {
    let after = match first_occurrence(rest, "''"@) {
        Some(k) => rest.skip(k + 2int),
        None => rest,
    };
    trim_char(trim(after), '"')
}

/// The file name one `;`-separated part of a `Content-Disposition` value gives, if any.
pub open spec fn disposition_part_name(part: Seq<char>) -> Option<Seq<char>> {
    let p = trim(part);
    if has_prefix(p, "filename*="@) {
        match percent_decode_spec(extended_value(p.skip(10))) {
            Some(d) => if trim(d).len() > 0 {
                Some(trim(d))
            } else {
                None
            },
            None => None,
        }
    } else if has_prefix(p, "filename="@) {
        let name = trim_char(trim(p.skip(9)), '"');
        if name.len() > 0 {
            Some(name)
        } else {
            None
        }
    } else {
        None
    }
}

/// The first part, in order, that gives a file name.
pub open spec fn first_part_name(parts: Seq<Seq<char>>) -> Option<Seq<char>>
    decreases parts.len(),
{
    if parts.len() == 0 {
        None
    } else {
        match disposition_part_name(parts[0]) {
            Some(n) => Some(n),
            None => first_part_name(parts.drop_first()),
        }
    }
}

/// The file name a `Content-Disposition` header value gives.
pub open spec fn disposition_filename_spec(value: Seq<char>) -> Option<Seq<char>> {
    first_part_name(split_on(value, ';'))
}

/// The file name one part gives.
fn disposition_part_name_exec(part: &[char]) -> (res: Option<Vec<char>>)
    ensures
        match res {
            Some(n) => disposition_part_name(part@) == Some(n@),
            None => disposition_part_name(part@) is None,
        },
{
    proof {
        reveal_strlit("filename*=");
        reveal_strlit("filename=");
        reveal_strlit("''");
    }
    let p = trim_chars(part);
    let ext_key = chars_of("filename*=");
    if starts_with_chars(p.as_slice(), ext_key.as_slice()) {
        let rest = slice_to_vec(p.as_slice(), 10, p.len());
        assert(rest@ =~= p@.skip(10));
        let quotes = chars_of("''");
        let after = match find_chars(rest.as_slice(), quotes.as_slice()) {
            Some(k) => slice_to_vec(rest.as_slice(), k + 2, rest.len()),
            None => rest,
        };
        let encoded = trim_char_exec(trim_chars(after.as_slice()).as_slice(), '"');
        assert(encoded@ == extended_value(p@.skip(10)));
        let encoded_str = string_from_chars(encoded.as_slice());
        match percent_decode(encoded_str.as_str()) {
            Some(d) => {
                let name = trim_chars(chars_of(d.as_str()).as_slice());
                if name.len() > 0 {
                    Some(name)
                } else {
                    None
                }
            },
            None => None,
        }
    } else {
        let key = chars_of("filename=");
        if starts_with_chars(p.as_slice(), key.as_slice()) {
            let rest = slice_to_vec(p.as_slice(), 9, p.len());
            assert(rest@ =~= p@.skip(9));
            let name = trim_char_exec(trim_chars(rest.as_slice()).as_slice(), '"');
            if name.len() > 0 {
                Some(name)
            } else {
                None
            }
        } else {
            None
        }
    }
}

/// The file name in a `Content-Disposition` value: the first `filename*=` whose value
/// percent-decodes to a non-empty name, or the first non-empty `filename=`, whichever
/// part comes first.
pub fn filename_from_content_disposition(value: &str) -> (res: Option<String>)
    ensures
        opt_view(res) == disposition_filename_spec(value@),
{
    let parts = split_chars(chars_of(value).as_slice(), ';');
    let mut j: usize = 0;
    assert(views_of(parts@).skip(0) =~= views_of(parts@));
    while j < parts.len()
        invariant
            views_of(parts@) == split_on(value@, ';'),
            j <= parts@.len(),
            first_part_name(views_of(parts@)) == first_part_name(views_of(parts@).skip(j as int)),
        decreases parts@.len() - j,
    {
        let ghost t = views_of(parts@).skip(j as int);
        assert(t[0] == parts@[j as int]@);
        match disposition_part_name_exec(parts[j].as_slice()) {
            Some(n) => {
                return Some(string_from_chars(n.as_slice()));
            },
            None => {
                assert(t.drop_first() =~= views_of(parts@).skip(j + 1));
                j = j + 1;
            },
        }
    }
    None
}

// ---------------------------------------------------------------------------
// URL path
// ---------------------------------------------------------------------------

/// A usable path segment: not empty, not `.` and not `..`.
pub open spec fn good_segment(seg: Seq<char>) -> bool {
    seg.len() > 0 && seg != "."@ && seg != ".."@
}

/// The last usable segment.
pub open spec fn last_good_segment(segs: Seq<Seq<char>>) -> Option<Seq<char>>
    decreases segs.len(),
{
    if segs.len() == 0 {
        None
    } else if good_segment(segs.last()) {
        Some(segs.last())
    } else {
        last_good_segment(segs.drop_last())
    }
}

/// The file name a URL path suggests: its last usable segment, percent-decoded when that
/// works, trimmed; nothing when that is empty.
pub open spec fn url_path_filename_spec(path: Seq<char>) -> Option<Seq<char>> {
    if has_prefix(path, "/"@) {
        match last_good_segment(split_on(path.drop_first(), '/')) {
            Some(seg) => {
                let name = match percent_decode_spec(seg) {
                    Some(d) => d,
                    None => seg,
                };
                if trim(name).len() > 0 {
                    Some(trim(name))
                } else {
                    None
                }
            },
            None => None,
        }
    } else {
        None
    }
}

/// The last non-empty, decoded path segment of `url` (`report.pdf` from `/files/report.pdf`).
pub fn filename_from_url_path(url: &WebUrl) -> (res: Option<String>)
    ensures
        opt_view(res) == url_path_filename_spec(url@.path),
{
    proof {
        reveal_strlit("/");
        reveal_strlit(".");
        reveal_strlit("..");
    }
    let path = chars_of(url.path.as_str());
    if path.len() == 0 || path[0] != '/' {
        assert(!has_prefix(path@, "/"@)) by {
            if path@.len() > 0 {
                assert(path@.subrange(0, 1)[0] == path@[0]);
            }
        }
        return None;
    }
    assert(has_prefix(path@, "/"@)) by {
        assert(path@.subrange(0, 1) =~= "/"@);
    }
    let rest = slice_to_vec(path.as_slice(), 1, path.len());
    assert(rest@ =~= path@.drop_first());
    let segs = split_chars(rest.as_slice(), '/');
    let mut j: usize = segs.len();
    assert(views_of(segs@).take(j as int) =~= views_of(segs@));
    while j > 0
        invariant
            j <= segs@.len(),
            views_of(segs@) == split_on(rest@, '/'),
            has_prefix(url@.path, "/"@),
            rest@ == url@.path.drop_first(),
            last_good_segment(views_of(segs@)) == last_good_segment(
                views_of(segs@).take(j as int),
            ),
        decreases j,
    {
        let seg = &segs[j - 1];
        let ghost t = views_of(segs@).take(j as int);
        assert(t.last() == seg@);
        let dot = chars_of(".");
        let dotdot = chars_of("..");
        let good = seg.len() > 0 && !crate::text::chars_eq(seg.as_slice(), dot.as_slice())
            && !crate::text::chars_eq(seg.as_slice(), dotdot.as_slice());
        if good {
            return segment_filename(seg.as_slice());
        }
        assert(t.drop_last() =~= views_of(segs@).take(j - 1));
        j = j - 1;
    }
    assert(views_of(segs@).take(0) =~= Seq::<Seq<char>>::empty());
    None
}

/// The file name from a chosen segment: decoded when decoding works, then trimmed.
fn segment_filename(seg: &[char]) -> (res: Option<String>)
    ensures
        opt_view(res) == ({
            let name = match percent_decode_spec(seg@) {
                Some(d) => d,
                None => seg@,
            };
            if trim(name).len() > 0 {
                Some(trim(name))
            } else {
                None
            }
        }),
{
    let seg_str = string_from_chars(seg);
    let name = match percent_decode(seg_str.as_str()) {
        Some(d) => d,
        None => seg_str,
    };
    let trimmed = trim_chars(chars_of(name.as_str()).as_slice());
    if trimmed.len() > 0 {
        Some(string_from_chars(trimmed.as_slice()))
    } else {
        None
    }
}

// ---------------------------------------------------------------------------
// Destination of a direct download
// ---------------------------------------------------------------------------

/// What `Path::parent` gives for the path `p`, as text.
pub uninterp spec fn path_parent_of(p: Seq<char>) -> Option<Seq<char>>;

/// What `Path::file_name` gives for the path `p`, as text.
pub uninterp spec fn path_file_name_of(p: Seq<char>) -> Option<Seq<char>>;

/// What `Path::join` gives for `base` and `name`, as text.
pub uninterp spec fn path_joined(base: Seq<char>, name: Seq<char>) -> Seq<char>;

/// The first file extension `mime_guess` knows for the MIME type `mime`.
pub uninterp spec fn mime_first_extension(mime: Seq<char>) -> Option<Seq<char>>;

/// The parent directory of a path.
///
/// Trusted: `std::path::Path::parent`. The contract names the result; path syntax is
/// not stated.
#[verifier::external_body]
fn path_parent(p: &str) -> (res: Option<String>)
    ensures
        opt_view(res) == path_parent_of(p@),
{
    match std::path::Path::new(p).parent() {
        Some(q) => Some(q.to_string_lossy().into_owned()),
        None => None,
    }
}

/// The last component of a path.
///
/// Trusted: `std::path::Path::file_name`. The contract names the result; path syntax is
/// not stated.
#[verifier::external_body]
pub(crate) fn path_file_name(p: &str) -> (res: Option<String>)
    ensures
        opt_view(res) == path_file_name_of(p@),
{
    match std::path::Path::new(p).file_name() {
        Some(n) => Some(n.to_string_lossy().into_owned()),
        None => None,
    }
}

/// A path with `name` appended.
///
/// Trusted: `std::path::Path::join`. The contract names the result; path syntax is not
/// stated.
#[verifier::external_body]
pub fn path_join(base: &str, name: &str) -> (res: String)
    ensures
        res@ == path_joined(base@, name@),
{
    std::path::Path::new(base).join(name).to_string_lossy().into_owned()
}

/// The first extension registered for a MIME type.
///
/// Trusted: `str::parse::<mime_guess::Mime>` (the `mime` crate) followed by
/// `mime_guess::get_mime_extensions` and the first entry of its list. The contract names
/// the result `mime_first_extension(mime)`; the registry's contents are not stated.
#[verifier::external_body]
fn mime_extension(mime: &str) -> (res: Option<String>)
    ensures
        opt_view(res) == mime_first_extension(mime@),
{
    match mime.parse::<mime_guess::Mime>() {
        Ok(m) => match mime_guess::get_mime_extensions(&m) {
            Some(exts) => match exts.first() {
                Some(e) => Some(e.to_string()),
                None => None,
            },
            None => None,
        },
        Err(_) => None,
    }
}

/// The extension for a `Content-Type` value: its media type (before any `;`), trimmed.
pub open spec fn content_type_extension_spec(content_type: Seq<char>) -> Option<Seq<char>> {
    mime_first_extension(trim(split_on(content_type, ';')[0]))
}

/// The file extension registered for the media type of a `Content-Type` value.
pub fn extension_from_content_type(content_type: &str) -> (res: Option<String>)
    ensures
        opt_view(res) == content_type_extension_spec(content_type@),
{
    let parts = split_chars(chars_of(content_type).as_slice(), ';');
    assert(parts@[0]@ == split_on(content_type@, ';')[0]);
    let media = trim_chars(parts[0].as_slice());
    mime_extension(string_from_chars(media.as_slice()).as_str())
}

/// The directory a download goes to: the hint's parent, or `.` when it has none.
pub open spec fn dest_dir_spec(hint: Seq<char>) -> Seq<char> {
    match path_parent_of(hint) {
        Some(p) => if p.len() > 0 {
            p
        } else {
            "."@
        },
        None => "."@,
    }
}

/// The file name before sanitising: the `Content-Disposition` name when there is one,
/// else the hint's own name, else `download`; an extension from `Content-Type` is added
/// when the name has no `.`.
pub open spec fn dest_name_spec(
    hint: Seq<char>,
    content_disposition: Option<Seq<char>>,
    content_type: Option<Seq<char>>,
) -> Seq<char> {
    let from_hint = match path_file_name_of(hint) {
        Some(n) => if n.len() > 0 {
            n
        } else {
            "download"@
        },
        None => "download"@,
    };
    let name = match content_disposition {
        Some(cd) => match disposition_filename_spec(cd) {
            Some(n) => n,
            None => from_hint,
        },
        None => from_hint,
    };
    if !contains_seq(name, "."@) {
        match content_type {
            Some(ct) => match content_type_extension_spec(ct) {
                Some(ext) => name + "."@ + ext,
                None => name,
            },
            None => name,
        }
    } else {
        name
    }
}

/// The destination path of a direct download.
pub open spec fn resolve_direct_dest_spec(
    hint: Seq<char>,
    content_disposition: Option<Seq<char>>,
    content_type: Option<Seq<char>>,
) -> Seq<char> {
    path_joined(
        dest_dir_spec(hint),
        sanitize_filename_spec(dest_name_spec(hint, content_disposition, content_type)),
    )
}

/// The contents of an optional string slice.
pub open spec fn opt_str_view(s: Option<&str>) -> Option<Seq<char>> {
    match s {
        Some(t) => Some(t@),
        None => None,
    }
}

/// Chooses where a direct download is saved: prefers the `Content-Disposition` file name
/// and adds an extension from `Content-Type` when the name has none.
pub fn resolve_direct_dest(
    hint: &str,
    content_disposition: Option<&str>,
    content_type: Option<&str>,
) -> (res: String)
    ensures
        res@ == resolve_direct_dest_spec(
            hint@,
            opt_str_view(content_disposition),
            opt_str_view(content_type),
        ),
{
    let parent = match path_parent(hint) {
        Some(p) => if p.as_str().is_empty() {
            ".".to_owned()
        } else {
            p
        },
        None => ".".to_owned(),
    };
    let from_hint = match path_file_name(hint) {
        Some(n) => if n.as_str().is_empty() {
            "download".to_owned()
        } else {
            n
        },
        None => "download".to_owned(),
    };
    let name = match content_disposition {
        Some(cd) => match filename_from_content_disposition(cd) {
            Some(n) => n,
            None => from_hint,
        },
        None => from_hint,
    };
    let name_chars = chars_of(name.as_str());
    let dot = chars_of(".");
    let name = if !crate::text::contains_chars(name_chars.as_slice(), dot.as_slice()) {
        match content_type {
            Some(ct) => match extension_from_content_type(ct) {
                Some(ext) => {
                    let mut full = name_chars;
                    push_str(&mut full, ".");
                    push_str(&mut full, ext.as_str());
                    string_from_chars(full.as_slice())
                },
                None => name,
            },
            None => name,
        }
    } else {
        name
    };
    let safe = sanitize_filename(name.as_str());
    path_join(parent.as_str(), safe.as_str())
}

} // verus!
