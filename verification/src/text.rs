//! Character-sequence helpers shared by the parsers and message builders.
//!
//! Strings are handled as sequences of Unicode scalar values (`Seq<char>`), the view
//! that vstd gives `str` and `String`.
use vstd::prelude::*;

verus! {

// ---------------------------------------------------------------------------
// Conversions between `str`/`String` and character vectors
// ---------------------------------------------------------------------------

/// Collects the characters of `s` into a vector.
pub fn chars_of(s: &str) -> (res: Vec<char>)
    ensures
        res@ == s@,
{
    let mut out: Vec<char> = Vec::new();
    for c in it: s.chars()
        invariant
            out@ == it.seq().take(it.index() as int),
    {
        out.push(c);
    }
    out
}

/// Appends the characters of `s` to `out`.
pub fn push_str(out: &mut Vec<char>, s: &str)
    ensures
        final(out)@ == old(out)@ + s@,
{
    let mut tail = chars_of(s);
    out.append(&mut tail);
}

/// Appends the characters of `s` to `out`.
pub fn push_chars(out: &mut Vec<char>, s: &[char])
    ensures
        final(out)@ == old(out)@ + s@,
{
    let mut i: usize = 0;
    while i < s.len()
        invariant
            i <= s@.len(),
            out@ == old(out)@ + s@.take(i as int),
        decreases s@.len() - i,
    {
        out.push(s[i]);
        assert(s@.take(i + 1) =~= s@.take(i as int).push(s@[i as int]));
        i = i + 1;
    }
    assert(s@.take(s@.len() as int) =~= s@);
}

/// Builds a `String` holding exactly the characters of `chars`.
///
/// Trusted: `Iterator::collect` into `String` (std) appends every character in order.
#[verifier::external_body]
pub fn string_from_chars(chars: &[char]) -> (res: String)
    ensures
        res@ == chars@,
{
    chars.iter().collect()
}

/// Character-wise equality of two strings.
pub fn str_eq(a: &str, b: &str) -> (res: bool)
    ensures
        res == (a@ == b@),
{
    let x = chars_of(a);
    let y = chars_of(b);
    chars_eq(x.as_slice(), y.as_slice())
}

/// Equality of two character slices.
pub fn chars_eq(a: &[char], b: &[char]) -> (res: bool)
    ensures
        res == (a@ == b@),
{
    if a.len() != b.len() {
        return false;
    }
    let mut i: usize = 0;
    while i < a.len()
        invariant
            a@.len() == b@.len(),
            i <= a@.len(),
            forall|j: int| 0 <= j < i ==> a@[j] == b@[j],
        decreases a@.len() - i,
    {
        if a[i] != b[i] {
            return false;
        }
        i = i + 1;
    }
    assert(a@ =~= b@);
    true
}

// ---------------------------------------------------------------------------
// Prefixes, suffixes and containment
// ---------------------------------------------------------------------------

/// `pat` occurs in `s` starting at position `i`.
pub open spec fn occurs_at(s: Seq<char>, i: int, pat: Seq<char>) -> bool {
    0 <= i && i + pat.len() <= s.len() && s.subrange(i, i + pat.len()) == pat
}

/// `pat` occurs somewhere in `s`.
pub open spec fn contains_seq(s: Seq<char>, pat: Seq<char>) -> bool {
    exists|i: int| occurs_at(s, i, pat)
}

/// `s` begins with `pat`.
pub open spec fn has_prefix(s: Seq<char>, pat: Seq<char>) -> bool {
    occurs_at(s, 0, pat)
}

/// An occurrence at `i` is a prefix of the suffix from `i`.
pub proof fn lemma_occurs_at_skip(s: Seq<char>, i: int, pat: Seq<char>)
    requires
        0 <= i <= s.len(),
    ensures
        occurs_at(s, i, pat) == has_prefix(s.skip(i), pat),
{
    if i + pat.len() <= s.len() {
        assert(s.skip(i).subrange(0, pat.len() as int) =~= s.subrange(i, i + pat.len()));
    }
}

/// Whether `pat` occurs in `s` at position `i`.
pub fn matches_at(s: &[char], i: usize, pat: &[char]) -> (res: bool)
    ensures
        res == occurs_at(s@, i as int, pat@),
{
    let n = s.len();
    if i > n || pat.len() > n - i {
        return false;
    }
    let mut k: usize = 0;
    while k < pat.len()
        invariant
            n == s@.len(),
            i + pat@.len() <= s@.len(),
            k <= pat@.len(),
            forall|j: int| 0 <= j < k ==> s@[i + j] == pat@[j],
        decreases pat@.len() - k,
    {
        assert(i + k < s@.len());
        if s[i + k] != pat[k] {
            assert(s@.subrange(i as int, i + pat@.len())[k as int] != pat@[k as int]);
            return false;
        }
        k = k + 1;
    }
    assert(s@.subrange(i as int, i + pat@.len()) =~= pat@);
    true
}

/// Whether `s` begins with `pat`.
pub fn starts_with_chars(s: &[char], pat: &[char]) -> (res: bool)
    ensures
        res == has_prefix(s@, pat@),
{
    matches_at(s, 0, pat)
}

/// Whether `pat` occurs anywhere in `s`.
pub fn contains_chars(s: &[char], pat: &[char]) -> (res: bool)
    ensures
        res == contains_seq(s@, pat@),
{
    if pat.len() > s.len() {
        assert forall|i: int| !occurs_at(s@, i, pat@) by {}
        return false;
    }
    let last = s.len() - pat.len();
    let mut i: usize = 0;
    loop
        invariant
            last == s@.len() - pat@.len(),
            i <= last,
            forall|j: int| 0 <= j < i ==> !occurs_at(s@, j, pat@),
        ensures
            forall|j: int| 0 <= j <= last ==> !occurs_at(s@, j, pat@),
        decreases last - i,
    {
        if matches_at(s, i, pat) {
            return true;
        }
        if i == last {
            break;
        }
        i = i + 1;
    }
    assert forall|j: int| !occurs_at(s@, j, pat@) by {
        if 0 <= j && j <= last {
        }
    }
    false
}

// ---------------------------------------------------------------------------
// Splitting and searching
// ---------------------------------------------------------------------------

/// `str::split(c)`: the pieces of `s` between occurrences of `c` (at least one piece).
pub open spec fn split_on(s: Seq<char>, c: char) -> Seq<Seq<char>>
    decreases s.len(),
{
    if s.len() == 0 {
        seq![Seq::<char>::empty()]
    } else {
        let init = split_on(s.drop_last(), c);
        if s.last() == c {
            init.push(Seq::<char>::empty())
        } else {
            init.update(init.len() - 1, init.last().push(s.last()))
        }
    }
}

pub proof fn lemma_split_on_nonempty(s: Seq<char>, c: char)
    ensures
        split_on(s, c).len() >= 1,
    decreases s.len(),
{
    if s.len() > 0 {
        lemma_split_on_nonempty(s.drop_last(), c);
    }
}

/// The contents of a list of character vectors.
pub open spec fn views_of(v: Seq<Vec<char>>) -> Seq<Seq<char>> {
    v.map_values(|x: Vec<char>| x@)
}

/// Splits `s` at every `c`, like `str::split(c)`.
pub fn split_chars(s: &[char], c: char) -> (res: Vec<Vec<char>>)
    ensures
        views_of(res@) == split_on(s@, c),
        res@.len() >= 1,
{
    let mut parts: Vec<Vec<char>> = Vec::new();
    parts.push(Vec::new());
    assert(views_of(parts@) =~= split_on(s@.take(0), c));
    let mut i: usize = 0;
    while i < s.len()
        invariant
            i <= s@.len(),
            parts@.len() >= 1,
            views_of(parts@) == split_on(s@.take(i as int), c),
        decreases s@.len() - i,
    {
        let x = s[i];
        let ghost prev = parts@;
        assert(s@.take(i + 1).drop_last() =~= s@.take(i as int));
        assert(s@.take(i + 1).last() == x);
        if x == c {
            parts.push(Vec::new());
            assert(views_of(parts@) =~= views_of(prev).push(Seq::<char>::empty()));
        } else {
            let mut last = parts.pop().unwrap();
            last.push(x);
            parts.push(last);
            assert(views_of(parts@) =~= views_of(prev).update(
                views_of(prev).len() - 1,
                views_of(prev).last().push(x),
            ));
        }
        i = i + 1;
    }
    assert(s@.take(s@.len() as int) =~= s@);
    parts
}

/// The leftmost position where `pat` occurs in `s`.
pub open spec fn first_occurrence(s: Seq<char>, pat: Seq<char>) -> Option<nat>
    decreases s.len(),
{
    if s.len() < pat.len() {
        None
    } else if has_prefix(s, pat) {
        Some(0)
    } else if s.len() == 0 {
        None
    } else {
        match first_occurrence(s.drop_first(), pat) {
            Some(k) => Some(k + 1),
            None => None,
        }
    }
}

/// Finds the leftmost occurrence of `pat` in `s`.
pub fn find_chars(s: &[char], pat: &[char]) -> (res: Option<usize>)
    ensures
        match res {
            Some(k) => first_occurrence(s@, pat@) == Some(k as nat) && k + pat@.len() <= s@.len(),
            None => first_occurrence(s@, pat@) is None,
        },
{
    let n = s.len();
    let mut i: usize = 0;
    assert(s@.skip(0) =~= s@);
    while i < n
        invariant
            n == s@.len(),
            i <= n,
            first_occurrence(s@, pat@) == (match first_occurrence(s@.skip(i as int), pat@) {
                Some(k) => Some((k + i) as nat),
                None => None,
            }),
        decreases n - i,
    {
        let ghost t = s@.skip(i as int);
        proof {
            lemma_occurs_at_skip(s@, i as int, pat@);
        }
        if matches_at(s, i, pat) {
            return Some(i);
        }
        if pat.len() > n - i {
            return None;
        }
        assert(t.drop_first() =~= s@.skip(i + 1));
        i = i + 1;
    }
    assert(first_occurrence(s@.skip(n as int), pat@) == (if pat@.len() == 0 {
        Some(0nat)
    } else {
        None
    })) by {
        assert(s@.skip(n as int).len() == 0);
        if pat@.len() == 0 {
            assert(has_prefix(s@.skip(n as int), pat@)) by {
                assert(s@.skip(n as int).subrange(0, 0) =~= pat@);
            }
        }
    }
    if pat.len() == 0 {
        Some(n)
    } else {
        None
    }
}

/// Number of `c` characters at the start of `s`.
pub open spec fn lead_count(s: Seq<char>, c: char) -> nat
    decreases s.len(),
{
    if s.len() > 0 && s[0] == c {
        1 + lead_count(s.drop_first(), c)
    } else {
        0
    }
}

/// Number of `c` characters at the end of `s`.
pub open spec fn trail_count(s: Seq<char>, c: char) -> nat
    decreases s.len(),
{
    if s.len() > 0 && s.last() == c {
        1 + trail_count(s.drop_last(), c)
    } else {
        0
    }
}

/// `s` without leading and trailing `c` (`str::trim_matches(c)`).
pub open spec fn trim_char(s: Seq<char>, c: char) -> Seq<char> {
    let t = s.skip(lead_count(s, c) as int);
    t.take(t.len() - trail_count(t, c))
}

pub proof fn lemma_lead_count_bound(s: Seq<char>, c: char)
    ensures
        lead_count(s, c) <= s.len(),
    decreases s.len(),
{
    if s.len() > 0 && s[0] == c {
        lemma_lead_count_bound(s.drop_first(), c);
    }
}

pub proof fn lemma_trail_count_bound(s: Seq<char>, c: char)
    ensures
        trail_count(s, c) <= s.len(),
    decreases s.len(),
{
    if s.len() > 0 && s.last() == c {
        lemma_trail_count_bound(s.drop_last(), c);
    }
}

/// Strips every leading and trailing `c`.
pub fn trim_char_exec(s: &[char], c: char) -> (res: Vec<char>)
    ensures
        res@ == trim_char(s@, c),
{
    let n = s.len();
    let mut a: usize = 0;
    assert(s@.skip(0) =~= s@);
    while a < n && s[a] == c
        invariant
            n == s@.len(),
            a <= n,
            lead_count(s@, c) == a + lead_count(s@.skip(a as int), c),
        decreases n - a,
    {
        assert(s@.skip(a as int).drop_first() =~= s@.skip(a + 1));
        a = a + 1;
    }
    assert(lead_count(s@.skip(a as int), c) == 0) by {
        if a < n {
            assert(s@.skip(a as int)[0] == s@[a as int]);
        }
    }
    let t = slice_to_vec(s, a, n);
    assert(t@ =~= s@.skip(a as int));
    let m = t.len();
    let mut b: usize = m;
    assert(t@.take(m as int) =~= t@);
    while b > 0 && t[b - 1] == c
        invariant
            m == t@.len(),
            b <= m,
            trail_count(t@, c) == (m - b) + trail_count(t@.take(b as int), c),
        decreases b,
    {
        assert(t@.take(b as int).drop_last() =~= t@.take(b - 1));
        b = b - 1;
    }
    assert(trail_count(t@.take(b as int), c) == 0);
    let out = slice_to_vec(t.as_slice(), 0, b);
    assert(out@ =~= trim_char(s@, c));
    out
}

// ---------------------------------------------------------------------------
// ASCII case
// ---------------------------------------------------------------------------

/// The ASCII lowercase of one character; other characters are unchanged.
pub open spec fn ascii_lower(c: char) -> char {
    if 'A' <= c && c <= 'Z' {
        ((c as u32) + 32) as char
    } else {
        c
    }
}

/// The ASCII lowercase of a character sequence (`str::to_ascii_lowercase`).
pub open spec fn ascii_lowercase(s: Seq<char>) -> Seq<char> {
    s.map_values(|c: char| ascii_lower(c))
}

/// ASCII lowercase of one character.
pub fn lower_ascii_char(c: char) -> (res: char)
    ensures
        res == ascii_lower(c),
{
    if 'A' <= c && c <= 'Z' {
        let u: u32 = c as u32;
        let l: u32 = u + 32;
        proof {
            assert(l == (c as u32) + 32);
        }
        char_from_ascii(l)
    } else {
        c
    }
}

/// The character with ASCII code `code`.
pub fn char_from_ascii(code: u32) -> (res: char)
    requires
        code < 128,
    ensures
        res == code as char,
{
    (code as u8) as char
}

/// ASCII lowercase of every character of `s`.
pub fn to_ascii_lowercase(s: &[char]) -> (res: Vec<char>)
    ensures
        res@ == ascii_lowercase(s@),
{
    let mut out: Vec<char> = Vec::new();
    let mut i: usize = 0;
    while i < s.len()
        invariant
            i <= s@.len(),
            out@ == ascii_lowercase(s@.take(i as int)),
        decreases s@.len() - i,
    {
        let c = lower_ascii_char(s[i]);
        out.push(c);
        assert(s@.take(i + 1) =~= s@.take(i as int).push(s@[i as int]));
        i = i + 1;
    }
    assert(s@.take(s@.len() as int) =~= s@);
    out
}

/// ASCII digits `0`-`9`.
pub open spec fn is_digit(c: char) -> bool {
    '0' <= c && c <= '9'
}

/// ASCII letters and digits (`char::is_ascii_alphanumeric`).
pub open spec fn is_ascii_alnum(c: char) -> bool {
    ('0' <= c && c <= '9') || ('A' <= c && c <= 'Z') || ('a' <= c && c <= 'z')
}

// ---------------------------------------------------------------------------
// Unicode white space and trimming
// ---------------------------------------------------------------------------

/// The Unicode `White_Space` property: the characters `char::is_whitespace`,
/// `str::trim` and the regular-expression class `\s` treat as white space.
pub open spec fn is_white_space(c: char) -> bool {
    ||| ('\t' <= c && c <= '\r')
    ||| c == ' '
    ||| c == '\u{85}'
    ||| c == '\u{a0}'
    ||| c == '\u{1680}'
    ||| ('\u{2000}' <= c && c <= '\u{200a}')
    ||| c == '\u{2028}'
    ||| c == '\u{2029}'
    ||| c == '\u{202f}'
    ||| c == '\u{205f}'
    ||| c == '\u{3000}'
}

/// Whether `c` is Unicode white space.
pub fn white_space(c: char) -> (res: bool)
    ensures
        res == is_white_space(c),
{
    ('\t' <= c && c <= '\r') || c == ' ' || c == '\u{85}' || c == '\u{a0}' || c == '\u{1680}'
        || ('\u{2000}' <= c && c <= '\u{200a}') || c == '\u{2028}' || c == '\u{2029}' || c
        == '\u{202f}' || c == '\u{205f}' || c == '\u{3000}'
}

/// Number of white-space characters at the start of `s`.
pub open spec fn leading_ws(s: Seq<char>) -> nat
    decreases s.len(),
{
    if s.len() > 0 && is_white_space(s[0]) {
        1 + leading_ws(s.drop_first())
    } else {
        0
    }
}

/// Number of white-space characters at the end of `s`.
pub open spec fn trailing_ws(s: Seq<char>) -> nat
    decreases s.len(),
{
    if s.len() > 0 && is_white_space(s.last()) {
        1 + trailing_ws(s.drop_last())
    } else {
        0
    }
}

/// `s` without leading white space (`str::trim_start`).
pub open spec fn trim_start(s: Seq<char>) -> Seq<char> {
    s.skip(leading_ws(s) as int)
}

/// `s` without trailing white space (`str::trim_end`).
pub open spec fn trim_end(s: Seq<char>) -> Seq<char> {
    s.take(s.len() - trailing_ws(s))
}

/// `s` without leading and trailing white space (`str::trim`).
pub open spec fn trim(s: Seq<char>) -> Seq<char> {
    trim_end(trim_start(s))
}

pub proof fn lemma_leading_ws_bound(s: Seq<char>)
    ensures
        leading_ws(s) <= s.len(),
        forall|j: int| 0 <= j < leading_ws(s) ==> is_white_space(#[trigger] s[j]),
        leading_ws(s) < s.len() ==> !is_white_space(s[leading_ws(s) as int]),
    decreases s.len(),
{
    if s.len() > 0 && is_white_space(s[0]) {
        lemma_leading_ws_bound(s.drop_first());
        assert forall|j: int| 0 <= j < leading_ws(s) implies is_white_space(#[trigger] s[j]) by {
            if j > 0 {
                assert(s[j] == s.drop_first()[j - 1]);
            }
        }
        if leading_ws(s) < s.len() {
            assert(s[leading_ws(s) as int] == s.drop_first()[leading_ws(s.drop_first()) as int]);
        }
    }
}

pub proof fn lemma_trailing_ws_bound(s: Seq<char>)
    ensures
        trailing_ws(s) <= s.len(),
        forall|j: int| s.len() - trailing_ws(s) <= j < s.len() ==> is_white_space(#[trigger] s[j]),
        trailing_ws(s) < s.len() ==> !is_white_space(s[s.len() - trailing_ws(s) - 1]),
    decreases s.len(),
{
    if s.len() > 0 && is_white_space(s.last()) {
        lemma_trailing_ws_bound(s.drop_last());
        assert forall|j: int| s.len() - trailing_ws(s) <= j < s.len() implies is_white_space(
            #[trigger] s[j],
        ) by {
            if j < s.len() - 1 {
                assert(s[j] == s.drop_last()[j]);
            }
        }
        if trailing_ws(s) < s.len() {
            assert(s[s.len() - trailing_ws(s) - 1] == s.drop_last()[s.drop_last().len()
                - trailing_ws(s.drop_last()) - 1]);
        }
    }
}

/// Number of leading white-space characters of `s[from..]`.
fn count_leading_ws(s: &[char], from: usize) -> (res: usize)
    requires
        from <= s@.len(),
    ensures
        res == leading_ws(s@.skip(from as int)),
    decreases s@.len() - from,
{
    if from < s.len() && white_space(s[from]) {
        assert(s@.skip(from as int).drop_first() =~= s@.skip(from + 1));
        let r = count_leading_ws(s, from + 1);
        proof {
            lemma_leading_ws_bound(s@.skip(from + 1));
        }
        r + 1
    } else {
        0
    }
}

/// Number of trailing white-space characters of `s[..to]`.
fn count_trailing_ws(s: &[char], to: usize) -> (res: usize)
    requires
        to <= s@.len(),
    ensures
        res == trailing_ws(s@.take(to as int)),
    decreases to,
{
    if to > 0 && white_space(s[to - 1]) {
        assert(s@.take(to as int).drop_last() =~= s@.take(to - 1));
        let r = count_trailing_ws(s, to - 1);
        proof {
            lemma_trailing_ws_bound(s@.take(to - 1));
        }
        r + 1
    } else {
        0
    }
}

/// The characters of `s` between positions `from` and `to`.
pub fn slice_to_vec(s: &[char], from: usize, to: usize) -> (res: Vec<char>)
    requires
        from <= to <= s@.len(),
    ensures
        res@ == s@.subrange(from as int, to as int),
{
    let mut out: Vec<char> = Vec::new();
    let mut i: usize = from;
    while i < to
        invariant
            from <= i <= to <= s@.len(),
            out@ == s@.subrange(from as int, i as int),
        decreases to - i,
    {
        out.push(s[i]);
        assert(s@.subrange(from as int, i + 1) =~= s@.subrange(from as int, i as int).push(
            s@[i as int],
        ));
        i = i + 1;
    }
    out
}

/// `s` without leading and trailing white space.
pub fn trim_chars(s: &[char]) -> (res: Vec<char>)
    ensures
        res@ == trim(s@),
{
    let lead = count_leading_ws(s, 0);
    proof {
        assert(s@.skip(0) =~= s@);
        lemma_leading_ws_bound(s@);
    }
    let rest = slice_to_vec(s, lead, s.len());
    assert(rest@ =~= trim_start(s@));
    let trail = count_trailing_ws(rest.as_slice(), rest.len());
    proof {
        assert(rest@.take(rest@.len() as int) =~= rest@);
        lemma_trailing_ws_bound(rest@);
    }
    let out = slice_to_vec(rest.as_slice(), 0, rest.len() - trail);
    assert(out@ =~= trim(s@));
    out
}

// ---------------------------------------------------------------------------
// Decimal numbers
// ---------------------------------------------------------------------------

/// The ASCII digit for `d < 10`.
pub open spec fn digit_char(d: nat) -> char {
    ((d + 48) as u32) as char
}

/// The value of an ASCII digit.
pub open spec fn digit_value(c: char) -> nat {
    ((c as u32) - 48) as nat
}

/// The decimal representation of `n`, without leading zeros (`u64::to_string`).
pub open spec fn decimal(n: nat) -> Seq<char>
    decreases n,
{
    if n < 10 {
        seq![digit_char(n)]
    } else {
        decimal(n / 10).push(digit_char(n % 10))
    }
}

/// The decimal representation of a signed integer (`i64::to_string`).
pub open spec fn signed_decimal(n: int) -> Seq<char> {
    if n < 0 {
        seq!['-'] + decimal((-n) as nat)
    } else {
        decimal(n as nat)
    }
}

/// The value of a sequence of ASCII digits.
pub open spec fn digits_value(s: Seq<char>) -> nat
    decreases s.len(),
{
    if s.len() == 0 {
        0
    } else {
        digits_value(s.drop_last()) * 10 + digit_value(s.last())
    }
}

/// Every character of `s` is an ASCII digit.
pub open spec fn all_digits(s: Seq<char>) -> bool {
    forall|i: int| 0 <= i < s.len() ==> is_digit(#[trigger] s[i])
}

/// `u64::from_str`: an optional `+`, then one or more ASCII digits, whose value fits.
pub open spec fn parse_u64_spec(s: Seq<char>) -> Option<u64> {
    let ds = if s.len() > 0 && s[0] == '+' {
        s.drop_first()
    } else {
        s
    };
    if ds.len() > 0 && all_digits(ds) && digits_value(ds) <= u64::MAX {
        Some(digits_value(ds) as u64)
    } else {
        None
    }
}

/// `i64::from_str`: an optional `+` or `-`, then one or more ASCII digits, in range.
pub open spec fn parse_i64_spec(s: Seq<char>) -> Option<i64> {
    let neg = s.len() > 0 && s[0] == '-';
    let ds = if s.len() > 0 && (s[0] == '+' || s[0] == '-') {
        s.drop_first()
    } else {
        s
    };
    if ds.len() > 0 && all_digits(ds) {
        let v: int = if neg {
            -(digits_value(ds) as int)
        } else {
            digits_value(ds) as int
        };
        if i64::MIN <= v <= i64::MAX {
            Some(v as i64)
        } else {
            None
        }
    } else {
        None
    }
}

/// The digit characters and their values correspond.
pub proof fn lemma_digit_char(d: nat)
    requires
        d < 10,
    ensures
        is_digit(digit_char(d)),
        digit_value(digit_char(d)) == d,
        digit_char(d) != '0' || d == 0,
{
    assert(((d + 48) as u32) as char as u32 == (d + 48) as u32);
}

pub proof fn lemma_decimal_digits(n: nat)
    ensures
        decimal(n).len() >= 1,
        all_digits(decimal(n)),
        digits_value(decimal(n)) == n,
        decimal(n)[0] != '0' || n == 0,
    decreases n,
{
    lemma_digit_char(n % 10);
    if n < 10 {
        assert(decimal(n).drop_last() =~= Seq::<char>::empty());
        assert(decimal(n).last() == digit_char(n));
        assert(digits_value(decimal(n)) == digits_value(decimal(n).drop_last()) * 10 + digit_value(decimal(n).last()));
    } else {
        lemma_decimal_digits(n / 10);
        let d = decimal(n);
        assert(d.drop_last() =~= decimal(n / 10));
        assert forall|i: int| 0 <= i < d.len() implies is_digit(#[trigger] d[i]) by {
            if i < d.len() - 1 {
                assert(d[i] == decimal(n / 10)[i]);
            }
        }
        assert(d[0] == decimal(n / 10)[0]);
        assert(d.last() == digit_char(n % 10));
        assert(digits_value(d) == digits_value(d.drop_last()) * 10 + digit_value(d.last()));
        assert(digits_value(d) == (n / 10) * 10 + n % 10);
    }
}

pub proof fn lemma_digits_value_prefix(s: Seq<char>, i: int)
    requires
        0 <= i <= s.len(),
    ensures
        digits_value(s.take(i)) <= digits_value(s),
    decreases s.len() - i,
{
    if i < s.len() {
        lemma_digits_value_prefix(s, i + 1);
        assert(s.take(i + 1).drop_last() =~= s.take(i));
    } else {
        assert(s.take(i) =~= s);
    }
}

/// Appends the decimal digits of `n` to `out`.
pub fn push_decimal(out: &mut Vec<char>, n: u64)
    ensures
        final(out)@ == old(out)@ + decimal(n as nat),
    decreases n,
{
    if n >= 10 {
        push_decimal(out, n / 10);
    }
    let d: u32 = (n % 10) as u32;
    let c = char_from_ascii(d + 48);
    out.push(c);
    proof {
        if n >= 10 {
            assert(decimal(n as nat) == decimal((n / 10) as nat).push(digit_char((n % 10) as nat)));
        }
    }
    assert(final(out)@ =~= old(out)@ + decimal(n as nat)) by {
        if n < 10 {
            assert(decimal(n as nat) =~= seq![digit_char(n as nat)]);
        }
    };
}

/// Appends the decimal form of a signed integer to `out`.
pub fn push_signed_decimal(out: &mut Vec<char>, n: i64)
    ensures
        final(out)@ == old(out)@ + signed_decimal(n as int),
{
    if n < 0 {
        out.push('-');
        let mag: u64 = if n == i64::MIN {
            9223372036854775808u64
        } else {
            (-n) as u64
        };
        push_decimal(out, mag);
        assert(final(out)@ =~= old(out)@ + signed_decimal(n as int));
    } else {
        push_decimal(out, n as u64);
    }
}

/// Parses an unsigned decimal the way `u64::from_str` does.
pub fn parse_u64(s: &[char]) -> (res: Option<u64>)
    ensures
        res == parse_u64_spec(s@),
{
    let start: usize = if s.len() > 0 && s[0] == '+' {
        1
    } else {
        0
    };
    let ghost ds = s@.skip(start as int);
    assert(ds =~= (if s@.len() > 0 && s@[0] == '+' {
        s@.drop_first()
    } else {
        s@
    }));
    assert(parse_u64_spec(s@) == (if ds.len() > 0 && all_digits(ds) && digits_value(ds) <= u64::MAX {
        Some(digits_value(ds) as u64)
    } else {
        None
    }));
    if start >= s.len() {
        return None;
    }
    let mut acc: u64 = 0;
    let mut i: usize = start;
    while i < s.len()
        invariant
            start <= i <= s@.len(),
            start < s@.len(),
            ds == s@.skip(start as int),
            parse_u64_spec(s@) == (if ds.len() > 0 && all_digits(ds) && digits_value(ds) <= u64::MAX {
                Some(digits_value(ds) as u64)
            } else {
                None
            }),
            all_digits(ds.take(i - start)),
            acc == digits_value(ds.take(i - start)),
        decreases s@.len() - i,
    {
        let c = s[i];
        if !('0' <= c && c <= '9') {
            assert(ds[i - start] == c);
            assert(!all_digits(ds));
            return None;
        }
        let d: u64 = ((c as u32) - 48) as u64;
        assert(ds.take(i + 1 - start).drop_last() =~= ds.take(i - start));
        assert(ds.take(i + 1 - start).last() == c);
        if acc > (u64::MAX - d) / 10 {
            proof {
                assert(digits_value(ds.take(i + 1 - start)) > u64::MAX) by (nonlinear_arith)
                    requires
                        acc > (u64::MAX - d) / 10,
                        digits_value(ds.take(i + 1 - start)) == acc * 10 + d,
                        d <= 9,
                ;
                lemma_digits_value_prefix(ds, i + 1 - start);
            }
            return None;
        }
        proof {
            assert(acc * 10 + d <= u64::MAX) by (nonlinear_arith)
                requires
                    acc <= (u64::MAX - d) / 10,
                    d <= 9,
            ;
        }
        acc = acc * 10 + d;
        assert forall|j: int| 0 <= j < i + 1 - start implies is_digit(
            #[trigger] ds.take(i + 1 - start)[j],
        ) by {
            if j < i - start {
                assert(ds.take(i + 1 - start)[j] == ds.take(i - start)[j]);
            }
        }
        i = i + 1;
    }
    assert(ds.take(s@.len() - start) =~= ds);
    Some(acc)
}

/// Parses a signed decimal the way `i64::from_str` does.
pub fn parse_i64(s: &[char]) -> (res: Option<i64>)
    ensures
        res == parse_i64_spec(s@),
{
    let neg = s.len() > 0 && s[0] == '-';
    let start: usize = if s.len() > 0 && (s[0] == '+' || s[0] == '-') {
        1
    } else {
        0
    };
    let rest = slice_to_vec(s, start, s.len());
    proof {
        assert(rest@ =~= (if s@.len() > 0 && (s@[0] == '+' || s@[0] == '-') {
            s@.drop_first()
        } else {
            s@
        }));
    }
    if rest.len() == 0 || rest[0] == '+' {
        proof {
            if rest@.len() > 0 {
                assert(!is_digit(rest@[0]));
            }
        }
        return None;
    }
    let mag = parse_u64(rest.as_slice());
    match mag {
        None => {
            proof {
                if all_digits(rest@) {
                    assert(digits_value(rest@) > u64::MAX);
                }
            }
            None
        },
        Some(m) => {
            if neg {
                if m <= 9223372036854775808u64 {
                    if m == 9223372036854775808u64 {
                        Some(i64::MIN)
                    } else {
                        Some(-(m as i64))
                    }
                } else {
                    None
                }
            } else {
                if m <= 9223372036854775807u64 {
                    Some(m as i64)
                } else {
                    None
                }
            }
        },
    }
}

} // verus!
