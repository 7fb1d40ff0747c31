//! Redaction of links and credentials from text before it reaches the logs.
//!
//! Four patterns are redacted in turn, each scanned left to right with the leftmost
//! match taken and the scan resumed after it:
//!
//! | pattern                                    | replacement  |
//! |--------------------------------------------|--------------|
//! | `https?://` then non-space characters      | `[url]`      |
//! | `tg://` or `t.me/` then non-space chars    | `[url]`      |
//! | `bearer` (any case), space, token chars    | `[token]`    |
//! | `file_id` (any case), `=`/`:`/space, 20+ id chars | `[file_id]` |
//!
//! "Space" is Unicode white space. Token characters are ASCII letters and digits, `.`, `_`
//! and `-`; id characters the same without `.`. Because the two credential patterns match
//! letters without regard to case, their letter classes also take the two non-ASCII
//! characters that fold onto ASCII letters: U+017F (long s) and U+212A (Kelvin sign).
use vstd::prelude::*;
use crate::scan::{
    lemma_run_len_bound, prefixed_run, prefixed_run_at, run_len, run_len_exec, CharClass,
};
use crate::text::{
    ascii_lower, chars_of, has_prefix, is_white_space, lemma_occurs_at_skip, lower_ascii_char,
    matches_at, occurs_at,
    push_str, string_from_chars,
};

verus! {

/// The four redaction patterns, in the order they are applied.
#[derive(Debug, Clone, Copy, PartialEq, Eq, Structural)]
pub enum RedactPattern {
    HttpUrl,
    TelegramUrl,
    BearerToken,
    FileId,
}

/// `s` begins with the lowercase word `word`, compared without ASCII case.
pub open spec fn has_prefix_ignoring_case(s: Seq<char>, word: Seq<char>) -> bool {
    word.len() <= s.len() && forall|j: int| 0 <= j < word.len() ==> ascii_lower(#[trigger] s[j])
        == word[j]
}

/// The length of the match of pattern `p` at the start of `s`, if it matches there.
pub open spec fn match_len(p: RedactPattern, s: Seq<char>) -> Option<nat> {
    match p {
        RedactPattern::HttpUrl => if has_prefix(s, "http://"@) {
            prefixed_run(s, "http://"@, CharClass::NonSpace)
        } else {
            prefixed_run(s, "https://"@, CharClass::NonSpace)
        },
        RedactPattern::TelegramUrl => if has_prefix(s, "tg://"@) {
            prefixed_run(s, "tg://"@, CharClass::NonSpace)
        } else {
            prefixed_run(s, "t.me/"@, CharClass::NonSpace)
        },
        RedactPattern::BearerToken => {
            let ws = run_len(s.skip(6), CharClass::Space);
            let tok = run_len(s.skip(6 + ws as int), CharClass::TokenChar);
            if has_prefix_ignoring_case(s, "bearer"@) && ws > 0 && tok > 0 {
                Some(6 + ws + tok)
            } else {
                None
            }
        },
        RedactPattern::FileId => {
            let sep = run_len(s.skip(7), CharClass::IdSeparator);
            let id = run_len(s.skip(7 + sep as int), CharClass::IdChar);
            if has_prefix_ignoring_case(s, "file_id"@) && sep > 0 && id >= 20 {
                Some(7 + sep + id)
            } else {
                None
            }
        },
    }
}

/// The text that replaces a match of `p`.
pub open spec fn replacement(p: RedactPattern) -> Seq<char> {
    match p {
        RedactPattern::HttpUrl => "[url]"@,
        RedactPattern::TelegramUrl => "[url]"@,
        RedactPattern::BearerToken => "[token]"@,
        RedactPattern::FileId => "[file_id]"@,
    }
}

/// Every match of `p` in `s`, scanning left to right without overlap, replaced.
pub open spec fn redact(s: Seq<char>, p: RedactPattern) -> Seq<char>
    decreases s.len(),
{
    if s.len() == 0 {
        Seq::empty()
    } else {
        match match_len(p, s) {
            Some(l) => if 0 < l <= s.len() {
                replacement(p) + redact(s.skip(l as int), p)
            } else {
                seq![s[0]] + redact(s.drop_first(), p)
            },
            None => seq![s[0]] + redact(s.drop_first(), p),
        }
    }
}

/// The four redactions applied in turn.
pub open spec fn sanitize_spec(s: Seq<char>) -> Seq<char> {
    redact(
        redact(
            redact(redact(s, RedactPattern::HttpUrl), RedactPattern::TelegramUrl),
            RedactPattern::BearerToken,
        ),
        RedactPattern::FileId,
    )
}

/// No match of `p` starts anywhere in `s`.
pub open spec fn matches_nowhere(s: Seq<char>, p: RedactPattern) -> bool {
    forall|i: int| 0 <= i < s.len() ==> #[trigger] match_len(p, s.skip(i)) is None
}

// ---------------------------------------------------------------------------
// Lemmas
// ---------------------------------------------------------------------------

/// A match never runs past the end of the text, and is never empty.
pub proof fn lemma_match_len_bound(p: RedactPattern, s: Seq<char>)
    ensures
        match_len(p, s) matches Some(l) ==> 0 < l <= s.len(),
{
    reveal_strlit("http://");
    reveal_strlit("https://");
    reveal_strlit("tg://");
    reveal_strlit("t.me/");
    reveal_strlit("bearer");
    reveal_strlit("file_id");
    match p {
        RedactPattern::HttpUrl => {
            lemma_run_len_bound(s.skip(7), CharClass::NonSpace);
            lemma_run_len_bound(s.skip(8), CharClass::NonSpace);
        },
        RedactPattern::TelegramUrl => {
            lemma_run_len_bound(s.skip(5), CharClass::NonSpace);
        },
        RedactPattern::BearerToken => {
            if s.len() >= 6 {
                let ws = run_len(s.skip(6), CharClass::Space);
                lemma_run_len_bound(s.skip(6), CharClass::Space);
                lemma_run_len_bound(s.skip(6 + ws as int), CharClass::TokenChar);
            }
        },
        RedactPattern::FileId => {
            if s.len() >= 7 {
                let sep = run_len(s.skip(7), CharClass::IdSeparator);
                lemma_run_len_bound(s.skip(7), CharClass::IdSeparator);
                lemma_run_len_bound(s.skip(7 + sep as int), CharClass::IdChar);
            }
        },
    }
}

/// Text in which no match of `p` starts is left exactly as it is.
pub proof fn lemma_redact_without_match(s: Seq<char>, p: RedactPattern)
    requires
        matches_nowhere(s, p),
    ensures
        redact(s, p) == s,
    decreases s.len(),
{
    if s.len() > 0 {
        assert(s.skip(0) =~= s);
        assert(match_len(p, s.skip(0)) is None);
        assert forall|i: int| 0 <= i < s.drop_first().len() implies #[trigger] match_len(
            p,
            s.drop_first().skip(i),
        ) is None by {
            assert(s.drop_first().skip(i) =~= s.skip(i + 1));
            assert(match_len(p, s.skip(i + 1)) is None);
        }
        lemma_redact_without_match(s.drop_first(), p);
        assert(seq![s[0]] + s.drop_first() =~= s);
    }
}

/// Text in which none of the four patterns matches anywhere is logged unchanged.
pub proof fn lemma_sanitize_leaves_plain_text(s: Seq<char>)
    requires
        matches_nowhere(s, RedactPattern::HttpUrl),
        matches_nowhere(s, RedactPattern::TelegramUrl),
        matches_nowhere(s, RedactPattern::BearerToken),
        matches_nowhere(s, RedactPattern::FileId),
    ensures
        sanitize_spec(s) == s,
{
    lemma_redact_without_match(s, RedactPattern::HttpUrl);
    lemma_redact_without_match(s, RedactPattern::TelegramUrl);
    lemma_redact_without_match(s, RedactPattern::BearerToken);
    lemma_redact_without_match(s, RedactPattern::FileId);
}

// ---------------------------------------------------------------------------
// No link survives
// ---------------------------------------------------------------------------

/// `pre` occurs at `i` in `t` and a non-space character follows it: the start of a link
/// with that scheme or host prefix.
pub open spec fn link_at(t: Seq<char>, i: int, pre: Seq<char>) -> bool {
    occurs_at(t, i, pre) && i + pre.len() < t.len() && !is_white_space(t[i + pre.len()])
}

/// No link with the prefix `pre` starts anywhere in `t`.
pub open spec fn no_link(t: Seq<char>, pre: Seq<char>) -> bool {
    forall|i: int| !#[trigger] link_at(t, i, pre)
}

/// No occurrence of `pre` can start inside the replacement `r`, and `pre` holds no `r[0]`.
pub open spec fn apart(r: Seq<char>, pre: Seq<char>) -> bool {
    &&& pre.len() >= 2
    &&& r.len() >= 1
    &&& forall|j: int| 0 <= j < pre.len() ==> #[trigger] pre[j] != r[0]
    &&& forall|i: int| 0 <= i < r.len() ==> (#[trigger] r[i] != pre[0] || (i + 1 < r.len() && r[i + 1] != pre[1]))
}

proof fn lemma_link_at_skip(s: Seq<char>, l: int, i: int, pre: Seq<char>)
    requires
        0 <= l <= s.len(),
        0 <= i,
    ensures
        link_at(s.skip(l), i, pre) == link_at(s, i + l, pre),
{
    if i + pre.len() <= s.len() - l {
        assert(s.skip(l).subrange(i, i + pre.len()) =~= s.subrange(i + l, i + l + pre.len()));
    }
    if i + pre.len() < s.len() - l {
        assert(s.skip(l)[i + pre.len()] == s[i + l + pre.len()]);
    }
}

proof fn lemma_redact_step(s: Seq<char>, p: RedactPattern)
    requires
        s.len() > 0,
    ensures
        match match_len(p, s) {
            Some(l) => 0 < l <= s.len() && redact(s, p) == replacement(p) + redact(s.skip(l as int), p),
            None => redact(s, p) == seq![s[0]] + redact(s.drop_first(), p),
        },
{
    lemma_match_len_bound(p, s);
}

proof fn lemma_redact_plain_prefix(s: Seq<char>, p: RedactPattern, k: int)
    requires
        0 <= k <= s.len(),
        forall|j: int| 0 <= j < k ==> #[trigger] match_len(p, s.skip(j)) is None,
    ensures
        redact(s, p) == s.take(k) + redact(s.skip(k), p),
    decreases k,
{
    if k > 0 {
        assert(s.skip(0) =~= s);
        assert(match_len(p, s.skip(0)) is None);
        lemma_redact_step(s, p);
        assert forall|j: int| 0 <= j < k - 1 implies #[trigger] match_len(p, s.drop_first().skip(j))
            is None by {
            assert(s.drop_first().skip(j) =~= s.skip(j + 1));
            assert(match_len(p, s.skip(j + 1)) is None);
        }
        lemma_redact_plain_prefix(s.drop_first(), p, k - 1);
        assert(s.drop_first().skip(k - 1) =~= s.skip(k));
        assert(seq![s[0]] + s.drop_first().take(k - 1) =~= s.take(k));
        assert(seq![s[0]] + (s.drop_first().take(k - 1) + redact(s.skip(k), p)) =~= s.take(k)
            + redact(s.skip(k), p));
    } else {
        assert(s.take(0) + redact(s.skip(0), p) =~= redact(s, p)) by {
            assert(s.skip(0) =~= s);
        }
    }
}

proof fn first_match_from(s: Seq<char>, p: RedactPattern, a: int, b: int) -> (m: int)
    requires
        0 <= a <= b <= s.len(),
    ensures
        a <= m <= b,
        forall|j: int| a <= j < m ==> #[trigger] match_len(p, s.skip(j)) is None,
        m < b ==> match_len(p, s.skip(m)) is Some,
    decreases b - a,
{
    if a == b {
        a
    } else if match_len(p, s.skip(a)) is Some {
        a
    } else {
        first_match_from(s, p, a + 1, b)
    }
}

proof fn lemma_match_starts_nonspace(p: RedactPattern, s: Seq<char>)
    requires
        match_len(p, s) is Some,
    ensures
        s.len() > 0 && !is_white_space(s[0]),
{
    reveal_strlit("http://");
    reveal_strlit("https://");
    reveal_strlit("tg://");
    reveal_strlit("t.me/");
    reveal_strlit("bearer");
    reveal_strlit("file_id");
    match p {
        RedactPattern::HttpUrl => {
            if has_prefix(s, "http://"@) {
                assert(s.subrange(0, 7)[0] == s[0]);
            } else {
                assert(s.subrange(0, 8)[0] == s[0]);
            }
        },
        RedactPattern::TelegramUrl => {
            if has_prefix(s, "tg://"@) {
                assert(s.subrange(0, 5)[0] == s[0]);
            } else {
                assert(s.subrange(0, 5)[0] == s[0]);
            }
        },
        RedactPattern::BearerToken => {
            assert(ascii_lower(s[0]) == 'b');
        },
        RedactPattern::FileId => {
            assert(ascii_lower(s[0]) == 'f');
        },
    }
}

/// After redacting `p`, no link with prefix `pre` remains, provided every such link in
/// the input is where a match of `p` starts and the replacement cannot form one.
proof fn lemma_redact_leaves_no_link(s: Seq<char>, p: RedactPattern, pre: Seq<char>)
    requires
        apart(replacement(p), pre),
        forall|i: int| #[trigger] link_at(s, i, pre) ==> match_len(p, s.skip(i)) is Some,
    ensures
        no_link(redact(s, p), pre),
    decreases s.len(),
{
    let r = replacement(p);
    let o = redact(s, p);
    if s.len() == 0 {
        assert forall|i: int| !#[trigger] link_at(o, i, pre) by {}
    } else {
        lemma_redact_step(s, p);
        match match_len(p, s) {
            Some(l) => {
                let rest = s.skip(l as int);
                assert forall|i: int| #[trigger] link_at(rest, i, pre) implies match_len(
                    p,
                    rest.skip(i),
                ) is Some by {
                    lemma_link_at_skip(s, l as int, i, pre);
                    assert(rest.skip(i) =~= s.skip(i + l));
                }
                lemma_redact_leaves_no_link(rest, p, pre);
                let o2 = redact(rest, p);
                assert(o == r + o2);
                assert forall|i: int| !#[trigger] link_at(o, i, pre) by {
                    if link_at(o, i, pre) {
                        if i >= r.len() {
                            assert(o.skip(r.len() as int) =~= o2);
                            lemma_link_at_skip(o, r.len() as int, i - r.len(), pre);
                            assert(!link_at(o2, i - r.len(), pre));
                        } else {
                            assert(o.subrange(i, i + pre.len())[0] == o[i]);
                            assert(o.subrange(i, i + pre.len())[1] == o[i + 1]);
                            assert(o[i] == r[i]);
                            if i + 1 < r.len() {
                                assert(o[i + 1] == r[i + 1]);
                            }
                        }
                    }
                }
            },
            None => {
                let rest = s.drop_first();
                assert(rest =~= s.skip(1));
                assert forall|i: int| #[trigger] link_at(rest, i, pre) implies match_len(
                    p,
                    rest.skip(i),
                ) is Some by {
                    lemma_link_at_skip(s, 1, i, pre);
                    assert(rest.skip(i) =~= s.skip(i + 1));
                }
                lemma_redact_leaves_no_link(rest, p, pre);
                let o2 = redact(rest, p);
                assert(o == seq![s[0]] + o2);
                assert forall|i: int| !#[trigger] link_at(o, i, pre) by {
                    if link_at(o, i, pre) {
                        if i >= 1 {
                            assert(o.skip(1) =~= o2);
                            lemma_link_at_skip(o, 1, i - 1, pre);
                            assert(!link_at(o2, i - 1, pre));
                        } else {
                            lemma_link_at_start(s, p, pre);
                            assert(s.skip(0) =~= s);
                        }
                    }
                }
            },
        }
    }
}

/// A link at the start of the output of a step that kept `s[0]` was a link in `s`.
proof fn lemma_link_at_start(s: Seq<char>, p: RedactPattern, pre: Seq<char>)
    requires
        s.len() > 0,
        match_len(p, s) is None,
        apart(replacement(p), pre),
        link_at(seq![s[0]] + redact(s.drop_first(), p), 0, pre),
    ensures
        link_at(s, 0, pre),
{
    let r = replacement(p);
    let rest = s.drop_first();
    let o2 = redact(rest, p);
    let o = seq![s[0]] + o2;
    let k = pre.len() as int;
    let b = if k - 1 <= rest.len() { k - 1 } else { rest.len() as int };
    let m = first_match_from(rest, p, 0, b);
    lemma_redact_plain_prefix(rest, p, m);
    assert(o2 == rest.take(m) + redact(rest.skip(m), p));
    if m < b {
        lemma_redact_step(rest.skip(m), p);
        assert(o2[m] == r[0]);
        assert(o[m + 1] == o2[m]);
        assert(o.subrange(0, k)[m + 1] == o[m + 1]);
        assert(pre[m + 1] == r[0]);
    } else if b == k - 1 {
        let t = rest.skip(k - 1);
        assert(t =~= s.skip(k));
        assert(o.take(k) =~= s.take(k)) by {
            assert forall|j: int| 0 <= j < k implies o[j] == s[j] by {
                if j > 0 {
                    assert(o[j] == o2[j - 1]);
                    assert(o2[j - 1] == rest[j - 1]);
                }
            }
        }
        assert(s.subrange(0, k) =~= o.subrange(0, k));
        assert(o.len() > k);
        if t.len() == 0 {
            assert(redact(t, p) =~= Seq::<char>::empty());
            assert(o.len() == k);
        }
        lemma_redact_step(t, p);
        assert(o[k] == o2[k - 1]);
        assert(o2[k - 1] == redact(t, p)[0]);
        match match_len(p, t) {
            Some(_) => {
                lemma_match_starts_nonspace(p, t);
            },
            None => {},
        }
        assert(t[0] == s[k]);
    } else {
        assert(rest.skip(m).len() == 0);
        assert(redact(rest.skip(m), p) =~= Seq::<char>::empty());
        assert(o2 =~= rest.take(m));
        assert(o.len() == s.len());
    }
}

/// Matches of the link patterns are exactly links with their prefixes.
proof fn lemma_link_matches(t: Seq<char>, i: int)
    requires
        0 <= i <= t.len(),
    ensures
        (match_len(RedactPattern::HttpUrl, t.skip(i)) is Some) == (link_at(t, i, "http://"@)
            || link_at(t, i, "https://"@)),
        (match_len(RedactPattern::TelegramUrl, t.skip(i)) is Some) == (link_at(t, i, "tg://"@)
            || link_at(t, i, "t.me/"@)),
{
    reveal_strlit("http://");
    reveal_strlit("https://");
    reveal_strlit("tg://");
    reveal_strlit("t.me/");
    let u = t.skip(i);
    lemma_occurs_at_skip(t, i, "http://"@);
    lemma_occurs_at_skip(t, i, "https://"@);
    lemma_occurs_at_skip(t, i, "tg://"@);
    lemma_occurs_at_skip(t, i, "t.me/"@);
    assert forall|n: int| 0 <= n <= u.len() implies (run_len(u.skip(n), CharClass::NonSpace) > 0)
        == (n < u.len() && !is_white_space(u[n])) by {
        if n < u.len() {
            assert(u.skip(n)[0] == u[n]);
        }
    }
    if i + 7 <= t.len() {
        assert(u.skip(7).len() == u.len() - 7);
    }
    if has_prefix(u, "http://"@) && i + 8 <= t.len() {
        assert(u.subrange(0, 7)[4] == u[4]);
        assert(u.subrange(0, 8)[4] == u[4]);
        assert(!has_prefix(u, "https://"@));
    }
    if has_prefix(u, "tg://"@) && i + 5 <= t.len() {
        assert(u.subrange(0, 5)[1] == u[1]);
        assert(!has_prefix(u, "t.me/"@));
    }
    if i + 7 < t.len() {
        assert(u[7] == t[i + 7]);
    }
    if i + 8 < t.len() {
        assert(u[8] == t[i + 8]);
    }
    if i + 5 < t.len() {
        assert(u[5] == t[i + 5]);
    }
}

/// The link prefixes keep apart from the replacements.
proof fn lemma_replacements_apart(p: RedactPattern)
    ensures
        apart(replacement(p), "http://"@),
        apart(replacement(p), "https://"@),
        apart(replacement(p), "tg://"@),
        apart(replacement(p), "t.me/"@),
{
    reveal_strlit("http://");
    reveal_strlit("https://");
    reveal_strlit("tg://");
    reveal_strlit("t.me/");
    reveal_strlit("[url]");
    reveal_strlit("[token]");
    reveal_strlit("[file_id]");
}

/// After sanitizing, no link of the two link patterns is left anywhere in the text.
pub proof fn lemma_sanitize_leaves_no_link(s: Seq<char>)
    ensures
        matches_nowhere(sanitize_spec(s), RedactPattern::HttpUrl),
        matches_nowhere(sanitize_spec(s), RedactPattern::TelegramUrl),
{
    let h = redact(s, RedactPattern::HttpUrl);
    let t = redact(h, RedactPattern::TelegramUrl);
    let b = redact(t, RedactPattern::BearerToken);
    let f = redact(b, RedactPattern::FileId);
    lemma_replacements_apart(RedactPattern::HttpUrl);
    lemma_replacements_apart(RedactPattern::TelegramUrl);
    lemma_replacements_apart(RedactPattern::BearerToken);
    lemma_replacements_apart(RedactPattern::FileId);
    assert forall|i: int| #[trigger] link_at(s, i, "http://"@) implies match_len(
        RedactPattern::HttpUrl,
        s.skip(i),
    ) is Some by {
        lemma_link_matches(s, i);
    }
    assert forall|i: int| #[trigger] link_at(s, i, "https://"@) implies match_len(
        RedactPattern::HttpUrl,
        s.skip(i),
    ) is Some by {
        lemma_link_matches(s, i);
    }
    lemma_redact_leaves_no_link(s, RedactPattern::HttpUrl, "http://"@);
    lemma_redact_leaves_no_link(s, RedactPattern::HttpUrl, "https://"@);
    assert forall|i: int| #[trigger] link_at(h, i, "tg://"@) implies match_len(
        RedactPattern::TelegramUrl,
        h.skip(i),
    ) is Some by {
        lemma_link_matches(h, i);
    }
    assert forall|i: int| #[trigger] link_at(h, i, "t.me/"@) implies match_len(
        RedactPattern::TelegramUrl,
        h.skip(i),
    ) is Some by {
        lemma_link_matches(h, i);
    }
    lemma_redact_leaves_no_link(h, RedactPattern::TelegramUrl, "http://"@);
    lemma_redact_leaves_no_link(h, RedactPattern::TelegramUrl, "https://"@);
    lemma_redact_leaves_no_link(h, RedactPattern::TelegramUrl, "tg://"@);
    lemma_redact_leaves_no_link(h, RedactPattern::TelegramUrl, "t.me/"@);
    lemma_redact_leaves_no_link(t, RedactPattern::BearerToken, "http://"@);
    lemma_redact_leaves_no_link(t, RedactPattern::BearerToken, "https://"@);
    lemma_redact_leaves_no_link(t, RedactPattern::BearerToken, "tg://"@);
    lemma_redact_leaves_no_link(t, RedactPattern::BearerToken, "t.me/"@);
    lemma_redact_leaves_no_link(b, RedactPattern::FileId, "http://"@);
    lemma_redact_leaves_no_link(b, RedactPattern::FileId, "https://"@);
    lemma_redact_leaves_no_link(b, RedactPattern::FileId, "tg://"@);
    lemma_redact_leaves_no_link(b, RedactPattern::FileId, "t.me/"@);
    assert(f == sanitize_spec(s));
    assert forall|i: int| 0 <= i < f.len() implies #[trigger] match_len(
        RedactPattern::HttpUrl,
        f.skip(i),
    ) is None by {
        lemma_link_matches(f, i);
        assert(!link_at(f, i, "http://"@));
        assert(!link_at(f, i, "https://"@));
    }
    assert forall|i: int| 0 <= i < f.len() implies #[trigger] match_len(
        RedactPattern::TelegramUrl,
        f.skip(i),
    ) is None by {
        lemma_link_matches(f, i);
        assert(!link_at(f, i, "tg://"@));
        assert(!link_at(f, i, "t.me/"@));
    }
}

// ---------------------------------------------------------------------------
// Executable scanners
// ---------------------------------------------------------------------------

/// Whether the word `word` (lowercase) starts at `i`, ignoring ASCII case.
fn prefix_ignoring_case_at(s: &[char], i: usize, word: &str) -> (res: bool)
    requires
        i <= s@.len(),
    ensures
        res == has_prefix_ignoring_case(s@.skip(i as int), word@),
{
    let w = chars_of(word);
    let n = s.len();
    if w.len() > n - i {
        return false;
    }
    let mut k: usize = 0;
    while k < w.len()
        invariant
            n == s@.len(),
            i + w@.len() <= n,
            w@ == word@,
            k <= w@.len(),
            forall|j: int| 0 <= j < k ==> ascii_lower(s@.skip(i as int)[j]) == w@[j],
        decreases w@.len() - k,
    {
        if lower_ascii_char(s[i + k]) != w[k] {
            assert(s@.skip(i as int)[k as int] == s@[i + k]);
            return false;
        }
        assert(s@.skip(i as int)[k as int] == s@[i + k]);
        k = k + 1;
    }
    true
}

/// The match of `p` starting at position `i`, by its length.
fn match_len_at(s: &[char], i: usize, p: RedactPattern) -> (res: Option<usize>)
    requires
        i <= s@.len(),
    ensures
        match res {
            Some(l) => match_len(p, s@.skip(i as int)) == Some(l as nat) && 0 < l && i + l
                <= s@.len(),
            None => match_len(p, s@.skip(i as int)) is None,
        },
{
    let n = s.len();
    let ghost t = s@.skip(i as int);
    proof {
        lemma_match_len_bound(p, t);
    }
    match p {
        RedactPattern::HttpUrl => {
            let a = chars_of("http://");
            let is_http = matches_at(s, i, a.as_slice());
            proof {
                lemma_occurs_at_skip(s@, i as int, a@);
            }
            if is_http {
                prefixed_run_at(s, i, "http://", CharClass::NonSpace)
            } else {
                prefixed_run_at(s, i, "https://", CharClass::NonSpace)
            }
        },
        RedactPattern::TelegramUrl => {
            let a = chars_of("tg://");
            let is_tg = matches_at(s, i, a.as_slice());
            proof {
                lemma_occurs_at_skip(s@, i as int, a@);
            }
            if is_tg {
                prefixed_run_at(s, i, "tg://", CharClass::NonSpace)
            } else {
                prefixed_run_at(s, i, "t.me/", CharClass::NonSpace)
            }
        },
        RedactPattern::BearerToken => {
            if !prefix_ignoring_case_at(s, i, "bearer") {
                return None;
            }
            proof {
                reveal_strlit("bearer");
            }
            assert(t.skip(6) =~= s@.skip(i + 6));
            let ws = run_len_exec(s, i + 6, CharClass::Space);
            if ws == 0 {
                return None;
            }
            assert(t.skip(6 + ws) =~= s@.skip(i + 6 + ws));
            let tok = run_len_exec(s, i + 6 + ws, CharClass::TokenChar);
            if tok == 0 {
                return None;
            }
            Some(6 + ws + tok)
        },
        RedactPattern::FileId => {
            if !prefix_ignoring_case_at(s, i, "file_id") {
                return None;
            }
            proof {
                reveal_strlit("file_id");
            }
            assert(t.skip(7) =~= s@.skip(i + 7));
            let sep = run_len_exec(s, i + 7, CharClass::IdSeparator);
            if sep == 0 {
                return None;
            }
            assert(t.skip(7 + sep) =~= s@.skip(i + 7 + sep));
            let id = run_len_exec(s, i + 7 + sep, CharClass::IdChar);
            if id < 20 {
                return None;
            }
            Some(7 + sep + id)
        },
    }
}

/// Appends the replacement text of `p`.
fn push_replacement(out: &mut Vec<char>, p: RedactPattern)
    ensures
        final(out)@ == old(out)@ + replacement(p),
{
    match p {
        RedactPattern::HttpUrl => push_str(out, "[url]"),
        RedactPattern::TelegramUrl => push_str(out, "[url]"),
        RedactPattern::BearerToken => push_str(out, "[token]"),
        RedactPattern::FileId => push_str(out, "[file_id]"),
    }
}

/// Replaces every match of `p` in `s`, left to right.
pub fn redact_pattern(s: &[char], p: RedactPattern) -> (res: Vec<char>)
    ensures
        res@ == redact(s@, p),
{
    let n = s.len();
    let mut out: Vec<char> = Vec::new();
    let mut i: usize = 0;
    assert(s@.skip(0) =~= s@);
    while i < n
        invariant
            n == s@.len(),
            i <= n,
            out@ + redact(s@.skip(i as int), p) == redact(s@, p),
        decreases n - i,
    {
        let ghost t = s@.skip(i as int);
        match match_len_at(s, i, p) {
            Some(l) => {
                let ghost before = out@;
                push_replacement(&mut out, p);
                assert(t.skip(l as int) =~= s@.skip(i + l));
                assert(redact(t, p) == replacement(p) + redact(t.skip(l as int), p));
                assert(out@ + redact(s@.skip(i + l), p) =~= before + redact(t, p));
                i = i + l;
            },
            None => {
                let ghost before = out@;
                out.push(s[i]);
                assert(t.drop_first() =~= s@.skip(i + 1));
                assert(t[0] == s@[i as int]);
                assert(redact(t, p) == seq![t[0]] + redact(t.drop_first(), p));
                assert(out@ + redact(s@.skip(i + 1), p) =~= before + redact(t, p));
                i = i + 1;
            },
        }
    }
    assert(redact(s@.skip(n as int), p) =~= Seq::<char>::empty());
    assert(out@ =~= redact(s@, p));
    out
}

/// Redacts URLs, Telegram links, bearer tokens and Telegram file ids from `input`.
pub fn sanitize_for_log(input: &str) -> (res: String)
    ensures
        res@ == sanitize_spec(input@),
{
    let s0 = chars_of(input);
    let s1 = redact_pattern(s0.as_slice(), RedactPattern::HttpUrl);
    let s2 = redact_pattern(s1.as_slice(), RedactPattern::TelegramUrl);
    let s3 = redact_pattern(s2.as_slice(), RedactPattern::BearerToken);
    let s4 = redact_pattern(s3.as_slice(), RedactPattern::FileId);
    string_from_chars(s4.as_slice())
}

} // verus!
