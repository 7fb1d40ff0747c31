//! Character classes, runs and literal prefixes: the building blocks of the text scanners.
use vstd::prelude::*;
use crate::text::{
    chars_of, has_prefix, is_ascii_alnum, is_white_space, lemma_occurs_at_skip, matches_at,
    white_space,
};

verus! {

/// The character classes the patterns repeat.
#[derive(Debug, Clone, Copy, PartialEq, Eq, Structural)]
pub enum CharClass {
    /// Anything but white space.
    NonSpace,
    /// White space.
    Space,
    /// Characters of a bearer token.
    TokenChar,
    /// Characters of a Telegram file id.
    IdChar,
    /// Separators between `file_id` and the id: `=`, `:` or white space.
    IdSeparator,
    /// Characters of a link in a message: anything but white space, `<` and `>`.
    LinkChar,
}

/// ASCII letters and digits, widened by the case-insensitive letter folds.
pub open spec fn is_folded_alnum(c: char) -> bool {
    is_ascii_alnum(c) || c == '\u{17f}' || c == '\u{212a}'
}

/// Membership of a character in a class.
pub open spec fn in_class(c: char, k: CharClass) -> bool {
    match k {
        CharClass::NonSpace => !is_white_space(c),
        CharClass::Space => is_white_space(c),
        CharClass::TokenChar => is_folded_alnum(c) || c == '.' || c == '_' || c == '-',
        CharClass::IdChar => is_folded_alnum(c) || c == '_' || c == '-',
        CharClass::IdSeparator => c == '=' || c == ':' || is_white_space(c),
        CharClass::LinkChar => !is_white_space(c) && c != '<' && c != '>',
    }
}

/// The length of the longest prefix of `s` made of characters of class `k`.
pub open spec fn run_len(s: Seq<char>, k: CharClass) -> nat
    decreases s.len(),
{
    if s.len() > 0 && in_class(s[0], k) {
        1 + run_len(s.drop_first(), k)
    } else {
        0
    }
}

/// A literal prefix followed by a non-empty run of class `k`.
pub open spec fn prefixed_run(s: Seq<char>, prefix: Seq<char>, k: CharClass) -> Option<nat> {
    if has_prefix(s, prefix) && run_len(s.skip(prefix.len() as int), k) > 0 {
        Some(prefix.len() + run_len(s.skip(prefix.len() as int), k))
    } else {
        None
    }
}

pub proof fn lemma_run_len_bound(s: Seq<char>, k: CharClass)
    ensures
        run_len(s, k) <= s.len(),
    decreases s.len(),
{
    if s.len() > 0 && in_class(s[0], k) {
        lemma_run_len_bound(s.drop_first(), k);
    }
}

/// Whether `c` belongs to class `k`.
pub fn in_class_exec(c: char, k: CharClass) -> (res: bool)
    ensures
        res == in_class(c, k),
{
    let alnum = ('0' <= c && c <= '9') || ('A' <= c && c <= 'Z') || ('a' <= c && c <= 'z') || c
        == '\u{17f}' || c == '\u{212a}';
    match k {
        CharClass::NonSpace => !white_space(c),
        CharClass::Space => white_space(c),
        CharClass::TokenChar => alnum || c == '.' || c == '_' || c == '-',
        CharClass::IdChar => alnum || c == '_' || c == '-',
        CharClass::IdSeparator => c == '=' || c == ':' || white_space(c),
        CharClass::LinkChar => !white_space(c) && c != '<' && c != '>',
    }
}

/// Length of the run of class `k` starting at `from`.
pub fn run_len_exec(s: &[char], from: usize, k: CharClass) -> (res: usize)
    requires
        from <= s@.len(),
    ensures
        res == run_len(s@.skip(from as int), k),
        from + res <= s@.len(),
{
    let n = s.len();
    let mut j: usize = from;
    while j < n && in_class_exec(s[j], k)
        invariant
            n == s@.len(),
            from <= j <= n,
            run_len(s@.skip(from as int), k) == (j - from) + run_len(s@.skip(j as int), k),
        decreases n - j,
    {
        assert(s@.skip(j as int).drop_first() =~= s@.skip(j + 1));
        j = j + 1;
    }
    assert(run_len(s@.skip(j as int), k) == 0) by {
        if j < n {
            assert(s@.skip(j as int)[0] == s@[j as int]);
        }
    }
    j - from
}

/// A literal prefix at `i` followed by a non-empty run of class `k`.
pub fn prefixed_run_at(s: &[char], i: usize, prefix: &str, k: CharClass) -> (res: Option<usize>)
    requires
        i <= s@.len(),
    ensures
        match res {
            Some(l) => prefixed_run(s@.skip(i as int), prefix@, k) == Some(l as nat) && i + l
                <= s@.len(),
            None => prefixed_run(s@.skip(i as int), prefix@, k) is None,
        },
{
    let n = s.len();
    let p = chars_of(prefix);
    let hit = matches_at(s, i, p.as_slice());
    proof {
        lemma_occurs_at_skip(s@, i as int, p@);
    }
    if !hit {
        return None;
    }
    let after = i + p.len();
    let r = run_len_exec(s, after, k);
    assert(s@.skip(i as int).skip(p@.len() as int) =~= s@.skip(after as int));
    if r == 0 {
        None
    } else {
        Some(p.len() + r)
    }
}

} // verus!
