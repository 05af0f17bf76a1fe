//! The lexer turns the input into tokens, one call at a time. The parser
//! needs to backtrack, so lexing can start from any position.
//!
//! Matching priority at each position: a run of whitespace, a control space,
//! a verbatim run, a control word with its trailing whitespace, a control
//! symbol, and finally a normal character together with its combining marks.
//! Anything else is a lexing error. A single-character token whose character
//! has the comment category code swallows the rest of the line and the lexer
//! goes on with the next token.
//!
//! All positions count characters of the input. The specification functions
//! in this module mirror each matcher over the input's character sequence,
//! and `lex_from` ties a whole `lex` call, comment skipping included, to one
//! mathematical result.

use crate::types::tokens::{Token, TokenText};
use crate::types::{ParseError, ParseErrorKind, Settings, SourceLocation, StrictSetting};
use std::sync::Arc;
use vstd::prelude::*;

verus! {

// ---------------------------------------------------------------------------
// Character classes
// ---------------------------------------------------------------------------
/// ASCII horizontal or vertical whitespace.
pub open spec fn is_space_char(c: char) -> bool {
    c == ' ' || c == '\t' || c == '\r' || c == '\n'
}

/// ASCII horizontal whitespace.
pub open spec fn is_hspace_char(c: char) -> bool {
    c == ' ' || c == '\t' || c == '\r'
}

/// A Unicode combining diacritical mark.
pub open spec fn is_combining_mark_char(c: char) -> bool {
    0x0300 <= (c as u32) && (c as u32) <= 0x036F
}

/// A character allowed in a control word.
pub open spec fn is_letter_or_at_char(c: char) -> bool {
    ('A' <= c && c <= 'Z') || ('a' <= c && c <= 'z') || c == '@'
}

/// An ASCII letter.
pub open spec fn is_ascii_alpha_char(c: char) -> bool {
    ('A' <= c && c <= 'Z') || ('a' <= c && c <= 'z')
}

/// A printable character that may start a normal token.
pub open spec fn is_normal_start_char(c: char) -> bool {
    let u = c as u32;
    (0x0021 <= u && u <= 0x005B) || (0x005D <= u && u <= 0x2027) || (0x202A <= u && u <= 0xD7FF)
        || 0xF900 <= u
}

/// Whitespace test used by the matchers.
pub fn is_ascii_space(c: char) -> (r: bool)
    ensures
        r == is_space_char(c),
{
    c == ' ' || c == '\t' || c == '\r' || c == '\n'
}

/// Horizontal whitespace test used by the matchers.
pub fn is_hspace(c: char) -> (r: bool)
    ensures
        r == is_hspace_char(c),
{
    c == ' ' || c == '\t' || c == '\r'
}

/// Combining-mark test used by the matchers.
pub fn is_combining_mark(c: char) -> (r: bool)
    ensures
        r == is_combining_mark_char(c),
{
    let u = c as u32;
    0x0300 <= u && u <= 0x036F
}

/// Control-word character test used by the matchers.
pub fn is_ascii_alpha_or_at(c: char) -> (r: bool)
    ensures
        r == is_letter_or_at_char(c),
{
    ('A' <= c && c <= 'Z') || ('a' <= c && c <= 'z') || c == '@'
}

fn is_ascii_alpha(c: char) -> (r: bool)
    ensures
        r == is_ascii_alpha_char(c),
{
    ('A' <= c && c <= 'Z') || ('a' <= c && c <= 'z')
}

fn is_normal_start(c: char) -> (r: bool)
    ensures
        r == is_normal_start_char(c),
{
    let u = c as u32;
    (0x0021 <= u && u <= 0x005B) || (0x005D <= u && u <= 0x2027) || (0x202A <= u && u <= 0xD7FF)
        || 0xF900 <= u
}

// ---------------------------------------------------------------------------
// Runs of characters
// ---------------------------------------------------------------------------
/// Length of the run of characters satisfying `pred` starting at `from`.
pub open spec fn run_len(s: Seq<char>, from: int, pred: spec_fn(char) -> bool) -> int
    decreases s.len() - from,
{
    if from < 0 || from >= s.len() || !pred(s[from]) {
        0
    } else {
        1 + run_len(s, from + 1, pred)
    }
}

/// A run length is never negative and never reaches past the end.
pub broadcast proof fn lemma_run_len_bounds(s: Seq<char>, from: int, pred: spec_fn(char) -> bool)
    ensures
        0 <= #[trigger] run_len(s, from, pred),
        0 <= from <= s.len() ==> from + run_len(s, from, pred) <= s.len(),
    decreases s.len() - from,
{
    if !(from < 0 || from >= s.len() || !pred(s[from])) {
        lemma_run_len_bounds(s, from + 1, pred);
    }
}

/// One unfolding of [`run_len`], as an ambient equation.
pub broadcast proof fn lemma_run_len_step(s: Seq<char>, from: int, pred: spec_fn(char) -> bool)
    ensures
        #[trigger] run_len(s, from, pred) == if from < 0 || from >= s.len() || !pred(s[from]) {
            0
        } else {
            1 + run_len(s, from + 1, pred)
        },
{
}

/// Length of the whitespace run starting at `from`.
pub open spec fn space_run(s: Seq<char>, from: int) -> int {
    run_len(s, from, |c: char| is_space_char(c))
}

/// Length of the horizontal-whitespace run starting at `from`.
pub open spec fn hspace_run(s: Seq<char>, from: int) -> int {
    run_len(s, from, |c: char| is_hspace_char(c))
}

/// Length of the control-word-character run starting at `from`.
pub open spec fn letter_run(s: Seq<char>, from: int) -> int {
    run_len(s, from, |c: char| is_letter_or_at_char(c))
}

/// Length of the combining-mark run starting at `from`.
pub open spec fn mark_run(s: Seq<char>, from: int) -> int {
    run_len(s, from, |c: char| is_combining_mark_char(c))
}

/// The run of word characters from `from` is exactly `n` long when they are
/// word characters and the run is maximal.
pub proof fn lemma_letter_run_is(s: Seq<char>, from: int, n: int)
    requires
        0 <= from,
        0 <= n,
        from + n <= s.len(),
        forall|j: int| from <= j < from + n ==> is_letter_or_at_char(s[j]),
        from + n == s.len() || !is_letter_or_at_char(s[from + n]),
    ensures
        letter_run(s, from) == n,
    decreases n,
{
    broadcast use lemma_run_len_step;

    if n > 0 {
        lemma_letter_run_is(s, from + 1, n - 1);
    }
}

/// The run of whitespace from `from` is exactly `n` long when it is
/// whitespace and the run is maximal.
pub proof fn lemma_space_run_is(s: Seq<char>, from: int, n: int)
    requires
        0 <= from,
        0 <= n,
        from + n <= s.len(),
        forall|j: int| from <= j < from + n ==> is_space_char(s[j]),
        from + n == s.len() || !is_space_char(s[from + n]),
    ensures
        space_run(s, from) == n,
    decreases n,
{
    broadcast use lemma_run_len_step;

    if n > 0 {
        lemma_space_run_is(s, from + 1, n - 1);
    }
}

fn scan_space(s: &str, from: usize) -> (r: usize)
    requires
        from <= s@.len(),
    ensures
        r == space_run(s@, from as int),
        from + r <= s@.len(),
{
    let len = s.unicode_len();
    let mut i = from;
    while i < len && is_ascii_space(s.get_char(i))
        invariant
            from <= i <= len,
            len == s@.len(),
            space_run(s@, from as int) == i - from + space_run(s@, i as int),
        decreases len - i,
    {
        i = i + 1;
    }
    i - from
}

fn scan_hspace(s: &str, from: usize) -> (r: usize)
    requires
        from <= s@.len(),
    ensures
        r == hspace_run(s@, from as int),
        from + r <= s@.len(),
{
    let len = s.unicode_len();
    let mut i = from;
    while i < len && is_hspace(s.get_char(i))
        invariant
            from <= i <= len,
            len == s@.len(),
            hspace_run(s@, from as int) == i - from + hspace_run(s@, i as int),
        decreases len - i,
    {
        i = i + 1;
    }
    i - from
}

fn scan_letters(s: &str, from: usize) -> (r: usize)
    requires
        from <= s@.len(),
    ensures
        r == letter_run(s@, from as int),
        from + r <= s@.len(),
{
    let len = s.unicode_len();
    let mut i = from;
    while i < len && is_ascii_alpha_or_at(s.get_char(i))
        invariant
            from <= i <= len,
            len == s@.len(),
            letter_run(s@, from as int) == i - from + letter_run(s@, i as int),
        decreases len - i,
    {
        i = i + 1;
    }
    i - from
}

fn scan_marks(s: &str, from: usize) -> (r: usize)
    requires
        from <= s@.len(),
    ensures
        r == mark_run(s@, from as int),
        from + r <= s@.len(),
{
    let len = s.unicode_len();
    let mut i = from;
    while i < len && is_combining_mark(s.get_char(i))
        invariant
            from <= i <= len,
            len == s@.len(),
            mark_run(s@, from as int) == i - from + mark_run(s@, i as int),
        decreases len - i,
    {
        i = i + 1;
    }
    i - from
}

// ---------------------------------------------------------------------------
// Matchers
// ---------------------------------------------------------------------------
/// Position where the trailing combining-mark run of `s` begins, or `None`
/// when `s` does not end in combining marks.
pub fn last_non_combining_mark_index(s: &str) -> (r: Option<usize>)
    ensures
        match r {
            None => s@.len() == 0 || !is_combining_mark_char(s@[s@.len() - 1]),
            Some(t) => t < s@.len() && (forall|j: int|
                t <= j < s@.len() ==> is_combining_mark_char(s@[j])) && (t == 0
                || !is_combining_mark_char(s@[t - 1])),
        },
{
    let len = s.unicode_len();
    let mut i = len;
    while i > 0 && is_combining_mark(s.get_char(i - 1))
        invariant
            i <= len,
            len == s@.len(),
            forall|j: int| i <= j < len ==> is_combining_mark_char(s@[j]),
        decreases i,
    {
        i = i - 1;
    }
    if i == len {
        None
    } else {
        Some(i)
    }
}

/// What `match_space` finds: the leading whitespace run, when there is one.
pub open spec fn space_match_spec(s: Seq<char>) -> Option<int> {
    if space_run(s, 0) > 0 {
        Some(space_run(s, 0))
    } else {
        None
    }
}

/// Matches the leading whitespace run of `s`.
pub fn match_space(s: &str) -> (r: Option<usize>)
    ensures
        r is Some <==> space_match_spec(s@) is Some,
        r matches Some(l) ==> space_match_spec(s@) == Some(l as int) && 1 <= l <= s@.len(),
{
    let l = scan_space(s, 0);
    if l > 0 {
        Some(l)
    } else {
        None
    }
}

/// What a control space consumes after the backslash: a newline, or
/// horizontal whitespace with at most one newline inside, with trailing
/// horizontal whitespace swallowed.
pub open spec fn control_space_spec(rest: Seq<char>) -> Option<int> {
    if rest.len() == 0 {
        None
    } else if rest[0] == '\n' {
        Some(1 + hspace_run(rest, 1))
    } else if is_hspace_char(rest[0]) {
        let h = 1 + hspace_run(rest, 1);
        let core = if h < rest.len() && rest[h] == '\n' {
            h + 1
        } else {
            h
        };
        Some(core + hspace_run(rest, core))
    } else {
        None
    }
}

/// Matches a control space in the input just after a backslash.
pub fn match_control_space_after_bs(rest: &str) -> (r: Option<usize>)
    ensures
        r is Some <==> control_space_spec(rest@) is Some,
        r matches Some(l) ==> control_space_spec(rest@) == Some(l as int) && 1 <= l <= rest@.len(),
{
    let len = rest.unicode_len();
    if len == 0 {
        return None;
    }
    let b1 = rest.get_char(0);
    let core: usize;
    if b1 == '\n' {
        core = 1;
    } else if is_hspace(b1) {
        let h = 1 + scan_hspace(rest, 1);
        if h < len && rest.get_char(h) == '\n' {
            core = h + 1;
        } else {
            core = h;
        }
    } else {
        return None;
    }
    let total = core + scan_hspace(rest, core);
    Some(total)
}

/// Index just past the matching delimiter, scanning from `i`; `None` when a
/// line break or the end of the input comes first.
pub open spec fn verb_scan(rest: Seq<char>, delim: char, i: int) -> Option<int>
    decreases rest.len() - i,
{
    if i < 0 || i >= rest.len() {
        None
    } else if rest[i] == '\n' || rest[i] == '\r' {
        None
    } else if rest[i] == delim {
        Some(i + 1)
    } else {
        verb_scan(rest, delim, i + 1)
    }
}

/// What a verbatim run consumes after the backslash: the word `verb`, an
/// optional star, a delimiter that must not be a letter in the unstarred
/// form, and everything up to the matching delimiter on the same line.
pub open spec fn verb_spec(rest: Seq<char>) -> Option<(int, bool)> {
    if rest.len() >= 4 && rest[0] == 'v' && rest[1] == 'e' && rest[2] == 'r' && rest[3] == 'b' {
        let star = rest.len() > 4 && rest[4] == '*';
        let prefix: int = if star {
            5
        } else {
            4
        };
        if prefix >= rest.len() {
            None
        } else {
            let delim = rest[prefix];
            if !star && is_ascii_alpha_char(delim) {
                None
            } else {
                match verb_scan(rest, delim, prefix + 1) {
                    Some(end) => Some((end, star)),
                    None => None,
                }
            }
        }
    } else {
        None
    }
}

/// Matches a verbatim run in the input just after a backslash.
pub fn match_verb_after_bs(rest: &str) -> (r: Option<(usize, bool)>)
    ensures
        r is Some <==> verb_spec(rest@) is Some,
        r matches Some((l, star)) ==> verb_spec(rest@) == Some((l as int, star)) && 1 <= l
            <= rest@.len(),
{
    let len = rest.unicode_len();
    if len < 4 {
        return None;
    }
    if !(rest.get_char(0) == 'v' && rest.get_char(1) == 'e' && rest.get_char(2) == 'r'
        && rest.get_char(3) == 'b') {
        return None;
    }
    let star = len > 4 && rest.get_char(4) == '*';
    let prefix: usize = if star {
        5
    } else {
        4
    };
    if prefix >= len {
        return None;
    }
    let delim = rest.get_char(prefix);
    if !star && is_ascii_alpha(delim) {
        return None;
    }
    let mut i = prefix + 1;
    while i < len
        invariant
            prefix + 1 <= i <= len,
            len == rest@.len(),
            verb_spec(rest@) == (match verb_scan(rest@, delim, prefix + 1 as int) {
                Some(end) => Some((end, star)),
                None => None::<(int, bool)>,
            }),
            verb_scan(rest@, delim, prefix + 1 as int) == verb_scan(rest@, delim, i as int),
        decreases len - i,
    {
        let c = rest.get_char(i);
        if c == '\n' || c == '\r' {
            return None;
        }
        if c == delim {
            return Some((i + 1, star));
        }
        i = i + 1;
    }
    None
}

/// What a control word consumes after the backslash: the run of word
/// characters and the run of whitespace after them.
pub open spec fn control_word_spec(rest: Seq<char>) -> Option<(int, int)> {
    let n = letter_run(rest, 0);
    if n == 0 {
        None
    } else {
        Some((n, space_run(rest, n)))
    }
}

/// Matches a control word and its trailing whitespace just after a backslash.
pub fn match_control_word_with_space_after_bs(rest: &str) -> (r: Option<(usize, usize)>)
    ensures
        r is Some <==> control_word_spec(rest@) is Some,
        r matches Some((n, ws)) ==> control_word_spec(rest@) == Some((n as int, ws as int)) && 1
            <= n && n + ws <= rest@.len(),
{
    let n = scan_letters(rest, 0);
    if n == 0 {
        return None;
    }
    let ws = scan_space(rest, n);
    Some((n, ws))
}

/// What a control symbol consumes after the backslash: one character.
pub open spec fn control_symbol_spec(rest: Seq<char>) -> Option<int> {
    if rest.len() == 0 {
        None
    } else {
        Some(1)
    }
}

/// Matches a control symbol just after a backslash. Every character can be a
/// control symbol: surrogates cannot occur in a character sequence.
pub fn match_control_symbol_after_bs(rest: &str) -> (r: Option<usize>)
    ensures
        r is Some <==> control_symbol_spec(rest@) is Some,
        r matches Some(l) ==> control_symbol_spec(rest@) == Some(l as int) && l == 1
            && rest@.len() >= 1,
{
    if rest.is_empty() {
        None
    } else {
        Some(1)
    }
}

/// What a normal token consumes: one printable character and the run of
/// combining marks after it.
pub open spec fn normal_spec(s: Seq<char>) -> Option<int> {
    if s.len() > 0 && is_normal_start_char(s[0]) {
        Some(1 + mark_run(s, 1))
    } else {
        None
    }
}

/// Matches a normal character and its combining marks.
pub fn match_normal_char_with_accents(s: &str) -> (r: Option<usize>)
    ensures
        r is Some <==> normal_spec(s@) is Some,
        r matches Some(l) ==> normal_spec(s@) == Some(l as int) && 1 <= l <= s@.len(),
{
    let len = s.unicode_len();
    if len == 0 {
        return None;
    }
    let first = s.get_char(0);
    if is_normal_start(first) {
        Some(1 + scan_marks(s, 1))
    } else {
        None
    }
}

// ---------------------------------------------------------------------------
// The combined matcher
// ---------------------------------------------------------------------------
/// The lexical rule that fired at the front of the remaining input.
#[derive(Clone, Copy, Debug, PartialEq, Eq, Structural)]
pub enum BranchKind {
    /// No rule matched: a lexing error.
    Unknown,
    /// A run of whitespace.
    Space,
    /// A control space.
    ControlSpace,
    /// A printable character with its combining marks.
    NormalWithAccents,
    /// A starred verbatim run.
    VerbStar,
    /// A verbatim run.
    Verb,
    /// A control word with its trailing whitespace.
    ControlWordWhitespace,
    /// A control symbol.
    ControlSymbol,
}

/// What one application of the matcher consumed.
#[derive(Clone, Copy, Debug, PartialEq, Eq, Structural)]
pub struct TokenMatch {
    /// Which rule fired.
    pub branch: BranchKind,
    /// How many characters were consumed.
    pub mlen: usize,
    /// How many trailing characters are excluded from the token text.
    pub skip: usize,
}

/// The rule that fires on `s` with the characters consumed and excluded,
/// in the matchers' priority order.
pub open spec fn match_spec(s: Seq<char>) -> (BranchKind, int, int) {
    if s.len() == 0 {
        (BranchKind::Unknown, 0, 0)
    } else if space_run(s, 0) > 0 {
        (BranchKind::Space, space_run(s, 0), 0)
    } else if s[0] == '\\' {
        let rest = s.skip(1);
        if control_space_spec(rest) is Some {
            (BranchKind::ControlSpace, 1 + control_space_spec(rest)->Some_0, 0)
        } else if verb_spec(rest) is Some {
            let (l, star) = verb_spec(rest)->Some_0;
            (
                if star {
                    BranchKind::VerbStar
                } else {
                    BranchKind::Verb
                },
                1 + l,
                0,
            )
        } else if control_word_spec(rest) is Some {
            let (n, ws) = control_word_spec(rest)->Some_0;
            (BranchKind::ControlWordWhitespace, 1 + n + ws, ws)
        } else if control_symbol_spec(rest) is Some {
            (BranchKind::ControlSymbol, 1 + control_symbol_spec(rest)->Some_0, 0)
        } else {
            (BranchKind::Unknown, 1, 0)
        }
    } else if normal_spec(s) is Some {
        (BranchKind::NormalWithAccents, normal_spec(s)->Some_0, 0)
    } else {
        (BranchKind::Unknown, 1, 0)
    }
}

/// Applies the matchers to the nonempty remaining input `slice` and advances
/// `last_index` past what was consumed.
pub fn exec(last_index: &mut usize, slice: &str) -> (r: TokenMatch)
    requires
        slice@.len() > 0,
        *old(last_index) + slice@.len() <= usize::MAX,
    ensures
        (r.branch, r.mlen as int, r.skip as int) == match_spec(slice@),
        1 <= r.mlen <= slice@.len(),
        r.skip <= r.mlen,
        *final(last_index) == *old(last_index) + r.mlen,
{
    broadcast use lemma_run_len_bounds;

    let first = slice.get_char(0);
    if is_ascii_space(first) {
        if let Some(l) = match_space(slice) {
            *last_index = *last_index + l;
            return TokenMatch { branch: BranchKind::Space, mlen: l, skip: 0 };
        }
    }
    if first == '\\' {
        let len = slice.unicode_len();
        let rest = slice.substring_char(1, len);
        proof {
            assert(rest@ =~= slice@.skip(1));
        }
        if let Some(l) = match_control_space_after_bs(rest) {
            let m = 1 + l;
            *last_index = *last_index + m;
            return TokenMatch { branch: BranchKind::ControlSpace, mlen: m, skip: 0 };
        }
        if let Some((l, star)) = match_verb_after_bs(rest) {
            let m = 1 + l;
            *last_index = *last_index + m;
            return TokenMatch {
                branch: if star {
                    BranchKind::VerbStar
                } else {
                    BranchKind::Verb
                },
                mlen: m,
                skip: 0,
            };
        }
        if let Some((l, s)) = match_control_word_with_space_after_bs(rest) {
            let m = 1 + l + s;
            *last_index = *last_index + m;
            return TokenMatch { branch: BranchKind::ControlWordWhitespace, mlen: m, skip: s };
        }
        if let Some(l) = match_control_symbol_after_bs(rest) {
            let m = 1 + l;
            *last_index = *last_index + m;
            return TokenMatch { branch: BranchKind::ControlSymbol, mlen: m, skip: 0 };
        }
    }
    if let Some(l) = match_normal_char_with_accents(slice) {
        *last_index = *last_index + l;
        return TokenMatch { branch: BranchKind::NormalWithAccents, mlen: l, skip: 0 };
    }
    *last_index = *last_index + 1;
    TokenMatch { branch: BranchKind::Unknown, mlen: 1, skip: 0 }
}

// ---------------------------------------------------------------------------
// Category codes
// ---------------------------------------------------------------------------
/// The category code an association list assigns to `c`: its first entry for
/// `c`, if any.
pub open spec fn cat_lookup(cats: Seq<(char, u8)>, c: char) -> Option<u8>
    decreases cats.len(),
{
    if cats.len() == 0 {
        None
    } else if cats[0].0 == c {
        Some(cats[0].1)
    } else {
        cat_lookup(cats.skip(1), c)
    }
}

proof fn lemma_cat_lookup_update(s: Seq<(char, u8)>, j: int, c: char, code: u8, d: char)
    requires
        0 <= j < s.len(),
        s[j].0 == c,
        forall|k: int| 0 <= k < j ==> s[k].0 != c,
    ensures
        cat_lookup(s.update(j, (c, code)), d) == (if d == c {
            Some(code)
        } else {
            cat_lookup(s, d)
        }),
    decreases j,
{
    let t = s.update(j, (c, code));
    if j == 0 {
        if d != c {
            assert(t.skip(1) =~= s.skip(1));
        }
    } else {
        assert(t[0] == s[0]);
        if d != s[0].0 {
            lemma_cat_lookup_update(s.skip(1), j - 1, c, code, d);
            assert(t.skip(1) =~= s.skip(1).update(j - 1, (c, code)));
        }
    }
}

proof fn lemma_cat_lookup_push(s: Seq<(char, u8)>, c: char, code: u8, d: char)
    requires
        forall|k: int| 0 <= k < s.len() ==> s[k].0 != c,
    ensures
        cat_lookup(s.push((c, code)), d) == (if d == c {
            Some(code)
        } else {
            cat_lookup(s, d)
        }),
    decreases s.len(),
{
    let t = s.push((c, code));
    if s.len() == 0 {
        assert(t[0] == (c, code));
        assert(t.skip(1) =~= Seq::<(char, u8)>::empty());
        assert(cat_lookup(Seq::<(char, u8)>::empty(), d) is None);
        if d == c {
            assert(cat_lookup(t, d) == Some(code));
        } else {
            assert(cat_lookup(t, d) == cat_lookup(t.skip(1), d));
        }
    } else {
        assert(t[0] == s[0]);
        if d != s[0].0 {
            lemma_cat_lookup_push(s.skip(1), c, code, d);
            assert(t.skip(1) =~= s.skip(1).push((c, code)));
            assert(cat_lookup(t, d) == cat_lookup(t.skip(1), d));
            assert(cat_lookup(s, d) == cat_lookup(s.skip(1), d));
        }
    }
}

proof fn lemma_cat_lookup_skip_step(cats: Seq<(char, u8)>, i: int, d: char)
    requires
        0 <= i < cats.len(),
        cats[i].0 != d,
    ensures
        cat_lookup(cats.skip(i), d) == cat_lookup(cats.skip(i + 1), d),
{
    assert(cats.skip(i)[0] == cats[i]);
    assert(cats.skip(i).skip(1) =~= cats.skip(i + 1));
}

// ---------------------------------------------------------------------------
// The lexer
// ---------------------------------------------------------------------------
/// The steps a `lex` call can take at one position.
pub enum LexStep {
    /// The end of the input: the end-of-input token is emitted at `pos`.
    Eof {
        /// Where the token is located.
        pos: int,
    },
    /// No rule matched: an unexpected-character error.
    Error {
        /// The offending character.
        character: Seq<char>,
        /// Start of the error span.
        start: int,
        /// End of the error span.
        end: int,
    },
    /// A token is emitted.
    Token {
        /// The token's text.
        text: Seq<char>,
        /// Start of the token's span.
        start: int,
        /// End of the token's span; lexing continues there.
        end: int,
    },
    /// A comment: lexing continues at the line break at `next`.
    Comment {
        /// Absolute position of the line break ending the comment.
        next: int,
    },
    /// A comment that reaches the end of the input.
    CommentEof {
        /// Whether the strict policy turns this into a fatal error.
        fatal: bool,
        /// Whether a warning is recorded.
        warn: bool,
    },
}

/// The text of the token a branch produces at position `p`.
pub open spec fn lex_token_text(
    input: Seq<char>,
    p: int,
    branch: BranchKind,
    mlen: int,
    skip: int,
) -> Seq<char> {
    if branch == BranchKind::ControlSpace {
        seq!['\\', ' ']
    } else if branch == BranchKind::Space {
        seq![' ']
    } else if branch == BranchKind::ControlWordWhitespace {
        input.subrange(p, p + mlen - skip)
    } else {
        input.subrange(p, p + mlen)
    }
}

/// Absolute position of the first line break at or after `p`.
pub open spec fn newline_from(input: Seq<char>, p: int) -> Option<int>
    decreases input.len() - p,
{
    if p < 0 || p >= input.len() {
        None
    } else if input[p] == '\n' {
        Some(p)
    } else {
        newline_from(input, p + 1)
    }
}

fn find_newline(s: &str, from: usize) -> (r: Option<usize>)
    requires
        from <= s@.len(),
    ensures
        match r {
            Some(nl) => newline_from(s@, from as int) == Some(nl as int) && from <= nl
                < s@.len() && s@[nl as int] == '\n',
            None => newline_from(s@, from as int) is None,
        },
{
    let len = s.unicode_len();
    let mut i = from;
    while i < len
        invariant
            from <= i <= len,
            len == s@.len(),
            newline_from(s@, from as int) == newline_from(s@, i as int),
        decreases len - i,
    {
        if s.get_char(i) == '\n' {
            return Some(i);
        }
        i = i + 1;
    }
    None
}

/// What one lexing step does at position `p`.
pub open spec fn lex_step(
    input: Seq<char>,
    p: int,
    cats: Seq<(char, u8)>,
    strict: StrictSetting,
) -> LexStep {
    if p >= input.len() {
        LexStep::Eof { pos: p }
    } else {
        let m = match_spec(input.skip(p));
        let newpos = p + m.1;
        if m.0 == BranchKind::Unknown {
            LexStep::Error { character: input.subrange(p, newpos), start: p, end: newpos }
        } else {
            let text = lex_token_text(input, p, m.0, m.1, m.2);
            if text.len() == 1 && cat_lookup(cats, text[0]) == Some(14u8) {
                match newline_from(input, p) {
                    Some(nl) => LexStep::Comment { next: nl },
                    None => LexStep::CommentEof {
                        fatal: strict == StrictSetting::Error,
                        warn: strict == StrictSetting::Warn,
                    },
                }
            } else {
                LexStep::Token { text, start: p, end: newpos }
            }
        }
    }
}

/// What a whole `lex` call returns.
pub enum LexOutcome {
    /// A token with this text and span; the position afterwards is `end`.
    Token {
        /// The token's text.
        text: Seq<char>,
        /// Start of the token's span.
        start: int,
        /// End of the token's span and the position afterwards.
        end: int,
    },
    /// An unexpected-character error; the position afterwards is `end`.
    Error {
        /// The offending character.
        character: Seq<char>,
        /// Start of the error span.
        start: int,
        /// End of the error span and the position afterwards.
        end: int,
    },
    /// A comment without a line break escalated by the strict policy; the
    /// position afterwards is `pos`, the end of the input.
    StrictError {
        /// The position afterwards.
        pos: int,
    },
    /// A comment skip that would not advance. This cannot happen when the
    /// whitespace characters keep their lexical role; see
    /// [`Lexer::catcodes_ok`].
    Stuck,
}

/// What a whole `lex` call returns, with the number of warnings it records.
pub struct LexSpec {
    /// The token or error produced.
    pub outcome: LexOutcome,
    /// How many comment-at-end warnings were recorded.
    pub warnings: int,
}

/// The result of lexing from position `p`, comment skipping included.
pub open spec fn lex_from(
    input: Seq<char>,
    p: int,
    cats: Seq<(char, u8)>,
    strict: StrictSetting,
) -> LexSpec
    decreases input.len() - p,
{
    match lex_step(input, p, cats, strict) {
        LexStep::Eof { pos } => LexSpec {
            outcome: LexOutcome::Token { text: seq!['E', 'O', 'F'], start: pos, end: pos },
            warnings: 0,
        },
        LexStep::Error { character, start, end } => LexSpec {
            outcome: LexOutcome::Error { character, start, end },
            warnings: 0,
        },
        LexStep::Token { text, start, end } => LexSpec {
            outcome: LexOutcome::Token { text, start, end },
            warnings: 0,
        },
        LexStep::Comment { next } => if p < next <= input.len() {
            lex_from(input, next, cats, strict)
        } else {
            LexSpec { outcome: LexOutcome::Stuck, warnings: 0 }
        },
        LexStep::CommentEof { fatal, warn } => if fatal {
            LexSpec { outcome: LexOutcome::StrictError { pos: input.len() as int }, warnings: 0 }
        } else {
            LexSpec {
                outcome: LexOutcome::Token {
                    text: seq!['E', 'O', 'F'],
                    start: input.len() as int,
                    end: input.len() as int,
                },
                warnings: if warn {
                    1
                } else {
                    0
                },
            }
        },
    }
}

/// The lexer: the shared input, the position of the next read, the render
/// settings, the per-character category-code overrides, and the warnings
/// recorded so far.
pub struct Lexer {
    /// The shared input buffer.
    pub input: Arc<String>,
    /// Index of the next character to read.
    pub last_index: usize,
    /// The render settings consulted for strictness.
    pub settings: Settings,
    /// Category-code overrides, looked up by first match.
    pub catcodes: Vec<(char, u8)>,
    /// Codes of the non-fatal conditions reported so far.
    pub warnings: Vec<String>,
}

impl Lexer {
    /// The whitespace characters must not carry the comment category code:
    /// a comment whose token is the collapsed space would make the lexer
    /// step back onto the line break it already consumed.
    pub open spec fn catcodes_ok(&self) -> bool {
        cat_lookup(self.catcodes@, ' ') != Some(14u8)
    }

    /// Creates a lexer over the given input with the default category codes:
    /// `%` starts comments and `~` is active.
    pub fn new(input: Arc<String>, settings: Settings) -> (r: Lexer)
        ensures
            r.input == input,
            r.last_index == 0,
            r.settings == settings,
            r.warnings@.len() == 0,
            forall|d: char|
                cat_lookup(r.catcodes@, d) == (if d == '%' {
                    Some(14u8)
                } else if d == '~' {
                    Some(13u8)
                } else {
                    None::<u8>
                }),
            r.catcodes_ok(),
    {
        let mut catcodes: Vec<(char, u8)> = Vec::new();
        catcodes.push(('%', 14));  // comment character
        catcodes.push(('~', 13));  // active character
        let r = Lexer { input, last_index: 0, settings, catcodes, warnings: Vec::new() };
        proof {
            assert forall|d: char|
                cat_lookup(r.catcodes@, d) == (if d == '%' {
                    Some(14u8)
                } else if d == '~' {
                    Some(13u8)
                } else {
                    None::<u8>
                }) by {
                let s = r.catcodes@;
                assert(s.len() == 2);
                assert(s[0] == ('%', 14u8));
                assert(s[1] == ('~', 13u8));
                assert(s.skip(1)[0] == ('~', 13u8));
                assert(s.skip(1).skip(1) =~= Seq::<(char, u8)>::empty());
                assert(cat_lookup(s.skip(1).skip(1), d) is None);
                if d != '~' {
                    assert(cat_lookup(s.skip(1), d) == cat_lookup(s.skip(1).skip(1), d));
                }
            }
        }
        r
    }

    /// Sets the category code of one character.
    pub fn set_catcode(&mut self, ch: char, code: u8)
        ensures
            final(self).input == old(self).input,
            final(self).last_index == old(self).last_index,
            final(self).settings == old(self).settings,
            final(self).warnings == old(self).warnings,
            forall|d: char|
                cat_lookup(final(self).catcodes@, d) == (if d == ch {
                    Some(code)
                } else {
                    cat_lookup(old(self).catcodes@, d)
                }),
    {
        let n = self.catcodes.len();
        let mut i: usize = 0;
        while i < n
            invariant
                i <= n,
                n == self.catcodes@.len(),
                *self == *old(self),
                forall|k: int| 0 <= k < i ==> self.catcodes@[k].0 != ch,
            decreases n - i,
        {
            if self.catcodes[i].0 == ch {
                let ghost before = self.catcodes@;
                *vstd::std_specs::vec::vec_index_mut(&mut self.catcodes, i) = (ch, code);
                proof {
                    assert(self.catcodes@ =~= before.update(i as int, (ch, code)));
                    assert forall|d: char|
                        cat_lookup(self.catcodes@, d) == (if d == ch {
                            Some(code)
                        } else {
                            cat_lookup(old(self).catcodes@, d)
                        }) by {
                        lemma_cat_lookup_update(before, i as int, ch, code, d);
                    }
                }
                return ;
            }
            i = i + 1;
        }
        let ghost before = self.catcodes@;
        self.catcodes.push((ch, code));
        proof {
            assert forall|d: char|
                cat_lookup(self.catcodes@, d) == (if d == ch {
                    Some(code)
                } else {
                    cat_lookup(old(self).catcodes@, d)
                }) by {
                lemma_cat_lookup_push(before, ch, code, d);
            }
        }
    }

    /// Returns the category code of a character, if one has been set.
    pub fn get_catcode(&self, ch: char) -> (r: Option<u8>)
        ensures
            r == cat_lookup(self.catcodes@, ch),
    {
        let n = self.catcodes.len();
        let mut i: usize = 0;
        proof {
            assert(self.catcodes@.skip(0) =~= self.catcodes@);
        }
        while i < n
            invariant
                i <= n,
                n == self.catcodes@.len(),
                cat_lookup(self.catcodes@, ch) == cat_lookup(self.catcodes@.skip(i as int), ch),
            decreases n - i,
        {
            if self.catcodes[i].0 == ch {
                proof {
                    assert(self.catcodes@.skip(i as int)[0] == self.catcodes@[i as int]);
                }
                return Some(self.catcodes[i].1);
            }
            proof {
                lemma_cat_lookup_skip_step(self.catcodes@, i as int, ch);
            }
            i = i + 1;
        }
        proof {
            assert(self.catcodes@.skip(n as int) =~= Seq::<(char, u8)>::empty());
        }
        None
    }

    /// The input this lexer reads.
    pub fn input(&self) -> (r: &str)
        ensures
            r@ == self.input@,
    {
        let s: &String = &*self.input;
        s.as_str()
    }

    /// The position of the next read.
    pub fn position(&self) -> (r: usize)
        ensures
            r == self.last_index,
    {
        self.last_index
    }

    /// Moves the next read to an explicit position; the parser uses this for
    /// backtracking.
    pub fn set_position(&mut self, last_index: usize)
        ensures
            final(self).input == old(self).input,
            final(self).last_index == last_index,
            final(self).settings == old(self).settings,
            final(self).catcodes == old(self).catcodes,
            final(self).warnings == old(self).warnings,
    {
        self.last_index = last_index;
    }

    /// Lexes the next token from the current position: exactly what
    /// [`lex_from`] says for the current state, with every comment-at-end
    /// warning recorded under its code.
    pub fn lex(&mut self) -> (r: Result<Token, ParseError>)
        requires
            old(self).catcodes_ok(),
        ensures
            final(self).input == old(self).input,
            final(self).settings == old(self).settings,
            final(self).catcodes == old(self).catcodes,
            ({
                let sp = lex_from(
                    old(self).input@,
                    old(self).last_index as int,
                    old(self).catcodes@,
                    old(self).settings.strict,
                );
                &&& !(sp.outcome is Stuck)
                &&& (sp.warnings == 0 ==> final(self).warnings == old(self).warnings)
                &&& (sp.warnings == 1 ==> final(self).warnings.deep_view() == old(
                    self,
                ).warnings.deep_view().push("commentAtEnd"@))
                &&& match sp.outcome {
                    LexOutcome::Token { text, start, end } => {
                        &&& r matches Ok(t)
                        &&& (r matches Ok(t) ==> {
                            &&& t.wf()
                            &&& t.text@ == text
                            &&& t.loc matches Some(l) && l.start == start && l.end == end
                            &&& t.noexpand is None
                            &&& t.treat_as_relax is None
                        })
                        &&& final(self).last_index == end
                    },
                    LexOutcome::Error { character, start, end } => {
                        &&& r matches Err(e)
                        &&& (r matches Err(e) ==> {
                            &&& e.kind matches ParseErrorKind::UnexpectedCharacter { character: c }
                                && c@ == character
                            &&& e.loc matches Some(l) && l.start == start && l.end == end
                        })
                        &&& final(self).last_index == end
                    },
                    LexOutcome::StrictError { pos } => {
                        &&& r matches Err(e)
                        &&& (r matches Err(e) ==> {
                            &&& e.kind matches ParseErrorKind::StrictModeError { code } && code@
                                == "commentAtEnd"@
                            &&& e.loc is None
                        })
                        &&& final(self).last_index == pos
                    },
                    LexOutcome::Stuck => false,
                }
            }),
        decreases self.input@.len() - self.last_index,
    {
        let ghost input0 = self.input@;
        let ghost p0 = self.last_index as int;
        let ghost cats0 = self.catcodes@;
        let ghost strict0 = self.settings.strict;

        let input_str: &str = {
            let s: &String = &*self.input;
            s.as_str()
        };
        let len = input_str.unicode_len();

        // At the end of the input, emit the end-of-input token.
        if self.last_index >= len {
            proof {
                reveal_strlit("EOF");
                assert("EOF"@ =~= seq!['E', 'O', 'F']);
            }
            return Ok(
                Token {
                    text: TokenText::Static("EOF"),
                    loc: Some(SourceLocation { start: self.last_index, end: self.last_index }),
                    noexpand: None,
                    treat_as_relax: None,
                },
            );
        }

        let slice = input_str.substring_char(self.last_index, len);
        proof {
            assert(slice@ =~= input0.skip(p0));
        }
        let matched = exec(&mut self.last_index, slice);

        if matched.branch == BranchKind::Unknown {
            let start = self.last_index - matched.mlen;
            let ch = slice.substring_char(0, matched.mlen);
            proof {
                assert(ch@ =~= input0.subrange(p0, p0 + matched.mlen as int));
            }
            let character = String::from_str(ch);
            let token = Token::new(
                TokenText::Owned(String::from_str(ch)),
                Some(SourceLocation { start, end: self.last_index }),
            );
            return Err(
                ParseError::with_token(ParseErrorKind::UnexpectedCharacter { character }, &token),
            );
        }

        let token_text: TokenText = match matched.branch {
            BranchKind::ControlWordWhitespace => TokenText::slice(
                Arc::clone(&self.input),
                self.last_index - matched.mlen,
                self.last_index - matched.skip,
            ),
            BranchKind::ControlSymbol | BranchKind::NormalWithAccents | BranchKind::Verb
                | BranchKind::VerbStar => TokenText::slice(
                Arc::clone(&self.input),
                self.last_index - matched.mlen,
                self.last_index,
            ),
            BranchKind::ControlSpace => TokenText::Static("\\ "),
            BranchKind::Space => TokenText::Static(" "),
            BranchKind::Unknown => {
                proof {
                    assert(false);
                }
                TokenText::Static(" ")
            },
        };
        proof {
            reveal_strlit("\\ ");
            reveal_strlit(" ");
            assert("\\ "@ =~= seq!['\\', ' ']);
            assert(" "@ =~= seq![' ']);
            assert(token_text@ == lex_token_text(
                input0,
                p0,
                matched.branch,
                matched.mlen as int,
                matched.skip as int,
            ));
        }

        // A single-character token whose character has the comment category
        // code swallows the rest of the line.
        let tlen = token_text.len();
        if tlen == 1 {
            let first_char = token_text.as_str().get_char(0);
            let cat = self.get_catcode(first_char);
            if cat == Some(14) {
                let start_pos = self.last_index - matched.mlen;
                proof {
                    // The token cannot be the collapsed space: its character
                    // would carry the comment code, which `catcodes_ok`
                    // rules out. So the comment character is the character
                    // at the start position, and it is not a line break.
                    if matched.branch == BranchKind::Space {
                        assert(first_char == ' ');
                        assert(false);
                    }
                    assert(input0[p0] != '\n');
                }
                let nl = {
                    let s: &String = &*self.input;
                    find_newline(s.as_str(), start_pos)
                };
                match nl {
                    Some(nl_index) => {
                        self.last_index = nl_index;
                        proof {
                            assert(lex_step(input0, p0, cats0, strict0) == LexStep::Comment {
                                next: nl_index as int,
                            });
                            assert(input0[nl_index as int] == '\n');
                            assert(nl_index as int != p0);
                        }
                        return self.lex();
                    },
                    None => {
                        self.last_index = len;
                        match self.settings.strict {
                            StrictSetting::Error => {
                                return Err(
                                    ParseError::new(
                                        ParseErrorKind::StrictModeError {
                                            code: String::from_str("commentAtEnd"),
                                        },
                                    ),
                                );
                            },
                            StrictSetting::Warn => {
                                self.warnings.push(String::from_str("commentAtEnd"));
                            },
                            StrictSetting::Ignore => {},
                        }
                        return self.lex();
                    },
                }
            }
        }

        Ok(
            Token::new(
                token_text,
                Some(
                    SourceLocation { start: self.last_index - matched.mlen, end: self.last_index },
                ),
            ),
        )
    }
}

/// For every control word in the input — a backslash, a maximal nonempty run
/// of word characters, then the maximal run of whitespace after it — lexing
/// at the backslash yields the token whose text is the backslash and the
/// word, with the trailing whitespace excluded from the text but consumed:
/// the position afterwards lies exactly past that whitespace. The verbatim
/// form is the one control word exempted: it consumes a delimited argument
/// of its own.
#[verifier::rlimit(50)]
#[verifier::spinoff_prover]
pub proof fn lemma_control_word_token(
    input: Seq<char>,
    p: int,
    wl: int,
    ws: int,
    cats: Seq<(char, u8)>,
    strict: StrictSetting,
)
    requires
        0 <= p,
        1 <= wl,
        0 <= ws,
        p + 1 + wl + ws <= input.len(),
        input[p] == '\\',
        forall|j: int| p + 1 <= j < p + 1 + wl ==> is_letter_or_at_char(input[j]),
        p + 1 + wl == input.len() || !is_letter_or_at_char(input[p + 1 + wl]),
        forall|j: int| p + 1 + wl <= j < p + 1 + wl + ws ==> is_space_char(input[j]),
        p + 1 + wl + ws == input.len() || !is_space_char(input[p + 1 + wl + ws]),
        (verb_spec(input.skip(p + 1)) is None),
    ensures
        lex_from(input, p, cats, strict) == (LexSpec {
            outcome: LexOutcome::Token {
                text: input.subrange(p, p + 1 + wl),
                start: p,
                end: p + 1 + wl + ws,
            },
            warnings: 0,
        }),
{
    broadcast use lemma_run_len_bounds;

    let s = input.skip(p);
    let rest = input.skip(p + 1);
    assert(s.skip(1) =~= rest);
    assert(s[0] == '\\');
    lemma_space_run_is(s, 0, 0);
    assert(space_run(s, 0) == 0);

    assert forall|j: int| 0 <= j < wl implies is_letter_or_at_char(rest[j]) by {
        assert(rest[j] == input[p + 1 + j]);
    }
    assert(wl == rest.len() || !is_letter_or_at_char(rest[wl]));
    lemma_letter_run_is(rest, 0, wl);

    assert forall|j: int| wl <= j < wl + ws implies is_space_char(rest[j]) by {
        assert(rest[j] == input[p + 1 + j]);
    }
    assert(wl + ws == rest.len() || !is_space_char(rest[wl + ws]));
    lemma_space_run_is(rest, wl, ws);

    assert(is_letter_or_at_char(rest[0]));
    assert(control_space_spec(rest) is None);
    assert(control_word_spec(rest) == Some((wl, ws)));
    assert(match_spec(s) == (BranchKind::ControlWordWhitespace, 1 + wl + ws, ws));

    let text = lex_token_text(input, p, BranchKind::ControlWordWhitespace, 1 + wl + ws, ws);
    assert(text == input.subrange(p, p + 1 + wl));
    assert(text.len() == 1 + wl) by {
        assert(text.len() == input.subrange(p, p + 1 + wl).len());
    }
    assert(lex_step(input, p, cats, strict) == LexStep::Token {
        text: input.subrange(p, p + 1 + wl),
        start: p,
        end: p + 1 + wl + ws,
    });
}

} // verus!
