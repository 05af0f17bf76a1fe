//! Small string utilities shared by the lexer and the formatting code:
//! character-wise equality of string slices and decimal formatting.

use vstd::prelude::*;

verus! {

/// Appends one character to a string.
///
/// Relies on String::push: appends exactly the given character at the end.
#[verifier::external_body]
pub fn push_char(s: &mut String, c: char)
    ensures
        final(s)@ == old(s)@.push(c),
{
    s.push(c);
}

/// Compares two string slices character by character.
pub fn str_eq(a: &str, b: &str) -> (r: bool)
    ensures
        r == (a@ == b@),
{
    let alen = a.unicode_len();
    let blen = b.unicode_len();
    if alen != blen {
        return false;
    }
    let mut i: usize = 0;
    while i < alen
        invariant
            i <= alen,
            alen == a@.len(),
            alen == b@.len(),
            forall|j: int| 0 <= j < i ==> a@[j] == b@[j],
        decreases alen - i,
    {
        if a.get_char(i) != b.get_char(i) {
            return false;
        }
        i = i + 1;
    }
    proof {
        assert(a@ =~= b@);
    }
    true
}

/// The decimal digit characters, least significant last, of a number.
pub open spec fn dec_digits(n: nat) -> Seq<char>
    decreases n,
{
    if n < 10 {
        seq![digit_char(n)]
    } else {
        dec_digits(n / 10).push(digit_char(n % 10))
    }
}

/// The character for a single decimal digit.
pub open spec fn digit_char(d: nat) -> char {
    if d == 0 {
        '0'
    } else if d == 1 {
        '1'
    } else if d == 2 {
        '2'
    } else if d == 3 {
        '3'
    } else if d == 4 {
        '4'
    } else if d == 5 {
        '5'
    } else if d == 6 {
        '6'
    } else if d == 7 {
        '7'
    } else if d == 8 {
        '8'
    } else {
        '9'
    }
}

fn digit_char_exec(d: u64) -> (r: char)
    requires
        d < 10,
    ensures
        r == digit_char(d as nat),
{
    if d == 0 {
        '0'
    } else if d == 1 {
        '1'
    } else if d == 2 {
        '2'
    } else if d == 3 {
        '3'
    } else if d == 4 {
        '4'
    } else if d == 5 {
        '5'
    } else if d == 6 {
        '6'
    } else if d == 7 {
        '7'
    } else if d == 8 {
        '8'
    } else {
        '9'
    }
}

/// Appends the decimal digits of `n` to a string.
pub fn push_dec_u64(s: &mut String, n: u64)
    ensures
        final(s)@ == old(s)@ + dec_digits(n as nat),
    decreases n,
{
    if n >= 10 {
        push_dec_u64(s, n / 10);
    }
    let d = digit_char_exec(n % 10);
    push_char(s, d);
    proof {
        assert(s@ =~= old(s)@ + dec_digits(n as nat));
    }
}

/// Whether `n` occurs in `h` as a contiguous run.
pub open spec fn seq_contains_sub(h: Seq<char>, n: Seq<char>) -> bool {
    exists|i: int| 0 <= i <= h.len() - n.len() && #[trigger] h.subrange(i, i + n.len()) == n
}

fn match_at(haystack: &str, needle: &str, i: usize) -> (r: bool)
    requires
        i + needle@.len() <= haystack@.len(),
    ensures
        r == (haystack@.subrange(i as int, i as int + needle@.len()) == needle@),
{
    let hn = haystack.unicode_len();
    let nn = needle.unicode_len();
    let mut k: usize = 0;
    while k < nn
        invariant
            k <= nn,
            nn == needle@.len(),
            hn == haystack@.len(),
            i + nn <= hn,
            forall|j: int| 0 <= j < k ==> haystack@[i + j] == needle@[j],
        decreases nn - k,
    {
        if haystack.get_char(i + k) != needle.get_char(k) {
            proof {
                assert(haystack@.subrange(i as int, i as int + nn)[k as int] == haystack@[i + k]);
            }
            return false;
        }
        k = k + 1;
    }
    proof {
        assert(haystack@.subrange(i as int, i as int + nn) =~= needle@);
    }
    true
}

/// Searches `haystack` for `needle` as a contiguous run of characters.
pub fn str_contains(haystack: &str, needle: &str) -> (r: bool)
    ensures
        r == seq_contains_sub(haystack@, needle@),
{
    let hn = haystack.unicode_len();
    let nn = needle.unicode_len();
    if nn > hn {
        return false;
    }
    if nn == 0 {
        proof {
            assert(haystack@.subrange(0, 0 + needle@.len() as int) =~= needle@);
            assert(seq_contains_sub(haystack@, needle@));
        }
        return true;
    }
    let mut i: usize = 0;
    while i <= hn - nn
        invariant
            1 <= nn <= hn,
            hn == haystack@.len(),
            nn == needle@.len(),
            i <= hn - nn + 1,
            forall|j: int|
                0 <= j < i ==> #[trigger] haystack@.subrange(j, j + needle@.len()) != needle@,
        decreases hn - i,
    {
        if match_at(haystack, needle, i) {
            proof {
                assert(seq_contains_sub(haystack@, needle@));
            }
            return true;
        }
        i = i + 1;
    }
    false
}

} // verus!
