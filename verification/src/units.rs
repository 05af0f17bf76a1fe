//! Units conversion helpers.
//!
//! TeX length literals carry a unit; this module validates a unit string
//! against the closed set the renderer understands, and formats lengths,
//! held in ten-thousandths of an em, as canonical em strings: four decimal
//! digits at most, trailing zeros dropped, negative zero normalized.

use crate::strutil::{dec_digits, digit_char, push_char, push_dec_u64, str_eq};
use vstd::prelude::*;

verus! {

/// The absolute and relative length units the renderer understands.
pub open spec fn is_valid_unit(u: Seq<char>) -> bool {
    ||| u == "pt"@
    ||| u == "mm"@
    ||| u == "cm"@
    ||| u == "in"@
    ||| u == "bp"@
    ||| u == "px"@
    ||| u == "pc"@
    ||| u == "dd"@
    ||| u == "cc"@
    ||| u == "nd"@
    ||| u == "nc"@
    ||| u == "sp"@
    ||| u == "ex"@
    ||| u == "em"@
    ||| u == "mu"@
}

/// Checks whether a unit string is a length unit the renderer understands.
pub fn valid_unit_str(unit: &str) -> (r: bool)
    ensures
        r == is_valid_unit(unit@),
{
    str_eq(unit, "pt") || str_eq(unit, "mm") || str_eq(unit, "cm") || str_eq(unit, "in") || str_eq(
        unit,
        "bp",
    ) || str_eq(unit, "px") || str_eq(unit, "pc") || str_eq(unit, "dd") || str_eq(unit, "cc")
        || str_eq(unit, "nd") || str_eq(unit, "nc") || str_eq(unit, "sp") || str_eq(unit, "ex")
        || str_eq(unit, "em") || str_eq(unit, "mu")
}

/// A length literal: a number in some numeric representation and its unit.
#[derive(Debug, Clone)]
pub struct Measurement<N> {
    /// The numeric part, in whatever representation the caller uses.
    pub number: N,
    /// The unit the number is expressed in.
    pub unit: String,
}

/// Checks whether a measurement carries a valid unit.
pub fn valid_unit<N>(measurement: &Measurement<N>) -> (r: bool)
    ensures
        r == is_valid_unit(measurement.unit@),
{
    valid_unit_str(measurement.unit.as_str())
}

/// Whether the value contains a decimal point.
pub open spec fn has_dot(v: Seq<char>) -> bool {
    exists|i: int| 0 <= i < v.len() && v[i] == '.'
}

/// The value with its trailing zero digits removed.
pub open spec fn trim_trailing_zeros(v: Seq<char>) -> Seq<char>
    decreases v.len(),
{
    if v.len() > 0 && v[v.len() - 1] == '0' {
        trim_trailing_zeros(v.drop_last())
    } else {
        v
    }
}

/// The canonical em string for a decimal value: trailing zeros after a
/// decimal point dropped, a bare trailing point dropped, negative zero and
/// the empty value normalized to zero, and the unit appended.
pub open spec fn finalize_em_spec(v: Seq<char>) -> Seq<char> {
    let trimmed = if has_dot(v) {
        let z = trim_trailing_zeros(v);
        if z.len() > 0 && z[z.len() - 1] == '.' {
            z.drop_last()
        } else {
            z
        }
    } else {
        v
    };
    let normal = if trimmed == seq!['-', '0'] || trimmed.len() == 0 {
        seq!['0']
    } else {
        trimmed
    };
    normal + seq!['e', 'm']
}

fn find_dot(s: &str) -> (r: bool)
    ensures
        r == has_dot(s@),
{
    let len = s.unicode_len();
    let mut i: usize = 0;
    while i < len
        invariant
            i <= len,
            len == s@.len(),
            forall|j: int| 0 <= j < i ==> s@[j] != '.',
        decreases len - i,
    {
        if s.get_char(i) == '.' {
            return true;
        }
        i = i + 1;
    }
    false
}

/// Rounds a decimal value to the canonical em string: drops trailing zeros
/// after a decimal point, a bare trailing point, normalizes negative zero
/// and the empty value, and appends the unit.
pub fn finalize_em(value: String) -> (r: String)
    ensures
        r@ == finalize_em_spec(value@),
{
    let s = value.as_str();
    let len = s.unicode_len();
    let mut cut = len;
    if find_dot(s) {
        proof {
            assert(s@.take(len as int) =~= s@);
        }
        while cut > 0 && s.get_char(cut - 1) == '0'
            invariant
                cut <= len,
                len == s@.len(),
                trim_trailing_zeros(s@) == trim_trailing_zeros(s@.take(cut as int)),
            decreases cut,
        {
            proof {
                assert(s@.take(cut as int).len() == cut);
                assert(s@.take(cut as int)[cut - 1] == s@[cut - 1]);
                assert(s@.take(cut as int).drop_last() =~= s@.take(cut as int - 1));
            }
            cut = cut - 1;
        }
        proof {
            assert(trim_trailing_zeros(s@.take(cut as int)) == s@.take(cut as int)) by {
                if cut > 0 {
                    assert(s@.take(cut as int)[cut - 1] == s@[cut - 1]);
                }
            }
        }
        if cut > 0 && s.get_char(cut - 1) == '.' {
            proof {
                let z = s@.take(cut as int);
                assert(z[z.len() - 1] == s@[cut - 1]);
                assert(z.drop_last() =~= s@.take(cut as int - 1));
            }
            cut = cut - 1;
        }
    }
    let trimmed = s.substring_char(0, cut);
    proof {
        assert(s@.take(len as int) =~= s@);
        assert(trimmed@ =~= s@.take(cut as int));
        reveal_strlit("-0");
        reveal_strlit("0");
        reveal_strlit("em");
        assert("-0"@ =~= seq!['-', '0']);
        assert("0"@ =~= seq!['0']);
        assert("em"@ =~= seq!['e', 'm']);
    }
    let normal: String = if str_eq(trimmed, "-0") || trimmed.is_empty() {
        String::from_str("0")
    } else {
        String::from_str(trimmed)
    };
    let r = normal.concat("em");
    proof {
        assert(r@ =~= finalize_em_spec(value@));
    }
    r
}

/// The fraction and digit count left after dropping trailing zero digits
/// from a fraction of `d` digits.
pub open spec fn strip10(f: nat, d: nat) -> (nat, nat)
    decreases d,
{
    if d > 0 && f % 10 == 0 {
        strip10(f / 10, (d - 1) as nat)
    } else {
        (f, d)
    }
}

/// The last `d` decimal digits of `f`, zero padded.
pub open spec fn pad_digits(f: nat, d: nat) -> Seq<char>
    decreases d,
{
    if d == 0 {
        Seq::empty()
    } else {
        pad_digits(f / 10, (d - 1) as nat).push(digit_char(f % 10))
    }
}

/// The canonical em string for a length of `scaled` ten-thousandths of an
/// em: the sign, the whole part, the fractional digits without their
/// trailing zeros, and the unit; zero is plain `0em`.
pub open spec fn em_scaled_spec(scaled: int) -> Seq<char> {
    if scaled == 0 {
        seq!['0', 'e', 'm']
    } else {
        let a = if scaled < 0 {
            -scaled
        } else {
            scaled
        };
        let sign: Seq<char> = if scaled < 0 {
            seq!['-']
        } else {
            Seq::empty()
        };
        let ip = (a / 10000) as nat;
        let fp = (a % 10000) as nat;
        let frac: Seq<char> = if fp == 0 {
            Seq::empty()
        } else {
            let sd = strip10(fp, 4);
            seq!['.'] + pad_digits(sd.0, sd.1)
        };
        sign + dec_digits(ip) + frac + seq!['e', 'm']
    }
}

fn push_padded(s: &mut String, f: u64, d: u64)
    ensures
        final(s)@ == old(s)@ + pad_digits(f as nat, d as nat),
    decreases d,
{
    if d == 0 {
        proof {
            assert(s@ =~= old(s)@ + pad_digits(f as nat, d as nat));
        }
        return ;
    }
    push_padded(s, f / 10, d - 1);
    let c = if f % 10 == 0 {
        '0'
    } else if f % 10 == 1 {
        '1'
    } else if f % 10 == 2 {
        '2'
    } else if f % 10 == 3 {
        '3'
    } else if f % 10 == 4 {
        '4'
    } else if f % 10 == 5 {
        '5'
    } else if f % 10 == 6 {
        '6'
    } else if f % 10 == 7 {
        '7'
    } else if f % 10 == 8 {
        '8'
    } else {
        '9'
    };
    proof {
        assert(c == digit_char((f % 10) as nat));
    }
    push_char(s, c);
    proof {
        assert(s@ =~= old(s)@ + pad_digits(f as nat, d as nat));
    }
}

/// Formats a length of `scaled` ten-thousandths of an em as a canonical em
/// string. The smallest representable value is excluded so that the sign
/// can always be taken.
pub fn make_em_scaled(scaled: i64) -> (r: String)
    requires
        scaled > i64::MIN,
    ensures
        r@ == em_scaled_spec(scaled as int),
{
    if scaled == 0 {
        let r = String::from_str("0em");
        proof {
            reveal_strlit("0em");
            assert("0em"@ =~= seq!['0', 'e', 'm']);
        }
        return r;
    }
    let mut result = String::new();
    let mut n = scaled;
    if n < 0 {
        push_char(&mut result, '-');
        n = -n;
    }
    let a = n as u64;
    let int_part = a / 10000;
    let frac0 = a % 10000;
    push_dec_u64(&mut result, int_part);
    if frac0 != 0 {
        push_char(&mut result, '.');
        let mut frac = frac0;
        let mut digits: u64 = 4;
        while digits > 0 && frac % 10 == 0
            invariant
                digits <= 4,
                strip10(frac0 as nat, 4) == strip10(frac as nat, digits as nat),
            decreases digits,
        {
            frac = frac / 10;
            digits = digits - 1;
        }
        push_padded(&mut result, frac, digits);
    }
    let r = result.concat("em");
    proof {
        reveal_strlit("em");
        assert("em"@ =~= seq!['e', 'm']);
        assert(r@ =~= em_scaled_spec(scaled as int));
    }
    r
}

} // verus!

verus! {

/// `k` zero digits.
pub open spec fn zeros(k: nat) -> Seq<char>
    decreases k,
{
    if k == 0 {
        Seq::empty()
    } else {
        zeros((k - 1) as nat).push('0')
    }
}

/// The `d`-th power of ten.
pub open spec fn pow10(d: nat) -> nat
    decreases d,
{
    if d == 0 {
        1
    } else {
        10 * pow10((d - 1) as nat)
    }
}

proof fn lemma_pad_len(f: nat, d: nat)
    ensures
        pad_digits(f, d).len() == d,
    decreases d,
{
    if d > 0 {
        lemma_pad_len(f / 10, (d - 1) as nat);
    }
}

proof fn lemma_dec_digits_chars(n: nat)
    ensures
        dec_digits(n).len() >= 1,
        forall|j: int| 0 <= j < dec_digits(n).len() ==> '0' <= #[trigger] dec_digits(n)[j]
            && dec_digits(n)[j] <= '9',
    decreases n,
{
    if n >= 10 {
        lemma_dec_digits_chars(n / 10);
    }
}

/// Stripping trailing zero digits from a fraction keeps a nonzero fraction
/// nonzero, leaves no trailing zero digit while digits remain, and factors
/// the padded digits into the stripped digits followed by zeros.
proof fn lemma_pad_strip(f: nat, d: nat)
    requires
        0 < f,
    ensures
        strip10(f, d).1 <= d,
        0 < strip10(f, d).0,
        strip10(f, d).1 > 0 ==> strip10(f, d).0 % 10 != 0,
        f >= pow10((d - strip10(f, d).1) as nat),
        pad_digits(f, d) == pad_digits(strip10(f, d).0, strip10(f, d).1) + zeros(
            (d - strip10(f, d).1) as nat,
        ),
    decreases d,
{
    let sd = strip10(f, d);
    if d > 0 && f % 10 == 0 {
        lemma_pad_strip(f / 10, (d - 1) as nat);
        assert(f == 10 * (f / 10));
        assert(f >= 10 * pow10((d - 1 - sd.1) as nat));
        assert(pow10((d - sd.1) as nat) == 10 * pow10((d - 1 - sd.1) as nat));
        assert(pad_digits(f, d) == pad_digits(f / 10, (d - 1) as nat).push(digit_char(0)));
        assert(zeros((d - sd.1) as nat) == zeros((d - 1 - sd.1) as nat).push('0'));
        assert(pad_digits(f, d) =~= pad_digits(sd.0, sd.1) + zeros((d - sd.1) as nat));
    } else {
        assert(zeros(0) =~= Seq::<char>::empty());
        assert(pad_digits(f, d) =~= pad_digits(f, d) + zeros(0));
    }
}

/// Appended zero digits are exactly what trimming removes.
proof fn lemma_trim_zeros_append(x: Seq<char>, k: nat)
    ensures
        trim_trailing_zeros(x + zeros(k)) == trim_trailing_zeros(x),
    decreases k,
{
    if k > 0 {
        let t = x + zeros(k);
        assert(zeros(k) == zeros((k - 1) as nat).push('0'));
        assert(t.len() > 0);
        assert(t[t.len() - 1] == '0');
        assert(t.drop_last() =~= x + zeros((k - 1) as nat));
        lemma_trim_zeros_append(x, (k - 1) as nat);
    } else {
        assert(x + zeros(0) =~= x);
    }
}

/// The plain four-decimal rendering of a length in ten-thousandths of an
/// em: the sign, the whole part, and all four fractional digits.
pub open spec fn fixed4_view(scaled: int) -> Seq<char> {
    let a = if scaled < 0 {
        -scaled
    } else {
        scaled
    };
    let sign: Seq<char> = if scaled < 0 {
        seq!['-']
    } else {
        Seq::empty()
    };
    sign + dec_digits((a / 10000) as nat) + seq!['.'] + pad_digits((a % 10000) as nat, 4)
}

/// The short em form agrees with rendering all four decimals and trimming:
/// formatting a scaled length directly equals the canonical trim of its
/// plain four-decimal rendering.
pub proof fn lemma_em_scaled_matches_trimmed(scaled: int)
    ensures
        em_scaled_spec(scaled) == finalize_em_spec(fixed4_view(scaled)),
{
    let a = if scaled < 0 {
        -scaled
    } else {
        scaled
    };
    let sign: Seq<char> = if scaled < 0 {
        seq!['-']
    } else {
        Seq::empty()
    };
    let ip = (a / 10000) as nat;
    let fp = (a % 10000) as nat;
    let dd = dec_digits(ip);
    let fixed = fixed4_view(scaled);
    lemma_dec_digits_chars(ip);
    lemma_pad_len(fp, 4);

    // The rendering always carries its decimal point.
    let dot = sign.len() + dd.len();
    assert(fixed[dot as int] == '.');
    assert(has_dot(fixed));

    if fp == 0 {
        // Four zero digits trim away and take the point with them.
        let head = sign + dd;
        assert(pad_digits(0nat, 4) =~= zeros(4)) by {
            assert(pad_digits(0nat, 0) =~= zeros(0));
            assert(pad_digits(0nat, 1) =~= zeros(1));
            assert(pad_digits(0nat, 2) =~= zeros(2));
            assert(pad_digits(0nat, 3) =~= zeros(3));
        }
        assert(fixed =~= (head + seq!['.']) + zeros(4));
        lemma_trim_zeros_append(head + seq!['.'], 4);
        let z = head + seq!['.'];
        assert(z[z.len() - 1] == '.');
        assert(trim_trailing_zeros(z) == z);
        assert(z.drop_last() =~= head);

        if scaled == 0 {
            assert(dd =~= seq!['0']);
            assert(head =~= seq!['0']);
            assert(finalize_em_spec(fixed) =~= seq!['0', 'e', 'm']);
        } else {
            // The whole part cannot be a bare zero with a sign: a negative
            // length with no fractional digits has a nonzero whole part.
            if scaled < 0 {
                assert(a == ip * 10000 + fp);
                assert(ip > 0);
                if head == seq!['-', '0'] {
                    assert(dd.len() == 1);
                    assert(dd[0] == '0');
                    if ip >= 10 {
                        lemma_dec_digits_chars(ip / 10);
                        assert(dec_digits(ip) == dec_digits(ip / 10).push(digit_char(ip % 10)));
                        assert(false);
                    }
                    assert(dec_digits(ip) == seq![digit_char(ip)]);
                    assert(digit_char(ip) != '0');
                    assert(false);
                }
            } else {
                if head == seq!['-', '0'] {
                    assert(head[0] == dd[0]);
                    assert('0' <= dd[0]);
                    assert(false);
                }
            }
            assert(head.len() > 0);
            assert(em_scaled_spec(scaled) =~= finalize_em_spec(fixed));
        }
    } else {
        // The stripped fraction ends in a nonzero digit, so trimming stops
        // exactly where the short form does.
        lemma_pad_strip(fp, 4);
        let sd = strip10(fp, 4);
        assert(fp < 10000);
        if sd.1 == 0 {
            assert(pow10(4) == 10000) by {
                assert(pow10(0) == 1);
                assert(pow10(1) == 10);
                assert(pow10(2) == 100);
                assert(pow10(3) == 1000);
            }
            assert(false);
        }
        let short = sign + dd + seq!['.'] + pad_digits(sd.0, sd.1);
        assert(fixed =~= short + zeros((4 - sd.1) as nat));
        lemma_trim_zeros_append(short, (4 - sd.1) as nat);
        lemma_pad_len(sd.0, sd.1);
        assert(pad_digits(sd.0, sd.1) == pad_digits(sd.0 / 10, (sd.1 - 1) as nat).push(
            digit_char(sd.0 % 10),
        ));
        assert(short[short.len() - 1] == digit_char(sd.0 % 10));
        assert(digit_char(sd.0 % 10) != '0');
        assert(trim_trailing_zeros(short) == short);
        assert(short[short.len() - 1] != '.');
        assert(short.len() >= 3);
        if short == seq!['-', '0'] {
            assert(false);
        }
        assert(em_scaled_spec(scaled) =~= sign + dd + (seq!['.'] + pad_digits(sd.0, sd.1)) + seq![
            'e',
            'm',
        ]);
        assert(finalize_em_spec(fixed) =~= short + seq!['e', 'm']);
        assert(em_scaled_spec(scaled) =~= finalize_em_spec(fixed));
    }
}

} // verus!
