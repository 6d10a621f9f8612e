//! Decimal rendering of the Unix timestamp.
//!
//! The signature is computed over the timestamp written as a decimal string,
//! so the library renders it itself, with an exact specification: `dec_chars`
//! gives the sequence of digit characters of a number, and `u64_to_dec`
//! produces exactly that sequence.

use vstd::prelude::*;
use vstd::string::StringExecFns;

verus! {

/// The character for a single decimal digit.
pub open spec fn dec_digit_char(d: nat) -> char
    recommends
        d < 10,
{
    if d == 0 {
        '0'
    } else if d == 1 {
        '1'
    } else if d == 2 {
        '2'
    } else if d == 3 {
        '3'
    } else if d == 4 {
        '4'
    } else if d == 5 {
        '5'
    } else if d == 6 {
        '6'
    } else if d == 7 {
        '7'
    } else if d == 8 {
        '8'
    } else {
        '9'
    }
}

/// The decimal digits of `n`, most significant first, with no leading zeros
/// (a single `'0'` for zero itself).
pub open spec fn dec_chars(n: nat) -> Seq<char>
    decreases n,
{
    if n < 10 {
        seq![dec_digit_char(n)]
    } else {
        dec_chars(n / 10) + seq![dec_digit_char(n % 10)]
    }
}

/// A character in the decimal digit range.
pub open spec fn is_dec_digit(c: char) -> bool {
    '0' <= c && c <= '9'
}

pub proof fn lemma_dec_chars_len(n: nat)
    ensures
        dec_chars(n).len() >= 1,
        n >= 10 ==> dec_chars(n).len() >= 2,
    decreases n,
{
    if n >= 10 {
        lemma_dec_chars_len(n / 10);
    }
}

pub proof fn lemma_dec_chars_digits(n: nat)
    ensures
        forall|i: int| 0 <= i < dec_chars(n).len() ==> is_dec_digit(dec_chars(n)[i]),
    decreases n,
{
    if n < 10 {
        assert(dec_chars(n)[0] == dec_digit_char(n));
        assert(is_dec_digit(dec_digit_char(n)));
    } else {
        lemma_dec_chars_digits(n / 10);
        let s = dec_chars(n / 10);
        assert forall|i: int| 0 <= i < dec_chars(n).len() implies is_dec_digit(
            dec_chars(n)[i],
        ) by {
            if i < s.len() {
                assert(dec_chars(n)[i] == s[i]);
            } else {
                assert(dec_chars(n)[i] == dec_digit_char(n % 10));
            }
        }
    }
}

/// Two numbers with the same decimal rendering are the same number.
pub proof fn lemma_dec_chars_injective(a: nat, b: nat)
    requires
        dec_chars(a) == dec_chars(b),
    ensures
        a == b,
    decreases a,
{
    lemma_dec_chars_len(a);
    lemma_dec_chars_len(b);
    if a < 10 && b < 10 {
        assert(dec_chars(a)[0] == dec_digit_char(a));
        assert(dec_chars(b)[0] == dec_digit_char(b));
    } else if a < 10 {
        assert(dec_chars(a).len() == 1);
    } else if b < 10 {
        assert(dec_chars(b).len() == 1);
    } else {
        let sa = dec_chars(a / 10);
        let sb = dec_chars(b / 10);
        assert(dec_chars(a).last() == dec_digit_char(a % 10));
        assert(dec_chars(b).last() == dec_digit_char(b % 10));
        assert(a % 10 == b % 10);
        assert(sa =~= dec_chars(a).drop_last());
        assert(sb =~= dec_chars(b).drop_last());
        lemma_dec_chars_injective(a / 10, b / 10);
    }
}

/// The string for a single decimal digit.
fn dec_digit_str(d: u64) -> (r: &'static str)
    requires
        d < 10,
    ensures
        r@ == seq![dec_digit_char(d as nat)],
{
    proof {
        reveal_strlit("0");
        reveal_strlit("1");
        reveal_strlit("2");
        reveal_strlit("3");
        reveal_strlit("4");
        reveal_strlit("5");
        reveal_strlit("6");
        reveal_strlit("7");
        reveal_strlit("8");
        reveal_strlit("9");
    }
    let r: &'static str = if d == 0 {
        "0"
    } else if d == 1 {
        "1"
    } else if d == 2 {
        "2"
    } else if d == 3 {
        "3"
    } else if d == 4 {
        "4"
    } else if d == 5 {
        "5"
    } else if d == 6 {
        "6"
    } else if d == 7 {
        "7"
    } else if d == 8 {
        "8"
    } else {
        "9"
    };
    proof {
        assert(r@ =~= seq![dec_digit_char(d as nat)]);
    }
    r
}

/// Renders `n` in decimal, exactly as `dec_chars` describes.
pub fn u64_to_dec(n: u64) -> (r: String)
    ensures
        r@ == dec_chars(n as nat),
    decreases n,
{
    if n < 10 {
        let s = dec_digit_str(n);
        String::from_str(s)
    } else {
        let mut s = u64_to_dec(n / 10);
        let d = dec_digit_str(n % 10);
        s.append(d);
        proof {
            assert(s@ =~= dec_chars(n as nat));
        }
        s
    }
}

} // verus!
