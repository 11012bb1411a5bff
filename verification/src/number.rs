//! Unsigned numbers in decimal notation: reading them from text and writing them out.

use vstd::prelude::*;
use vstd::std_specs::iter::IteratorSpec;

verus! {

broadcast use vstd::string::group_string_axioms;

/// Whether `c` is one of the ten decimal digits.
pub open spec fn is_digit(c: char) -> bool {
    '0' <= c <= '9'
}

/// The value of the decimal digit `c`; zero for any other character.
pub open spec fn digit_value(c: char) -> nat {
    if is_digit(c) {
        (c as u32 - '0' as u32) as nat
    } else {
        0
    }
}

/// Whether `s` holds decimal digits only.
pub open spec fn all_digits(s: Seq<char>) -> bool {
    forall|i: int| 0 <= i < s.len() ==> is_digit(#[trigger] s[i])
}

/// The number that the digits of `s` denote, the first digit weighing most.
pub open spec fn decimal_value(s: Seq<char>) -> nat
    decreases s.len(),
{
    if s.len() == 0 {
        0
    } else {
        10 * decimal_value(s.drop_last()) + digit_value(s.last())
    }
}

/// What is left of `s` once one leading `+` is taken off.
pub open spec fn unsigned_part(s: Seq<char>) -> Seq<char> {
    if s.len() > 0 && s[0] == '+' {
        s.skip(1)
    } else {
        s
    }
}

/// The number that `s` denotes: an optional `+`, then at least one decimal digit and
/// nothing else, the whole no greater than `u64::MAX`.
pub open spec fn spec_parse_u64(s: Seq<char>) -> Option<u64> {
    let digits = unsigned_part(s);
    if digits.len() > 0 && all_digits(digits) && decimal_value(digits) <= u64::MAX {
        Some(decimal_value(digits) as u64)
    } else {
        None
    }
}

/// A longer run of digits denotes no smaller a number than any of its beginnings.
pub proof fn lemma_decimal_value_grows(s: Seq<char>, k: int)
    requires
        0 <= k <= s.len(),
    ensures
        decimal_value(s.take(k)) <= decimal_value(s),
    decreases s.len(),
{
    if k == s.len() {
        assert(s.take(k) == s);
    } else {
        assert(s.drop_last().take(k) == s.take(k));
        lemma_decimal_value_grows(s.drop_last(), k);
    }
}

/// The value of `c` as a decimal digit, if it is one.
pub fn digit_of(c: char) -> (d: Option<u64>)
    ensures
        d is Some == is_digit(c),
        d matches Some(v) ==> v == digit_value(c) && v <= 9,
{
    if '0' <= c && c <= '9' {
        Some((c as u32 - '0' as u32) as u64)
    } else {
        None
    }
}

/// Reads `s` as an unsigned decimal number.
pub fn parse_u64(s: &str) -> (r: Option<u64>)
    ensures
        r == spec_parse_u64(s@),
{
    let mut rest = s.chars();
    let mut acc: u64 = 0;
    let mut any = false;
    let ghost digits = unsigned_part(s@);
    let ghost mut seen: int = 0;
    match rest.next() {
        None => {
            return None;
        },
        Some(c) => {
            if c != '+' {
                match digit_of(c) {
                    None => {
                        return None;
                    },
                    Some(d) => {
                        acc = d;
                        any = true;
                        proof {
                            seen = 1;
                            assert(decimal_value(digits.take(1).drop_last()) == 0);
                        }
                    },
                }
            }
        },
    }
    loop
        invariant
            digits == unsigned_part(s@),
            0 <= seen <= digits.len(),
            rest.remaining() == digits.skip(seen),
            all_digits(digits.take(seen)),
            acc == decimal_value(digits.take(seen)),
            any == (seen > 0),
        decreases digits.len() - seen,
    {
        match rest.next() {
            None => {
                proof {
                    assert(digits.take(seen) == digits);
                }
                return if any {
                    Some(acc)
                } else {
                    None
                };
            },
            Some(c) => {
                match digit_of(c) {
                    None => {
                        return None;
                    },
                    Some(d) => {
                        proof {
                            assert(digits.take(seen + 1).drop_last() == digits.take(seen));
                            lemma_decimal_value_grows(digits, seen + 1);
                        }
                        if acc > (u64::MAX - d) / 10 {
                            return None;
                        }
                        acc = acc * 10 + d;
                        any = true;
                        proof {
                            seen = seen + 1;
                        }
                    },
                }
            },
        }
    }
}

/// The character that writes the digit `d`.
pub open spec fn digit_char(d: nat) -> char
    recommends
        d <= 9,
{
    ('0' as u32 + d) as char
}

/// The decimal notation of `n`, without a sign or leading zeros.
pub open spec fn decimal_digits(n: nat) -> Seq<char>
    decreases n,
{
    if n < 10 {
        seq![digit_char(n)]
    } else {
        decimal_digits(n / 10).push(digit_char(n % 10))
    }
}

/// The character that writes the digit `d`.
fn char_of_digit(d: u64) -> (c: char)
    requires
        d <= 9,
    ensures
        c == digit_char(d as nat),
        is_digit(c),
        digit_value(c) == d,
{
    let code: u8 = 48 + d as u8;
    code as char
}

/// Appends the decimal notation of `n` to `out`.
pub fn push_decimal(out: &mut String, n: u64)
    ensures
        final(out)@ == old(out)@ + decimal_digits(n as nat),
    decreases n,
{
    if n >= 10 {
        push_decimal(out, n / 10);
    }
    out.push(char_of_digit(n % 10));
}

/// The decimal notation of `n`.
pub fn render_decimal(n: u64) -> (s: String)
    ensures
        s@ == decimal_digits(n as nat),
{
    let mut s = String::new();
    push_decimal(&mut s, n);
    s
}

/// The notation that `decimal_digits` gives is made of digits, begins with one, and
/// denotes the number it was made from.
pub proof fn lemma_decimal_digits(n: nat)
    ensures
        decimal_digits(n).len() > 0,
        all_digits(decimal_digits(n)),
        decimal_value(decimal_digits(n)) == n,
    decreases n,
{
    if n < 10 {
        let s = decimal_digits(n);
        assert(decimal_value(s.drop_last()) == 0);
    } else {
        lemma_decimal_digits(n / 10);
        let s = decimal_digits(n);
        assert(s.drop_last() == decimal_digits(n / 10));
    }
}

/// Reading what was written gives the number back: `spec_parse_u64` undoes
/// `decimal_digits` on every `u64`.
pub proof fn lemma_parse_render(n: u64)
    ensures
        spec_parse_u64(decimal_digits(n as nat)) == Some(n),
{
    lemma_decimal_digits(n as nat);
}

} // verus!
