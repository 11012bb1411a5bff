//! Percent-decoding: `%` and two hexadecimal digits stand for the character with that
//! code; every other character stands for itself.

use std::str::Chars;
use vstd::prelude::*;
use vstd::std_specs::iter::IteratorSpec;

verus! {

broadcast use vstd::string::group_string_axioms;

/// A `%` that two hexadecimal digits do not follow.
#[derive(Debug, PartialEq)]
pub struct DecodingErr;

impl DecodingErr {
    /// The message that describes the error.
    pub fn to_string(&self) -> (s: String)
        ensures
            s@ == "Decoding error, invalid hex representation"@,
    {
        "Decoding error, invalid hex representation".to_owned()
    }
}

/// The value of `c` as a hexadecimal digit, in either case.
pub open spec fn hex_value(c: char) -> Option<u32> {
    if '0' <= c <= '9' {
        Some((c as u32 - '0' as u32) as u32)
    } else if 'a' <= c <= 'f' {
        Some((c as u32 - 'a' as u32 + 10) as u32)
    } else if 'A' <= c <= 'F' {
        Some((c as u32 - 'A' as u32 + 10) as u32)
    } else {
        None
    }
}

/// The character that `%`, `hi`, `lo` stands for: the one whose code has `hi` as its
/// upper four bits and `lo` as its lower four. Such a code is below 256, so it is
/// always the code of a character.
pub open spec fn escaped_char(hi: char, lo: char) -> Option<char> {
    match (hex_value(hi), hex_value(lo)) {
        (Some(a), Some(b)) => Some((16 * a + b) as char),
        _ => None,
    }
}

/// What a decoder yields first from `rest`: nothing at the end, the character itself
/// where it is not `%`, else the escaped character or the error.
pub open spec fn first_item(rest: Seq<char>) -> Option<Result<char, DecodingErr>> {
    if rest.len() == 0 {
        None
    } else if rest[0] != '%' {
        Some(Ok(rest[0]))
    } else if rest.len() >= 3 && escaped_char(rest[1], rest[2]) is Some {
        Some(Ok(escaped_char(rest[1], rest[2])->0))
    } else {
        Some(Err(DecodingErr))
    }
}

/// What is left of `rest` behind its first item. An escape takes the `%` and the two
/// characters behind it, as far as there are any, whether or not they are digits.
pub open spec fn after_first_item(rest: Seq<char>) -> Seq<char> {
    if rest.len() == 0 {
        rest
    } else if rest[0] != '%' {
        rest.skip(1)
    } else if rest.len() >= 3 {
        rest.skip(3)
    } else {
        Seq::empty()
    }
}

/// The decoded text of `s`, or `None` where an escape in `s` is malformed.
pub open spec fn spec_decode(s: Seq<char>) -> Option<Seq<char>>
    decreases s.len(),
{
    match first_item(s) {
        None => Some(Seq::empty()),
        Some(Err(_)) => None,
        Some(Ok(c)) => match spec_decode(after_first_item(s)) {
            Some(t) => Some(seq![c] + t),
            None => None,
        },
    }
}

/// The value of `c` as a hexadecimal digit, in either case.
pub fn hex_digit(c: char) -> (v: Option<u32>)
    ensures
        v == hex_value(c),
        v matches Some(d) ==> d < 16,
{
    if '0' <= c && c <= '9' {
        Some(c as u32 - '0' as u32)
    } else if 'a' <= c && c <= 'f' {
        Some(c as u32 - 'a' as u32 + 10)
    } else if 'A' <= c && c <= 'F' {
        Some(c as u32 - 'A' as u32 + 10)
    } else {
        None
    }
}

/// A decoder over the characters of a text. It yields the decoded characters one by
/// one; `self.0.remaining()` is what it has not read yet.
pub struct Decoder<'a>(pub Chars<'a>);

impl<'a> Decoder<'a> {
    /// A decoder at the start of `s`.
    pub fn new(s: &'a str) -> (d: Self)
        ensures
            d.0.remaining() == s@,
    {
        Decoder(s.chars())
    }

    /// Yields the next decoded character, an error for a malformed escape, or `None` at
    /// the end of the text.
    pub fn next(&mut self) -> (item: Option<Result<char, DecodingErr>>)
        ensures
            item == first_item(old(self).0.remaining()),
            final(self).0.remaining() == after_first_item(old(self).0.remaining()),
    {
        match self.0.next() {
            None => None,
            Some(c) => {
                if c != '%' {
                    return Some(Ok(c));
                }
                let hi = self.0.next();
                let lo = self.0.next();
                match (hi, lo) {
                    (Some(h), Some(l)) => match (hex_digit(h), hex_digit(l)) {
                        (Some(a), Some(b)) => {
                            let code: u8 = (16 * a + b) as u8;
                            Some(Ok(code as char))
                        },
                        _ => Some(Err(DecodingErr)),
                    },
                    _ => Some(Err(DecodingErr)),
                }
            },
        }
    }
}

/// Decodes the escapes of `s`. The first malformed escape fails the whole text.
pub fn decode(s: &str) -> (r: Result<String, DecodingErr>)
    ensures
        match spec_decode(s@) {
            Some(t) => r matches Ok(out) && out@ == t,
            None => r is Err,
        },
{
    let mut decoder = Decoder::new(s);
    let mut out = String::new();
    let ghost mut left: nat = s@.len();
    loop
        invariant
            decoder.0.remaining().len() <= left,
            spec_decode(s@) == match spec_decode(decoder.0.remaining()) {
                Some(t) => Some(out@ + t),
                None => None,
            },
        decreases left,
    {
        match decoder.next() {
            None => {
                return Ok(out);
            },
            Some(Err(e)) => {
                return Err(e);
            },
            Some(Ok(c)) => {
                out.push(c);
                proof {
                    left = (left - 1) as nat;
                }
            },
        }
    }
}

/// A text without `%` decodes to itself.
pub proof fn lemma_decode_plain(s: Seq<char>)
    requires
        !s.contains('%'),
    ensures
        spec_decode(s) == Some(s),
    decreases s.len(),
{
    if s.len() > 0 {
        assert(s[0] != '%');
        let rest = s.skip(1);
        assert(!rest.contains('%')) by {
            if rest.contains('%') {
                let i = choose|i: int| 0 <= i < rest.len() && rest[i] == '%';
                assert(s[i + 1] == '%');
            }
        }
        lemma_decode_plain(rest);
        assert(seq![s[0]] + rest == s);
    }
}

/// Decoding once more changes nothing where the text had no `%` to begin with.
pub proof fn lemma_decode_plain_idempotent(s: Seq<char>)
    requires
        !s.contains('%'),
    ensures
        spec_decode(s) is Some,
        spec_decode(spec_decode(s)->0) == spec_decode(s),
{
    lemma_decode_plain(s);
}

/// The decoded text is never longer than the encoded one.
pub proof fn lemma_decode_len(s: Seq<char>)
    ensures
        spec_decode(s) matches Some(t) ==> t.len() <= s.len(),
    decreases s.len(),
{
    if s.len() > 0 {
        lemma_decode_len(after_first_item(s));
    }
}

} // verus!
