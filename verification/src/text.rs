//! Helpers on text, stated over the sequence of characters that a `str` stands for.

use vstd::prelude::*;
use vstd::std_specs::iter::IteratorSpec;
use vstd::string::StringSliceAdditionalSpecFns;
use vstd::utf8::encode_utf8_decode_utf8;

verus! {

broadcast use vstd::string::group_string_axioms;

/// `String::push` of std: the string afterwards holds what it held, then `ch`. As
/// vstd does for `Vec::push`, this leaves aside a string that outgrows the memory.
pub assume_specification[ String::push ](s: &mut String, ch: char)
    ensures
        final(s)@ == old(s)@.push(ch),
;

/// The number of characters of `s` that stand before the first `sep`;
/// the length of `s` where `sep` does not occur.
pub open spec fn prefix_len(s: Seq<char>, sep: char) -> nat
    decreases s.len(),
{
    if s.len() == 0 || s[0] == sep {
        0
    } else {
        1 + prefix_len(s.drop_first(), sep)
    }
}

/// What stands before the first `sep` in `s`; all of `s` where `sep` does not occur.
pub open spec fn head(s: Seq<char>, sep: char) -> Seq<char> {
    s.take(prefix_len(s, sep) as int)
}

/// What stands behind the first `sep` in `s`; nothing where `sep` does not occur.
pub open spec fn tail(s: Seq<char>, sep: char) -> Seq<char> {
    if prefix_len(s, sep) < s.len() {
        s.skip(prefix_len(s, sep) as int + 1)
    } else {
        Seq::empty()
    }
}

/// The character of `s` at `i`; a space where `s` does not reach so far.
pub open spec fn char_at(s: Seq<char>, i: int) -> char {
    if 0 <= i < s.len() {
        s[i]
    } else {
        ' '
    }
}

/// `prefix_len` stays within `s`, no `sep` stands before it, and one stands at it
/// unless it is the end.
pub proof fn lemma_prefix_len(s: Seq<char>, sep: char)
    ensures
        prefix_len(s, sep) <= s.len(),
        forall|i: int| 0 <= i < prefix_len(s, sep) ==> s[i] != sep,
        prefix_len(s, sep) < s.len() ==> s[prefix_len(s, sep) as int] == sep,
    decreases s.len(),
{
    if s.len() == 0 || s[0] == sep {
    } else {
        let rest = s.drop_first();
        lemma_prefix_len(rest, sep);
        assert forall|i: int| 0 <= i < prefix_len(s, sep) implies s[i] != sep by {
            if i > 0 {
                assert(s[i] == rest[i - 1]);
            }
        }
    }
}

/// The position that `lemma_prefix_len` describes is the only one of its kind.
pub proof fn lemma_prefix_len_is(s: Seq<char>, sep: char, p: int)
    requires
        0 <= p <= s.len(),
        forall|i: int| 0 <= i < p ==> s[i] != sep,
        p < s.len() ==> s[p] == sep,
    ensures
        prefix_len(s, sep) == p,
{
    lemma_prefix_len(s, sep);
}

/// Splitting undoes joining: where `sep` is not in `before`, the text made of
/// `before`, `sep` and `behind` has `before` as its head and `behind` as its tail.
pub proof fn lemma_split_joined(before: Seq<char>, sep: char, behind: Seq<char>)
    requires
        !before.contains(sep),
    ensures
        head(before + seq![sep] + behind, sep) == before,
        tail(before + seq![sep] + behind, sep) == behind,
{
    let joined = before + seq![sep] + behind;
    lemma_prefix_len_is(joined, sep, before.len() as int);
    assert(joined.take(before.len() as int) == before);
    assert(joined.skip(before.len() as int + 1) == behind);
}

/// A text without `sep` is all head and has an empty tail.
pub proof fn lemma_split_without(s: Seq<char>, sep: char)
    requires
        !s.contains(sep),
    ensures
        head(s, sep) == s,
        tail(s, sep) == Seq::<char>::empty(),
{
    lemma_prefix_len_is(s, sep, s.len() as int);
    assert(s.take(s.len() as int) == s);
}

/// The position of the first `sep` in `s`, counted in characters.
pub fn find_char(s: &str, sep: char) -> (p: usize)
    ensures
        p == prefix_len(s@, sep),
{
    let n = s.unicode_len();
    let mut rest = s.chars();
    let mut i: usize = 0;
    loop
        invariant_except_break
            rest.remaining() == s@.skip(i as int),
        invariant
            n == s@.len(),
            i <= n,
            forall|j: int| 0 <= j < i ==> s@[j] != sep,
        ensures
            0 <= i <= n,
            forall|j: int| 0 <= j < i ==> s@[j] != sep,
            i < n ==> s@[i as int] == sep,
        decreases n - i,
    {
        match rest.next() {
            Some(c) => {
                if c == sep {
                    break ;
                }
                i = i + 1;
            },
            None => {
                break ;
            },
        }
    }
    proof {
        lemma_prefix_len_is(s@, sep, i as int);
    }
    i
}

/// Splits `s` at the first `sep` into what stands before it and what stands behind it.
/// Without a `sep` the first part is all of `s` and the second is empty.
pub fn split_first<'a>(s: &'a str, sep: char) -> (parts: (&'a str, &'a str))
    ensures
        parts.0@ == head(s@, sep),
        parts.1@ == tail(s@, sep),
{
    let n = s.unicode_len();
    let p = find_char(s, sep);
    proof {
        lemma_prefix_len(s@, sep);
    }
    let before = s.substring_char(0, p);
    let behind = if p < n {
        s.substring_char(p + 1, n)
    } else {
        s.substring_char(n, n)
    };
    (before, behind)
}

/// Whether `a` and `b` hold the same characters.
pub fn str_eq(a: &str, b: &str) -> (same: bool)
    ensures
        same == (a@ == b@),
{
    let x = a.as_bytes();
    let y = b.as_bytes();
    if x.len() != y.len() {
        return false;
    }
    let mut i: usize = 0;
    while i < x.len()
        invariant
            x@.len() == y@.len(),
            i <= x@.len(),
            x@ == a.spec_bytes(),
            y@ == b.spec_bytes(),
            forall|j: int| 0 <= j < i ==> x@[j] == y@[j],
        decreases x@.len() - i,
    {
        if x[i] != y[i] {
            return false;
        }
        i = i + 1;
    }
    proof {
        assert(x@ =~= y@);
        encode_utf8_decode_utf8(a@);
        encode_utf8_decode_utf8(b@);
    }
    true
}

} // verus!
