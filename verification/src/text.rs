//! Small helpers on characters and strings that the parsers, the formatters
//! and the argument grammar share.

use vstd::prelude::*;
use vstd::string::*;

verus! {

/// The upper-case form of an ASCII letter; every other character is itself.
pub open spec fn ascii_upper(c: char) -> char {
    if 'a' <= c && c <= 'z' {
        ((c as int) - 32) as char
    } else {
        c
    }
}

/// A sequence of characters with its ASCII letters in upper case.
pub open spec fn ascii_upper_seq(s: Seq<char>) -> Seq<char> {
    Seq::new(s.len(), |i: int| ascii_upper(s[i]))
}

/// Upper-case form of one character, as `ascii_upper` defines it.
pub fn to_ascii_upper(c: char) -> (u: char)
    ensures
        u == ascii_upper(c),
{
    if 'a' <= c && c <= 'z' {
        let code: u8 = c as u8;
        (code - 32) as char
    } else {
        c
    }
}

/// Compares two strings without regard to the case of their ASCII letters.
pub fn eq_ignore_ascii_case(a: &str, b: &str) -> (same: bool)
    ensures
        same == (ascii_upper_seq(a@) == ascii_upper_seq(b@)),
{
    let n = a.unicode_len();
    if b.unicode_len() != n {
        assert(ascii_upper_seq(a@).len() != ascii_upper_seq(b@).len());
        return false;
    }
    let mut i: usize = 0;
    while i < n
        invariant
            n == a@.len(),
            n == b@.len(),
            i <= n,
            forall|j: int| 0 <= j < i ==> ascii_upper(a@[j]) == ascii_upper(b@[j]),
        decreases n - i,
    {
        if to_ascii_upper(a.get_char(i)) != to_ascii_upper(b.get_char(i)) {
            assert(ascii_upper_seq(a@)[i as int] != ascii_upper_seq(b@)[i as int]);
            return false;
        }
        i += 1;
    }
    assert(ascii_upper_seq(a@) =~= ascii_upper_seq(b@));
    true
}

/// Compares two strings character by character.
pub fn eq_str(a: &str, b: &str) -> (same: bool)
    ensures
        same == (a@ == b@),
{
    let n = a.unicode_len();
    if b.unicode_len() != n {
        return false;
    }
    let mut i: usize = 0;
    while i < n
        invariant
            n == a@.len(),
            n == b@.len(),
            i <= n,
            forall|j: int| 0 <= j < i ==> a@[j] == b@[j],
        decreases n - i,
    {
        if a.get_char(i) != b.get_char(i) {
            return false;
        }
        i += 1;
    }
    assert(a@ =~= b@);
    true
}

/// The items of a sequence without repetition: each item stands where it
/// stood first.
pub open spec fn distinct<T>(s: Seq<T>) -> Seq<T>
    decreases s.len(),
{
    if s.len() == 0 {
        Seq::empty()
    } else {
        let before = distinct(s.drop_last());
        if before.contains(s.last()) {
            before
        } else {
            before.push(s.last())
        }
    }
}

/// The number of items at the start of a sequence that a predicate accepts,
/// up to the first one that it does not.
pub open spec fn leading_run<T>(s: Seq<T>, accepted: spec_fn(T) -> bool) -> int
    decreases s.len(),
{
    if s.len() > 0 && accepted(s[0]) {
        1 + leading_run(s.skip(1), accepted)
    } else {
        0
    }
}

/// A position is the length of the leading run where every item before it is
/// accepted and the item at it, if there is one, is not.
pub proof fn lemma_leading_run<T>(s: Seq<T>, accepted: spec_fn(T) -> bool, n: int)
    requires
        0 <= n <= s.len(),
        forall|j: int| 0 <= j < n ==> accepted(#[trigger] s[j]),
        n == s.len() || !accepted(s[n]),
    ensures
        leading_run(s, accepted) == n,
    decreases n,
{
    if n > 0 {
        let rest = s.skip(1);
        assert(accepted(s[0]));
        assert forall|j: int| 0 <= j < n - 1 implies accepted(#[trigger] rest[j]) by {
            assert(rest[j] == s[j + 1]);
        }
        if n < s.len() {
            assert(rest[n - 1] == s[n]);
        }
        lemma_leading_run(rest, accepted, n - 1);
    }
}

/// `String::from_iter` over the characters of a vector: the string holds
/// exactly those characters, in order.
#[verifier::external_body]
pub(crate) fn string_from_chars(chars: &Vec<char>) -> (s: String)
    ensures
        s@ == chars@,
{
    String::from_iter(chars.iter())
}

} // verus!
