//! Positional notation in a base from 2 to 16: what a run of digits is worth,
//! how a number is written, and the executable code for both directions.

use vstd::prelude::*;
use vstd::string::*;

verus! {

/// What a character is worth as a digit, whatever the base: `0`-`9`, then
/// `a`-`f` or `A`-`F` for ten to fifteen. Any other character gives 16.
pub open spec fn char_digit(c: char) -> int {
    if '0' <= c && c <= '9' {
        c as int - 48
    } else if 'a' <= c && c <= 'f' {
        c as int - 87
    } else if 'A' <= c && c <= 'F' {
        c as int - 55
    } else {
        16
    }
}

/// Whether a character is a digit of the given base.
pub open spec fn is_digit(c: char, base: int) -> bool {
    char_digit(c) < base
}

/// Whether a sequence is a run of at least one digit of the given base.
pub open spec fn is_digit_run(s: Seq<char>, base: int) -> bool {
    s.len() > 0 && forall|i: int| 0 <= i < s.len() ==> is_digit(#[trigger] s[i], base)
}

/// The number that a sequence of digits writes in the given base, the first
/// digit being the most significant one.
pub open spec fn digits_value(s: Seq<char>, base: int) -> int
    decreases s.len(),
{
    if s.len() == 0 {
        0
    } else {
        digits_value(s.drop_last(), base) * base + char_digit(s.last())
    }
}

/// The value of a run of digits, where the sequence is one and the number
/// fits the intermediate type.
pub open spec fn run_value(s: Seq<char>, base: int) -> Option<i128> {
    if is_digit_run(s, base) && digits_value(s, base) <= i128::MAX {
        Some(digits_value(s, base) as i128)
    } else {
        None
    }
}

/// Whether a sequence starts with `0` and the given lower-case letter in
/// either case.
pub open spec fn has_radix_prefix(s: Seq<char>, mark: char) -> bool {
    s.len() >= 2 && s[0] == '0' && (s[1] == mark || s[1] == crate::text::ascii_upper(mark))
}

/// The value of a literal in a base that has a prefix: the prefix, if it is
/// there, is skipped, and what follows must be a run of digits.
pub open spec fn prefixed_value(s: Seq<char>, base: int, mark: char) -> Option<i128> {
    if has_radix_prefix(s, mark) {
        run_value(s.skip(2), base)
    } else {
        run_value(s, base)
    }
}

/// The digit character for a number below sixteen, letters in upper case.
pub open spec fn digit_char(d: int) -> char {
    if d < 10 {
        (48 + d) as char
    } else {
        (55 + d) as char
    }
}

/// How a natural number is written in the given base: no leading zeros, and
/// `0` for zero.
pub open spec fn digits_of(n: nat, base: int) -> Seq<char>
    decreases n,
    via digits_of_decreases
{
    if base < 2 || n < base {
        seq![digit_char(n as int)]
    } else {
        digits_of(n / (base as nat), base).push(digit_char((n % (base as nat)) as int))
    }
}

#[via_fn]
proof fn digits_of_decreases(n: nat, base: int) {
    if !(base < 2 || n < base) {
        lemma_quotient_smaller(n, base);
    }
}

/// Dividing a number by a base of at least two makes it smaller, where the
/// number is not below the base.
pub proof fn lemma_quotient_smaller(n: nat, base: int)
    requires
        2 <= base <= n,
    ensures
        0 < n / (base as nat) < n,
{
    assert(0 < n as int / base < n) by (nonlinear_arith)
        requires
            2 <= base <= n,
    ;
}

/// A run of digits is worth no less than any of its prefixes.
pub proof fn lemma_value_grows(s: Seq<char>, k: int, base: int)
    requires
        2 <= base <= 16,
        0 <= k <= s.len(),
        forall|i: int| 0 <= i < s.len() ==> is_digit(#[trigger] s[i], base),
    ensures
        0 <= digits_value(s.take(k), base) <= digits_value(s, base),
    decreases s.len() - k,
{
    lemma_value_nonnegative(s.take(k), base);
    if k < s.len() {
        lemma_value_grows(s, k + 1, base);
        let longer = s.take(k + 1);
        assert(longer.drop_last() =~= s.take(k));
        assert(is_digit(s[k], base));
        assert(longer.last() == s[k]);
        let v = digits_value(s.take(k), base);
        assert(v * base >= v) by (nonlinear_arith)
            requires
                v >= 0,
                base >= 2,
        ;
    } else {
        assert(s.take(k) =~= s);
    }
}

/// A sequence of digits is worth at least zero.
pub proof fn lemma_value_nonnegative(s: Seq<char>, base: int)
    requires
        2 <= base <= 16,
    ensures
        0 <= digits_value(s, base),
    decreases s.len(),
{
    if s.len() > 0 {
        lemma_value_nonnegative(s.drop_last(), base);
        let v = digits_value(s.drop_last(), base);
        assert(v * base >= 0) by (nonlinear_arith)
            requires
                v >= 0,
                base >= 2,
        ;
    }
}

/// The value of one character as a digit; 16 where it is no digit at all.
pub fn digit_value(c: char) -> (d: u8)
    ensures
        d == char_digit(c),
        d <= 16,
{
    if '0' <= c && c <= '9' {
        (c as u8) - 48
    } else if 'a' <= c && c <= 'f' {
        (c as u8) - 87
    } else if 'A' <= c && c <= 'F' {
        (c as u8) - 55
    } else {
        16
    }
}

/// Reads the characters of `input` from position `start` to the end as one
/// run of digits in the given base.
pub fn parse_digits(input: &str, start: usize, base: u8) -> (res: Option<i128>)
    requires
        start <= input@.len(),
        2 <= base <= 16,
    ensures
        res == run_value(input@.skip(start as int), base as int),
        res matches Some(val) ==> val >= 0,
{
    let n = input.unicode_len();
    let ghost run = input@.skip(start as int);
    if start == n {
        return None;
    }
    let mut acc: i128 = 0;
    let mut i: usize = start;
    while i < n
        invariant
            n == input@.len(),
            start <= i <= n,
            2 <= base <= 16,
            run == input@.skip(start as int),
            forall|j: int| 0 <= j < i - start ==> is_digit(#[trigger] run[j], base as int),
            acc == digits_value(run.take(i - start), base as int),
            0 <= acc,
        decreases n - i,
    {
        let d = digit_value(input.get_char(i));
        assert(run[i - start] == input@[i as int]);
        if d >= base {
            return None;
        }
        proof {
            assert(run.take(i - start + 1).drop_last() =~= run.take(i - start));
            assert(run.take(i - start + 1).last() == run[i - start]);
            if acc * base + d > i128::MAX {
                if is_digit_run(run, base as int) {
                    lemma_value_grows(run, i - start + 1, base as int);
                }
            }
            assert(acc * base >= 0) by (nonlinear_arith)
                requires
                    acc >= 0,
                    base >= 2,
            ;
        }
        let shifted = match acc.checked_mul(base as i128) {
            Some(v) => v,
            None => {
                return None;
            },
        };
        acc = match shifted.checked_add(d as i128) {
            Some(v) => v,
            None => {
                return None;
            },
        };
        i += 1;
    }
    assert(run.take(i - start) =~= run);
    Some(acc)
}

/// Reads the whole of `input` as a literal in a base that has a prefix: `0`
/// and `mark` in either case may stand first, and a run of digits follows.
/// `mark` is a lower-case letter.
pub fn parse_prefixed(input: &str, base: u8, mark: char) -> (res: Option<i128>)
    requires
        2 <= base <= 16,
    ensures
        res == prefixed_value(input@, base as int, mark),
{
    let n = input.unicode_len();
    if n >= 2 && input.get_char(0) == '0' {
        let second = input.get_char(1);
        if second == mark || second == crate::text::to_ascii_upper(mark) {
            return parse_digits(input, 2, base);
        }
    }
    assert(input@.skip(0) =~= input@);
    parse_digits(input, 0, base)
}

/// The 128 bits of a value read as a natural number: the value itself where
/// it is not negative, and the value plus two to the power 128 where it is.
pub open spec fn bit_pattern(v: i128) -> nat {
    if v < 0 {
        (v + 0x1_0000_0000_0000_0000_0000_0000_0000_0000) as nat
    } else {
        v as nat
    }
}

/// The bit pattern of a value, as an unsigned number.
pub fn to_bit_pattern(v: i128) -> (bits: u128)
    ensures
        bits == bit_pattern(v),
{
    if v >= 0 {
        v as u128
    } else {
        u128::MAX - ((-(v + 1)) as u128)
    }
}

/// The character that writes a digit below sixteen.
pub fn digit_to_char(d: u8) -> (c: char)
    requires
        d < 16,
    ensures
        c == digit_char(d as int),
{
    if d < 10 {
        (48 + d) as char
    } else {
        (55 + d) as char
    }
}

/// Appends to `out` the digits of `n` in the given base.
pub fn push_digits(n: u128, base: u8, out: &mut Vec<char>)
    requires
        2 <= base <= 16,
    ensures
        final(out)@ == old(out)@ + digits_of(n as nat, base as int),
    decreases n,
{
    let wide: u128 = base as u128;
    if n < wide {
        out.push(digit_to_char(n as u8));
        assert(final(out)@ =~= old(out)@ + digits_of(n as nat, base as int));
    } else {
        proof {
            lemma_quotient_smaller(n as nat, base as int);
        }
        push_digits(n / wide, base, out);
        out.push(digit_to_char((n % wide) as u8));
        assert(final(out)@ =~= old(out)@ + digits_of(n as nat, base as int));
    }
}

} // verus!
