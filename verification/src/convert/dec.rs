//! Decimal notation: digits `0`-`9`, with `-` before them for a negative
//! number.

use vstd::prelude::*;
use vstd::string::*;
use super::radix::{digits_of, parse_digits, push_digits, run_value};
use super::{InputConverter, IntermediateValue, OutputConverter};
use crate::text::string_from_chars;

verus! {

/// What a decimal literal is worth: a run of digits, or `-` and a run of
/// digits for the negated number. The magnitude must fit the intermediate
/// type on its own.
pub open spec fn dec_value(s: Seq<char>) -> Option<IntermediateValue> {
    if s.len() > 0 && s[0] == '-' {
        match run_value(s.skip(1), 10) {
            Some(v) => Some((-v) as i128),
            None => None,
        }
    } else {
        run_value(s, 10)
    }
}

/// How a value is written in decimal: no leading zeros, `-` first for a
/// negative one.
pub open spec fn dec_text(v: IntermediateValue) -> Seq<char> {
    if v < 0 {
        seq!['-'] + digits_of((-v) as nat, 10)
    } else {
        digits_of(v as nat, 10)
    }
}

/// Input converter that accepts decimal numbers as inputs.
pub struct DecInputConverter;

impl InputConverter for DecInputConverter {
    open spec fn reads(&self, input: Seq<char>) -> Option<IntermediateValue> {
        dec_value(input)
    }

    fn convert(&self, input: &str) -> (res: Result<IntermediateValue, ()>) {
        match parse_dec_int(input) {
            Some(val) => Ok(val),
            None => Err(()),
        }
    }
}

/// Output converter that gives decimal numbers as outputs.
pub struct DecOutputConverter;

impl OutputConverter for DecOutputConverter {
    open spec fn writes(&self, input: IntermediateValue) -> Option<Seq<char>> {
        Some(dec_text(input))
    }

    fn convert(&self, input: IntermediateValue) -> (res: Result<String, ()>) {
        let mut chars: Vec<char> = Vec::new();
        if input < 0 {
            chars.push('-');
            let magnitude: u128 = ((-(input + 1)) as u128) + 1;
            push_digits(magnitude, 10, &mut chars);
        } else {
            push_digits(input as u128, 10, &mut chars);
        }
        assert(chars@ =~= dec_text(input));
        Ok(string_from_chars(&chars))
    }
}

/// Parse decimal integer, negative or not; the whole input must be one.
pub fn parse_dec_int(input: &str) -> (res: Option<IntermediateValue>)
    ensures
        res == dec_value(input@),
{
    match parse_neg_dec_int(input) {
        Some(val) => Some(val),
        None => {
            proof {
                if input@.len() > 0 && input@[0] == '-' {
                    assert(!super::radix::is_digit(input@[0], 10));
                }
            }
            parse_pos_dec_int(input)
        },
    }
}

/// Parse negative decimal integer: `-`, then digits to the end of the input.
pub fn parse_neg_dec_int(input: &str) -> (res: Option<IntermediateValue>)
    ensures
        res == if input@.len() > 0 && input@[0] == '-' {
            dec_value(input@)
        } else {
            None
        },
{
    if input.unicode_len() > 0 && input.get_char(0) == '-' {
        match parse_digits(input, 1, 10) {
            Some(val) => Some(-val),
            None => None,
        }
    } else {
        None
    }
}

/// Parse positive decimal integer: digits to the end of the input.
pub fn parse_pos_dec_int(input: &str) -> (res: Option<IntermediateValue>)
    ensures
        res == run_value(input@, 10),
{
    assert(input@.skip(0) =~= input@);
    parse_digits(input, 0, 10)
}

} // verus!
