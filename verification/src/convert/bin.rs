//! Binary notation: digits `0` and `1`, with `0b` or `0B` allowed before
//! them.

use vstd::prelude::*;
use super::radix::{bit_pattern, digits_of, parse_prefixed, prefixed_value, push_digits, to_bit_pattern};
use super::{InputConverter, IntermediateValue, OutputConverter};
use crate::text::string_from_chars;

verus! {

/// What a binary literal is worth.
pub open spec fn bin_value(s: Seq<char>) -> Option<IntermediateValue> {
    prefixed_value(s, 2, 'b')
}

/// How a value is written in binary: the digits of its bit pattern, no
/// prefix, no leading zeros.
pub open spec fn bin_text(v: IntermediateValue) -> Seq<char> {
    digits_of(bit_pattern(v), 2)
}

/// Input converter that accepts binary numbers as inputs.
pub struct BinInputConverter;

impl InputConverter for BinInputConverter {
    open spec fn reads(&self, input: Seq<char>) -> Option<IntermediateValue> {
        bin_value(input)
    }

    fn convert(&self, input: &str) -> (res: Result<IntermediateValue, ()>) {
        match parse_pos_bin_int(input) {
            Some(val) => Ok(val),
            None => Err(()),
        }
    }
}

/// Output converter that gives binary numbers as outputs.
pub struct BinOuptutConverter;

impl OutputConverter for BinOuptutConverter {
    open spec fn writes(&self, input: IntermediateValue) -> Option<Seq<char>> {
        Some(bin_text(input))
    }

    fn convert(&self, input: IntermediateValue) -> (res: Result<String, ()>) {
        let mut chars: Vec<char> = Vec::new();
        push_digits(to_bit_pattern(input), 2, &mut chars);
        assert(chars@ =~= bin_text(input));
        Ok(string_from_chars(&chars))
    }
}

/// Parse positive binary integer; the whole input must be one.
pub fn parse_pos_bin_int(input: &str) -> (res: Option<IntermediateValue>)
    ensures
        res == bin_value(input@),
{
    parse_prefixed(input, 2, 'b')
}

} // verus!
