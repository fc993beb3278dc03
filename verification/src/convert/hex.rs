//! Hexadecimal notation: digits `0`-`9` and `a`-`f` in either case, with
//! `0x` or `0X` allowed before them.

use vstd::prelude::*;
use super::radix::{bit_pattern, digits_of, parse_prefixed, prefixed_value, push_digits, to_bit_pattern};
use super::{InputConverter, IntermediateValue, OutputConverter};
use crate::text::string_from_chars;

verus! {

/// What a hexadecimal literal is worth.
pub open spec fn hex_value(s: Seq<char>) -> Option<IntermediateValue> {
    prefixed_value(s, 16, 'x')
}

/// How a value is written in hexadecimal: upper-case digits of its bit
/// pattern, no prefix, no leading zeros.
pub open spec fn hex_text(v: IntermediateValue) -> Seq<char> {
    digits_of(bit_pattern(v), 16)
}

/// Input converter that accepts hexadecimal numbers as inputs.
pub struct HexInputConverter;

impl InputConverter for HexInputConverter {
    open spec fn reads(&self, input: Seq<char>) -> Option<IntermediateValue> {
        hex_value(input)
    }

    fn convert(&self, input: &str) -> (res: Result<IntermediateValue, ()>) {
        match parse_pos_hex_int(input) {
            Some(val) => Ok(val),
            None => Err(()),
        }
    }
}

/// Output converter that gives hexadecimal numbers as outputs.
pub struct HexOutputConverter;

impl OutputConverter for HexOutputConverter {
    open spec fn writes(&self, input: IntermediateValue) -> Option<Seq<char>> {
        Some(hex_text(input))
    }

    fn convert(&self, input: IntermediateValue) -> (res: Result<String, ()>) {
        let mut chars: Vec<char> = Vec::new();
        push_digits(to_bit_pattern(input), 16, &mut chars);
        assert(chars@ =~= hex_text(input));
        Ok(string_from_chars(&chars))
    }
}

/// Parse positive hexadecimal integer; the whole input must be one.
pub fn parse_pos_hex_int(input: &str) -> (res: Option<IntermediateValue>)
    ensures
        res == hex_value(input@),
{
    parse_prefixed(input, 16, 'x')
}

} // verus!
