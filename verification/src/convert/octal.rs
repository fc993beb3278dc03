//! Octal notation: digits `0`-`7`, with `0o` or `0O` allowed before them.

use vstd::prelude::*;
use super::radix::{digits_of, parse_prefixed, prefixed_value, push_digits};
use super::{InputConverter, IntermediateValue, OutputConverter};
use crate::text::string_from_chars;

verus! {

/// What an octal literal is worth.
pub open spec fn oct_value(s: Seq<char>) -> Option<IntermediateValue> {
    prefixed_value(s, 8, 'o')
}

/// How a value is written in octal: no prefix, no leading zeros. A negative
/// value has no octal form.
pub open spec fn oct_text(v: IntermediateValue) -> Option<Seq<char>> {
    if v < 0 {
        None
    } else {
        Some(digits_of(v as nat, 8))
    }
}

/// Input converter that accepts octal numbers as inputs.
pub struct OctInputConverter;

impl InputConverter for OctInputConverter {
    open spec fn reads(&self, input: Seq<char>) -> Option<IntermediateValue> {
        oct_value(input)
    }

    fn convert(&self, input: &str) -> (res: Result<IntermediateValue, ()>) {
        match parse_pos_oct_int(input) {
            Some(val) => Ok(val),
            None => Err(()),
        }
    }
}

/// Output converter that gives octal numbers as outputs.
pub struct OctOutputConverter;

impl OutputConverter for OctOutputConverter {
    open spec fn writes(&self, input: IntermediateValue) -> Option<Seq<char>> {
        oct_text(input)
    }

    fn convert(&self, input: IntermediateValue) -> (res: Result<String, ()>) {
        // Don't encode negative values
        if input < 0 {
            return Err(());
        }
        let mut chars: Vec<char> = Vec::new();
        push_digits(input as u128, 8, &mut chars);
        assert(chars@ =~= digits_of(input as nat, 8));
        Ok(string_from_chars(&chars))
    }
}

/// Parse positive octal integer; the whole input must be one.
pub fn parse_pos_oct_int(input: &str) -> (res: Option<IntermediateValue>)
    ensures
        res == oct_value(input@),
{
    parse_prefixed(input, 8, 'o')
}

} // verus!
