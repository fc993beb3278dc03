//! Printable ASCII: one character from the space to the tilde stands for its
//! code.

use vstd::prelude::*;
use vstd::string::*;
use super::{InputConverter, IntermediateValue, OutputConverter};
use crate::text::string_from_chars;

verus! {

/// What an ASCII literal is worth: the code of its one character, which must
/// be printable.
pub open spec fn ascii_value(s: Seq<char>) -> Option<IntermediateValue> {
    if s.len() == 1 && 32 <= s[0] as int <= 126 {
        Some(s[0] as i128)
    } else {
        None
    }
}

/// How a value is written as a character: the character between single
/// quotes, where the value is the code of a printable one.
pub open spec fn ascii_text(v: IntermediateValue) -> Option<Seq<char>> {
    if 32 <= v <= 126 {
        Some(seq!['\'', v as char, '\''])
    } else {
        None
    }
}

/// Input converter that accepts ascii characters as inputs.
pub struct AsciiInputConverter;

impl InputConverter for AsciiInputConverter {
    open spec fn reads(&self, input: Seq<char>) -> Option<IntermediateValue> {
        ascii_value(input)
    }

    fn convert(&self, input: &str) -> (res: Result<IntermediateValue, ()>) {
        match parse_ascii_char(input) {
            Some(val) => Ok(val),
            None => Err(()),
        }
    }
}

/// Output converter that gives ascii characters as outputs.
pub struct AsciiOutputConverter;

impl OutputConverter for AsciiOutputConverter {
    open spec fn writes(&self, input: IntermediateValue) -> Option<Seq<char>> {
        ascii_text(input)
    }

    fn convert(&self, input: IntermediateValue) -> (res: Result<String, ()>) {
        // Don't encode non printable characters
        if input < 32 || input > 126 {
            return Err(());
        }
        let code: u8 = input as u8;
        let mut chars: Vec<char> = Vec::new();
        chars.push('\'');
        chars.push(code as char);
        chars.push('\'');
        assert(chars@ =~= seq!['\'', input as char, '\'']);
        Ok(string_from_chars(&chars))
    }
}

/// Parse one printable character; the whole input must be that character.
pub fn parse_ascii_char(input: &str) -> (res: Option<IntermediateValue>)
    ensures
        res == ascii_value(input@),
{
    if input.unicode_len() != 1 {
        return None;
    }
    let c = input.get_char(0);
    // Error on non printable characters
    if c < ' ' || c > '~' {
        None
    } else {
        Some((c as u8) as i128)
    }
}

} // verus!
