//! Text for the terminal: the messages of the errors, and the alignment of
//! the names under which results are shown.

use vstd::prelude::*;
use vstd::string::*;
use crate::convert::conv_types::{lemma_display_names, longest_name};
use crate::convert::{ConversionError, ConversionOutput, ConversionResult, OutputConverterType};
use crate::ordered::{output_map_to_vec, result_map_to_vec};
use crate::opts::ArgParseError;
use crate::text::string_from_chars;

verus! {

/// A sequence of spaces of the given length.
pub open spec fn spaces(n: int) -> Seq<char> {
    Seq::new(n as nat, |i: int| ' ')
}

/// The number of spaces that bring a text of `len` bytes to `size` columns.
pub open spec fn padding(len: int, size: int) -> int {
    if size > len {
        size - len
    } else {
        0
    }
}

/// Right aligns a string to a column of given size, adding spaces on the
/// left as necessary. The size of the string is its length in bytes.
pub fn right_align(string: &str, size: usize) -> (aligned: String)
    ensures
        aligned@ == spaces(padding(string.spec_bytes().len() as int, size as int)) + string@,
{
    let len = string.as_bytes().len();
    let ghost pad = padding(len as int, size as int);
    // Add spaces to beginning
    let mut blank: Vec<char> = Vec::new();
    let mut i: usize = len;
    while i < size
        invariant
            len <= i,
            i <= size || i == len,
            blank@ == spaces(i - len),
        decreases size - i,
    {
        blank.push(' ');
        assert(blank@ =~= spaces(i + 1 - len));
        i += 1;
    }
    assert(blank@ =~= spaces(pad));
    let mut outstr = string_from_chars(&blank);

    // Add string
    outstr.append(string);
    outstr
}

/// The name of an output converter as it heads a line of results: aligned
/// to the right in a column as wide as the longest of these names.
pub open spec fn aligned_name(outconv: OutputConverterType) -> Seq<char> {
    spaces(longest_name() - outconv.display_name().len()) + outconv.display_name()
}

/// The lines that show a result: for each entry, the aligned name of the
/// output converter and the text.
pub open spec fn result_rows(entries: Seq<(OutputConverterType, Seq<char>)>) -> Seq<
    (Seq<char>, Seq<char>),
> {
    Seq::new(entries.len(), |i: int| (aligned_name(entries[i].0), entries[i].1))
}

/// A line of results as sequences of characters.
pub open spec fn row_view(row: (String, String)) -> (Seq<char>, Seq<char>) {
    (row.0@, row.1@)
}

/// Lines of results as sequences of characters.
pub open spec fn rows_view(rows: Seq<(String, String)>) -> Seq<(Seq<char>, Seq<char>)> {
    Seq::new(rows.len(), |i: int| row_view(rows[i]))
}

impl ConversionResult {
    /// The lines that show this result, in order: the name of each output
    /// converter, aligned to the right, and the text under it.
    pub fn rows(&self) -> (rows: Vec<(String, String)>)
        ensures
            rows_view(rows@) == result_rows(self@),
    {
        let width = OutputConverterType::max_str_len();
        let entries = result_map_to_vec(&self.inner);
        let mut rows: Vec<(String, String)> = Vec::new();
        let mut i: usize = 0;
        while i < entries.len()
            invariant
                i <= entries@.len(),
                width == longest_name(),
                entries@.len() == self@.len(),
                forall|j: int| 0 <= j < entries@.len() ==> (#[trigger] entries@[j]).0 == self@[j].0
                    && entries@[j].1@ == self@[j].1,
                rows@.len() == i,
                forall|j: int| 0 <= j < i ==> row_view(#[trigger] rows@[j]) == result_rows(self@)[j],
            decreases entries@.len() - i,
        {
            let name = entries[i].0.to_string();
            proof {
                lemma_display_names(entries@[i as int].0);
                vstd::utf8::is_ascii_chars_encode_utf8(name@);
            }
            let label = right_align(name.as_str(), width);
            rows.push((label, entries[i].1.clone()));
            i += 1;
        }
        assert(rows_view(rows@) =~= result_rows(self@));
        rows
    }
}

impl ConversionOutput {
    /// What is shown of the output, in order: for each input converter that
    /// gave a result, its name and the lines of the result.
    pub fn sections(&self) -> (sections: Vec<(String, Vec<(String, String)>)>)
        ensures
            sections@.len() == self@.len(),
            forall|i: int|
                0 <= i < sections@.len() ==> (#[trigger] sections@[i]).0@ == self@[i].0.display_name()
                    && rows_view(sections@[i].1@) == result_rows(self@[i].1),
    {
        let entries = output_map_to_vec(&self.inner);
        let mut sections: Vec<(String, Vec<(String, String)>)> = Vec::new();
        let mut i: usize = 0;
        while i < entries.len()
            invariant
                i <= entries@.len(),
                entries@.len() == self@.len(),
                forall|j: int| 0 <= j < entries@.len() ==> (#[trigger] entries@[j]).0 == self@[j].0
                    && entries@[j].1@ == self@[j].1,
                sections@.len() == i,
                forall|j: int|
                    0 <= j < i ==> (#[trigger] sections@[j]).0@ == self@[j].0.display_name()
                        && rows_view(sections@[j].1@) == result_rows(self@[j].1),
            decreases entries@.len() - i,
        {
            let name = entries[i].0.to_string();
            let rows = entries[i].1.rows();
            sections.push((name, rows));
            i += 1;
        }
        sections
    }
}

impl<'a> ArgParseError<'a> {
    /// The text of the message, as a specification.
    pub open spec fn message(self) -> Seq<char> {
        match self {
            ArgParseError::MissingInput => "input value is required"@,
            ArgParseError::UnknownOutputConverter(conv) => "unknown ouptut converter: \""@ + conv@
                + "\""@,
            ArgParseError::Eof => "missing required argument"@,
            ArgParseError::GracefulExit => Seq::empty(),
        }
    }

    /// The message that tells the user what is wrong with the command line.
    /// A graceful exit has none: it is never displayed.
    pub fn to_string(&self) -> (text: String)
        ensures
            text@ == self.message(),
    {
        match self {
            Self::MissingInput => String::from_str("input value is required"),
            Self::UnknownOutputConverter(conv) => {
                let mut text = String::from_str("unknown ouptut converter: \"");
                text.append(conv);
                text.append("\"");
                text
            },
            Self::Eof => String::from_str("missing required argument"),
            Self::GracefulExit => String::new(),
        }
    }
}

impl ConversionError {
    /// The message that tells the user why nothing was converted.
    pub fn to_string(&self) -> (text: String)
        ensures
            text@ == "no results"@,
    {
        match self {
            ConversionError::NoResults => String::from_str("no results"),
        }
    }
}

} // verus!
