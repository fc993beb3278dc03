//! The closed sets of format tags, one for the input side and one for the
//! output side, with the names by which a tag is chosen and shown and the
//! converter that belongs to each.

use vstd::prelude::*;
use vstd::string::*;
use super::ascii::{ascii_text, ascii_value, AsciiInputConverter, AsciiOutputConverter};
use super::bin::{bin_text, bin_value, BinInputConverter, BinOuptutConverter};
use super::dec::{dec_text, dec_value, DecInputConverter, DecOutputConverter};
use super::hex::{hex_text, hex_value, HexInputConverter, HexOutputConverter};
use super::octal::{oct_text, oct_value, OctInputConverter, OctOutputConverter};
use super::{InputConverter, IntermediateValue, OutputConverter};
use crate::text::{ascii_upper_seq, eq_ignore_ascii_case};

verus! {

/// The five names of the notations, by position: `DEC`, `HEX`, `BIN`, `OCT`,
/// `ASCII`. A token names a notation where it equals one of them without
/// regard to case; the result is the position, or 5 for no notation.
pub open spec fn named_position(token: Seq<char>) -> u8 {
    let upper = ascii_upper_seq(token);
    if upper == seq!['D', 'E', 'C'] {
        0
    } else if upper == seq!['H', 'E', 'X'] {
        1
    } else if upper == seq!['B', 'I', 'N'] {
        2
    } else if upper == seq!['O', 'C', 'T'] {
        3
    } else if upper == seq!['A', 'S', 'C', 'I', 'I'] {
        4
    } else {
        5
    }
}

/// The position of the notation that a token names, as `named_position`
/// defines it.
pub fn name_position(token: &str) -> (pos: u8)
    ensures
        pos == named_position(token@),
{
    proof {
        reveal_strlit("DEC");
        reveal_strlit("HEX");
        reveal_strlit("BIN");
        reveal_strlit("OCT");
        reveal_strlit("ASCII");
        assert(ascii_upper_seq("DEC"@) =~= seq!['D', 'E', 'C']);
        assert(ascii_upper_seq("HEX"@) =~= seq!['H', 'E', 'X']);
        assert(ascii_upper_seq("BIN"@) =~= seq!['B', 'I', 'N']);
        assert(ascii_upper_seq("OCT"@) =~= seq!['O', 'C', 'T']);
        assert(ascii_upper_seq("ASCII"@) =~= seq!['A', 'S', 'C', 'I', 'I']);
    }
    if eq_ignore_ascii_case(token, "DEC") {
        0
    } else if eq_ignore_ascii_case(token, "HEX") {
        1
    } else if eq_ignore_ascii_case(token, "BIN") {
        2
    } else if eq_ignore_ascii_case(token, "OCT") {
        3
    } else if eq_ignore_ascii_case(token, "ASCII") {
        4
    } else {
        5
    }
}

/// The output converter of one of the notations.
pub enum AnyOutputConverter {
    Dec(DecOutputConverter),
    Hex(HexOutputConverter),
    Bin(BinOuptutConverter),
    Oct(OctOutputConverter),
    Ascii(AsciiOutputConverter),
}

impl OutputConverter for AnyOutputConverter {
    open spec fn writes(&self, input: IntermediateValue) -> Option<Seq<char>> {
        match self {
            AnyOutputConverter::Dec(conv) => conv.writes(input),
            AnyOutputConverter::Hex(conv) => conv.writes(input),
            AnyOutputConverter::Bin(conv) => conv.writes(input),
            AnyOutputConverter::Oct(conv) => conv.writes(input),
            AnyOutputConverter::Ascii(conv) => conv.writes(input),
        }
    }

    fn convert(&self, input: IntermediateValue) -> (res: Result<String, ()>) {
        match self {
            AnyOutputConverter::Dec(conv) => conv.convert(input),
            AnyOutputConverter::Hex(conv) => conv.convert(input),
            AnyOutputConverter::Bin(conv) => conv.convert(input),
            AnyOutputConverter::Oct(conv) => conv.convert(input),
            AnyOutputConverter::Ascii(conv) => conv.convert(input),
        }
    }
}

/// The input converter of one of the notations.
pub enum AnyInputConverter {
    Dec(DecInputConverter),
    Hex(HexInputConverter),
    Bin(BinInputConverter),
    Oct(OctInputConverter),
    Ascii(AsciiInputConverter),
}

impl InputConverter for AnyInputConverter {
    open spec fn reads(&self, input: Seq<char>) -> Option<IntermediateValue> {
        match self {
            AnyInputConverter::Dec(conv) => conv.reads(input),
            AnyInputConverter::Hex(conv) => conv.reads(input),
            AnyInputConverter::Bin(conv) => conv.reads(input),
            AnyInputConverter::Oct(conv) => conv.reads(input),
            AnyInputConverter::Ascii(conv) => conv.reads(input),
        }
    }

    fn convert(&self, input: &str) -> (res: Result<IntermediateValue, ()>) {
        match self {
            AnyInputConverter::Dec(conv) => conv.convert(input),
            AnyInputConverter::Hex(conv) => conv.convert(input),
            AnyInputConverter::Bin(conv) => conv.convert(input),
            AnyInputConverter::Oct(conv) => conv.convert(input),
            AnyInputConverter::Ascii(conv) => conv.convert(input),
        }
    }
}

/// Types of output converter.
#[derive(Debug, PartialEq, Eq, Hash, Clone, Copy, Structural)]
pub enum OutputConverterType {
    DEC,
    HEX,
    BIN,
    OCT,
    ASCII,
}

impl OutputConverterType {
    /// The text that this notation gives for a value, if it has one for it.
    pub open spec fn writes(self, input: IntermediateValue) -> Option<Seq<char>> {
        match self {
            OutputConverterType::DEC => Some(dec_text(input)),
            OutputConverterType::HEX => Some(hex_text(input)),
            OutputConverterType::BIN => Some(bin_text(input)),
            OutputConverterType::OCT => oct_text(input),
            OutputConverterType::ASCII => ascii_text(input),
        }
    }

    /// The tag that a token names, without regard to case.
    pub open spec fn named(token: Seq<char>) -> Option<OutputConverterType> {
        match named_position(token) {
            0 => Some(OutputConverterType::DEC),
            1 => Some(OutputConverterType::HEX),
            2 => Some(OutputConverterType::BIN),
            3 => Some(OutputConverterType::OCT),
            4 => Some(OutputConverterType::ASCII),
            _ => None,
        }
    }

    /// The name under which results in this notation are shown.
    pub open spec fn display_name(self) -> Seq<char> {
        match self {
            OutputConverterType::DEC => "decimal"@,
            OutputConverterType::HEX => "hexadecimal"@,
            OutputConverterType::BIN => "binary"@,
            OutputConverterType::OCT => "octal"@,
            OutputConverterType::ASCII => "ascii"@,
        }
    }

    /// Get output converter of the specific type.
    pub fn get_converter(&self) -> (conv: AnyOutputConverter)
        ensures
            forall|input: IntermediateValue| #[trigger] conv.writes(input) == self.writes(input),
    {
        match self {
            OutputConverterType::DEC => AnyOutputConverter::Dec(DecOutputConverter),
            OutputConverterType::BIN => AnyOutputConverter::Bin(BinOuptutConverter),
            OutputConverterType::HEX => AnyOutputConverter::Hex(HexOutputConverter),
            OutputConverterType::OCT => AnyOutputConverter::Oct(OctOutputConverter),
            OutputConverterType::ASCII => AnyOutputConverter::Ascii(AsciiOutputConverter),
        }
    }

    /// Read a tag from its name, in either case.
    pub fn from_str(s: &str) -> (res: Result<Self, ()>)
        ensures
            res == match Self::named(s@) {
                Some(tag) => Ok::<Self, ()>(tag),
                None => Err::<Self, ()>(()),
            },
    {
        match name_position(s) {
            0 => Ok(Self::DEC),
            1 => Ok(Self::HEX),
            2 => Ok(Self::BIN),
            3 => Ok(Self::OCT),
            4 => Ok(Self::ASCII),
            _ => Err(()),
        }
    }

    /// The name under which results in this notation are shown.
    pub fn to_string(&self) -> (name: String)
        ensures
            name@ == self.display_name(),
    {
        match self {
            OutputConverterType::DEC => String::from_str("decimal"),
            OutputConverterType::BIN => String::from_str("binary"),
            OutputConverterType::HEX => String::from_str("hexadecimal"),
            OutputConverterType::OCT => String::from_str("octal"),
            OutputConverterType::ASCII => String::from_str("ascii"),
        }
    }

    /// Compute maximum length in output converter type names
    /// (used for aligned display).
    pub fn max_str_len() -> (width: usize)
        ensures
            width == longest_name(),
            forall|tag: OutputConverterType| #[trigger] tag.display_name().len() <= width,
            exists|tag: OutputConverterType| #[trigger] tag.display_name().len() == width,
    {
        proof {
            lemma_display_names(OutputConverterType::HEX);
        }
        let tags = crate::constants::default_outconvs();
        let mut width: usize = 0;
        let mut i: usize = 0;
        while i < tags.len()
            invariant
                i <= tags.len(),
                tags@ == crate::constants::all_outconvs(),
                forall|j: int| 0 <= j < i ==> (#[trigger] tags@[j]).display_name().len() <= width,
                i > 0 ==> exists|j: int| 0 <= j < i && (#[trigger] tags@[j]).display_name().len() == width,
            decreases tags.len() - i,
        {
            let len = tags[i].to_string().as_str().unicode_len();
            if i == 0 || len > width {
                width = len;
            }
            i += 1;
        }
        proof {
            assert forall|tag: OutputConverterType| #[trigger] tag.display_name().len() <= width by {
                crate::constants::lemma_all_outconvs(tag);
            }
            let longest = choose|j: int| 0 <= j < i && (#[trigger] tags@[j]).display_name().len() == width;
            lemma_display_names(tags@[longest]);
        }
        width
    }
}

impl std::str::FromStr for OutputConverterType {
    type Err = ();

    fn from_str(s: &str) -> (res: Result<Self, Self::Err>)
        ensures
            res == match Self::named(s@) {
                Some(tag) => Ok::<Self, ()>(tag),
                None => Err::<Self, ()>(()),
            },
    {
        OutputConverterType::from_str(s)
    }
}

/// The length of the longest name under which results are shown.
pub open spec fn longest_name() -> int {
    OutputConverterType::HEX.display_name().len() as int
}

/// The names under which results are shown hold ASCII characters only, and
/// none is longer than that of the hexadecimal notation.
pub proof fn lemma_display_names(tag: OutputConverterType)
    ensures
        vstd::utf8::is_ascii_chars(tag.display_name()),
        tag.display_name().len() <= longest_name() == 11,
{
    reveal_strlit("decimal");
    reveal_strlit("hexadecimal");
    reveal_strlit("binary");
    reveal_strlit("octal");
    reveal_strlit("ascii");
}

/// Types of input converter.
#[derive(Debug, PartialEq, Eq, Hash, Clone, Copy, Structural)]
pub enum InputConverterType {
    DEC,
    HEX,
    BIN,
    OCT,
    ASCII,
}

impl InputConverterType {
    /// The value that this notation reads from a literal, if it reads one.
    pub open spec fn reads(self, input: Seq<char>) -> Option<IntermediateValue> {
        match self {
            InputConverterType::DEC => dec_value(input),
            InputConverterType::HEX => hex_value(input),
            InputConverterType::BIN => bin_value(input),
            InputConverterType::OCT => oct_value(input),
            InputConverterType::ASCII => ascii_value(input),
        }
    }

    /// The tag that a token names, without regard to case.
    pub open spec fn named(token: Seq<char>) -> Option<InputConverterType> {
        match named_position(token) {
            0 => Some(InputConverterType::DEC),
            1 => Some(InputConverterType::HEX),
            2 => Some(InputConverterType::BIN),
            3 => Some(InputConverterType::OCT),
            4 => Some(InputConverterType::ASCII),
            _ => None,
        }
    }

    /// The name under which this notation is shown.
    pub open spec fn display_name(self) -> Seq<char> {
        self.twin().display_name()
    }

    /// The output tag that names the same notation as this input tag.
    pub open spec fn twin(self) -> OutputConverterType {
        match self {
            InputConverterType::DEC => OutputConverterType::DEC,
            InputConverterType::HEX => OutputConverterType::HEX,
            InputConverterType::BIN => OutputConverterType::BIN,
            InputConverterType::OCT => OutputConverterType::OCT,
            InputConverterType::ASCII => OutputConverterType::ASCII,
        }
    }

    /// Get input converter of the specific type.
    pub fn get_converter(&self) -> (conv: AnyInputConverter)
        ensures
            forall|input: Seq<char>| #[trigger] conv.reads(input) == self.reads(input),
    {
        match self {
            InputConverterType::DEC => AnyInputConverter::Dec(DecInputConverter),
            InputConverterType::BIN => AnyInputConverter::Bin(BinInputConverter),
            InputConverterType::HEX => AnyInputConverter::Hex(HexInputConverter),
            InputConverterType::OCT => AnyInputConverter::Oct(OctInputConverter),
            InputConverterType::ASCII => AnyInputConverter::Ascii(AsciiInputConverter),
        }
    }

    /// Check if an output converter should not be paired with this input
    /// converter: a value is never rendered back into the notation it was
    /// read from.
    pub fn is_outconv_excluded(&self, outconv: &OutputConverterType) -> (excluded: bool)
        ensures
            excluded == (*outconv == self.twin()),
    {
        match self {
            Self::BIN => *outconv == OutputConverterType::BIN,
            Self::DEC => *outconv == OutputConverterType::DEC,
            Self::HEX => *outconv == OutputConverterType::HEX,
            Self::OCT => *outconv == OutputConverterType::OCT,
            Self::ASCII => *outconv == OutputConverterType::ASCII,
        }
    }

    /// Read a tag from its name, in either case.
    pub fn from_str(s: &str) -> (res: Result<Self, ()>)
        ensures
            res == match Self::named(s@) {
                Some(tag) => Ok::<Self, ()>(tag),
                None => Err::<Self, ()>(()),
            },
    {
        match name_position(s) {
            0 => Ok(Self::DEC),
            1 => Ok(Self::HEX),
            2 => Ok(Self::BIN),
            3 => Ok(Self::OCT),
            4 => Ok(Self::ASCII),
            _ => Err(()),
        }
    }

    /// The name under which this notation is shown.
    pub fn to_string(&self) -> (name: String)
        ensures
            name@ == self.display_name(),
    {
        match self {
            InputConverterType::DEC => String::from_str("decimal"),
            InputConverterType::BIN => String::from_str("binary"),
            InputConverterType::HEX => String::from_str("hexadecimal"),
            InputConverterType::OCT => String::from_str("octal"),
            InputConverterType::ASCII => String::from_str("ascii"),
        }
    }
}

impl std::str::FromStr for InputConverterType {
    type Err = ();

    fn from_str(s: &str) -> (res: Result<Self, Self::Err>)
        ensures
            res == match Self::named(s@) {
                Some(tag) => Ok::<Self, ()>(tag),
                None => Err::<Self, ()>(()),
            },
    {
        InputConverterType::from_str(s)
    }
}

} // verus!
