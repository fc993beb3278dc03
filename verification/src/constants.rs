//! The configuration that holds where none is given.

use vstd::prelude::*;
use crate::convert::{InputConverterType, OutputConverterType};

verus! {

/// Where the configuration file lies, below the home directory.
pub const CONFIG_FILE_PATH: &'static str = ".config/baseic/config.toml";

/// Every output tag, in the order in which results are shown by default.
pub open spec fn all_outconvs() -> Seq<OutputConverterType> {
    seq![
        OutputConverterType::DEC,
        OutputConverterType::HEX,
        OutputConverterType::BIN,
        OutputConverterType::OCT,
        OutputConverterType::ASCII,
    ]
}

/// Every input tag, in the order in which a literal is tried by default.
pub open spec fn all_inconvs() -> Seq<InputConverterType> {
    seq![
        InputConverterType::DEC,
        InputConverterType::HEX,
        InputConverterType::BIN,
        InputConverterType::OCT,
        InputConverterType::ASCII,
    ]
}

/// No output tag is missing from the default list.
pub proof fn lemma_all_outconvs(tag: OutputConverterType)
    ensures
        exists|i: int| 0 <= i < all_outconvs().len() && all_outconvs()[i] == tag,
{
    let i: int = match tag {
        OutputConverterType::DEC => 0,
        OutputConverterType::HEX => 1,
        OutputConverterType::BIN => 2,
        OutputConverterType::OCT => 3,
        OutputConverterType::ASCII => 4,
    };
    assert(all_outconvs()[i] == tag);
}

/// The output converters that apply where neither the command line nor the
/// configuration names any.
pub fn default_outconvs() -> (tags: Vec<OutputConverterType>)
    ensures
        tags@ == all_outconvs(),
{
    let tags = vec![
        OutputConverterType::DEC,
        OutputConverterType::HEX,
        OutputConverterType::BIN,
        OutputConverterType::OCT,
        OutputConverterType::ASCII,
    ];
    assert(tags@ =~= all_outconvs());
    tags
}

/// The input converters that apply where neither the command line nor the
/// configuration names any.
pub fn default_inconvs() -> (tags: Vec<InputConverterType>)
    ensures
        tags@ == all_inconvs(),
{
    let tags = vec![
        InputConverterType::DEC,
        InputConverterType::HEX,
        InputConverterType::BIN,
        InputConverterType::OCT,
        InputConverterType::ASCII,
    ];
    assert(tags@ =~= all_inconvs());
    tags
}

} // verus!
