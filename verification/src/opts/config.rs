//! The configuration: the converters that apply where the command line names
//! none.

use vstd::prelude::*;
use vstd::string::*;
use crate::constants::{all_inconvs, all_outconvs, default_inconvs, default_outconvs};
use crate::convert::{InputConverterType, OutputConverterType};
use crate::opts::args::token_views;
use crate::text::{leading_run, lemma_leading_run};

verus! {

/// Config file options.
#[derive(Debug)]
pub struct Config {
    /// Output converters that apply where the command line names none.
    pub default_outconvs: Vec<OutputConverterType>,
    /// Input converters that apply where the command line names none.
    pub default_inconvs: Vec<InputConverterType>,
}

/// Why a configuration is refused: a name in one of its lists names no
/// converter.
#[derive(Debug, PartialEq)]
pub enum ConfigError {
    /// A name in the list of output converters.
    InvalidOutputConverter(String),
    /// A name in the list of input converters.
    InvalidInputConverter(String),
}

impl ConfigError {
    /// The name that names no converter.
    pub open spec fn culprit(self) -> Seq<char> {
        match self {
            ConfigError::InvalidOutputConverter(name) => name@,
            ConfigError::InvalidInputConverter(name) => name@,
        }
    }

    /// The message that tells the user which name was refused.
    pub fn to_string(&self) -> (text: String)
        ensures
            text@ == "Invalid Ouptut Converter type: "@ + self.culprit(),
    {
        let mut text = String::from_str("Invalid Ouptut Converter type: ");
        match self {
            ConfigError::InvalidOutputConverter(name) => text.append(name.as_str()),
            ConfigError::InvalidInputConverter(name) => text.append(name.as_str()),
        }
        text
    }
}

/// The names that stand for an output converter.
pub open spec fn outconv_names() -> spec_fn(Seq<char>) -> bool {
    |name: Seq<char>| OutputConverterType::named(name) is Some
}

/// The names that stand for an input converter.
pub open spec fn inconv_names() -> spec_fn(Seq<char>) -> bool {
    |name: Seq<char>| InputConverterType::named(name) is Some
}

/// The output converters that a list of names stands for, one for one.
pub open spec fn outconvs_named(names: Seq<Seq<char>>) -> Seq<OutputConverterType> {
    Seq::new(names.len(), |i: int| OutputConverterType::named(names[i])->Some_0)
}

/// The input converters that a list of names stands for, one for one.
pub open spec fn inconvs_named(names: Seq<Seq<char>>) -> Seq<InputConverterType> {
    Seq::new(names.len(), |i: int| InputConverterType::named(names[i])->Some_0)
}

/// Reads a list of output converters from their names, in either case. The
/// first name that stands for none is reported.
pub fn outconvs_from_names(names: &Vec<String>) -> (res: Result<Vec<OutputConverterType>, ConfigError>)
    ensures
        match res {
            Ok(tags) => leading_run(token_views(names@), outconv_names()) == names@.len() && tags@
                == outconvs_named(token_views(names@)),
            Err(ConfigError::InvalidOutputConverter(name)) => {
                let known = leading_run(token_views(names@), outconv_names());
                0 <= known < names@.len() && name@ == names@[known]@
            },
            Err(ConfigError::InvalidInputConverter(_)) => false,
        },
{
    let ghost views = token_views(names@);
    let mut tags: Vec<OutputConverterType> = Vec::new();
    let mut i: usize = 0;
    while i < names.len()
        invariant
            i <= names@.len(),
            views == token_views(names@),
            forall|j: int| 0 <= j < i ==> outconv_names()(#[trigger] views[j]),
            tags@ == outconvs_named(views.take(i as int)),
        decreases names@.len() - i,
    {
        assert(views[i as int] == names@[i as int]@);
        match OutputConverterType::from_str(names[i].as_str()) {
            Ok(tag) => {
                tags.push(tag);
                assert(tags@ =~= outconvs_named(views.take(i + 1)));
            },
            Err(_) => {
                proof {
                    lemma_leading_run(views, outconv_names(), i as int);
                }
                return Err(ConfigError::InvalidOutputConverter(names[i].clone()));
            },
        }
        i += 1;
    }
    proof {
        lemma_leading_run(views, outconv_names(), i as int);
        assert(views.take(i as int) =~= views);
    }
    Ok(tags)
}

/// Reads a list of input converters from their names, in either case. The
/// first name that stands for none is reported.
pub fn inconvs_from_names(names: &Vec<String>) -> (res: Result<Vec<InputConverterType>, ConfigError>)
    ensures
        match res {
            Ok(tags) => leading_run(token_views(names@), inconv_names()) == names@.len() && tags@
                == inconvs_named(token_views(names@)),
            Err(ConfigError::InvalidInputConverter(name)) => {
                let known = leading_run(token_views(names@), inconv_names());
                0 <= known < names@.len() && name@ == names@[known]@
            },
            Err(ConfigError::InvalidOutputConverter(_)) => false,
        },
{
    let ghost views = token_views(names@);
    let mut tags: Vec<InputConverterType> = Vec::new();
    let mut i: usize = 0;
    while i < names.len()
        invariant
            i <= names@.len(),
            views == token_views(names@),
            forall|j: int| 0 <= j < i ==> inconv_names()(#[trigger] views[j]),
            tags@ == inconvs_named(views.take(i as int)),
        decreases names@.len() - i,
    {
        assert(views[i as int] == names@[i as int]@);
        match InputConverterType::from_str(names[i].as_str()) {
            Ok(tag) => {
                tags.push(tag);
                assert(tags@ =~= inconvs_named(views.take(i + 1)));
            },
            Err(_) => {
                proof {
                    lemma_leading_run(views, inconv_names(), i as int);
                }
                return Err(ConfigError::InvalidInputConverter(names[i].clone()));
            },
        }
        i += 1;
    }
    proof {
        lemma_leading_run(views, inconv_names(), i as int);
        assert(views.take(i as int) =~= views);
    }
    Ok(tags)
}

impl Config {
    /// The configuration that a file gives: each list that the file holds is
    /// read from its names, and each list that it does not hold is the
    /// default one. The output converters are read first.
    pub fn from_names(
        outconv_list: Option<Vec<String>>,
        inconv_list: Option<Vec<String>>,
    ) -> (res: Result<Config, ConfigError>)
        ensures
            match res {
                Ok(config) => {
                    &&& match outconv_list {
                        Some(names) => leading_run(token_views(names@), outconv_names()) == names@.len()
                            && config.default_outconvs@ == outconvs_named(token_views(names@)),
                        None => config.default_outconvs@ == all_outconvs(),
                    }
                    &&& match inconv_list {
                        Some(names) => leading_run(token_views(names@), inconv_names()) == names@.len()
                            && config.default_inconvs@ == inconvs_named(token_views(names@)),
                        None => config.default_inconvs@ == all_inconvs(),
                    }
                },
                Err(ConfigError::InvalidOutputConverter(name)) => outconv_list matches Some(names) && {
                    let known = leading_run(token_views(names@), outconv_names());
                    0 <= known < names@.len() && name@ == names@[known]@
                },
                Err(ConfigError::InvalidInputConverter(name)) => {
                    &&& outconv_list matches Some(names) ==> leading_run(
                        token_views(names@),
                        outconv_names(),
                    ) == names@.len()
                    &&& inconv_list matches Some(names) && {
                        let known = leading_run(token_views(names@), inconv_names());
                        0 <= known < names@.len() && name@ == names@[known]@
                    }
                },
            },
    {
        let outconvs = match &outconv_list {
            Some(names) => match outconvs_from_names(names) {
                Ok(tags) => tags,
                Err(e) => {
                    return Err(e);
                },
            },
            None => default_outconvs(),
        };
        let inconvs = match &inconv_list {
            Some(names) => match inconvs_from_names(names) {
                Ok(tags) => tags,
                Err(e) => {
                    return Err(e);
                },
            },
            None => default_inconvs(),
        };
        Ok(Config { default_outconvs: outconvs, default_inconvs: inconvs })
    }
}

impl Default for Config {
    /// The configuration that holds where no file gives one: every
    /// converter, on both sides.
    fn default() -> (config: Self)
        ensures
            config.default_outconvs@ == all_outconvs(),
            config.default_inconvs@ == all_inconvs(),
    {
        Config { default_outconvs: default_outconvs(), default_inconvs: default_inconvs() }
    }
}

} // verus!
