//! The options of one run: the literal, and the converters to apply to it.

use vstd::prelude::*;
use indexmap::IndexSet;
use crate::convert::{InputConverterType, OutputConverterType};
use crate::ordered::{
    inconv_set_insert, inconv_set_items, inconv_set_new, outconv_set_insert, outconv_set_items,
    outconv_set_new,
};
use crate::text::distinct;

pub mod args;
pub mod config;

pub use args::{ArgParseError, ArgVals, CliOptions};
pub use config::{Config, ConfigError};

verus! {

/// Conversion options.
///
/// Contains input data and configuration.
#[derive(Debug, PartialEq)]
pub struct Opts {
    /// Input string to be converted.
    pub input: String,
    /// Input converters that should be applied, in order.
    pub inconvs: IndexSet<InputConverterType>,
    /// Output converters that should be applied, in order.
    pub outconvs: IndexSet<OutputConverterType>,
}

/// What the options hold, as plain values.
pub ghost struct OptsView {
    pub input: Seq<char>,
    pub inconvs: Seq<InputConverterType>,
    pub outconvs: Seq<OutputConverterType>,
}

impl View for Opts {
    type V = OptsView;

    open spec fn view(&self) -> OptsView {
        OptsView {
            input: self.input@,
            inconvs: inconv_set_items(self.inconvs),
            outconvs: outconv_set_items(self.outconvs),
        }
    }
}

/// The options that the cli arguments and the configuration give together:
/// what the arguments name stands, and the configuration's defaults, each
/// once, fill what they leave open.
pub open spec fn merged(config: Config, args: args::ArgValsView) -> OptsView {
    OptsView {
        input: args.input,
        inconvs: match args.inconv {
            Some(inconv) => seq![inconv],
            None => distinct(config.default_inconvs@),
        },
        outconvs: match args.outconvs {
            Some(outconvs) => outconvs,
            None => distinct(config.default_outconvs@),
        },
    }
}

impl Opts {
    /// Build Opts from args, the first of which is the name of the program,
    /// and the configuration.
    pub fn build<'a>(args: &'a [String], config: Config) -> (res: Result<Self, OptsBuildError<'a>>)
        requires
            args@.len() >= 1,
        ensures
            match res {
                Ok(opts) => args::outcome(args::token_views(args@.skip(1))) matches args::Outcome::Success(vals)
                    && opts@ == merged(config, vals),
                Err(OptsBuildError::Args(e)) => args::is_outcome(
                    Err(e),
                    args::outcome(args::token_views(args@.skip(1))),
                ),
                Err(OptsBuildError::Config(_)) => false,
            },
    {
        // Parse args
        let argvals = match ArgVals::from_args(args) {
            Ok(argvals) => argvals,
            Err(e) => {
                return Err(OptsBuildError::from(e));
            },
        };

        Ok(opts_build_internal(config, argvals))
    }
}

/// Internal build opts from parsed args and config.
pub fn opts_build_internal(config: Config, args: ArgVals) -> (opts: Opts)
    ensures
        opts@ == merged(config, args@),
{
    let ArgVals { input, inconv, outconvs } = args;

    // Decide whether or not to use default output converters
    let outconvs = if let Some(outconvs) = outconvs {
        outconvs
    } else {
        let mut set = outconv_set_new();
        let mut i: usize = 0;
        while i < config.default_outconvs.len()
            invariant
                i <= config.default_outconvs@.len(),
                outconv_set_items(set) == distinct(config.default_outconvs@.take(i as int)),
            decreases config.default_outconvs@.len() - i,
        {
            proof {
                let longer = config.default_outconvs@.take(i + 1);
                assert(longer.drop_last() =~= config.default_outconvs@.take(i as int));
                assert(longer.last() == config.default_outconvs@[i as int]);
            }
            outconv_set_insert(&mut set, config.default_outconvs[i]);
            i += 1;
        }
        assert(config.default_outconvs@.take(i as int) =~= config.default_outconvs@);
        set
    };

    // Decide whether or not to use default input converters
    let inconvs = if let Some(inconv) = inconv {
        let mut set = inconv_set_new();
        inconv_set_insert(&mut set, inconv);
        assert(inconv_set_items(set) =~= seq![inconv]);
        set
    } else {
        let mut set = inconv_set_new();
        let mut i: usize = 0;
        while i < config.default_inconvs.len()
            invariant
                i <= config.default_inconvs@.len(),
                inconv_set_items(set) == distinct(config.default_inconvs@.take(i as int)),
            decreases config.default_inconvs@.len() - i,
        {
            proof {
                let longer = config.default_inconvs@.take(i + 1);
                assert(longer.drop_last() =~= config.default_inconvs@.take(i as int));
                assert(longer.last() == config.default_inconvs@[i as int]);
            }
            inconv_set_insert(&mut set, config.default_inconvs[i]);
            i += 1;
        }
        assert(config.default_inconvs@.take(i as int) =~= config.default_inconvs@);
        set
    };

    Opts { input, inconvs, outconvs }
}

/// Error encountered while building of Opts struct.
#[derive(Debug, PartialEq)]
pub enum OptsBuildError<'a> {
    /// The command line could not be read.
    Args(ArgParseError<'a>),
    /// The configuration could not be read; the message says why.
    Config(String),
}

impl<'a> OptsBuildError<'a> {
    /// Perform graceful exit?
    pub fn graceful_exit(&self) -> (graceful: bool)
        ensures
            graceful == (self matches OptsBuildError::Args(ArgParseError::GracefulExit)),
    {
        if let Self::Args(ArgParseError::GracefulExit) = self {
            true
        } else {
            false
        }
    }
}

impl<'a> From<ArgParseError<'a>> for OptsBuildError<'a> {
    fn from(value: ArgParseError<'a>) -> (err: Self) {
        Self::Args(value)
    }
}

impl<'a> vstd::std_specs::convert::FromSpecImpl<ArgParseError<'a>> for OptsBuildError<'a> {
    open spec fn obeys_from_spec() -> bool {
        true
    }

    open spec fn from_spec(value: ArgParseError<'a>) -> Self {
        OptsBuildError::Args(value)
    }
}

} // verus!
