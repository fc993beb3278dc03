//! The grammar of the command line: `[OPTS] [INCONV] INPUT [OUTCONVS]`.

use vstd::prelude::*;
use vstd::slice::slice_subrange;
use indexmap::IndexSet;
use crate::convert::{InputConverterType, OutputConverterType};
use crate::ordered::{outconv_set_insert, outconv_set_items, outconv_set_len, outconv_set_new};
use crate::opts::config::outconv_names;
use crate::text::{distinct, eq_str, leading_run, lemma_leading_run};

verus! {

/// Representation of the cli arguments.
#[derive(Debug, PartialEq)]
pub struct ArgVals {
    pub input: String,
    pub inconv: Option<InputConverterType>,
    pub outconvs: Option<IndexSet<OutputConverterType>>,
}

/// What the cli arguments hold, as plain values.
pub ghost struct ArgValsView {
    pub input: Seq<char>,
    pub inconv: Option<InputConverterType>,
    pub outconvs: Option<Seq<OutputConverterType>>,
}

impl View for ArgVals {
    type V = ArgValsView;

    open spec fn view(&self) -> ArgValsView {
        ArgValsView {
            input: self.input@,
            inconv: self.inconv,
            outconvs: match self.outconvs {
                Some(set) => Some(outconv_set_items(set)),
                None => None,
            },
        }
    }
}

/// Argument parsing error.
#[derive(Debug, PartialEq)]
pub enum ArgParseError<'a> {
    MissingInput,
    UnknownOutputConverter(&'a str),
    Eof,
    GracefulExit,
}

/// Why a single token could not be read.
#[derive(Debug, PartialEq)]
pub enum TokenError {
    /// No token is left.
    Eof,
    /// The token is not of the kind asked for.
    IsNot,
}

/// Representation of the command line options set.
#[derive(Debug, PartialEq)]
pub struct CliOptions {
    pub help: bool,
    pub version: bool,
}

impl CliOptions {
    pub fn new() -> (opts: Self)
        ensures
            !opts.help,
            !opts.version,
    {
        Self { help: false, version: false }
    }
}

/// A command line option, as one token.
#[derive(Debug, PartialEq)]
pub enum CliOptionToken {
    Help,
    Version,
}

/// What can be read from one token of the command line.
pub trait FromToken: Sized {
    /// The value that a token stands for, if it stands for one.
    spec fn token_value(token: Seq<char>) -> Option<Self>;

    /// Reads a value from a token.
    fn from_token(token: &str) -> (res: Option<Self>)
        ensures
            res == Self::token_value(token@),
    ;
}

impl CliOptionToken {
    /// Read an option from its token: `-h` or `-v`.
    pub fn from_str(s: &str) -> (res: Result<Self, ()>)
        ensures
            res == match Self::token_value(s@) {
                Some(opt) => Ok::<Self, ()>(opt),
                None => Err::<Self, ()>(()),
            },
    {
        proof {
            reveal_strlit("-h");
            reveal_strlit("-v");
            assert("-h"@ =~= seq!['-', 'h']);
            assert("-v"@ =~= seq!['-', 'v']);
        }
        if eq_str(s, "-h") {
            Ok(Self::Help)
        } else if eq_str(s, "-v") {
            Ok(Self::Version)
        } else {
            Err(())
        }
    }
}

impl FromToken for CliOptionToken {
    open spec fn token_value(token: Seq<char>) -> Option<Self> {
        if token == seq!['-', 'h'] {
            Some(CliOptionToken::Help)
        } else if token == seq!['-', 'v'] {
            Some(CliOptionToken::Version)
        } else {
            None
        }
    }

    fn from_token(token: &str) -> (res: Option<Self>) {
        match Self::from_str(token) {
            Ok(opt) => Some(opt),
            Err(_) => None,
        }
    }
}

impl FromToken for InputConverterType {
    open spec fn token_value(token: Seq<char>) -> Option<Self> {
        InputConverterType::named(token)
    }

    fn from_token(token: &str) -> (res: Option<Self>) {
        match Self::from_str(token) {
            Ok(tag) => Some(tag),
            Err(_) => None,
        }
    }
}

impl FromToken for OutputConverterType {
    open spec fn token_value(token: Seq<char>) -> Option<Self> {
        OutputConverterType::named(token)
    }

    fn from_token(token: &str) -> (res: Option<Self>) {
        match Self::from_str(token) {
            Ok(tag) => Some(tag),
            Err(_) => None,
        }
    }
}

/// The tokens of a command line as sequences of characters.
pub open spec fn token_views(input: Seq<String>) -> Seq<Seq<char>> {
    Seq::new(input.len(), |i: int| input[i]@)
}

/// Whether a token is a command line option.
pub open spec fn is_flag(token: Seq<char>) -> bool {
    CliOptionToken::token_value(token) is Some
}

/// The tokens that are command line options.
pub open spec fn flag_tokens() -> spec_fn(Seq<char>) -> bool {
    |token: Seq<char>| is_flag(token)
}

/// The number of command line options that stand first.
pub open spec fn flag_run(tokens: Seq<Seq<char>>) -> int {
    leading_run(tokens, flag_tokens())
}

/// The options that a run of option tokens sets.
pub open spec fn flags_set(flags: Seq<Seq<char>>) -> CliOptions {
    CliOptions { help: flags.contains(seq!['-', 'h']), version: flags.contains(seq!['-', 'v']) }
}

/// The output converters that a list of names asks for, each once, in the
/// order of first occurrence.
pub open spec fn named_outconvs(names: Seq<Seq<char>>) -> Seq<OutputConverterType> {
    distinct(Seq::new(names.len(), |i: int| OutputConverterType::named(names[i])->Some_0))
}

/// The four ways in which reading a command line ends.
pub ghost enum Outcome {
    Success(ArgValsView),
    MissingInput,
    UnknownOutputConverter(Seq<char>),
    GracefulExit,
}

/// What the tokens after the options mean: an input converter if the first
/// token names one, then the value, then names of output converters.
pub open spec fn arguments_outcome(tokens: Seq<Seq<char>>) -> Outcome {
    let inconv = if tokens.len() > 0 {
        InputConverterType::named(tokens[0])
    } else {
        None
    };
    let after = if inconv is Some {
        tokens.skip(1)
    } else {
        tokens
    };
    if after.len() == 0 {
        Outcome::MissingInput
    } else {
        let names = after.skip(1);
        let known = leading_run(names, outconv_names());
        if known < names.len() {
            Outcome::UnknownOutputConverter(names[known])
        } else {
            Outcome::Success(
                ArgValsView {
                    input: after[0],
                    inconv,
                    outconvs: if names.len() == 0 {
                        None
                    } else {
                        Some(named_outconvs(names))
                    },
                },
            )
        }
    }
}

/// What a command line means: a graceful exit where an option among the
/// leading ones asks for help or for the version, and else what the tokens
/// after the options mean.
pub open spec fn outcome(tokens: Seq<Seq<char>>) -> Outcome {
    let opts = flags_set(tokens.take(flag_run(tokens)));
    if opts.help || opts.version {
        Outcome::GracefulExit
    } else {
        arguments_outcome(tokens.skip(flag_run(tokens)))
    }
}

/// Whether a result of the grammar is the given outcome.
pub open spec fn is_outcome(res: Result<ArgVals, ArgParseError>, expected: Outcome) -> bool {
    match res {
        Ok(vals) => expected == Outcome::Success(vals@),
        Err(ArgParseError::MissingInput) => expected == Outcome::MissingInput,
        Err(ArgParseError::UnknownOutputConverter(token)) => expected
            == Outcome::UnknownOutputConverter(token@),
        Err(ArgParseError::GracefulExit) => expected == Outcome::GracefulExit,
        Err(ArgParseError::Eof) => false,
    }
}

impl ArgVals {
    /// Parse args, the first of which is the name of the program.
    /// Args format: [OPTS] [INCONV] INPUT [OUTCONVS]
    pub fn from_args<'a>(args: &'a [String]) -> (res: Result<ArgVals, ArgParseError<'a>>)
        requires
            args@.len() >= 1,
        ensures
            is_outcome(res, outcome(token_views(args@.skip(1)))),
    {
        let tokens = slice_subrange(args, 1, args.len());
        match parse_arguments(tokens) {
            Ok((_, vals)) => Ok(vals),
            Err(e) => Err(e),
        }
    }
}

/// Parse arguments: options, an optional input converter, the value, and
/// output converters to the end.
pub fn parse_arguments<'a>(input: &'a [String]) -> (res: Result<(&'a [String], ArgVals), ArgParseError<'a>>)
    ensures
        match res {
            Ok((rest, vals)) => rest@.len() == 0 && is_outcome(Ok(vals), outcome(token_views(input@))),
            Err(e) => is_outcome(Err(e), outcome(token_views(input@))),
        },
{
    let ghost tokens = token_views(input@);
    // Parse options
    let (input1, opts) = match parse_cli_options(input) {
        Ok(parsed) => parsed,
        Err(_) => {
            return Err(ArgParseError::Eof);
        },
    };
    let ghost tokens1 = token_views(input1@);
    assert(tokens1 =~= tokens.skip(flag_run(tokens)));

    // Act upon options
    match handle_options(opts) {
        Ok(_) => {},
        Err(e) => {
            return Err(e);
        },
    }

    // Parse arguments
    let (input2, inconv) = match parse_fromstr::<InputConverterType>(input1) {
        Ok((rest, tag)) => (rest, Some(tag)),
        Err(_) => (input1, None),
    };
    let ghost tokens2 = token_views(input2@);
    assert(tokens2 =~= if inconv is Some {
        tokens1.skip(1)
    } else {
        tokens1
    });
    let (input3, inval) = match any(input2) {
        Ok(parsed) => parsed,
        Err(_) => {
            return Err(ArgParseError::MissingInput);
        },
    };
    assert(token_views(input3@) =~= tokens2.skip(1));
    let (input4, outconvs) = match parse_outconvs_list(input3) {
        Ok(parsed) => parsed,
        Err(e) => {
            return Err(e);
        },
    };

    Ok((input4, ArgVals { input: inval.clone(), inconv, outconvs }))
}

/// Decides what the options ask for: a graceful exit where help or the
/// version was requested.
pub fn handle_options<'a>(opts: CliOptions) -> (res: Result<(), ArgParseError<'a>>)
    ensures
        match res {
            Ok(_) => !opts.help && !opts.version,
            Err(ArgParseError::GracefulExit) => opts.help || opts.version,
            Err(_) => false,
        },
{
    // Check if -h option set
    if opts.help {
        return Err(ArgParseError::GracefulExit);
    }
    // Check if -v option set
    if opts.version {
        return Err(ArgParseError::GracefulExit);
    }
    Ok(())
}

/// Parse CLI options: every option that stands before the first token that
/// is none.
pub fn parse_cli_options<'a>(input: &'a [String]) -> (res: Result<(&'a [String], CliOptions), TokenError>)
    ensures
        res matches Ok((rest, opts)) && rest@ == input@.skip(flag_run(token_views(input@))) && opts
            == flags_set(token_views(input@).take(flag_run(token_views(input@)))),
        0 <= flag_run(token_views(input@)) <= input@.len(),
{
    let ghost tokens = token_views(input@);
    let total = input.len();
    let mut rest = input;
    let mut opts = CliOptions::new();
    let mut n: usize = 0;
    loop
        invariant
            n <= input@.len(),
            total == input@.len(),
            rest@ == input@.skip(n as int),
            tokens == token_views(input@),
            forall|j: int| 0 <= j < n ==> is_flag(#[trigger] tokens[j]),
            opts == flags_set(tokens.take(n as int)),
        decreases input@.len() - n,
    {
        match parse_cli_opt(rest) {
            Ok((next, opt)) => {
                proof {
                    let flags = tokens.take(n + 1);
                    assert(flags.drop_last() =~= tokens.take(n as int));
                    assert(flags.last() == tokens[n as int]);
                    assert(tokens[n as int] == rest@[0]@);
                    assert forall|t: Seq<char>| flags.contains(t) <==> (tokens.take(n as int).contains(t) || t == tokens[n as int]) by {
                        if flags.contains(t) {
                            let k = choose|k: int| 0 <= k < flags.len() && flags[k] == t;
                            if k < n {
                                assert(tokens.take(n as int)[k] == t);
                            }
                        }
                        if tokens.take(n as int).contains(t) {
                            let k = choose|k: int| 0 <= k < n && tokens.take(n as int)[k] == t;
                            assert(flags[k] == t);
                        }
                        if t == tokens[n as int] {
                            assert(flags[n as int] == t);
                        }
                    }
                    assert(next@ =~= input@.skip(n + 1));
                }
                match opt {
                    CliOptionToken::Help => {
                        opts.help = true;
                    },
                    CliOptionToken::Version => {
                        opts.version = true;
                    },
                }
                rest = next;
                n += 1;
            },
            Err(_) => {
                proof {
                    if n < input@.len() {
                        assert(tokens[n as int] == rest@[0]@);
                    }
                    lemma_leading_run(tokens, flag_tokens(), n as int);
                }
                return Ok((rest, opts));
            },
        }
    }
}

/// Parse CLI option.
pub fn parse_cli_opt<'a>(input: &'a [String]) -> (res: Result<(&'a [String], CliOptionToken), TokenError>)
    ensures
        match res {
            Ok((rest, val)) => input@.len() > 0 && CliOptionToken::token_value(input@[0]@) == Some(val)
                && rest@ == input@.skip(1),
            Err(_) => input@.len() == 0 || CliOptionToken::token_value(input@[0]@) is None,
        },
{
    parse_cli_opt_help(input)
}

/// Parse the CLI option that asks for help, or any other.
pub fn parse_cli_opt_help<'a>(input: &'a [String]) -> (res: Result<(&'a [String], CliOptionToken), TokenError>)
    ensures
        match res {
            Ok((rest, val)) => input@.len() > 0 && CliOptionToken::token_value(input@[0]@) == Some(val)
                && rest@ == input@.skip(1),
            Err(_) => input@.len() == 0 || CliOptionToken::token_value(input@[0]@) is None,
        },
{
    parse_fromstr(input)
}

/// Parse output converter type.
pub fn parse_outconv_type<'a>(input: &'a [String]) -> (res: Result<(&'a [String], OutputConverterType), ArgParseError<'a>>)
    ensures
        match res {
            Ok((rest, val)) => input@.len() > 0 && OutputConverterType::named(input@[0]@) == Some(val)
                && rest@ == input@.skip(1),
            Err(ArgParseError::Eof) => input@.len() == 0,
            Err(ArgParseError::UnknownOutputConverter(token)) => input@.len() > 0
                && OutputConverterType::named(input@[0]@) is None && token@ == input@[0]@,
            Err(_) => false,
        },
{
    let (rest, s) = match any(input) {
        Ok(parsed) => parsed,
        Err(_) => {
            return Err(ArgParseError::Eof);
        },
    };
    match OutputConverterType::from_token(s.as_str()) {
        Some(val) => Ok((rest, val)),
        None => Err(ArgParseError::UnknownOutputConverter(s.as_str())),
    }
}

/// Parse output converters list: every token to the end must name an output
/// converter. Each converter is kept once, where it was named first; no token
/// at all gives no list.
pub fn parse_outconvs_list<'a>(input: &'a [String]) -> (res: Result<(&'a [String], Option<IndexSet<OutputConverterType>>), ArgParseError<'a>>)
    ensures
        match res {
            Ok((rest, outconvs)) => {
                &&& rest@.len() == 0
                &&& leading_run(token_views(input@), outconv_names()) == input@.len()
                &&& input@.len() == 0 ==> outconvs is None
                &&& input@.len() > 0 ==> outconvs is Some && outconv_set_items(outconvs->Some_0)
                    == named_outconvs(token_views(input@))
            },
            Err(ArgParseError::UnknownOutputConverter(token)) => {
                let known = leading_run(token_views(input@), outconv_names());
                0 <= known < input@.len() && token@ == input@[known]@
            },
            Err(_) => false,
        },
{
    let ghost tokens = token_views(input@);
    let ghost tags = Seq::new(tokens.len(), |i: int| OutputConverterType::named(tokens[i])->Some_0);
    let total = input.len();
    let mut rest = input;
    let mut outconvs = outconv_set_new();
    let mut n: usize = 0;

    while rest.len() > 0
        invariant
            n <= input@.len(),
            total == input@.len(),
            rest@ == input@.skip(n as int),
            tokens == token_views(input@),
            tags == Seq::new(tokens.len(), |i: int| OutputConverterType::named(tokens[i])->Some_0),
            forall|j: int| 0 <= j < n ==> outconv_names()(#[trigger] tokens[j]),
            outconv_set_items(outconvs) == distinct(tags.take(n as int)),
            n > 0 ==> outconv_set_items(outconvs).len() > 0,
        decreases input@.len() - n,
    {
        assert(tokens[n as int] == rest@[0]@);
        // Parse token
        match parse_outconv_type(rest) {
            Ok((rem, val)) => {
                proof {
                    assert(tags.take(n + 1).drop_last() =~= tags.take(n as int));
                    assert(tags.take(n + 1).last() == val);
                    assert(rem@ =~= input@.skip(n + 1));
                }
                // Add value to output vector
                outconv_set_insert(&mut outconvs, val);

                // Update next token
                rest = rem;
                n += 1;
            },
            Err(e) => {
                proof {
                    lemma_leading_run(tokens, outconv_names(), n as int);
                }
                return Err(e);
            },
        }
    }
    proof {
        lemma_leading_run(tokens, outconv_names(), n as int);
        assert(tags.take(n as int) =~= tags);
    }

    // Map output converters to None if none were entered
    let outconvs = if outconv_set_len(&outconvs) > 0 {
        Some(outconvs)
    } else {
        None
    };

    Ok((rest, outconvs))
}

/// Parse first token as a value of the type asked for.
pub fn parse_fromstr<'a, T: FromToken>(input: &'a [String]) -> (res: Result<(&'a [String], T), TokenError>)
    ensures
        match res {
            Ok((rest, val)) => input@.len() > 0 && T::token_value(input@[0]@) == Some(val) && rest@
                == input@.skip(1),
            Err(TokenError::Eof) => input@.len() == 0,
            Err(TokenError::IsNot) => input@.len() > 0 && T::token_value(input@[0]@) is None,
        },
{
    // Check that there is a token to parse
    if input.len() < 1 {
        return Err(TokenError::Eof);
    }
    // Parse token
    let val = match T::from_token(input[0].as_str()) {
        Some(val) => val,
        None => {
            return Err(TokenError::IsNot);
        },
    };

    // Return result and remaining tokens
    Ok((slice_subrange(input, 1, input.len()), val))
}

/// Consume any token as string.
pub fn any<'a>(input: &'a [String]) -> (res: Result<(&'a [String], &'a String), TokenError>)
    ensures
        match res {
            Ok((rest, token)) => input@.len() > 0 && *token == input@[0] && rest@ == input@.skip(1),
            Err(TokenError::Eof) => input@.len() == 0,
            Err(TokenError::IsNot) => false,
        },
{
    // Check that there is a token to parse
    if input.len() < 1 {
        return Err(TokenError::Eof);
    }
    Ok((slice_subrange(input, 1, input.len()), &input[0]))
}

} // verus!
