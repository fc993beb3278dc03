use baseic::constants::{default_inconvs, default_outconvs};
use baseic::convert::{
    do_convert, proces_outconvs, ConversionError, InputConverterType, OutputConverterType,
};
use baseic::opts::{opts_build_internal, ArgVals, Config, ConfigError, Opts, OptsBuildError};
use baseic::opts::ArgParseError;
use baseic::ui::right_align;
use indexmap::IndexSet;

fn request(input: &str, inconvs: &[InputConverterType], outconvs: &[OutputConverterType]) -> Opts {
    Opts {
        input: input.to_string(),
        inconvs: inconvs.iter().copied().collect(),
        outconvs: outconvs.iter().copied().collect(),
    }
}

fn rendered(
    output: &baseic::convert::ConversionOutput,
    inconv: InputConverterType,
) -> Vec<(OutputConverterType, String)> {
    output.inner[&inconv].inner.iter().map(|(k, v)| (*k, v.clone())).collect()
}

#[test]
fn opts_build_internal_ok() {
    let tests = [
        (
            Config {
                default_outconvs: vec![
                    OutputConverterType::HEX,
                    OutputConverterType::BIN,
                    OutputConverterType::DEC,
                ],
                default_inconvs: vec![
                    InputConverterType::HEX,
                    InputConverterType::BIN,
                    InputConverterType::DEC,
                ],
            },
            ArgVals {
                input: "test123".to_string(),
                inconv: None,
                outconvs: None,
            },
            Opts {
                input: "test123".to_string(),
                inconvs: IndexSet::from([
                    InputConverterType::HEX,
                    InputConverterType::BIN,
                    InputConverterType::DEC,
                ]),
                outconvs: IndexSet::from([
                    OutputConverterType::HEX,
                    OutputConverterType::BIN,
                    OutputConverterType::DEC,
                ]),
            },
        ),
        (
            Config {
                default_outconvs: vec![
                    OutputConverterType::HEX,
                    OutputConverterType::BIN,
                    OutputConverterType::DEC,
                ],
                default_inconvs: vec![
                    InputConverterType::HEX,
                    InputConverterType::BIN,
                    InputConverterType::DEC,
                ],
            },
            ArgVals {
                input: "test123".to_string(),
                inconv: Some(InputConverterType::BIN),
                outconvs: Some(IndexSet::from([
                    OutputConverterType::HEX,
                    OutputConverterType::BIN,
                ])),
            },
            Opts {
                input: "test123".to_string(),
                inconvs: IndexSet::from([InputConverterType::BIN]),
                outconvs: IndexSet::from([OutputConverterType::HEX, OutputConverterType::BIN]),
            },
        ),
    ];

    for (config, args, exp) in tests {
        assert_eq!(opts_build_internal(config, args), exp);
    }
}

#[test]
fn defaults_keep_their_order_and_repeat_nothing() {
    let config = Config {
        default_outconvs: vec![
            OutputConverterType::OCT,
            OutputConverterType::DEC,
            OutputConverterType::OCT,
            OutputConverterType::HEX,
            OutputConverterType::DEC,
        ],
        default_inconvs: vec![
            InputConverterType::BIN,
            InputConverterType::BIN,
            InputConverterType::ASCII,
        ],
    };
    let args = ArgVals { input: "1".to_string(), inconv: None, outconvs: None };
    let opts = opts_build_internal(config, args);
    let outconvs: Vec<_> = opts.outconvs.iter().copied().collect();
    let inconvs: Vec<_> = opts.inconvs.iter().copied().collect();
    assert_eq!(
        outconvs,
        vec![OutputConverterType::OCT, OutputConverterType::DEC, OutputConverterType::HEX]
    );
    assert_eq!(inconvs, vec![InputConverterType::BIN, InputConverterType::ASCII]);
    assert_eq!(opts.input, "1");
}

#[test]
fn default_lists_hold_every_tag() {
    assert_eq!(
        default_outconvs(),
        vec![
            OutputConverterType::DEC,
            OutputConverterType::HEX,
            OutputConverterType::BIN,
            OutputConverterType::OCT,
            OutputConverterType::ASCII,
        ]
    );
    assert_eq!(
        default_inconvs(),
        vec![
            InputConverterType::DEC,
            InputConverterType::HEX,
            InputConverterType::BIN,
            InputConverterType::OCT,
            InputConverterType::ASCII,
        ]
    );
    let config = Config::default();
    assert_eq!(config.default_outconvs, default_outconvs());
    assert_eq!(config.default_inconvs, default_inconvs());
}

#[test]
fn hex_ff_under_the_defaults() {
    let args: Vec<String> = ["baseic", "hex", "FF"].iter().map(|s| s.to_string()).collect();
    let opts = Opts::build(&args, Config::default()).unwrap();
    assert_eq!(opts.input, "FF");
    assert_eq!(opts.inconvs, IndexSet::from([InputConverterType::HEX]));
    assert_eq!(opts.outconvs, default_outconvs().into_iter().collect::<IndexSet<_>>());
    let output = do_convert(opts).unwrap();
    assert_eq!(output.inner.len(), 1);
    assert_eq!(
        rendered(&output, InputConverterType::HEX),
        vec![
            (OutputConverterType::DEC, "255".to_string()),
            (OutputConverterType::BIN, "11111111".to_string()),
            (OutputConverterType::OCT, "377".to_string()),
        ]
    );
    assert!(!output.inner[&InputConverterType::HEX].inner.contains_key(&OutputConverterType::HEX));
    assert!(!output.inner[&InputConverterType::HEX].inner.contains_key(&OutputConverterType::ASCII));
}

#[test]
fn minus_five_has_no_octal_form() {
    let opts = request(
        "-5",
        &[InputConverterType::DEC],
        &[OutputConverterType::OCT, OutputConverterType::HEX, OutputConverterType::BIN],
    );
    let output = do_convert(opts).unwrap();
    let entries = rendered(&output, InputConverterType::DEC);
    assert_eq!(entries.len(), 2);
    assert_eq!(entries[0], (OutputConverterType::HEX, "FFFFFFFFFFFFFFFFFFFFFFFFFFFFFFFB".to_string()));
    assert_eq!(entries[1].0, OutputConverterType::BIN);
    assert_eq!(entries[1].1.len(), 128);

    let only_oct = request("-5", &[InputConverterType::DEC], &[OutputConverterType::OCT]);
    assert!(matches!(do_convert(only_oct), Err(ConversionError::NoResults)));

    let under_all = request("-5", &default_inconvs(), &default_outconvs());
    let output = do_convert(under_all).unwrap();
    let keys: Vec<_> = output.inner.keys().copied().collect();
    assert_eq!(keys, vec![InputConverterType::DEC]);
    let tags: Vec<_> = output.inner[&InputConverterType::DEC].inner.keys().copied().collect();
    assert_eq!(tags, vec![OutputConverterType::HEX, OutputConverterType::BIN]);
}

#[test]
fn zero_under_every_converter() {
    let opts = request("0", &default_inconvs(), &default_outconvs());
    let output = do_convert(opts).unwrap();
    let keys: Vec<_> = output.inner.keys().copied().collect();
    assert_eq!(keys, default_inconvs());
    let zero = "0".to_string();
    assert_eq!(
        rendered(&output, InputConverterType::DEC),
        vec![
            (OutputConverterType::HEX, zero.clone()),
            (OutputConverterType::BIN, zero.clone()),
            (OutputConverterType::OCT, zero.clone()),
        ]
    );
    assert_eq!(
        rendered(&output, InputConverterType::HEX),
        vec![
            (OutputConverterType::DEC, zero.clone()),
            (OutputConverterType::BIN, zero.clone()),
            (OutputConverterType::OCT, zero.clone()),
        ]
    );
    assert_eq!(
        rendered(&output, InputConverterType::BIN),
        vec![
            (OutputConverterType::DEC, zero.clone()),
            (OutputConverterType::HEX, zero.clone()),
            (OutputConverterType::OCT, zero.clone()),
        ]
    );
    assert_eq!(
        rendered(&output, InputConverterType::OCT),
        vec![
            (OutputConverterType::DEC, zero.clone()),
            (OutputConverterType::HEX, zero.clone()),
            (OutputConverterType::BIN, zero.clone()),
        ]
    );
    // As a character, `0` stands for its code.
    assert_eq!(
        rendered(&output, InputConverterType::ASCII),
        vec![
            (OutputConverterType::DEC, "48".to_string()),
            (OutputConverterType::HEX, "30".to_string()),
            (OutputConverterType::BIN, "110000".to_string()),
            (OutputConverterType::OCT, "60".to_string()),
        ]
    );
}

#[test]
fn no_result_shows_its_own_notation() {
    for input in ["0", "1", "7", "10", "101", "A", "ff", "-3", "0x10", "~"] {
        let opts = request(input, &default_inconvs(), &default_outconvs());
        if let Ok(output) = do_convert(opts) {
            for (inconv, result) in output.inner.iter() {
                assert!(!result.is_empty());
                for outconv in result.inner.keys() {
                    assert!(!inconv.is_outconv_excluded(outconv));
                }
            }
        }
    }
}

#[test]
fn order_follows_the_request() {
    let opts = request(
        "10",
        &[InputConverterType::OCT, InputConverterType::BIN, InputConverterType::DEC],
        &[OutputConverterType::BIN, OutputConverterType::DEC, OutputConverterType::OCT],
    );
    let output = do_convert(opts).unwrap();
    let keys: Vec<_> = output.inner.keys().copied().collect();
    assert_eq!(
        keys,
        vec![InputConverterType::OCT, InputConverterType::BIN, InputConverterType::DEC]
    );
    assert_eq!(
        rendered(&output, InputConverterType::OCT),
        vec![
            (OutputConverterType::BIN, "1000".to_string()),
            (OutputConverterType::DEC, "8".to_string()),
        ]
    );
    assert_eq!(
        rendered(&output, InputConverterType::BIN),
        vec![
            (OutputConverterType::DEC, "2".to_string()),
            (OutputConverterType::OCT, "2".to_string()),
        ]
    );
    assert_eq!(
        rendered(&output, InputConverterType::DEC),
        vec![
            (OutputConverterType::BIN, "1010".to_string()),
            (OutputConverterType::OCT, "12".to_string()),
        ]
    );
}

#[test]
fn nothing_converted_is_an_error() {
    let unreadable = request("zzz", &default_inconvs(), &default_outconvs());
    assert!(matches!(do_convert(unreadable), Err(ConversionError::NoResults)));
    let only_own = request("12", &[InputConverterType::DEC], &[OutputConverterType::DEC]);
    assert!(matches!(do_convert(only_own), Err(ConversionError::NoResults)));
    let no_inconvs = request("12", &[], &default_outconvs());
    assert!(matches!(do_convert(no_inconvs), Err(ConversionError::NoResults)));
    let no_outconvs = request("12", &default_inconvs(), &[]);
    assert!(matches!(do_convert(no_outconvs), Err(ConversionError::NoResults)));
    assert_eq!(ConversionError::NoResults.to_string(), "no results");
}

#[test]
fn one_value_under_many_output_converters() {
    let outconvs: IndexSet<OutputConverterType> = default_outconvs().into_iter().collect();
    let result = proces_outconvs(&outconvs, &InputConverterType::HEX, 65);
    let entries: Vec<_> = result.inner.iter().map(|(k, v)| (*k, v.clone())).collect();
    assert_eq!(
        entries,
        vec![
            (OutputConverterType::DEC, "65".to_string()),
            (OutputConverterType::BIN, "1000001".to_string()),
            (OutputConverterType::OCT, "101".to_string()),
            (OutputConverterType::ASCII, "'A'".to_string()),
        ]
    );
    assert!(!result.is_empty());
    let own: IndexSet<OutputConverterType> = IndexSet::from([OutputConverterType::HEX]);
    assert!(proces_outconvs(&own, &InputConverterType::HEX, 65).is_empty());
}

#[test]
fn build_reports_what_the_grammar_reports() {
    let args: Vec<String> = ["baseic"].iter().map(|s| s.to_string()).collect();
    let err = Opts::build(&args, Config::default()).unwrap_err();
    assert_eq!(err, OptsBuildError::Args(ArgParseError::MissingInput));
    assert!(!err.graceful_exit());

    let args: Vec<String> = ["baseic", "-h", "12"].iter().map(|s| s.to_string()).collect();
    let err = Opts::build(&args, Config::default()).unwrap_err();
    assert_eq!(err, OptsBuildError::Args(ArgParseError::GracefulExit));
    assert!(err.graceful_exit());

    let args: Vec<String> = ["baseic", "12", "hex", "nope"].iter().map(|s| s.to_string()).collect();
    let err = Opts::build(&args, Config::default()).unwrap_err();
    assert_eq!(err, OptsBuildError::Args(ArgParseError::UnknownOutputConverter("nope")));
    assert!(!err.graceful_exit());

    assert!(!OptsBuildError::Config("bad".to_string()).graceful_exit());
    assert_eq!(
        OptsBuildError::from(ArgParseError::Eof),
        OptsBuildError::Args(ArgParseError::Eof)
    );

    let args: Vec<String> = ["baseic", "12", "hex", "BIN", "hex"].iter().map(|s| s.to_string()).collect();
    let config = Config {
        default_outconvs: vec![OutputConverterType::DEC],
        default_inconvs: vec![InputConverterType::OCT, InputConverterType::DEC],
    };
    let opts = Opts::build(&args, config).unwrap();
    assert_eq!(opts.input, "12");
    assert_eq!(
        opts.inconvs.iter().copied().collect::<Vec<_>>(),
        vec![InputConverterType::OCT, InputConverterType::DEC]
    );
    assert_eq!(
        opts.outconvs.iter().copied().collect::<Vec<_>>(),
        vec![OutputConverterType::HEX, OutputConverterType::BIN]
    );
}

#[test]
fn names_are_aligned_to_the_right() {
    assert_eq!(right_align("octal", 11), "      octal");
    assert_eq!(right_align("hexadecimal", 11), "hexadecimal");
    assert_eq!(right_align("hexadecimal", 3), "hexadecimal");
    assert_eq!(right_align("", 2), "  ");
    assert_eq!(right_align("", 0), "");
    // The size of a string is its length in bytes.
    assert_eq!(right_align("é", 3), " é");
    assert_eq!(OutputConverterType::max_str_len(), 11);
    assert_eq!(OutputConverterType::HEX.to_string(), "hexadecimal");
    assert_eq!(OutputConverterType::DEC.to_string(), "decimal");
    assert_eq!(OutputConverterType::BIN.to_string(), "binary");
    assert_eq!(OutputConverterType::OCT.to_string(), "octal");
    assert_eq!(OutputConverterType::ASCII.to_string(), "ascii");
    assert_eq!(InputConverterType::HEX.to_string(), "hexadecimal");
    assert_eq!(InputConverterType::DEC.to_string(), "decimal");
    assert_eq!(InputConverterType::BIN.to_string(), "binary");
    assert_eq!(InputConverterType::OCT.to_string(), "octal");
    assert_eq!(InputConverterType::ASCII.to_string(), "ascii");
}

#[test]
fn configuration_from_names() {
    let config = Config::from_names(None, None).unwrap();
    assert_eq!(config.default_outconvs, default_outconvs());
    assert_eq!(config.default_inconvs, default_inconvs());

    let outs = vec!["hex".to_string(), "DEC".to_string(), "hex".to_string()];
    let ins = vec!["Ascii".to_string()];
    let config = Config::from_names(Some(outs), Some(ins)).unwrap();
    assert_eq!(
        config.default_outconvs,
        vec![OutputConverterType::HEX, OutputConverterType::DEC, OutputConverterType::HEX]
    );
    assert_eq!(config.default_inconvs, vec![InputConverterType::ASCII]);

    let config = Config::from_names(Some(vec![]), None).unwrap();
    assert!(config.default_outconvs.is_empty());
    assert_eq!(config.default_inconvs, default_inconvs());

    let outs = vec!["hex".to_string(), "hexa".to_string(), "nope".to_string()];
    let ins = vec!["bad".to_string()];
    let err = Config::from_names(Some(outs), Some(ins)).unwrap_err();
    assert_eq!(err, ConfigError::InvalidOutputConverter("hexa".to_string()));
    assert_eq!(err.to_string(), "Invalid Ouptut Converter type: hexa");

    let ins = vec!["bin".to_string(), "bad".to_string()];
    let err = Config::from_names(None, Some(ins)).unwrap_err();
    assert_eq!(err, ConfigError::InvalidInputConverter("bad".to_string()));
    assert_eq!(err.to_string(), "Invalid Ouptut Converter type: bad");
}

#[test]
fn results_are_laid_out_in_lines() {
    let opts = request(
        "A",
        &[InputConverterType::DEC, InputConverterType::HEX, InputConverterType::ASCII],
        &[OutputConverterType::DEC, OutputConverterType::HEX, OutputConverterType::ASCII],
    );
    let output = do_convert(opts).unwrap();
    let row = |name: &str, text: &str| (name.to_string(), text.to_string());
    assert_eq!(
        output.sections(),
        vec![
            ("hexadecimal".to_string(), vec![row("    decimal", "10")]),
            (
                "ascii".to_string(),
                vec![row("    decimal", "65"), row("hexadecimal", "41")]
            ),
        ]
    );
    assert_eq!(
        output.inner[&InputConverterType::ASCII].rows(),
        vec![row("    decimal", "65"), row("hexadecimal", "41")]
    );
    let outconvs: IndexSet<OutputConverterType> = default_outconvs().into_iter().collect();
    let result = proces_outconvs(&outconvs, &InputConverterType::DEC, 65);
    assert_eq!(
        result.rows(),
        vec![
            row("hexadecimal", "41"),
            row("     binary", "1000001"),
            row("      octal", "101"),
            row("      ascii", "'A'"),
        ]
    );
    let nothing = baseic::convert::ConversionResult::from(indexmap::IndexMap::new());
    assert!(nothing.is_empty());
    assert!(nothing.rows().is_empty());
}

#[test]
fn pairs_are_gathered_in_order() {
    let result = baseic::convert::ConversionResult::from_iter(vec![
        (OutputConverterType::HEX, "A".to_string()),
        (OutputConverterType::DEC, "10".to_string()),
        (OutputConverterType::HEX, "B".to_string()),
    ]);
    let entries: Vec<_> = result.inner.iter().map(|(k, v)| (*k, v.clone())).collect();
    assert_eq!(
        entries,
        vec![
            (OutputConverterType::HEX, "B".to_string()),
            (OutputConverterType::DEC, "10".to_string()),
        ]
    );
    let other = baseic::convert::ConversionResult::from_iter(vec![(
        OutputConverterType::OCT,
        "12".to_string(),
    )]);
    let empty = baseic::convert::ConversionResult::from_iter(vec![]);
    assert!(empty.is_empty());
    let output = baseic::convert::ConversionOutput::from_iter(vec![
        (InputConverterType::BIN, result),
        (InputConverterType::DEC, other),
        (InputConverterType::BIN, empty),
    ]);
    assert!(!output.is_empty());
    let keys: Vec<_> = output.inner.keys().copied().collect();
    assert_eq!(keys, vec![InputConverterType::BIN, InputConverterType::DEC]);
    assert!(output.inner[&InputConverterType::BIN].is_empty());
    assert_eq!(output.inner[&InputConverterType::DEC].inner[&OutputConverterType::OCT], "12");
    assert!(baseic::convert::ConversionOutput::from_iter(vec![]).is_empty());
}
