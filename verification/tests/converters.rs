use baseic::convert::{
    AsciiInputConverter, AsciiOutputConverter, BinInputConverter, BinOuptutConverter,
    DecInputConverter, DecOutputConverter, HexInputConverter, HexOutputConverter, InputConverter,
    InputConverterType, OctInputConverter, OctOutputConverter, OutputConverter,
    OutputConverterType,
};

#[test]
fn ascii_inconv_ok() {
    let tests = [("A", 65), ("0", 48), (" ", 32), ("x", 120), ("~", 126)];
    let conv = AsciiInputConverter;
    for (input, exp) in tests {
        assert_eq!(conv.convert(input).unwrap(), exp);
    }
}

#[test]
fn ascii_inconv_err() {
    let tests = ["", "abcdefg", "\t", "'a'"];
    let conv = AsciiInputConverter;
    for input in tests {
        conv.convert(input).unwrap_err();
    }
}

#[test]
fn ascii_outconv_ok() {
    let tests = [(65, "'A'"), (48, "'0'"), (32, "' '"), (126, "'~'")];
    let conv = AsciiOutputConverter;
    for (input, exp) in tests {
        assert_eq!(conv.convert(input).unwrap(), exp);
    }
}

#[test]
fn ascii_outconv_err() {
    let tests = [-123, 0, 127, 200, 31, 20];
    let conv = AsciiOutputConverter;
    for input in tests {
        conv.convert(input).unwrap_err();
    }
}

#[test]
fn bin_inconv_ok() {
    let tests = [
        ("10110011010", 0b10110011010),
        ("0b1000", 0b1000),
        ("0B1000", 0b1000),
        ("00000", 0),
        ("000001", 1),
        ("0b0", 0),
        ("0", 0),
    ];
    let conv = BinInputConverter;
    for (input, exp) in tests {
        assert_eq!(conv.convert(input).unwrap(), exp);
    }
}

#[test]
fn bin_inconv_err() {
    let tests = ["", "abcdefg", "1234", "0b", "0x10010"];
    let conv = BinInputConverter;
    for input in tests {
        conv.convert(input).unwrap_err();
    }
}

#[test]
fn bin_outconv_ok() {
    let tests = [(0b101101, "101101"), (0, "0")];
    let conv = BinOuptutConverter;
    for (input, exp) in tests {
        assert_eq!(conv.convert(input).unwrap(), exp);
    }
}

#[test]
fn dec_inconv_ok() {
    let tests = [("1234", 1234), ("0", 0), ("-145", -145), ("-0", 0)];
    let conv = DecInputConverter;
    for (input, exp) in tests {
        assert_eq!(conv.convert(input).unwrap(), exp);
    }
}

#[test]
fn dec_inconv_err() {
    let tests = ["", "abcde", "123abc", "-+ciao", "-"];
    let conv = DecInputConverter;
    for input in tests {
        conv.convert(input).unwrap_err();
    }
}

#[test]
fn dec_outconv_ok() {
    let tests = [(1234, "1234"), (0, "0"), (-145, "-145")];
    let conv = DecOutputConverter;
    for (input, exp) in tests {
        assert_eq!(conv.convert(input).unwrap(), exp);
    }
}

#[test]
fn hex_inconv_ok() {
    let tests = [
        ("1234ABC", 0x1234ABC),
        ("1234abc", 0x1234ABC),
        ("0xFF", 0xFF),
        ("0XFF", 0xFF),
        ("00000", 0),
        ("0", 0),
        ("0x0", 0),
    ];
    let conv = HexInputConverter;
    for (input, exp) in tests {
        assert_eq!(conv.convert(input).unwrap(), exp);
    }
}

#[test]
fn hex_inconv_err() {
    let tests = ["", "abcdefg", "+*&#", "0x", "aBC0x1234"];
    let conv = HexInputConverter;
    for input in tests {
        conv.convert(input).unwrap_err();
    }
}

#[test]
fn hex_outconv_ok() {
    let tests = [(0x1234ABCD, "1234ABCD"), (0, "0")];
    let conv = HexOutputConverter;
    for (input, exp) in tests {
        assert_eq!(conv.convert(input).unwrap(), exp);
    }
}

#[test]
fn oct_inconv_ok() {
    let tests = [
        ("162635", 0o162635),
        ("0o1234", 0o1234),
        ("0O1234", 0o1234),
        ("00000", 0),
        ("000001", 1),
        ("0o0", 0),
        ("0", 0),
    ];
    let conv = OctInputConverter;
    for (input, exp) in tests {
        assert_eq!(conv.convert(input).unwrap(), exp);
    }
}

#[test]
fn oct_inconv_err() {
    let tests = ["", "abcdefg", "8765", "0o", "0b10010"];
    let conv = OctInputConverter;
    for input in tests {
        conv.convert(input).unwrap_err();
    }
}

#[test]
fn oct_outconv_ok() {
    let tests = [(0o1754, "1754"), (0, "0")];
    let conv = OctOutputConverter;
    for (input, exp) in tests {
        assert_eq!(conv.convert(input).unwrap(), exp);
    }
}

#[test]
fn oct_outconv_err() {
    let tests = [-123];
    let conv = OctOutputConverter;
    for input in tests {
        conv.convert(input).unwrap_err();
    }
}

#[test]
fn dec_limits() {
    let conv = DecInputConverter;
    assert_eq!(
        conv.convert("170141183460469231731687303715884105727").unwrap(),
        i128::MAX
    );
    assert_eq!(
        conv.convert("-170141183460469231731687303715884105727").unwrap(),
        -i128::MAX
    );
    conv.convert("170141183460469231731687303715884105728").unwrap_err();
    conv.convert("-170141183460469231731687303715884105728").unwrap_err();
    conv.convert("999999999999999999999999999999999999999999").unwrap_err();
    conv.convert("+5").unwrap_err();
    conv.convert("--5").unwrap_err();
    conv.convert("5-").unwrap_err();
}

#[test]
fn dec_outconv_limits() {
    let conv = DecOutputConverter;
    assert_eq!(
        conv.convert(i128::MAX).unwrap(),
        "170141183460469231731687303715884105727"
    );
    assert_eq!(
        conv.convert(i128::MIN).unwrap(),
        "-170141183460469231731687303715884105728"
    );
    assert_eq!(conv.convert(-1).unwrap(), "-1");
    assert_eq!(conv.convert(10).unwrap(), "10");
}

#[test]
fn hex_limits() {
    let conv = HexInputConverter;
    assert_eq!(
        conv.convert("7FFFFFFFFFFFFFFFFFFFFFFFFFFFFFFF").unwrap(),
        i128::MAX
    );
    assert_eq!(
        conv.convert("0x7fffffffffffffffffffffffffffffff").unwrap(),
        i128::MAX
    );
    conv.convert("80000000000000000000000000000000").unwrap_err();
    conv.convert("FFFFFFFFFFFFFFFFFFFFFFFFFFFFFFFFFFFF").unwrap_err();
    conv.convert("-FF").unwrap_err();
    conv.convert("0x0x1").unwrap_err();
    conv.convert("x1").unwrap_err();
    assert_eq!(conv.convert("0b1").unwrap(), 0xB1);
    assert_eq!(conv.convert("0000000000000000000000000000000000000000000001").unwrap(), 1);
}

#[test]
fn negative_bit_patterns() {
    assert_eq!(
        HexOutputConverter.convert(-5).unwrap(),
        "FFFFFFFFFFFFFFFFFFFFFFFFFFFFFFFB"
    );
    assert_eq!(
        HexOutputConverter.convert(i128::MIN).unwrap(),
        "80000000000000000000000000000000"
    );
    let ones = BinOuptutConverter.convert(-1).unwrap();
    assert_eq!(ones.len(), 128);
    assert!(ones.chars().all(|c| c == '1'));
    let minus_five = BinOuptutConverter.convert(-5).unwrap();
    assert_eq!(minus_five.len(), 128);
    assert!(minus_five.ends_with("11111011"));
    assert_eq!(HexOutputConverter.convert(255).unwrap(), "FF");
    assert_eq!(HexOutputConverter.convert(i128::MAX).unwrap(), "7FFFFFFFFFFFFFFFFFFFFFFFFFFFFFFF");
    assert_eq!(OctOutputConverter.convert(255).unwrap(), "377");
    assert_eq!(BinOuptutConverter.convert(255).unwrap(), "11111111");
}

#[test]
fn prefixes_in_either_case() {
    assert_eq!(BinInputConverter.convert("0B101").unwrap(), 5);
    assert_eq!(OctInputConverter.convert("0O17").unwrap(), 15);
    assert_eq!(HexInputConverter.convert("0Xff").unwrap(), 255);
    BinInputConverter.convert("0b").unwrap_err();
    OctInputConverter.convert("0o").unwrap_err();
    HexInputConverter.convert("0x").unwrap_err();
    BinInputConverter.convert("0b2").unwrap_err();
    OctInputConverter.convert("0o8").unwrap_err();
    HexInputConverter.convert("0xG").unwrap_err();
    BinInputConverter.convert("0o1").unwrap_err();
    DecInputConverter.convert("0x10").unwrap_err();
}

#[test]
fn ascii_rejects_what_is_not_printable() {
    let conv = AsciiInputConverter;
    conv.convert("\u{7f}").unwrap_err();
    conv.convert("\u{1f}").unwrap_err();
    conv.convert("é").unwrap_err();
    conv.convert("ab").unwrap_err();
    assert_eq!(conv.convert("'").unwrap(), 39);
    assert_eq!(AsciiOutputConverter.convert(39).unwrap(), "'''");
    AsciiOutputConverter.convert(i128::MAX).unwrap_err();
    AsciiOutputConverter.convert(256 + 65).unwrap_err();
}

#[test]
fn leading_zeros_do_not_matter() {
    assert_eq!(DecInputConverter.convert("00042").unwrap(), 42);
    assert_eq!(DecInputConverter.convert("42").unwrap(), 42);
    assert_eq!(DecInputConverter.convert("-00042").unwrap(), -42);
    assert_eq!(HexInputConverter.convert("00042").unwrap(), 0x42);
    assert_eq!(HexInputConverter.convert("42").unwrap(), 0x42);
    assert_eq!(HexInputConverter.convert("0x00042").unwrap(), 0x42);
    assert_eq!(BinInputConverter.convert("000101").unwrap(), 5);
    assert_eq!(BinInputConverter.convert("101").unwrap(), 5);
    assert_eq!(OctInputConverter.convert("00042").unwrap(), 0o42);
    assert_eq!(OctInputConverter.convert("42").unwrap(), 0o42);
}

#[test]
fn written_values_read_back() {
    let values = [0i128, 1, 9, 10, 15, 16, 255, 1234, 65535, i128::MAX];
    for value in values {
        let dec = DecOutputConverter.convert(value).unwrap();
        assert_eq!(DecInputConverter.convert(&dec).unwrap(), value);
        let hex = HexOutputConverter.convert(value).unwrap();
        assert_eq!(HexInputConverter.convert(&hex).unwrap(), value);
        let bin = BinOuptutConverter.convert(value).unwrap();
        assert_eq!(BinInputConverter.convert(&bin).unwrap(), value);
        let oct = OctOutputConverter.convert(value).unwrap();
        assert_eq!(OctInputConverter.convert(&oct).unwrap(), value);
    }
    for value in [-1i128, -145, -i128::MAX] {
        let dec = DecOutputConverter.convert(value).unwrap();
        assert_eq!(DecInputConverter.convert(&dec).unwrap(), value);
    }
    // A character is written between quotes, and read without.
    let quoted = AsciiOutputConverter.convert(65).unwrap();
    assert_eq!(quoted, "'A'");
    AsciiInputConverter.convert(&quoted).unwrap_err();
}

#[test]
fn converter_of_each_tag() {
    assert_eq!(InputConverterType::DEC.get_converter().convert("-12").unwrap(), -12);
    assert_eq!(InputConverterType::HEX.get_converter().convert("ff").unwrap(), 255);
    assert_eq!(InputConverterType::BIN.get_converter().convert("101").unwrap(), 5);
    assert_eq!(InputConverterType::OCT.get_converter().convert("17").unwrap(), 15);
    assert_eq!(InputConverterType::ASCII.get_converter().convert("A").unwrap(), 65);
    InputConverterType::BIN.get_converter().convert("12").unwrap_err();
    assert_eq!(OutputConverterType::DEC.get_converter().convert(-12).unwrap(), "-12");
    assert_eq!(OutputConverterType::HEX.get_converter().convert(255).unwrap(), "FF");
    assert_eq!(OutputConverterType::BIN.get_converter().convert(5).unwrap(), "101");
    assert_eq!(OutputConverterType::OCT.get_converter().convert(15).unwrap(), "17");
    assert_eq!(OutputConverterType::ASCII.get_converter().convert(65).unwrap(), "'A'");
    OutputConverterType::OCT.get_converter().convert(-1).unwrap_err();
}

#[test]
fn tags_from_names() {
    assert_eq!(InputConverterType::from_str("dec"), Ok(InputConverterType::DEC));
    assert_eq!(InputConverterType::from_str("Hex"), Ok(InputConverterType::HEX));
    assert_eq!(InputConverterType::from_str("BIN"), Ok(InputConverterType::BIN));
    assert_eq!(InputConverterType::from_str("oCt"), Ok(InputConverterType::OCT));
    assert_eq!(InputConverterType::from_str("ascii"), Ok(InputConverterType::ASCII));
    assert_eq!(InputConverterType::from_str("decimal"), Err(()));
    assert_eq!(InputConverterType::from_str(""), Err(()));
    assert_eq!(InputConverterType::from_str("de"), Err(()));
    assert_eq!(OutputConverterType::from_str("DEC"), Ok(OutputConverterType::DEC));
    assert_eq!(OutputConverterType::from_str("hex"), Ok(OutputConverterType::HEX));
    assert_eq!(OutputConverterType::from_str("bIn"), Ok(OutputConverterType::BIN));
    assert_eq!(OutputConverterType::from_str("oct"), Ok(OutputConverterType::OCT));
    assert_eq!(OutputConverterType::from_str("Ascii"), Ok(OutputConverterType::ASCII));
    assert_eq!(OutputConverterType::from_str("zzz"), Err(()));
    assert_eq!(OutputConverterType::from_str("\u{212a}"), Err(()));
}

#[test]
fn exclusion_is_the_own_notation() {
    let ins = [
        (InputConverterType::DEC, OutputConverterType::DEC),
        (InputConverterType::HEX, OutputConverterType::HEX),
        (InputConverterType::BIN, OutputConverterType::BIN),
        (InputConverterType::OCT, OutputConverterType::OCT),
        (InputConverterType::ASCII, OutputConverterType::ASCII),
    ];
    for (inconv, own) in ins {
        for (_, outconv) in ins {
            assert_eq!(inconv.is_outconv_excluded(&outconv), outconv == own);
        }
    }
}

#[test]
fn tags_parse_from_strings() {
    assert_eq!("hex".parse::<InputConverterType>(), Ok(InputConverterType::HEX));
    assert_eq!("ASCII".parse::<InputConverterType>(), Ok(InputConverterType::ASCII));
    assert_eq!("hexadecimal".parse::<InputConverterType>(), Err(()));
    assert_eq!("Oct".parse::<OutputConverterType>(), Ok(OutputConverterType::OCT));
    assert_eq!("".parse::<OutputConverterType>(), Err(()));
}
