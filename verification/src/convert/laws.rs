//! What holds of the converters as a whole: a value that is written and read
//! again is the same value, leading zeros change nothing, zero is `0` in
//! every numeric notation, and no result shows a value in the notation it
//! was read from.

use vstd::prelude::*;
use super::conv_types::{InputConverterType, OutputConverterType};
use super::radix::{
    char_digit, digit_char, digits_of, digits_value, has_radix_prefix, is_digit, is_digit_run,
    lemma_quotient_smaller, run_value,
};
use super::{converted, lemma_converted_keys, lemma_rendered_keys, rendered, IntermediateValue};

verus! {

/// The base of a numeric notation; 0 for the one that is not numeric.
pub open spec fn base_of(inconv: InputConverterType) -> int {
    match inconv {
        InputConverterType::DEC => 10,
        InputConverterType::HEX => 16,
        InputConverterType::BIN => 2,
        InputConverterType::OCT => 8,
        InputConverterType::ASCII => 0,
    }
}

/// The input converter that reads the notation of an output converter.
pub open spec fn reader_of(outconv: OutputConverterType) -> InputConverterType {
    match outconv {
        OutputConverterType::DEC => InputConverterType::DEC,
        OutputConverterType::HEX => InputConverterType::HEX,
        OutputConverterType::BIN => InputConverterType::BIN,
        OutputConverterType::OCT => InputConverterType::OCT,
        OutputConverterType::ASCII => InputConverterType::ASCII,
    }
}

/// The values that a notation both writes and reads back: every value but
/// the least one in decimal, the values from zero on in hexadecimal, binary
/// and octal, and none as a character, which is written between quotes and
/// read without.
pub open spec fn reads_back(outconv: OutputConverterType, value: IntermediateValue) -> bool {
    match outconv {
        OutputConverterType::DEC => value > i128::MIN,
        OutputConverterType::HEX => value >= 0,
        OutputConverterType::BIN => value >= 0,
        OutputConverterType::OCT => value >= 0,
        OutputConverterType::ASCII => false,
    }
}

/// The digits that write a number are a run of digits of the base, and are
/// worth the number.
pub proof fn lemma_digits_of_value(n: nat, base: int)
    requires
        2 <= base <= 16,
    ensures
        is_digit_run(digits_of(n, base), base),
        digits_value(digits_of(n, base), base) == n,
    decreases n,
{
    let s = digits_of(n, base);
    if n < base {
        assert(s.drop_last() =~= Seq::<char>::empty());
        assert(char_digit(digit_char(n as int)) == n);
        assert(s.last() == digit_char(n as int));
        assert(digits_value(s.drop_last(), base) == 0);
    } else {
        let q = n / (base as nat);
        let r = n % (base as nat);
        lemma_quotient_smaller(n, base);
        lemma_digits_of_value(q, base);
        let head = digits_of(q, base);
        assert(s == head.push(digit_char(r as int)));
        assert(s.drop_last() =~= head);
        assert(s.last() == digit_char(r as int));
        assert(char_digit(digit_char(r as int)) == r);
        assert(q * base + r == n) by (nonlinear_arith)
            requires
                q == n / (base as nat),
                r == n % (base as nat),
                base >= 2,
        ;
        assert forall|i: int| 0 <= i < s.len() implies is_digit(#[trigger] s[i], base) by {
            if i < head.len() {
                assert(s[i] == head[i]);
            }
        }
    }
}

/// A run of digits does not start with the prefix of its own base.
pub proof fn lemma_run_has_no_prefix(s: Seq<char>, base: int, mark: char)
    requires
        is_digit_run(s, base),
        (base == 16 && mark == 'x') || (base == 2 && mark == 'b') || (base == 8 && mark == 'o'),
    ensures
        !has_radix_prefix(s, mark),
{
    if s.len() >= 2 {
        assert(is_digit(s[1], base));
    }
}

/// A value that a notation writes, and that lies in the range which the
/// notation reads back, is read from its text as the same value. This holds
/// whatever notation the value came from.
pub proof fn lemma_round_trip(outconv: OutputConverterType, value: IntermediateValue)
    requires
        reads_back(outconv, value),
    ensures
        outconv.writes(value) is Some,
        reader_of(outconv).reads(outconv.writes(value)->Some_0) == Some(value),
{
    match outconv {
        OutputConverterType::DEC => {
            if value < 0 {
                let digits = digits_of((-value) as nat, 10);
                lemma_digits_of_value((-value) as nat, 10);
                let text = seq!['-'] + digits;
                assert(text[0] == '-');
                assert(text.skip(1) =~= digits);
            } else {
                let digits = digits_of(value as nat, 10);
                lemma_digits_of_value(value as nat, 10);
                assert(is_digit(digits[0], 10));
            }
        },
        OutputConverterType::HEX => {
            lemma_digits_of_value(value as nat, 16);
            lemma_run_has_no_prefix(digits_of(value as nat, 16), 16, 'x');
        },
        OutputConverterType::BIN => {
            lemma_digits_of_value(value as nat, 2);
            lemma_run_has_no_prefix(digits_of(value as nat, 2), 2, 'b');
        },
        OutputConverterType::OCT => {
            lemma_digits_of_value(value as nat, 8);
            lemma_run_has_no_prefix(digits_of(value as nat, 8), 8, 'o');
        },
        OutputConverterType::ASCII => {},
    }
}

/// A literal that one notation reads, shown in another notation, is read
/// from what is shown as the value that it had: the conversion can be
/// turned back, as long as the value lies in the range which the second
/// notation reads back.
pub proof fn lemma_conversion_turns_back(
    literal: Seq<char>,
    inconv: InputConverterType,
    outconv: OutputConverterType,
)
    requires
        outconv != inconv.twin(),
        inconv.reads(literal) is Some,
        reads_back(outconv, inconv.reads(literal)->Some_0),
    ensures
        outconv.writes(inconv.reads(literal)->Some_0) is Some,
        reader_of(outconv).reads(outconv.writes(inconv.reads(literal)->Some_0)->Some_0)
            == inconv.reads(literal),
{
    lemma_round_trip(outconv, inconv.reads(literal)->Some_0);
}

/// Zeros before a sequence of digits do not change what it is worth.
pub proof fn lemma_zeros_are_worth_nothing(zeros: Seq<char>, digits: Seq<char>, base: int)
    requires
        2 <= base <= 16,
        forall|i: int| 0 <= i < zeros.len() ==> zeros[i] == '0',
    ensures
        digits_value(zeros + digits, base) == digits_value(digits, base),
    decreases digits.len(), zeros.len(),
{
    if digits.len() > 0 {
        lemma_zeros_are_worth_nothing(zeros, digits.drop_last(), base);
        assert((zeros + digits).drop_last() =~= zeros + digits.drop_last());
        assert((zeros + digits).last() == digits.last());
    } else {
        assert(zeros + digits =~= zeros);
        if zeros.len() > 0 {
            lemma_zeros_are_worth_nothing(zeros.drop_last(), digits, base);
            assert(zeros.drop_last() + digits =~= zeros.drop_last());
            assert(char_digit(zeros.last()) == 0);
        }
    }
}

/// Leading zeros do not matter: in decimal, hexadecimal, binary and octal, a
/// run of digits with any number of zeros before it is read as the run alone
/// is read.
pub proof fn lemma_leading_zeros(inconv: InputConverterType, zeros: Seq<char>, digits: Seq<char>)
    requires
        inconv != InputConverterType::ASCII,
        forall|i: int| 0 <= i < zeros.len() ==> zeros[i] == '0',
        is_digit_run(digits, base_of(inconv)),
    ensures
        inconv.reads(zeros + digits) == inconv.reads(digits),
{
    let base = base_of(inconv);
    let padded = zeros + digits;
    lemma_zeros_are_worth_nothing(zeros, digits, base);
    assert forall|i: int| 0 <= i < padded.len() implies is_digit(#[trigger] padded[i], base) by {
        if i < zeros.len() {
            assert(padded[i] == zeros[i]);
        } else {
            assert(padded[i] == digits[i - zeros.len()]);
        }
    }
    assert(is_digit_run(padded, base));
    assert(run_value(padded, base) == run_value(digits, base));
    match inconv {
        InputConverterType::DEC => {
            assert(is_digit(padded[0], 10));
            assert(is_digit(digits[0], 10));
        },
        InputConverterType::HEX => {
            lemma_run_has_no_prefix(padded, 16, 'x');
            lemma_run_has_no_prefix(digits, 16, 'x');
        },
        InputConverterType::BIN => {
            lemma_run_has_no_prefix(padded, 2, 'b');
            lemma_run_has_no_prefix(digits, 2, 'b');
        },
        InputConverterType::OCT => {
            lemma_run_has_no_prefix(padded, 8, 'o');
            lemma_run_has_no_prefix(digits, 8, 'o');
        },
        InputConverterType::ASCII => {},
    }
}

/// The literal `0` is read as zero in decimal, hexadecimal, binary and
/// octal, and zero is written as `0` in each of them. As a character, `0` is
/// read as its code, 48, and zero is not written at all.
pub proof fn lemma_zero(inconv: InputConverterType, outconv: OutputConverterType)
    ensures
        inconv != InputConverterType::ASCII ==> inconv.reads(seq!['0']) == Some(0i128),
        inconv == InputConverterType::ASCII ==> inconv.reads(seq!['0']) == Some(48i128),
        outconv != OutputConverterType::ASCII ==> outconv.writes(0) == Some(seq!['0']),
        outconv == OutputConverterType::ASCII ==> outconv.writes(0) is None,
{
    let zero = seq!['0'];
    assert(zero.drop_last() =~= Seq::<char>::empty());
    assert(digits_value(zero.drop_last(), 10) == 0);
    assert(digits_value(zero.drop_last(), 16) == 0);
    assert(digits_value(zero.drop_last(), 2) == 0);
    assert(digits_value(zero.drop_last(), 8) == 0);
    assert(char_digit(zero.last()) == 0);
    assert(is_digit(zero[0], 2));
    assert(digits_of(0, 10) =~= zero);
    assert(digits_of(0, 16) =~= zero);
    assert(digits_of(0, 2) =~= zero);
    assert(digits_of(0, 8) =~= zero);
}

/// What zero gives under any output converters: `0` under each numeric one
/// that is not excluded, and nothing as a character.
pub proof fn lemma_zero_rendered(outconvs: Seq<OutputConverterType>, inconv: InputConverterType)
    ensures
        forall|j: int|
            0 <= j < rendered(outconvs, inconv, 0).len() ==> (#[trigger] rendered(outconvs, inconv, 0)[j]).1
                == seq!['0'] && rendered(outconvs, inconv, 0)[j].0 != OutputConverterType::ASCII,
    decreases outconvs.len(),
{
    if outconvs.len() > 0 {
        lemma_zero_rendered(outconvs.drop_last(), inconv);
        lemma_zero(inconv, outconvs.last());
    }
}

/// No entry of a result stands under the twin of the input converter that
/// read the value.
pub proof fn lemma_rendered_excludes_twin(
    outconvs: Seq<OutputConverterType>,
    inconv: InputConverterType,
    value: IntermediateValue,
)
    ensures
        forall|j: int| 0 <= j < rendered(outconvs, inconv, value).len() ==> (#[trigger] rendered(
            outconvs,
            inconv,
            value,
        )[j]).0 != inconv.twin(),
    decreases outconvs.len(),
{
    if outconvs.len() > 0 {
        lemma_rendered_excludes_twin(outconvs.drop_last(), inconv, value);
    }
}

/// No two entries of a result stand under the same output converter, as long
/// as no output converter was asked for twice.
pub proof fn lemma_rendered_keys_differ(
    outconvs: Seq<OutputConverterType>,
    inconv: InputConverterType,
    value: IntermediateValue,
)
    requires
        outconvs.no_duplicates(),
    ensures
        forall|i: int, j: int|
            #![trigger rendered(outconvs, inconv, value)[i], rendered(outconvs, inconv, value)[j]]
            0 <= i < j < rendered(outconvs, inconv, value).len() ==> rendered(
                outconvs,
                inconv,
                value,
            )[i].0 != rendered(outconvs, inconv, value)[j].0,
    decreases outconvs.len(),
{
    if outconvs.len() > 0 {
        let shorter = outconvs.drop_last();
        let before = rendered(shorter, inconv, value);
        lemma_rendered_keys_differ(shorter, inconv, value);
        lemma_rendered_keys(shorter, inconv, value);
        assert forall|i: int| 0 <= i < before.len() implies (#[trigger] before[i]).0 != outconvs.last() by {
            let k = choose|k: int| 0 <= k < shorter.len() && shorter[k] == before[i].0;
            assert(outconvs[k] == shorter[k]);
        }
    }
}

/// No two results of an output stand under the same input converter, as
/// long as no input converter was asked for twice.
pub proof fn lemma_converted_keys_differ(
    input: Seq<char>,
    inconvs: Seq<InputConverterType>,
    outconvs: Seq<OutputConverterType>,
)
    requires
        inconvs.no_duplicates(),
    ensures
        forall|i: int, j: int|
            #![trigger converted(input, inconvs, outconvs)[i], converted(input, inconvs, outconvs)[j]]
            0 <= i < j < converted(input, inconvs, outconvs).len() ==> converted(
                input,
                inconvs,
                outconvs,
            )[i].0 != converted(input, inconvs, outconvs)[j].0,
    decreases inconvs.len(),
{
    if inconvs.len() > 0 {
        let shorter = inconvs.drop_last();
        let before = converted(input, shorter, outconvs);
        lemma_converted_keys_differ(input, shorter, outconvs);
        lemma_converted_keys(input, shorter, outconvs);
        assert forall|i: int| 0 <= i < before.len() implies (#[trigger] before[i]).0 != inconvs.last() by {
            let k = choose|k: int| 0 <= k < shorter.len() && shorter[k] == before[i].0;
            assert(inconvs[k] == shorter[k]);
        }
    }
}

/// In the output of a conversion, the result under an input converter is not
/// empty, and holds no entry under that input converter's twin.
pub proof fn lemma_converted_excludes_twin(
    input: Seq<char>,
    inconvs: Seq<InputConverterType>,
    outconvs: Seq<OutputConverterType>,
)
    ensures
        forall|i: int, j: int|
            #![trigger converted(input, inconvs, outconvs)[i].1[j]]
            0 <= i < converted(input, inconvs, outconvs).len() && 0 <= j < converted(
                input,
                inconvs,
                outconvs,
            )[i].1.len() ==> converted(input, inconvs, outconvs)[i].1[j].0 != converted(
                input,
                inconvs,
                outconvs,
            )[i].0.twin(),
        forall|i: int|
            0 <= i < converted(input, inconvs, outconvs).len() ==> (#[trigger] converted(
                input,
                inconvs,
                outconvs,
            )[i]).1.len() > 0,
    decreases inconvs.len(),
{
    if inconvs.len() > 0 {
        lemma_converted_excludes_twin(input, inconvs.drop_last(), outconvs);
        let inconv = inconvs.last();
        if let Some(value) = inconv.reads(input) {
            lemma_rendered_excludes_twin(outconvs, inconv, value);
        }
    }
}

} // verus!
