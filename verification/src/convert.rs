//! The conversion engine: format tags, parsers, formatters and the fan-out
//! from one literal to every requested notation.

use vstd::prelude::*;
use indexmap::{IndexMap, IndexSet};
use crate::opts::Opts;
use crate::convert::laws::{
    lemma_converted_excludes_twin, lemma_converted_keys_differ, lemma_rendered_excludes_twin,
    lemma_rendered_keys_differ,
};
use crate::ordered::{
    inconv_set_items, inconv_set_to_vec, outconv_set_items, outconv_set_to_vec, output_entries,
    output_map_insert, output_map_is_empty, output_map_new, result_entries, result_map_insert,
    result_map_is_empty, result_map_new,
};

pub mod ascii;
pub mod bin;
pub mod conv_types;
pub mod dec;
pub mod hex;
pub mod laws;
pub mod octal;
pub mod radix;

pub use ascii::{AsciiInputConverter, AsciiOutputConverter};
pub use bin::{BinInputConverter, BinOuptutConverter};
pub use conv_types::{AnyInputConverter, AnyOutputConverter, InputConverterType, OutputConverterType};
pub use dec::{DecInputConverter, DecOutputConverter};
pub use hex::{HexInputConverter, HexOutputConverter};
pub use octal::{OctInputConverter, OctOutputConverter};

verus! {

/// Intermediate type shared by every parser and every formatter.
pub type IntermediateValue = i128;

/// Represents a generic output converter.
pub trait OutputConverter {
    /// The text that this converter gives for a value, if it gives one.
    spec fn writes(&self, input: IntermediateValue) -> Option<Seq<char>>;

    /// Convert a value of the intermediate type to text.
    fn convert(&self, input: IntermediateValue) -> (res: Result<String, ()>)
        ensures
            match self.writes(input) {
                Some(text) => res is Ok && res->Ok_0@ == text,
                None => res is Err,
            },
    ;
}

/// Represents a generic input converter.
pub trait InputConverter {
    /// The value that this converter reads from a literal, if it reads one.
    spec fn reads(&self, input: Seq<char>) -> Option<IntermediateValue>;

    /// Convert a literal to the intermediate type. The whole literal must be
    /// consumed.
    fn convert(&self, input: &str) -> (res: Result<IntermediateValue, ()>)
        ensures
            res == match self.reads(input@) {
                Some(val) => Ok::<IntermediateValue, ()>(val),
                None => Err::<IntermediateValue, ()>(()),
            },
    ;
}

/// The entries of an ordered map once a value is put under a key: under a
/// key that the map holds, the entry keeps its place and takes the value;
/// under any other, the entry comes last.
pub open spec fn put<K, V>(entries: Seq<(K, V)>, key: K, value: V) -> Seq<(K, V)> {
    if exists|i: int| 0 <= i < entries.len() && (#[trigger] entries[i]).0 == key {
        entries.update(choose|i: int| 0 <= i < entries.len() && (#[trigger] entries[i]).0 == key, (key, value))
    } else {
        entries.push((key, value))
    }
}

/// The entries of an ordered map that is filled from pairs, one after the
/// other.
pub open spec fn gathered<K, V>(pairs: Seq<(K, V)>) -> Seq<(K, V)>
    decreases pairs.len(),
{
    if pairs.len() == 0 {
        Seq::empty()
    } else {
        put(gathered(pairs.drop_last()), pairs.last().0, pairs.last().1)
    }
}

/// Pairs of an output converter type and a text, the text as a sequence of
/// characters.
pub open spec fn text_pairs(pairs: Seq<(OutputConverterType, String)>) -> Seq<
    (OutputConverterType, Seq<char>),
> {
    Seq::new(pairs.len(), |i: int| (pairs[i].0, pairs[i].1@))
}

/// Pairs of an input converter type and a result, the result by its entries.
pub open spec fn result_pairs(pairs: Seq<(InputConverterType, ConversionResult)>) -> Seq<
    (InputConverterType, Seq<(OutputConverterType, Seq<char>)>),
> {
    Seq::new(pairs.len(), |i: int| (pairs[i].0, pairs[i].1@))
}

/// Represents the result of conversion starting from a single input
/// converter type: the rendered text under each output converter type, in
/// the order in which the output converters were asked for.
#[derive(Debug)]
pub struct ConversionResult {
    pub inner: IndexMap<OutputConverterType, String>,
}

impl View for ConversionResult {
    type V = Seq<(OutputConverterType, Seq<char>)>;

    open spec fn view(&self) -> Self::V {
        result_entries(self.inner)
    }
}

impl From<IndexMap<OutputConverterType, String>> for ConversionResult {
    fn from(value: IndexMap<OutputConverterType, String>) -> (res: Self) {
        Self { inner: value }
    }
}

impl vstd::std_specs::convert::FromSpecImpl<IndexMap<OutputConverterType, String>> for ConversionResult {
    open spec fn obeys_from_spec() -> bool {
        true
    }

    open spec fn from_spec(value: IndexMap<OutputConverterType, String>) -> Self {
        ConversionResult { inner: value }
    }
}

impl ConversionResult {
    /// Gathers pairs into a result: each text is put under its output
    /// converter type, in the order of the pairs.
    pub fn from_iter(iter: Vec<(OutputConverterType, String)>) -> (res: Self)
        ensures
            res@ == gathered(text_pairs(iter@)),
    {
        let ghost pairs = text_pairs(iter@);
        let mut inner = result_map_new();
        let mut i: usize = 0;
        while i < iter.len()
            invariant
                i <= iter@.len(),
                pairs == text_pairs(iter@),
                result_entries(inner) == gathered(pairs.take(i as int)),
            decreases iter@.len() - i,
        {
            proof {
                assert(pairs.take(i + 1).drop_last() =~= pairs.take(i as int));
                assert(pairs.take(i + 1).last() == pairs[i as int]);
            }
            result_map_insert(&mut inner, iter[i].0, iter[i].1.clone());
            i += 1;
        }
        assert(pairs.take(i as int) =~= pairs);
        Self::from(inner)
    }

    /// Checks if there are any results.
    pub fn is_empty(&self) -> (empty: bool)
        ensures
            empty == (self@.len() == 0),
    {
        result_map_is_empty(&self.inner)
    }
}

/// Represents the result of conversion: the result under each input
/// converter type that read the literal, in the order in which the input
/// converters were asked for.
#[derive(Debug)]
pub struct ConversionOutput {
    pub inner: IndexMap<InputConverterType, ConversionResult>,
}

impl View for ConversionOutput {
    type V = Seq<(InputConverterType, Seq<(OutputConverterType, Seq<char>)>)>;

    open spec fn view(&self) -> Self::V {
        output_entries(self.inner)
    }
}

impl From<IndexMap<InputConverterType, ConversionResult>> for ConversionOutput {
    fn from(value: IndexMap<InputConverterType, ConversionResult>) -> (res: Self) {
        Self { inner: value }
    }
}

impl vstd::std_specs::convert::FromSpecImpl<IndexMap<InputConverterType, ConversionResult>> for ConversionOutput {
    open spec fn obeys_from_spec() -> bool {
        true
    }

    open spec fn from_spec(value: IndexMap<InputConverterType, ConversionResult>) -> Self {
        ConversionOutput { inner: value }
    }
}

impl ConversionOutput {
    /// Gathers pairs into an output: each result is put under its input
    /// converter type, in the order of the pairs.
    pub fn from_iter(iter: Vec<(InputConverterType, ConversionResult)>) -> (res: Self)
        ensures
            res@ == gathered(result_pairs(iter@)),
    {
        let ghost pairs = result_pairs(iter@);
        let mut rest = iter;
        let mut inner = output_map_new();
        let ghost mut n: int = 0;
        while rest.len() > 0
            invariant
                0 <= n,
                n + rest@.len() == pairs.len(),
                result_pairs(rest@) == pairs.skip(n),
                output_entries(inner) == gathered(pairs.take(n)),
            decreases rest@.len(),
        {
            proof {
                assert(pairs.take(n + 1).drop_last() =~= pairs.take(n));
                assert(pairs.take(n + 1).last() == pairs[n]);
                assert(pairs.skip(n)[0] == pairs[n]);
                assert(result_pairs(rest@)[0] == (rest@[0].0, rest@[0].1@));
                assert(result_pairs(rest@.remove(0)) =~= pairs.skip(n + 1)) by {
                    assert forall|j: int| 0 <= j < rest@.len() - 1 implies result_pairs(rest@.remove(0))[j]
                        == pairs.skip(n + 1)[j] by {
                        assert(rest@.remove(0)[j] == rest@[j + 1]);
                        assert(result_pairs(rest@)[j + 1] == pairs.skip(n)[j + 1]);
                    }
                }
            }
            let (key, value) = rest.remove(0);
            output_map_insert(&mut inner, key, value);
            proof {
                n = n + 1;
            }
        }
        assert(pairs.take(n) =~= pairs);
        Self::from(inner)
    }

    /// Checks if there are any results.
    pub fn is_empty(&self) -> (empty: bool)
        ensures
            empty == (self@.len() == 0),
    {
        output_map_is_empty(&self.inner)
    }
}

/// Conversion error.
#[derive(Debug)]
pub enum ConversionError {
    NoResults,
}

/// The entries that one value gives under a list of output converters: for
/// each of them in order, but the twin of the input converter that read the
/// value, the text that it writes, where it writes one.
pub open spec fn rendered(
    outconvs: Seq<OutputConverterType>,
    inconv: InputConverterType,
    value: IntermediateValue,
) -> Seq<(OutputConverterType, Seq<char>)>
    decreases outconvs.len(),
{
    if outconvs.len() == 0 {
        Seq::empty()
    } else {
        let before = rendered(outconvs.drop_last(), inconv, value);
        let outconv = outconvs.last();
        if outconv != inconv.twin() && outconv.writes(value) is Some {
            before.push((outconv, outconv.writes(value)->Some_0))
        } else {
            before
        }
    }
}

/// The entries that a literal gives under a list of input converters and a
/// list of output converters: for each input converter in order that reads
/// the literal, the entries that its value gives, where there are any.
pub open spec fn converted(
    input: Seq<char>,
    inconvs: Seq<InputConverterType>,
    outconvs: Seq<OutputConverterType>,
) -> Seq<(InputConverterType, Seq<(OutputConverterType, Seq<char>)>)>
    decreases inconvs.len(),
{
    if inconvs.len() == 0 {
        Seq::empty()
    } else {
        let before = converted(input, inconvs.drop_last(), outconvs);
        let inconv = inconvs.last();
        match inconv.reads(input) {
            Some(value) => if rendered(outconvs, inconv, value).len() > 0 {
                before.push((inconv, rendered(outconvs, inconv, value)))
            } else {
                before
            },
            None => before,
        }
    }
}

/// Every entry of `rendered` stands under one of the output converters asked
/// for, and under none twice as long as none was asked for twice.
pub proof fn lemma_rendered_keys(
    outconvs: Seq<OutputConverterType>,
    inconv: InputConverterType,
    value: IntermediateValue,
)
    ensures
        forall|j: int| 0 <= j < rendered(outconvs, inconv, value).len() ==> outconvs.contains(
            (#[trigger] rendered(outconvs, inconv, value)[j]).0,
        ),
    decreases outconvs.len(),
{
    if outconvs.len() > 0 {
        let shorter = outconvs.drop_last();
        lemma_rendered_keys(shorter, inconv, value);
        assert forall|j: int| 0 <= j < rendered(outconvs, inconv, value).len() implies outconvs.contains(
            (#[trigger] rendered(outconvs, inconv, value)[j]).0,
        ) by {
            let before = rendered(shorter, inconv, value);
            if j < before.len() {
                let key = before[j].0;
                assert(shorter.contains(key));
                let k = choose|k: int| 0 <= k < shorter.len() && shorter[k] == key;
                assert(outconvs[k] == key);
            } else {
                assert(outconvs[outconvs.len() - 1] == outconvs.last());
            }
        }
    }
}

/// Every entry of `converted` stands under one of the input converters asked
/// for.
pub proof fn lemma_converted_keys(
    input: Seq<char>,
    inconvs: Seq<InputConverterType>,
    outconvs: Seq<OutputConverterType>,
)
    ensures
        forall|j: int| 0 <= j < converted(input, inconvs, outconvs).len() ==> inconvs.contains(
            (#[trigger] converted(input, inconvs, outconvs)[j]).0,
        ),
    decreases inconvs.len(),
{
    if inconvs.len() > 0 {
        let shorter = inconvs.drop_last();
        lemma_converted_keys(input, shorter, outconvs);
        assert forall|j: int| 0 <= j < converted(input, inconvs, outconvs).len() implies inconvs.contains(
            (#[trigger] converted(input, inconvs, outconvs)[j]).0,
        ) by {
            let before = converted(input, shorter, outconvs);
            if j < before.len() {
                let key = before[j].0;
                assert(shorter.contains(key));
                let k = choose|k: int| 0 <= k < shorter.len() && shorter[k] == key;
                assert(inconvs[k] == key);
            } else {
                assert(inconvs[inconvs.len() - 1] == inconvs.last());
            }
        }
    }
}

/// Performs conversion with given options: every input converter is tried on
/// the input, and each value read is rendered by every output converter but
/// the input converter's own twin. Fails where nothing at all comes out.
pub fn do_convert(opts: Opts) -> (res: Result<ConversionOutput, ConversionError>)
    ensures
        match res {
            Ok(output) => {
                &&& output@.len() > 0
                &&& output@ == converted(
                    opts.input@,
                    inconv_set_items(opts.inconvs),
                    outconv_set_items(opts.outconvs),
                )
                &&& forall|i: int, j: int|
                    #![trigger output@[i], output@[j]]
                    0 <= i < j < output@.len() ==> output@[i].0 != output@[j].0
                &&& forall|i: int| 0 <= i < output@.len() ==> (#[trigger] output@[i]).1.len() > 0
                &&& forall|i: int, j: int|
                    #![trigger output@[i].1[j]]
                    0 <= i < output@.len() && 0 <= j < output@[i].1.len() ==> output@[i].1[j].0
                        != output@[i].0.twin()
            },
            Err(ConversionError::NoResults) => converted(
                opts.input@,
                inconv_set_items(opts.inconvs),
                outconv_set_items(opts.outconvs),
            ).len() == 0,
        },
{
    let inconvs = inconv_set_to_vec(&opts.inconvs);
    let ghost outconvs = outconv_set_items(opts.outconvs);
    proof {
        lemma_converted_excludes_twin(opts.input@, inconvs@, outconvs);
        lemma_converted_keys_differ(opts.input@, inconvs@, outconvs);
    }
    let mut inner = output_map_new();
    let mut i: usize = 0;
    while i < inconvs.len()
        invariant
            i <= inconvs.len(),
            inconvs@ == inconv_set_items(opts.inconvs),
            inconvs@.no_duplicates(),
            outconvs == outconv_set_items(opts.outconvs),
            output_entries(inner) == converted(opts.input@, inconvs@.take(i as int), outconvs),
        decreases inconvs.len() - i,
    {
        let inconv = inconvs[i];
        proof {
            assert(inconvs@.take(i + 1).drop_last() =~= inconvs@.take(i as int));
            assert(inconvs@.take(i + 1).last() == inconv);
            lemma_converted_keys(opts.input@, inconvs@.take(i as int), outconvs);
        }
        // Run input converter
        if let Ok(value) = inconv.get_converter().convert(opts.input.as_str()) {
            let res = proces_outconvs(&opts.outconvs, &inconv, value);
            if !res.is_empty() {
                output_map_insert(&mut inner, inconv, res);
            }
        }
        i += 1;
    }
    assert(inconvs@.take(i as int) =~= inconvs@);
    let res = ConversionOutput::from(inner);

    // Check if result is empty
    if res.is_empty() {
        Err(ConversionError::NoResults)
    } else {
        Ok(res)
    }
}

/// Process output converters from a given intermediate value: the value is
/// rendered by each of them in order, but the input converter's own twin; an
/// output converter that has no text for the value is passed over.
pub fn proces_outconvs(
    outconvs: &IndexSet<OutputConverterType>,
    inconv: &InputConverterType,
    input: IntermediateValue,
) -> (res: ConversionResult)
    ensures
        res@ == rendered(outconv_set_items(*outconvs), *inconv, input),
        forall|j: int| 0 <= j < res@.len() ==> (#[trigger] res@[j]).0 != inconv.twin(),
        forall|i: int, j: int|
            #![trigger res@[i], res@[j]]
            0 <= i < j < res@.len() ==> res@[i].0 != res@[j].0,
{
    let tags = outconv_set_to_vec(outconvs);
    proof {
        lemma_rendered_excludes_twin(tags@, *inconv, input);
        lemma_rendered_keys_differ(tags@, *inconv, input);
    }
    let mut inner = result_map_new();
    let mut i: usize = 0;
    // Run selected output converters
    while i < tags.len()
        invariant
            i <= tags.len(),
            tags@ == outconv_set_items(*outconvs),
            tags@.no_duplicates(),
            result_entries(inner) == rendered(tags@.take(i as int), *inconv, input),
        decreases tags.len() - i,
    {
        let outconv = tags[i];
        proof {
            assert(tags@.take(i + 1).drop_last() =~= tags@.take(i as int));
            assert(tags@.take(i + 1).last() == outconv);
            lemma_rendered_keys(tags@.take(i as int), *inconv, input);
        }
        // Check if this output converter is excluded
        if !inconv.is_outconv_excluded(&outconv) {
            if let Ok(out) = outconv.get_converter().convert(input) {
                result_map_insert(&mut inner, outconv, out);
            }
        }
        i += 1;
    }
    assert(tags@.take(i as int) =~= tags@);
    ConversionResult::from(inner)
}

} // verus!
