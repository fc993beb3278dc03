//! Insertion-ordered sets and maps of format tags, kept in the collections of
//! the `indexmap` crate. Verus does not look inside them: each collection's
//! contents are named by a specification function, and every operation the
//! library performs on one goes through a function of this module whose
//! contract is taken on trust from the documentation of `indexmap`.
//!
//! The tags are enumerations without fields whose `Eq` and `Hash` are
//! derived, so the items that `indexmap` calls equivalent are the equal ones.

use vstd::prelude::*;
use indexmap::{IndexMap, IndexSet};
use crate::convert::conv_types::{InputConverterType, OutputConverterType};
use crate::convert::ConversionResult;

verus! {

/// `indexmap::IndexSet`, a set that keeps its items in insertion order.
#[verifier::external_type_specification]
#[verifier::external_body]
#[verifier::reject_recursive_types(T)]
#[verifier::reject_recursive_types(S)]
pub struct ExIndexSet<T, S>(IndexSet<T, S>);

/// `indexmap::IndexMap`, a map that keeps its entries in insertion order.
#[verifier::external_type_specification]
#[verifier::external_body]
#[verifier::reject_recursive_types(K)]
#[verifier::reject_recursive_types(V)]
#[verifier::reject_recursive_types(S)]
pub struct ExIndexMap<K, V, S>(IndexMap<K, V, S>);

/// The items of a set of output tags, in insertion order.
pub uninterp spec fn outconv_set_items(s: IndexSet<OutputConverterType>) -> Seq<OutputConverterType>;

/// The items of a set of input tags, in insertion order.
pub uninterp spec fn inconv_set_items(s: IndexSet<InputConverterType>) -> Seq<InputConverterType>;

/// The entries of a map from output tags to rendered text, in insertion
/// order.
pub uninterp spec fn result_entries(m: IndexMap<OutputConverterType, String>) -> Seq<(OutputConverterType, Seq<char>)>;

/// The entries of a map from input tags to results, in insertion order, each
/// result given by its own entries.
pub uninterp spec fn output_entries(m: IndexMap<InputConverterType, ConversionResult>) -> Seq<(InputConverterType, Seq<(OutputConverterType, Seq<char>)>)>;

/// `IndexSet::new`: the new set holds nothing.
#[verifier::external_body]
pub(crate) fn outconv_set_new() -> (s: IndexSet<OutputConverterType>)
    ensures
        outconv_set_items(s) == Seq::<OutputConverterType>::empty(),
{
    IndexSet::new()
}

/// `IndexSet::insert`: an item that the set already holds leaves the set as
/// it was and gives `false`; any other item is appended last and gives `true`.
#[verifier::external_body]
pub(crate) fn outconv_set_insert(s: &mut IndexSet<OutputConverterType>, item: OutputConverterType) -> (added: bool)
    ensures
        added == !outconv_set_items(*old(s)).contains(item),
        outconv_set_items(*final(s)) == if added {
            outconv_set_items(*old(s)).push(item)
        } else {
            outconv_set_items(*old(s))
        },
{
    s.insert(item)
}

/// `IndexSet::len`: the number of items.
#[verifier::external_body]
pub(crate) fn outconv_set_len(s: &IndexSet<OutputConverterType>) -> (n: usize)
    ensures
        n == outconv_set_items(*s).len(),
{
    s.len()
}

/// `IndexSet::iter`: the items in insertion order, copied into a vector. A
/// set holds no item twice.
#[verifier::external_body]
pub(crate) fn outconv_set_to_vec(s: &IndexSet<OutputConverterType>) -> (items: Vec<OutputConverterType>)
    ensures
        items@ == outconv_set_items(*s),
        items@.no_duplicates(),
{
    s.iter().copied().collect()
}

/// `IndexSet::new`: the new set holds nothing.
#[verifier::external_body]
pub(crate) fn inconv_set_new() -> (s: IndexSet<InputConverterType>)
    ensures
        inconv_set_items(s) == Seq::<InputConverterType>::empty(),
{
    IndexSet::new()
}

/// `IndexSet::insert`: an item that the set already holds leaves the set as
/// it was and gives `false`; any other item is appended last and gives `true`.
#[verifier::external_body]
pub(crate) fn inconv_set_insert(s: &mut IndexSet<InputConverterType>, item: InputConverterType) -> (added: bool)
    ensures
        added == !inconv_set_items(*old(s)).contains(item),
        inconv_set_items(*final(s)) == if added {
            inconv_set_items(*old(s)).push(item)
        } else {
            inconv_set_items(*old(s))
        },
{
    s.insert(item)
}

/// `IndexSet::iter`: the items in insertion order, copied into a vector. A
/// set holds no item twice.
#[verifier::external_body]
pub(crate) fn inconv_set_to_vec(s: &IndexSet<InputConverterType>) -> (items: Vec<InputConverterType>)
    ensures
        items@ == inconv_set_items(*s),
        items@.no_duplicates(),
{
    s.iter().copied().collect()
}

/// `IndexMap::new`: the new map holds nothing.
#[verifier::external_body]
pub(crate) fn result_map_new() -> (m: IndexMap<OutputConverterType, String>)
    ensures
        result_entries(m) == Seq::<(OutputConverterType, Seq<char>)>::empty(),
{
    IndexMap::new()
}

/// `IndexMap::insert`: under a key that the map does not hold, the entry is
/// appended last; under one that it holds, the entry keeps its place and
/// takes the new value.
#[verifier::external_body]
pub(crate) fn result_map_insert(m: &mut IndexMap<OutputConverterType, String>, key: OutputConverterType, value: String)
    ensures
        (forall|i: int| 0 <= i < result_entries(*old(m)).len() ==> (#[trigger] result_entries(*old(m))[i]).0 != key)
            ==> result_entries(*final(m)) == result_entries(*old(m)).push((key, value@)),
        forall|i: int| 0 <= i < result_entries(*old(m)).len() && (#[trigger] result_entries(*old(m))[i]).0 == key
            ==> result_entries(*final(m)) == result_entries(*old(m)).update(i, (key, value@)),
{
    m.insert(key, value);
}

/// `IndexMap::iter`: the entries in insertion order, copied into a vector.
#[verifier::external_body]
pub(crate) fn result_map_to_vec(m: &IndexMap<OutputConverterType, String>) -> (entries: Vec<(OutputConverterType, String)>)
    ensures
        entries@.len() == result_entries(*m).len(),
        forall|i: int| 0 <= i < entries@.len() ==> (#[trigger] entries@[i]).0 == result_entries(*m)[i].0
            && entries@[i].1@ == result_entries(*m)[i].1,
{
    m.iter().map(|(key, value)| (*key, value.clone())).collect()
}

/// `IndexMap::is_empty`: whether the map holds no entry.
#[verifier::external_body]
pub(crate) fn result_map_is_empty(m: &IndexMap<OutputConverterType, String>) -> (empty: bool)
    ensures
        empty == (result_entries(*m).len() == 0),
{
    m.is_empty()
}

/// `IndexMap::new`: the new map holds nothing.
#[verifier::external_body]
pub(crate) fn output_map_new() -> (m: IndexMap<InputConverterType, ConversionResult>)
    ensures
        output_entries(m) == Seq::<(InputConverterType, Seq<(OutputConverterType, Seq<char>)>)>::empty(),
{
    IndexMap::new()
}

/// `IndexMap::insert`: under a key that the map does not hold, the entry is
/// appended last; under one that it holds, the entry keeps its place and
/// takes the new value.
#[verifier::external_body]
pub(crate) fn output_map_insert(m: &mut IndexMap<InputConverterType, ConversionResult>, key: InputConverterType, value: ConversionResult)
    ensures
        (forall|i: int| 0 <= i < output_entries(*old(m)).len() ==> (#[trigger] output_entries(*old(m))[i]).0 != key)
            ==> output_entries(*final(m)) == output_entries(*old(m)).push((key, value@)),
        forall|i: int| 0 <= i < output_entries(*old(m)).len() && (#[trigger] output_entries(*old(m))[i]).0 == key
            ==> output_entries(*final(m)) == output_entries(*old(m)).update(i, (key, value@)),
{
    m.insert(key, value);
}

/// `IndexMap::iter`: the entries in insertion order, each key copied and
/// each value borrowed, in a vector.
#[verifier::external_body]
pub(crate) fn output_map_to_vec<'a>(m: &'a IndexMap<InputConverterType, ConversionResult>) -> (entries: Vec<(InputConverterType, &'a ConversionResult)>)
    ensures
        entries@.len() == output_entries(*m).len(),
        forall|i: int| 0 <= i < entries@.len() ==> (#[trigger] entries@[i]).0 == output_entries(*m)[i].0
            && entries@[i].1@ == output_entries(*m)[i].1,
{
    m.iter().map(|(key, value)| (*key, value)).collect()
}

/// `IndexMap::is_empty`: whether the map holds no entry.
#[verifier::external_body]
pub(crate) fn output_map_is_empty(m: &IndexMap<InputConverterType, ConversionResult>) -> (empty: bool)
    ensures
        empty == (output_entries(*m).len() == 0),
{
    m.is_empty()
}

} // verus!
