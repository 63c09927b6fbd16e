use vstd::prelude::*;

use crate::de::{
    classify, classify_value, key_step, seq_step, MapProgress, SeqProgress, SlotModel, VisitModel,
};
use crate::error::ErrorModel;
use crate::key::normalized_key;
use crate::value::DynValue;

verus! {

/// Null and undefined are one to the decoder: both are presented as unit.
pub proof fn lemma_null_and_undefined_alike()
    ensures
        classify_value(DynValue::Null) == Ok::<VisitModel, ErrorModel>(VisitModel::Unit),
        classify_value(DynValue::Undefined) == classify_value(DynValue::Null),
{
}

/// A float is presented with its exact bit pattern, so NaN and both
/// infinities come out as they went in.
pub proof fn lemma_float_bits_kept(bits: u64)
    ensures
        classify_value(DynValue::Float(bits)) == Ok::<VisitModel, ErrorModel>(VisitModel::F64(bits)),
{
}

/// A function or a symbol has no decodable shape: classifying one fails,
/// naming it, rather than presenting it as something else.
pub proof fn lemma_functions_and_symbols_rejected(v: DynValue)
    requires
        v is Function || v is Symbol,
    ensures
        classify_value(v) == Err::<VisitModel, ErrorModel>(ErrorModel::Undecodable(v)),
{
}

/// Whatever a property is named, the key it yields is its normalized name
/// and is presented as a string, never as a number.
pub proof fn lemma_keys_are_strings(p: MapProgress)
    requires
        p.index < p.props.len(),
        normalized_key(p.props[p.index as int].0) is Some,
    ensures
        key_step(p) matches Ok(Some((q, k))) && k == normalized_key(
            p.props[p.index as int].0,
        )->Some_0 && classify(SlotModel::MapKey(k)) == Ok::<VisitModel, ErrorModel>(
            VisitModel::Str(k),
        ),
{
}

/// The elements that a sequence presents from `p` on, one step after the
/// other, until it is exhausted.
pub open spec fn presented(p: SeqProgress) -> Seq<DynValue>
    decreases p.items.len() - p.index,
{
    match seq_step(p) {
        Some((q, v)) => seq![v] + presented(q),
        None => Seq::empty(),
    }
}

/// The elements that remain from `p` on are those from its index to the end.
pub proof fn lemma_presented_is_rest(p: SeqProgress)
    requires
        p.index <= p.items.len(),
    ensures
        presented(p) == p.items.subrange(p.index as int, p.items.len() as int),
    decreases p.items.len() - p.index,
{
    if p.index < p.items.len() {
        let q = SeqProgress { items: p.items, index: p.index + 1 };
        lemma_presented_is_rest(q);
        assert(presented(p) =~= p.items.subrange(p.index as int, p.items.len() as int));
    } else {
        assert(presented(p) =~= p.items.subrange(p.index as int, p.items.len() as int));
    }
}

/// An array is decoded into exactly its elements, in index order; an empty
/// array is exhausted at once, without any element being fetched.
pub proof fn lemma_array_presents_elements_in_order(items: Seq<DynValue>)
    ensures
        classify_value(DynValue::Array(items)) matches Ok(VisitModel::Sequence(p)) && presented(p)
            == items && (items.len() == 0 ==> seq_step(p) is None),
{
    let p = SeqProgress { items, index: 0 };
    lemma_presented_is_rest(p);
    assert(items.subrange(0, items.len() as int) =~= items);
}

/// The keys that a mapping presents from `p` on, one key step after the
/// other, until its properties are exhausted or a name fails to normalize.
pub open spec fn presented_keys(p: MapProgress) -> Seq<Seq<char>>
    decreases p.props.len() - p.index,
{
    match key_step(p) {
        Ok(Some((q, k))) => seq![k] + presented_keys(q),
        _ => Seq::empty(),
    }
}

/// From `p` on, where every remaining name normalizes, the keys presented
/// are those names, normalized, in enumeration order.
pub proof fn lemma_presented_keys_are_rest(p: MapProgress)
    requires
        p.index <= p.props.len(),
        forall|i: int| p.index <= i < p.props.len() ==> normalized_key(#[trigger] p.props[i].0) is Some,
    ensures
        presented_keys(p) == p.props.subrange(p.index as int, p.props.len() as int).map_values(
            |e: (Seq<char>, DynValue)| normalized_key(e.0)->Some_0,
        ),
    decreases p.props.len() - p.index,
{
    let rest = p.props.subrange(p.index as int, p.props.len() as int).map_values(
        |e: (Seq<char>, DynValue)| normalized_key(e.0)->Some_0,
    );
    if p.index < p.props.len() {
        let q = MapProgress { props: p.props, index: p.index + 1, pending: true };
        assert(normalized_key(p.props[p.index as int].0) is Some);
        lemma_presented_keys_are_rest(q);
        assert(presented_keys(p) =~= rest);
    } else {
        assert(presented_keys(p) =~= rest);
    }
}

/// An object is decoded key after key in its enumeration order, and each
/// property is presented under its normalized name; the cursor never reorders.
pub proof fn lemma_object_presents_keys_in_order(props: Seq<(Seq<char>, DynValue)>)
    requires
        forall|i: int| 0 <= i < props.len() ==> normalized_key(#[trigger] props[i].0) is Some,
    ensures
        classify_value(DynValue::Object(props)) matches Ok(VisitModel::Mapping(p))
            && presented_keys(p) == props.map_values(
            |e: (Seq<char>, DynValue)| normalized_key(e.0)->Some_0,
        ),
{
    let p = MapProgress { props, index: 0, pending: false };
    lemma_presented_keys_are_rest(p);
    assert(props.subrange(0, props.len() as int) =~= props);
}

} // verus!
