use vstd::prelude::*;

use crate::error::{Error, ErrorModel};
use crate::key::{normalized_key, sanitize_key};
use crate::value::{DynValue, Value};

verus! {

/// What the decoder is about to present: a value of the runtime, or a
/// property name already turned into a key.
pub enum DeserializerValue {
    Value(Value),
    MapKey(String),
}

/// The mathematical model of a [`DeserializerValue`].
pub enum SlotModel {
    Value(DynValue),
    MapKey(Seq<char>),
}

impl View for DeserializerValue {
    type V = SlotModel;

    open spec fn view(&self) -> SlotModel {
        match self {
            DeserializerValue::Value(v) => SlotModel::Value(v@),
            DeserializerValue::MapKey(k) => SlotModel::MapKey(k@),
        }
    }
}

/// Decodes a runtime value into whatever shape it has. It holds one slot,
/// overwritten before each step: the value to classify next, or a map key.
pub struct Deserializer {
    value: DeserializerValue,
}

impl View for Deserializer {
    type V = SlotModel;

    closed spec fn view(&self) -> SlotModel {
        self.value@
    }
}

impl From<Value> for Deserializer {
    fn from(value: Value) -> (r: Self) {
        Deserializer { value: DeserializerValue::Value(value) }
    }
}

impl vstd::std_specs::convert::FromSpecImpl<Value> for Deserializer {
    open spec fn obeys_from_spec() -> bool {
        true
    }

    closed spec fn from_spec(value: Value) -> Self {
        Deserializer { value: DeserializerValue::Value(value) }
    }
}

/// A decoder made by `Deserializer::from` holds the value it was made from.
pub proof fn lemma_from_holds_value(value: Value)
    ensures
        <Deserializer as vstd::std_specs::convert::FromSpec<Value>>::from_spec(value)@
            == SlotModel::Value(value@),
{
}

/// The progress of a sequence: the elements captured when it was entered,
/// and the index of the next one.
pub struct SeqProgress {
    pub items: Seq<DynValue>,
    pub index: nat,
}

/// The progress of a mapping: its properties in enumeration order, the index
/// of the next one, and whether a key was handed out whose value is still due.
pub struct MapProgress {
    pub props: Seq<(Seq<char>, DynValue)>,
    pub index: nat,
    pub pending: bool,
}

/// Hands out the elements of an array one by one.
pub struct SeqAccess {
    seq: Vec<Value>,
    index: usize,
}

/// Hands out the keys and values of an object's properties one by one.
pub struct MapAccess {
    properties: Vec<(String, Value)>,
    index: usize,
    pending: bool,
}

/// The one notification that a classification issues.
pub enum Visit {
    Str(String),
    I32(i32),
    F64(u64),
    Bool(bool),
    Unit,
    Sequence(SeqAccess),
    Mapping(MapAccess),
}

/// The mathematical model of a [`Visit`].
pub enum VisitModel {
    Str(Seq<char>),
    I32(i32),
    F64(u64),
    Bool(bool),
    Unit,
    Sequence(SeqProgress),
    Mapping(MapProgress),
}

impl View for SeqAccess {
    type V = SeqProgress;

    closed spec fn view(&self) -> SeqProgress {
        SeqProgress {
            items: Seq::new(self.seq.len() as nat, |i: int| self.seq[i]@),
            index: self.index as nat,
        }
    }
}

impl View for MapAccess {
    type V = MapProgress;

    closed spec fn view(&self) -> MapProgress {
        MapProgress {
            props: Seq::new(
                self.properties.len() as nat,
                |i: int| (self.properties[i].0@, self.properties[i].1@),
            ),
            index: self.index as nat,
            pending: self.pending,
        }
    }
}

impl View for Visit {
    type V = VisitModel;

    open spec fn view(&self) -> VisitModel {
        match self {
            Visit::Str(s) => VisitModel::Str(s@),
            Visit::I32(i) => VisitModel::I32(*i),
            Visit::F64(bits) => VisitModel::F64(*bits),
            Visit::Bool(b) => VisitModel::Bool(*b),
            Visit::Unit => VisitModel::Unit,
            Visit::Sequence(s) => VisitModel::Sequence(s@),
            Visit::Mapping(m) => VisitModel::Mapping(m@),
        }
    }
}

/// The notification for a runtime value, chosen from its shape alone.
pub open spec fn classify_value(v: DynValue) -> Result<VisitModel, ErrorModel> {
    match v {
        DynValue::Int(i) => Ok(VisitModel::I32(i)),
        DynValue::Float(bits) => Ok(VisitModel::F64(bits)),
        DynValue::Bool(b) => Ok(VisitModel::Bool(b)),
        DynValue::Null | DynValue::Undefined => Ok(VisitModel::Unit),
        DynValue::Str(s) => Ok(VisitModel::Str(s)),
        DynValue::Array(items) => Ok(VisitModel::Sequence(SeqProgress { items, index: 0 })),
        DynValue::Object(props) => Ok(
            VisitModel::Mapping(MapProgress { props, index: 0, pending: false }),
        ),
        DynValue::Function | DynValue::Symbol => Err(ErrorModel::Undecodable(v)),
    }
}

/// The notification for what the slot holds: a key is always a string.
pub open spec fn classify(s: SlotModel) -> Result<VisitModel, ErrorModel> {
    match s {
        SlotModel::MapKey(k) => Ok(VisitModel::Str(k)),
        SlotModel::Value(v) => classify_value(v),
    }
}

/// Whether `r` is the outcome that `expected` describes.
pub open spec fn outcome_is(r: Result<Visit, Error>, expected: Result<VisitModel, ErrorModel>) -> bool {
    match r {
        Ok(x) => expected == Ok::<VisitModel, ErrorModel>(x@),
        Err(e) => expected == Err::<VisitModel, ErrorModel>(e@),
    }
}

/// One step of a sequence: the progress after it and the element it
/// presents, or `None` once the captured length is reached.
pub open spec fn seq_step(p: SeqProgress) -> Option<(SeqProgress, DynValue)> {
    if p.index < p.items.len() {
        Some((SeqProgress { items: p.items, index: p.index + 1 }, p.items[p.index as int]))
    } else {
        None
    }
}

/// One key step of a mapping: the progress after it and the key it presents,
/// `None` once the properties are exhausted, or the error of a name that
/// normalization cannot turn into a key.
pub open spec fn key_step(p: MapProgress) -> Result<Option<(MapProgress, Seq<char>)>, ErrorModel> {
    if p.index < p.props.len() {
        let raw = p.props[p.index as int].0;
        match normalized_key(raw) {
            Some(k) => Ok(Some((MapProgress { props: p.props, index: p.index + 1, pending: true }, k))),
            None => Err(ErrorModel::InvalidKey(raw)),
        }
    } else {
        Ok(None)
    }
}

impl SeqAccess {
    pub open spec fn wf(&self) -> bool {
        self@.index <= self@.items.len()
    }

    /// Presents the next element in the decoder's slot and moves past it;
    /// returns `false`, touching nothing, once the sequence is exhausted.
    pub fn next_element(&mut self, de: &mut Deserializer) -> (r: bool)
        requires
            old(self).wf(),
        ensures
            final(self).wf(),
            match seq_step(old(self)@) {
                Some((p, v)) => r && final(self)@ == p && final(de)@ == SlotModel::Value(v),
                None => !r && final(self)@ == old(self)@ && final(de)@ == old(de)@,
            },
    {
        if self.index < self.seq.len() {
            let element = self.seq[self.index].duplicate();
            de.value = DeserializerValue::Value(element);
            self.index = self.index + 1;
            proof {
                assert(final(self)@.items =~= old(self)@.items);
            }
            true
        } else {
            false
        }
    }
}

impl MapAccess {
    pub open spec fn wf(&self) -> bool {
        &&& self@.index <= self@.props.len()
        &&& self@.pending ==> self@.index > 0
    }

    /// Whether a key was handed out whose value has not been asked for.
    pub fn has_pending_key(&self) -> (r: bool)
        ensures
            r == self@.pending,
    {
        self.pending
    }

    /// Presents the normalized name of the next property in the decoder's
    /// slot; returns `Ok(false)`, touching nothing, once the properties are
    /// exhausted. The property's value is not fetched.
    pub fn next_key(&mut self, de: &mut Deserializer) -> (r: Result<bool, Error>)
        requires
            old(self).wf(),
        ensures
            final(self).wf(),
            match key_step(old(self)@) {
                Ok(Some((p, k))) => r == Ok::<bool, Error>(true) && final(self)@ == p
                    && final(de)@ == SlotModel::MapKey(k),
                Ok(None) => r == Ok::<bool, Error>(false) && final(self)@ == old(self)@
                    && final(de)@ == old(de)@,
                Err(e) => r matches Err(x) && x@ == e && final(self)@ == old(self)@
                    && final(de)@ == old(de)@,
            },
    {
        if self.index < self.properties.len() {
            let key = sanitize_key(self.properties[self.index].0.as_str());
            match key {
                Ok(k) => {
                    de.value = DeserializerValue::MapKey(k);
                    self.index = self.index + 1;
                    self.pending = true;
                    proof {
                        assert(final(self)@.props =~= old(self)@.props);
                    }
                    Ok(true)
                },
                Err(e) => Err(e),
            }
        } else {
            Ok(false)
        }
    }

    /// Presents, in the decoder's slot, the value of the property whose key
    /// was handed out last.
    pub fn next_value(&mut self, de: &mut Deserializer)
        requires
            old(self).wf(),
            old(self)@.pending,
        ensures
            final(self).wf(),
            final(self)@ == (MapProgress { pending: false, ..old(self)@ }),
            final(de)@ == SlotModel::Value(old(self)@.props[old(self)@.index - 1].1),
    {
        let value = self.properties[self.index - 1].1.duplicate();
        de.value = DeserializerValue::Value(value);
        self.pending = false;
        proof {
            assert(final(self)@.props =~= old(self)@.props);
        }
    }
}

impl Deserializer {
    /// A decoder whose slot holds `value`.
    pub fn new(value: Value) -> (r: Self)
        ensures
            r@ == SlotModel::Value(value@),
    {
        Deserializer { value: DeserializerValue::Value(value) }
    }

    /// Whether the slot holds a map key rather than a runtime value.
    pub fn holds_key(&self) -> (r: bool)
        ensures
            r == self@ is MapKey,
    {
        match &self.value {
            DeserializerValue::MapKey(_) => true,
            DeserializerValue::Value(_) => false,
        }
    }

    /// Answers whether an optional value is present: a runtime value is
    /// absent exactly when it is null or undefined.
    pub fn deserialize_option(&self) -> (r: bool)
        requires
            self@ is Value,
        ensures
            r == !(self@->Value_0 is Null || self@->Value_0 is Undefined),
    {
        match &self.value {
            DeserializerValue::MapKey(_) => true,
            DeserializerValue::Value(value) => match value {
                Value::Null | Value::Undefined => false,
                _ => true,
            },
        }
    }

    /// Tagged unions are never decoded: asking for one always fails.
    pub fn deserialize_enum(&self) -> (r: Error)
        ensures
            r@ == ErrorModel::EnumUnsupported,
    {
        Error::EnumUnsupported
    }

    /// The decoder presents binary rather than textual data.
    pub fn is_human_readable(&self) -> (r: bool)
        ensures
            !r,
    {
        false
    }

    /// Classifies what the slot holds and issues the one matching
    /// notification; the slot itself is left as it was.
    pub fn deserialize_any(&self) -> (r: Result<Visit, Error>)
        ensures
            outcome_is(r, classify(self@)),
            r matches Ok(Visit::Sequence(s)) ==> s.wf(),
            r matches Ok(Visit::Mapping(m)) ==> m.wf(),
    {
        match &self.value {
            DeserializerValue::MapKey(key) => Ok(Visit::Str(key.clone())),
            DeserializerValue::Value(value) => match value {
                Value::Int(i) => Ok(Visit::I32(*i)),
                Value::Float(bits) => Ok(Visit::F64(*bits)),
                Value::Bool(b) => Ok(Visit::Bool(*b)),
                Value::Null | Value::Undefined => Ok(Visit::Unit),
                Value::Str(s) => Ok(Visit::Str(s.clone())),
                Value::Array(_) => {
                    let copy = value.duplicate();
                    let seq = match copy {
                        Value::Array(items) => items,
                        _ => Vec::new(),
                    };
                    let access = SeqAccess { seq, index: 0 };
                    proof {
                        assert(access@.items =~= value@->Array_0);
                    }
                    Ok(Visit::Sequence(access))
                },
                Value::Object(_) => {
                    let copy = value.duplicate();
                    let properties = match copy {
                        Value::Object(props) => props,
                        _ => Vec::new(),
                    };
                    let access = MapAccess { properties, index: 0, pending: false };
                    proof {
                        assert(access@.props =~= value@->Object_0);
                    }
                    Ok(Visit::Mapping(access))
                },
                Value::Function => Err(Error::Undecodable(Value::Function)),
                Value::Symbol => Err(Error::Undecodable(Value::Symbol)),
            },
        }
    }
}

} // verus!
