use vstd::prelude::*;

verus! {

broadcast use vstd::std_specs::vec::group_vec_axioms;

/// A value of the scripting runtime, as the decoder sees it.
///
/// Numbers come in the two representations that the runtime tags: a
/// 32-bit integer, or a 64-bit float held as its IEEE-754 bit pattern so
/// that NaN and the infinities travel unchanged. An object is the list of
/// its own enumerable string-keyed properties, in enumeration order.
#[derive(Debug)]
pub enum Value {
    Undefined,
    Null,
    Bool(bool),
    Int(i32),
    Float(u64),
    Str(String),
    Array(Vec<Value>),
    Object(Vec<(String, Value)>),
    Function,
    Symbol,
}

/// The mathematical model of a [`Value`].
pub enum DynValue {
    Undefined,
    Null,
    Bool(bool),
    Int(i32),
    Float(u64),
    Str(Seq<char>),
    Array(Seq<DynValue>),
    Object(Seq<(Seq<char>, DynValue)>),
    Function,
    Symbol,
}

impl Value {
    pub open spec fn model(&self) -> DynValue
        decreases self,
    {
        match self {
            Value::Undefined => DynValue::Undefined,
            Value::Null => DynValue::Null,
            Value::Bool(b) => DynValue::Bool(*b),
            Value::Int(i) => DynValue::Int(*i),
            Value::Float(bits) => DynValue::Float(*bits),
            Value::Str(s) => DynValue::Str(s@),
            Value::Array(items) => DynValue::Array(
                Seq::new(
                    items.len() as nat,
                    |i: int|
                        if 0 <= i < items.len() {
                            items[i].model()
                        } else {
                            DynValue::Undefined
                        },
                ),
            ),
            Value::Object(props) => DynValue::Object(
                Seq::new(
                    props.len() as nat,
                    |i: int|
                        if 0 <= i < props.len() {
                            (props[i].0@, props[i].1.model())
                        } else {
                            (Seq::empty(), DynValue::Undefined)
                        },
                ),
            ),
            Value::Function => DynValue::Function,
            Value::Symbol => DynValue::Symbol,
        }
    }
}

impl View for Value {
    type V = DynValue;

    open spec fn view(&self) -> DynValue {
        self.model()
    }
}

impl Value {
    /// A copy of the value, down to the elements of its containers.
    pub fn duplicate(&self) -> (r: Value)
        ensures
            r@ == self@,
        decreases self,
    {
        match self {
            Value::Undefined => Value::Undefined,
            Value::Null => Value::Null,
            Value::Bool(b) => Value::Bool(*b),
            Value::Int(i) => Value::Int(*i),
            Value::Float(bits) => Value::Float(*bits),
            Value::Str(s) => Value::Str(s.clone()),
            Value::Array(items) => {
                let mut copy: Vec<Value> = Vec::new();
                let mut i: usize = 0;
                while i < items.len()
                    invariant
                        *self == Value::Array(*items),
                        i <= items.len(),
                        copy.len() == i,
                        forall|j: int| 0 <= j < i ==> (#[trigger] copy[j])@ == items[j]@,
                    decreases items.len() - i,
                {
                    proof {
                        assert(decreases_to!(*self => self->Array_0));
                        assert(decreases_to!(*items => items[i as int]));
                        assert(decreases_to!(*self => items[i as int]));
                    }
                    copy.push(items[i].duplicate());
                    i = i + 1;
                }
                let r = Value::Array(copy);
                assert(r@->Array_0 =~= self@->Array_0);
                r
            },
            Value::Object(props) => {
                let mut copy: Vec<(String, Value)> = Vec::new();
                let mut i: usize = 0;
                while i < props.len()
                    invariant
                        *self == Value::Object(*props),
                        i <= props.len(),
                        copy.len() == i,
                        forall|j: int|
                            0 <= j < i ==> (#[trigger] copy[j]).0@ == props[j].0@ && copy[j].1@
                                == props[j].1@,
                    decreases props.len() - i,
                {
                    let key = props[i].0.clone();
                    proof {
                        assert(decreases_to!(*self => self->Object_0));
                        assert(decreases_to!(*props => props[i as int]));
                        assert(decreases_to!(props[i as int] => props[i as int].1));
                        assert(decreases_to!(*self => props[i as int].1));
                    }
                    copy.push((key, props[i].1.duplicate()));
                    i = i + 1;
                }
                let r = Value::Object(copy);
                assert(r@->Object_0 =~= self@->Object_0);
                r
            },
            Value::Function => Value::Function,
            Value::Symbol => Value::Symbol,
        }
    }
}

} // verus!
