//! The values of a running program.

use crate::symbol::Symbol;
use vstd::prelude::*;

verus! {

/// A value at run time.
#[derive(Debug)]
pub enum Object {
    Unit,
    Null,
    Bool(bool),
    Int64(i64),
    UInt64(u64),
    /// A string, by the symbol that the interner gave it.
    String(Symbol),
    Array(Vec<Object>),
    /// The struct's name and its fields with their values.
    Struct(Symbol, Vec<(Symbol, Object)>),
}

/// The kind of a value: its type at run time, without what it holds.
#[derive(Debug, Clone, Copy, PartialEq, Eq, Structural)]
pub enum ObjectKind {
    Unit,
    Null,
    Bool,
    Int64,
    UInt64,
    String,
    Array,
    Struct,
}

/// The mathematical value of an `Object`.
pub ghost enum Value {
    Unit,
    Null,
    Bool(bool),
    Int64(i64),
    UInt64(u64),
    String(Symbol),
    Array(Seq<Value>),
    Struct(Symbol, Seq<(Symbol, Value)>),
}

impl Value {
    /// The kind of the value.
    pub open spec fn kind(self) -> ObjectKind {
        match self {
            Value::Unit => ObjectKind::Unit,
            Value::Null => ObjectKind::Null,
            Value::Bool(_) => ObjectKind::Bool,
            Value::Int64(_) => ObjectKind::Int64,
            Value::UInt64(_) => ObjectKind::UInt64,
            Value::String(_) => ObjectKind::String,
            Value::Array(_) => ObjectKind::Array,
            Value::Struct(_, _) => ObjectKind::Struct,
        }
    }
}

/// The value of an object.
pub open spec fn object_value(object: Object) -> Value
    decreases object,
{
    match object {
        Object::Unit => Value::Unit,
        Object::Null => Value::Null,
        Object::Bool(b) => Value::Bool(b),
        Object::Int64(i) => Value::Int64(i),
        Object::UInt64(u) => Value::UInt64(u),
        Object::String(s) => Value::String(s),
        Object::Array(items) => Value::Array(
            Seq::new(
                items@.len(),
                |i: int|
                    if 0 <= i < items@.len() {
                        object_value(items@[i])
                    } else {
                        Value::Unit
                    },
            ),
        ),
        Object::Struct(name, fields) => Value::Struct(
            name,
            Seq::new(
                fields@.len(),
                |i: int|
                    if 0 <= i < fields@.len() {
                        (fields@[i].0, object_value(fields@[i].1))
                    } else {
                        (name, Value::Unit)
                    },
            ),
        ),
    }
}

impl View for Object {
    type V = Value;

    open spec fn view(&self) -> Value {
        object_value(*self)
    }
}

/// The values of a sequence of objects.
pub open spec fn objects_view(objects: Seq<Object>) -> Seq<Value> {
    Seq::new(objects.len(), |i: int| objects[i]@)
}

/// The values of a sequence of named objects.
pub open spec fn fields_view(fields: Seq<(Symbol, Object)>) -> Seq<(Symbol, Value)> {
    Seq::new(fields.len(), |i: int| (fields[i].0, fields[i].1@))
}

/// The view of an array is the views of its items.
pub proof fn lemma_array_view(items: Vec<Object>)
    ensures
        Object::Array(items)@ == Value::Array(objects_view(items@)),
{
    assert(Object::Array(items)@->Array_0 =~= objects_view(items@));
}

/// The view of a struct is its name and the views of its fields.
pub proof fn lemma_struct_view(name: Symbol, fields: Vec<(Symbol, Object)>)
    ensures
        Object::Struct(name, fields)@ == Value::Struct(name, fields_view(fields@)),
{
    assert(Object::Struct(name, fields)@->Struct_1 =~= fields_view(fields@));
}

impl Clone for Object {
    fn clone(&self) -> (copy: Self)
        ensures
            copy@ == self@,
        decreases self,
    {
        match self {
            Object::Unit => Object::Unit,
            Object::Null => Object::Null,
            Object::Bool(b) => Object::Bool(*b),
            Object::Int64(i) => Object::Int64(*i),
            Object::UInt64(u) => Object::UInt64(*u),
            Object::String(s) => Object::String(*s),
            Object::Array(items) => {
                let mut copies: Vec<Object> = Vec::new();
                let mut i: usize = 0;
                while i < items.len()
                    invariant
                        *self == Object::Array(*items),
                        i <= items.len(),
                        copies.len() == i,
                        forall|j: int| 0 <= j < i ==> copies@[j]@ == items@[j]@,
                    decreases items.len() - i,
                {
                    assert(decreases_to!(*self => self->Array_0));
                    assert(decreases_to!(*items => items[i as int]));
                    copies.push(items[i].clone());
                    i += 1;
                }
                proof {
                    lemma_array_view(copies);
                    lemma_array_view(*items);
                    assert(objects_view(copies@) =~= objects_view(items@));
                }
                Object::Array(copies)
            },
            Object::Struct(name, fields) => {
                let mut copies: Vec<(Symbol, Object)> = Vec::new();
                let mut i: usize = 0;
                while i < fields.len()
                    invariant
                        *self == Object::Struct(*name, *fields),
                        i <= fields.len(),
                        copies.len() == i,
                        forall|j: int|
                            0 <= j < i ==> copies@[j].0 == fields@[j].0 && copies@[j].1@
                                == fields@[j].1@,
                    decreases fields.len() - i,
                {
                    assert(decreases_to!(*self => self->Struct_1));
                    assert(decreases_to!(*fields => fields[i as int]));
                    assert(decreases_to!(fields[i as int] => fields[i as int].1));
                    copies.push((fields[i].0, fields[i].1.clone()));
                    i += 1;
                }
                proof {
                    lemma_struct_view(*name, copies);
                    lemma_struct_view(*name, *fields);
                    assert(fields_view(copies@) =~= fields_view(fields@));
                }
                Object::Struct(*name, copies)
            },
        }
    }
}

impl Object {
    /// The kind of the value.
    pub fn kind(&self) -> (kind: ObjectKind)
        ensures
            kind == self@.kind(),
    {
        match self {
            Object::Unit => ObjectKind::Unit,
            Object::Null => ObjectKind::Null,
            Object::Bool(_) => ObjectKind::Bool,
            Object::Int64(_) => ObjectKind::Int64,
            Object::UInt64(_) => ObjectKind::UInt64,
            Object::String(_) => ObjectKind::String,
            Object::Array(_) => ObjectKind::Array,
            Object::Struct(_, _) => ObjectKind::Struct,
        }
    }

    /// The boolean that the value is.
    pub fn unwrap_bool(&self) -> (b: bool)
        requires
            self@ is Bool,
        ensures
            self@ == Value::Bool(b),
    {
        match self {
            Object::Bool(b) => *b,
            _ => false,
        }
    }

    /// The signed integer that the value is.
    pub fn unwrap_int64(&self) -> (i: i64)
        requires
            self@ is Int64,
        ensures
            self@ == Value::Int64(i),
    {
        match self {
            Object::Int64(i) => *i,
            _ => 0,
        }
    }

    /// The unsigned integer that the value is.
    pub fn unwrap_uint64(&self) -> (u: u64)
        requires
            self@ is UInt64,
        ensures
            self@ == Value::UInt64(u),
    {
        match self {
            Object::UInt64(u) => *u,
            _ => 0,
        }
    }
}

} // verus!
