//! The types of the language.

use crate::symbol::Symbol;
use vstd::prelude::*;
use vstd::string::*;

verus! {

/// A type of the language, as declared or inferred.
#[derive(Debug)]
pub enum TypeDecl {
    Unit,
    Bool,
    Int64,
    UInt64,
    String,
    /// An integer literal whose width is not decided yet.
    Number,
    Unknown,
    Any,
    /// The element types and the length.
    Array(Vec<TypeDecl>, usize),
    Identifier(Symbol),
    Struct(Symbol),
}

/// The mathematical value of a `TypeDecl`.
pub ghost enum Ty {
    Unit,
    Bool,
    Int64,
    UInt64,
    String,
    Number,
    Unknown,
    Any,
    Array(Seq<Ty>, nat),
    Identifier(Symbol),
    Struct(Symbol),
}

impl Ty {
    /// `Int64` or `UInt64`.
    pub open spec fn is_integer(self) -> bool {
        self == Ty::Int64 || self == Ty::UInt64
    }
}

/// The value of a type.
pub open spec fn type_value(ty: TypeDecl) -> Ty
    decreases ty,
{
    match ty {
        TypeDecl::Unit => Ty::Unit,
        TypeDecl::Bool => Ty::Bool,
        TypeDecl::Int64 => Ty::Int64,
        TypeDecl::UInt64 => Ty::UInt64,
        TypeDecl::String => Ty::String,
        TypeDecl::Number => Ty::Number,
        TypeDecl::Unknown => Ty::Unknown,
        TypeDecl::Any => Ty::Any,
        TypeDecl::Array(elements, size) => Ty::Array(
            Seq::new(
                elements@.len(),
                |i: int| if 0 <= i < elements@.len() { type_value(elements@[i]) } else { Ty::Unit },
            ),
            size as nat,
        ),
        TypeDecl::Identifier(name) => Ty::Identifier(name),
        TypeDecl::Struct(name) => Ty::Struct(name),
    }
}

impl View for TypeDecl {
    type V = Ty;

    open spec fn view(&self) -> Ty {
        type_value(*self)
    }
}

/// The values of a sequence of types.
pub open spec fn types_view(types: Seq<TypeDecl>) -> Seq<Ty> {
    Seq::new(types.len(), |i: int| types[i]@)
}

impl Clone for TypeDecl {
    fn clone(&self) -> (copy: Self)
        ensures
            copy@ == self@,
        decreases self,
    {
        match self {
            TypeDecl::Unit => TypeDecl::Unit,
            TypeDecl::Bool => TypeDecl::Bool,
            TypeDecl::Int64 => TypeDecl::Int64,
            TypeDecl::UInt64 => TypeDecl::UInt64,
            TypeDecl::String => TypeDecl::String,
            TypeDecl::Number => TypeDecl::Number,
            TypeDecl::Unknown => TypeDecl::Unknown,
            TypeDecl::Any => TypeDecl::Any,
            TypeDecl::Array(elements, size) => {
                let mut copies: Vec<TypeDecl> = Vec::new();
                let mut i: usize = 0;
                while i < elements.len()
                    invariant
                        *self == TypeDecl::Array(*elements, *size),
                        i <= elements.len(),
                        copies.len() == i,
                        forall|j: int| 0 <= j < i ==> copies@[j]@ == elements@[j]@,
                    decreases elements.len() - i,
                {
                    assert(decreases_to!(*self => self->Array_0));
                    assert(decreases_to!(*elements => elements[i as int]));
                    copies.push(elements[i].clone());
                    i += 1;
                }
                let copy = TypeDecl::Array(copies, *size);
                assert(copy@->Array_0 =~= self@->Array_0);
                copy
            },
            TypeDecl::Identifier(name) => TypeDecl::Identifier(*name),
            TypeDecl::Struct(name) => TypeDecl::Struct(*name),
        }
    }
}

impl TypeDecl {
    /// Whether two types are the same type.
    pub fn same(&self, other: &TypeDecl) -> (equal: bool)
        ensures
            equal == (self@ == other@),
        decreases self,
    {
        match self {
            TypeDecl::Unit => matches!(other, TypeDecl::Unit),
            TypeDecl::Bool => matches!(other, TypeDecl::Bool),
            TypeDecl::Int64 => matches!(other, TypeDecl::Int64),
            TypeDecl::UInt64 => matches!(other, TypeDecl::UInt64),
            TypeDecl::String => matches!(other, TypeDecl::String),
            TypeDecl::Number => matches!(other, TypeDecl::Number),
            TypeDecl::Unknown => matches!(other, TypeDecl::Unknown),
            TypeDecl::Any => matches!(other, TypeDecl::Any),
            TypeDecl::Array(left, left_size) => match other {
                TypeDecl::Array(right, right_size) => {
                    assert(self@->Array_0.len() == left@.len());
                    assert(other@->Array_0.len() == right@.len());
                    if *left_size != *right_size || left.len() != right.len() {
                        return false;
                    }
                    let mut i: usize = 0;
                    while i < left.len()
                        invariant
                            *self == TypeDecl::Array(*left, *left_size),
                            *other == TypeDecl::Array(*right, *right_size),
                            i <= left.len(),
                            left.len() == right.len(),
                            forall|j: int| 0 <= j < i ==> left@[j]@ == right@[j]@,
                        decreases left.len() - i,
                    {
                        assert(decreases_to!(*self => self->Array_0));
                        assert(decreases_to!(*left => left[i as int]));
                        if !left[i].same(&right[i]) {
                            assert(self@->Array_0[i as int] == left@[i as int]@);
                            assert(other@->Array_0[i as int] == right@[i as int]@);
                            return false;
                        }
                        i += 1;
                    }
                    assert(self@->Array_0 =~= other@->Array_0);
                    true
                },
                _ => false,
            },
            TypeDecl::Identifier(left) => match other {
                TypeDecl::Identifier(right) => left.0 == right.0,
                _ => false,
            },
            TypeDecl::Struct(left) => match other {
                TypeDecl::Struct(right) => left.0 == right.0,
                _ => false,
            },
        }
    }

    /// Whether this is `Int64` or `UInt64`.
    pub fn is_integer(&self) -> (yes: bool)
        ensures
            yes == self@.is_integer(),
    {
        match self {
            TypeDecl::Int64 | TypeDecl::UInt64 => true,
            _ => false,
        }
    }
}

} // verus!

verus! {

/// The value of an optional type.
pub open spec fn option_view(ty: Option<TypeDecl>) -> Option<Ty> {
    match ty {
        Some(t) => Some(t@),
        None => None,
    }
}

/// A copy of an optional type.
pub fn clone_option(ty: &Option<TypeDecl>) -> (copy: Option<TypeDecl>)
    ensures
        option_view(copy) == option_view(*ty),
{
    match ty {
        Some(t) => Some(t.clone()),
        None => None,
    }
}

impl PartialEq for TypeDecl {
    fn eq(&self, other: &TypeDecl) -> (equal: bool) {
        self.same(other)
    }
}

impl vstd::std_specs::cmp::PartialEqSpecImpl for TypeDecl {
    open spec fn obeys_eq_spec() -> bool {
        true
    }

    open spec fn eq_spec(&self, other: &TypeDecl) -> bool {
        self@ == other@
    }
}

} // verus!

verus! {

/// How a list of types is written: the types in order, with `, ` between.
pub open spec fn list_text(types: Seq<Ty>) -> Seq<char>
    decreases types,
{
    if types.len() == 0 {
        Seq::empty()
    } else if types.len() == 1 {
        type_text(types[0])
    } else {
        list_text(types.drop_last()) + ", "@ + type_text(types.last())
    }
}

/// How a type is written in messages.
pub open spec fn type_text(ty: Ty) -> Seq<char>
    decreases ty,
{
    match ty {
        Ty::Unit => "Unit"@,
        Ty::Bool => "Bool"@,
        Ty::Int64 => "Int64"@,
        Ty::UInt64 => "UInt64"@,
        Ty::String => "String"@,
        Ty::Number => "Number"@,
        Ty::Unknown => "Unknown"@,
        Ty::Any => "Any"@,
        Ty::Array(elements, size) => "Array(["@ + list_text(elements) + "], "@
            + crate::text::decimal_text(size) + ")"@,
        Ty::Identifier(name) => "Identifier("@ + crate::text::decimal_text(name.0 as nat) + ")"@,
        Ty::Struct(name) => "Struct("@ + crate::text::decimal_text(name.0 as nat) + ")"@,
    }
}

impl TypeDecl {
    /// Appends to `text` how the type is written in messages.
    pub fn push_text(&self, text: &mut String)
        ensures
            final(text)@ == old(text)@ + type_text(self@),
        decreases self,
    {
        match self {
            TypeDecl::Unit => text.append("Unit"),
            TypeDecl::Bool => text.append("Bool"),
            TypeDecl::Int64 => text.append("Int64"),
            TypeDecl::UInt64 => text.append("UInt64"),
            TypeDecl::String => text.append("String"),
            TypeDecl::Number => text.append("Number"),
            TypeDecl::Unknown => text.append("Unknown"),
            TypeDecl::Any => text.append("Any"),
            TypeDecl::Array(elements, size) => {
                text.append("Array([");
                let ghost start = text@;
                let mut i: usize = 0;
                assert(self@->Array_0.subrange(0, 0) =~= Seq::<Ty>::empty());
                while i < elements.len()
                    invariant
                        *self == TypeDecl::Array(*elements, *size),
                        i <= elements.len(),
                        self@->Array_0.len() == elements@.len(),
                        text@ == start + list_text(self@->Array_0.subrange(0, i as int)),
                    decreases elements.len() - i,
                {
                    let ghost all = self@->Array_0;
                    let ghost before = text@;
                    assert(all.subrange(0, i + 1).drop_last() =~= all.subrange(0, i as int));
                    assert(all.subrange(0, i + 1).last() == elements@[i as int]@);
                    if i > 0 {
                        text.append(", ");
                    }
                    assert(decreases_to!(*self => self->Array_0));
                    assert(decreases_to!(*elements => elements[i as int]));
                    elements[i].push_text(text);
                    assert(text@ =~= start + list_text(all.subrange(0, i + 1)));
                    i += 1;
                }
                assert(self@->Array_0.subrange(0, elements@.len() as int) =~= self@->Array_0);
                text.append("], ");
                crate::text::push_decimal(text, *size as u64);
                text.append(")");
                assert(text@ =~= old(text)@ + type_text(self@));
            },
            TypeDecl::Identifier(name) => {
                text.append("Identifier(");
                crate::text::push_decimal(text, name.0 as u64);
                text.append(")");
                assert(text@ =~= old(text)@ + type_text(self@));
            },
            TypeDecl::Struct(name) => {
                text.append("Struct(");
                crate::text::push_decimal(text, name.0 as u64);
                text.append(")");
                assert(text@ =~= old(text)@ + type_text(self@));
            },
        }
    }

    /// How the type is written in messages.
    pub fn text(&self) -> (text: String)
        ensures
            text@ == type_text(self@),
    {
        let mut text = String::new();
        self.push_text(&mut text);
        assert(text@ =~= type_text(self@));
        text
    }
}

} // verus!
