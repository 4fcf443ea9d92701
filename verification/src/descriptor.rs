//! The descriptors that the front end hands to the type mapping: one for a
//! type of the interface, one for a default value.

use vstd::prelude::*;

verus! {

/// One type of an interface. Descriptors are compared by structure: two of
/// them stand for the same type when their views are equal.
#[derive(Debug)]
pub enum Type {
    /// A leaf kind that is declared elsewhere, referred to by the name the
    /// generated code knows it under.
    Scalar(String),
    /// An enum of the interface, by its identifier.
    Enum(String),
    /// A callback interface of the interface, by its identifier.
    CallbackInterface(String),
    Timestamp,
    Duration,
    Optional(Box<Type>),
    Sequence(Box<Type>),
    /// A map from keys to values, key type first.
    Mapping(Box<Type>, Box<Type>),
}

/// The mathematical value of a [`Type`]: the same tree, with each name as a
/// sequence of characters.
pub enum TypeView {
    Scalar(Seq<char>),
    Enum(Seq<char>),
    CallbackInterface(Seq<char>),
    Timestamp,
    Duration,
    Optional(Box<TypeView>),
    Sequence(Box<TypeView>),
    Mapping(Box<TypeView>, Box<TypeView>),
}

impl View for Type {
    type V = TypeView;

    open spec fn view(&self) -> TypeView
        decreases self,
    {
        match self {
            Type::Scalar(name) => TypeView::Scalar(name@),
            Type::Enum(id) => TypeView::Enum(id@),
            Type::CallbackInterface(id) => TypeView::CallbackInterface(id@),
            Type::Timestamp => TypeView::Timestamp,
            Type::Duration => TypeView::Duration,
            Type::Optional(inner) => TypeView::Optional(Box::new((**inner).view())),
            Type::Sequence(inner) => TypeView::Sequence(Box::new((**inner).view())),
            Type::Mapping(key, value) => TypeView::Mapping(
                Box::new((**key).view()),
                Box::new((**value).view()),
            ),
        }
    }
}

impl Clone for Type {
    fn clone(&self) -> (res: Self)
        ensures
            res == *self,
        decreases self,
    {
        match self {
            Type::Scalar(name) => Type::Scalar(name.clone()),
            Type::Enum(id) => Type::Enum(id.clone()),
            Type::CallbackInterface(id) => Type::CallbackInterface(id.clone()),
            Type::Timestamp => Type::Timestamp,
            Type::Duration => Type::Duration,
            Type::Optional(inner) => Type::Optional(Box::new((**inner).clone())),
            Type::Sequence(inner) => Type::Sequence(Box::new((**inner).clone())),
            Type::Mapping(key, value) => Type::Mapping(
                Box::new((**key).clone()),
                Box::new((**value).clone()),
            ),
        }
    }
}

/// A default value, as the front end describes it.
#[derive(Debug)]
pub enum Literal {
    /// The absent value.
    Null,
    EmptySequence,
    EmptyMap,
    /// The selection of one enumerator: its identifier, then the enum it
    /// belongs to.
    Enum(String, Type),
    /// A value of a scalar kind, held as it was written. Rendering it belongs
    /// to the scalar's own declaration.
    Scalar(String),
}

/// The mathematical value of a [`Literal`].
pub enum LiteralView {
    Null,
    EmptySequence,
    EmptyMap,
    Enum(Seq<char>, TypeView),
    Scalar(Seq<char>),
}

impl View for Literal {
    type V = LiteralView;

    open spec fn view(&self) -> LiteralView {
        match self {
            Literal::Null => LiteralView::Null,
            Literal::EmptySequence => LiteralView::EmptySequence,
            Literal::EmptyMap => LiteralView::EmptyMap,
            Literal::Enum(variant, owner) => LiteralView::Enum(variant@, owner@),
            Literal::Scalar(text) => LiteralView::Scalar(text@),
        }
    }
}

impl Clone for Literal {
    fn clone(&self) -> (res: Self)
        ensures
            res == *self,
    {
        match self {
            Literal::Null => Literal::Null,
            Literal::EmptySequence => Literal::EmptySequence,
            Literal::EmptyMap => Literal::EmptyMap,
            Literal::Enum(variant, owner) => Literal::Enum(variant.clone(), owner.clone()),
            Literal::Scalar(text) => Literal::Scalar(text.clone()),
        }
    }
}

} // verus!
