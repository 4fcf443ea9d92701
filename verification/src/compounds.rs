//! The code types of the compound kinds, which wrap one or two other types,
//! and the rule by which all of them write a literal down.

use crate::descriptor::{Literal, Type, TypeView};
use crate::model::{
    canonical_name_of, render_supported, rendered_literal, type_label_of,
};
use crate::oracle::CsCodeOracle;
use vstd::prelude::*;

verus! {

/// Writes `literal` down for a compound type whose values are of type
/// `inner`. The absent value is `null`. So is an empty sequence or map,
/// because C# takes no collection as the default of a parameter. Any other
/// literal is left to the code type of `inner`.
pub fn render_literal(literal: &Literal, inner: &Type) -> (text: String)
    requires
        render_supported(literal@, inner@),
    ensures
        text@ == rendered_literal(literal@, inner@),
    decreases inner@, 2nat,
{
    match literal {
        Literal::Null => String::from_str("null"),
        Literal::EmptySequence => String::from_str("null"),
        Literal::EmptyMap => String::from_str("null"),
        _ => CsCodeOracle.find(inner).literal(literal),
    }
}

/// Whether [`render_literal`] can write `literal` down for values of type
/// `inner`.
pub fn can_render_literal(literal: &Literal, inner: &Type) -> (can: bool)
    ensures
        can == render_supported(literal@, inner@),
    decreases inner@, 2nat,
{
    match literal {
        Literal::Null => true,
        Literal::EmptySequence => true,
        Literal::EmptyMap => true,
        _ => CsCodeOracle.find(inner).supports_literal(literal),
    }
}

#[derive(Debug)]
pub struct OptionalCodeType {
    inner: Type,
}

impl View for OptionalCodeType {
    type V = TypeView;

    /// The descriptor that this code type stands for.
    open spec fn view(&self) -> TypeView {
        TypeView::Optional(Box::new(self.inner_view()))
    }
}

impl Clone for OptionalCodeType {
    fn clone(&self) -> (res: Self)
        ensures
            res == *self,
    {
        Self { inner: self.inner.clone() }
    }
}

impl OptionalCodeType {
    /// The type of the value that may be there.
    pub closed spec fn inner_view(&self) -> TypeView {
        self.inner@
    }

    /// The code type of the compound that wraps `inner`.
    pub fn new(inner: Type) -> (code_type: Self)
        ensures
            code_type.inner_view() == inner@,
    {
        Self { inner }
    }

    /// The wrapped type. It is smaller than the compound itself, which is
    /// what lets the resolution of nested types come to an end.
    fn inner(&self) -> (inner: &Type)
        ensures
            inner@ == self.inner_view(),
            decreases_to!(self@ => inner@),
    {
        assert(self@->Optional_0 == self.inner_view());
        &self.inner
    }

    /// The label of the inner type, marked nullable.
    pub fn type_label(&self) -> (label: String)
        ensures
            label@ == type_label_of(self.inner_view()) + "?"@,
        decreases self@, 0nat,
    {
        CsCodeOracle.find(self.inner()).type_label().concat("?")
    }

    /// `Optional` followed by the canonical name of the inner type.
    pub fn canonical_name(&self) -> (name: String)
        ensures
            name@ == "Optional"@ + canonical_name_of(self.inner_view()),
        decreases self@, 0nat,
    {
        let inner_name = CsCodeOracle.find(self.inner()).canonical_name();
        String::from_str("Optional").concat(inner_name.as_str())
    }

    /// The source text of `literal`, by the rule of [`render_literal`].
    pub fn literal(&self, literal: &Literal) -> (text: String)
        requires
            render_supported(literal@, self.inner_view()),
        ensures
            text@ == rendered_literal(literal@, self.inner_view()),
        decreases self@, 0nat,
    {
        render_literal(literal, self.inner())
    }

    /// Whether [`Self::literal`] can write `literal` down.
    pub fn supports_literal(&self, literal: &Literal) -> (can: bool)
        ensures
            can == render_supported(literal@, self.inner_view()),
        decreases self@, 0nat,
    {
        can_render_literal(literal, self.inner())
    }

    /// An optional needs nothing run at load time.
    pub fn initialization_fn(&self) -> (hook: Option<String>)
        ensures
            hook is None,
    {
        None
    }
}

#[derive(Debug)]
pub struct SequenceCodeType {
    inner: Type,
}

impl View for SequenceCodeType {
    type V = TypeView;

    /// The descriptor that this code type stands for.
    open spec fn view(&self) -> TypeView {
        TypeView::Sequence(Box::new(self.inner_view()))
    }
}

impl Clone for SequenceCodeType {
    fn clone(&self) -> (res: Self)
        ensures
            res == *self,
    {
        Self { inner: self.inner.clone() }
    }
}

impl SequenceCodeType {
    /// The type of the items.
    pub closed spec fn inner_view(&self) -> TypeView {
        self.inner@
    }

    /// The code type of the compound that wraps `inner`.
    pub fn new(inner: Type) -> (code_type: Self)
        ensures
            code_type.inner_view() == inner@,
    {
        Self { inner }
    }

    /// The wrapped type. It is smaller than the compound itself, which is
    /// what lets the resolution of nested types come to an end.
    fn inner(&self) -> (inner: &Type)
        ensures
            inner@ == self.inner_view(),
            decreases_to!(self@ => inner@),
    {
        assert(self@->Sequence_0 == self.inner_view());
        &self.inner
    }

    /// A list of the inner type's label.
    pub fn type_label(&self) -> (label: String)
        ensures
            label@ == "List<"@ + type_label_of(self.inner_view()) + ">"@,
        decreases self@, 0nat,
    {
        let inner_label = CsCodeOracle.find(self.inner()).type_label();
        String::from_str("List<").concat(inner_label.as_str()).concat(">")
    }

    /// `Sequence` followed by the canonical name of the inner type.
    pub fn canonical_name(&self) -> (name: String)
        ensures
            name@ == "Sequence"@ + canonical_name_of(self.inner_view()),
        decreases self@, 0nat,
    {
        let inner_name = CsCodeOracle.find(self.inner()).canonical_name();
        String::from_str("Sequence").concat(inner_name.as_str())
    }

    /// The source text of `literal`, by the rule of [`render_literal`].
    pub fn literal(&self, literal: &Literal) -> (text: String)
        requires
            render_supported(literal@, self.inner_view()),
        ensures
            text@ == rendered_literal(literal@, self.inner_view()),
        decreases self@, 0nat,
    {
        render_literal(literal, self.inner())
    }

    /// Whether [`Self::literal`] can write `literal` down.
    pub fn supports_literal(&self, literal: &Literal) -> (can: bool)
        ensures
            can == render_supported(literal@, self.inner_view()),
        decreases self@, 0nat,
    {
        can_render_literal(literal, self.inner())
    }

    /// A sequence needs nothing run at load time.
    pub fn initialization_fn(&self) -> (hook: Option<String>)
        ensures
            hook is None,
    {
        None
    }
}

#[derive(Debug)]
pub struct MapCodeType {
    key: Type,
    value: Type,
}

impl View for MapCodeType {
    type V = TypeView;

    /// The descriptor that this code type stands for.
    open spec fn view(&self) -> TypeView {
        TypeView::Mapping(Box::new(self.key_view()), Box::new(self.value_view()))
    }
}

impl Clone for MapCodeType {
    fn clone(&self) -> (res: Self)
        ensures
            res == *self,
    {
        Self { key: self.key.clone(), value: self.value.clone() }
    }
}

impl MapCodeType {
    /// The type of the keys.
    pub closed spec fn key_view(&self) -> TypeView {
        self.key@
    }

    /// The type of the values.
    pub closed spec fn value_view(&self) -> TypeView {
        self.value@
    }

    /// The code type of the map from `key` to `value`.
    pub fn new(key: Type, value: Type) -> (code_type: Self)
        ensures
            code_type.key_view() == key@,
            code_type.value_view() == value@,
    {
        Self { key, value }
    }

    /// The key type. It is smaller than the map itself, which is what lets
    /// the resolution of nested types come to an end.
    fn key(&self) -> (key: &Type)
        ensures
            key@ == self.key_view(),
            decreases_to!(self@ => key@),
    {
        assert(self@->Mapping_0 == self.key_view());
        &self.key
    }

    /// The value type, smaller than the map itself as the key type is.
    fn value(&self) -> (value: &Type)
        ensures
            value@ == self.value_view(),
            decreases_to!(self@ => value@),
    {
        assert(self@->Mapping_1 == self.value_view());
        &self.value
    }

    /// A dictionary from the key type's label to the value type's label.
    pub fn type_label(&self) -> (label: String)
        ensures
            label@ == "Dictionary<"@ + type_label_of(self.key_view()) + ", "@ + type_label_of(
                self.value_view(),
            ) + ">"@,
        decreases self@, 0nat,
    {
        let key_label = CsCodeOracle.find(self.key()).type_label();
        let value_label = CsCodeOracle.find(self.value()).type_label();
        String::from_str("Dictionary<").concat(key_label.as_str()).concat(", ").concat(
            value_label.as_str(),
        ).concat(">")
    }

    /// `Dictionary` followed by the labels of the key type and of the value
    /// type.
    pub fn canonical_name(&self) -> (name: String)
        ensures
            name@ == "Dictionary"@ + type_label_of(self.key_view()) + type_label_of(
                self.value_view(),
            ),
        decreases self@, 0nat,
    {
        let key_label = CsCodeOracle.find(self.key()).type_label();
        let value_label = CsCodeOracle.find(self.value()).type_label();
        String::from_str("Dictionary").concat(key_label.as_str()).concat(value_label.as_str())
    }

    /// The source text of `literal`, by the rule of [`render_literal`]. A
    /// default is a default of the values: the key type has no say in it.
    pub fn literal(&self, literal: &Literal) -> (text: String)
        requires
            render_supported(literal@, self.value_view()),
        ensures
            text@ == rendered_literal(literal@, self.value_view()),
        decreases self@, 0nat,
    {
        render_literal(literal, self.value())
    }

    /// Whether [`Self::literal`] can write `literal` down.
    pub fn supports_literal(&self, literal: &Literal) -> (can: bool)
        ensures
            can == render_supported(literal@, self.value_view()),
        decreases self@, 0nat,
    {
        can_render_literal(literal, self.value())
    }

    /// A map needs nothing run at load time.
    pub fn initialization_fn(&self) -> (hook: Option<String>)
        ensures
            hook is None,
    {
        None
    }
}

} // verus!
