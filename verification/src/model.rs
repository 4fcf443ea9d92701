//! What each descriptor maps to, as functions on views. Every executable
//! function of the crate is specified against these.

use crate::descriptor::{LiteralView, TypeView};
use crate::naming::{class_name_of, enum_variant_name_of};
use vstd::prelude::*;

verus! {

/// An enum or a callback interface: a kind that is known by an identifier of
/// the interface.
pub open spec fn is_identifier_backed(t: TypeView) -> bool {
    t is Enum || t is CallbackInterface
}

/// The identifier of an identifier-backed descriptor.
pub open spec fn identifier_of(t: TypeView) -> Seq<char> {
    match t {
        TypeView::Enum(id) => id,
        TypeView::CallbackInterface(id) => id,
        _ => Seq::empty(),
    }
}

/// An optional, a sequence or a map.
pub open spec fn is_compound(t: TypeView) -> bool {
    t is Optional || t is Sequence || t is Mapping
}

/// The name under which generated declarations refer to the type.
pub open spec fn type_label_of(t: TypeView) -> Seq<char>
    decreases t,
{
    match t {
        TypeView::Scalar(name) => name,
        TypeView::Enum(id) => class_name_of(id),
        TypeView::CallbackInterface(id) => class_name_of(id),
        TypeView::Timestamp => "DateTime"@,
        TypeView::Duration => "TimeSpan"@,
        TypeView::Optional(inner) => type_label_of(*inner) + "?"@,
        TypeView::Sequence(inner) => "List<"@ + type_label_of(*inner) + ">"@,
        TypeView::Mapping(key, value) => "Dictionary<"@ + type_label_of(*key) + ", "@
            + type_label_of(*value) + ">"@,
    }
}

/// The token that names the helpers generated for the type.
pub open spec fn canonical_name_of(t: TypeView) -> Seq<char>
    decreases t,
{
    match t {
        TypeView::Scalar(name) => name,
        TypeView::Enum(id) => "Type"@ + id,
        TypeView::CallbackInterface(id) => "Type"@ + id,
        TypeView::Timestamp => "Timestamp"@,
        TypeView::Duration => "Duration"@,
        TypeView::Optional(inner) => "Optional"@ + canonical_name_of(*inner),
        TypeView::Sequence(inner) => "Sequence"@ + canonical_name_of(*inner),
        TypeView::Mapping(key, value) => "Dictionary"@ + type_label_of(*key) + type_label_of(
            *value,
        ),
    }
}

/// The name of the converter generated for the type.
pub open spec fn ffi_converter_name_of(t: TypeView) -> Seq<char> {
    "FfiConverter"@ + canonical_name_of(t)
}

/// The hook that generated code has to run once at load time for the type,
/// if it needs one. Only a callback interface does: it registers its
/// converter.
pub open spec fn initialization_fn_of(t: TypeView) -> Option<Seq<char>> {
    match t {
        TypeView::CallbackInterface(_) => Some(ffi_converter_name_of(t) + ".INSTANCE.Register"@),
        _ => None,
    }
}

/// The literals that stand for "nothing there". All of them are written
/// `null`, an empty collection too.
pub open spec fn is_absent_or_empty(literal: LiteralView) -> bool {
    literal is Null || literal is EmptySequence || literal is EmptyMap
}

/// Whether the code type of `t` can write `literal` down.
pub open spec fn literal_supported(t: TypeView, literal: LiteralView) -> bool
    decreases t, 0nat,
{
    match t {
        TypeView::Enum(_) => literal is Enum,
        TypeView::Optional(inner) => render_supported(literal, *inner),
        TypeView::Sequence(inner) => render_supported(literal, *inner),
        TypeView::Mapping(_, value) => render_supported(literal, *value),
        _ => false,
    }
}

/// Whether a compound type whose values are of type `inner` can write
/// `literal` down.
pub open spec fn render_supported(literal: LiteralView, inner: TypeView) -> bool
    decreases inner, 1nat,
{
    is_absent_or_empty(literal) || literal_supported(inner, literal)
}

/// The source text of `literal` where a value of type `t` is expected.
/// Meaningful where `literal_supported(t, literal)`.
pub open spec fn literal_of(t: TypeView, literal: LiteralView) -> Seq<char>
    decreases t, 0nat,
{
    match t {
        TypeView::Enum(id) => class_name_of(id) + "."@ + enum_variant_name_of(literal->Enum_0),
        TypeView::Optional(inner) => rendered_literal(literal, *inner),
        TypeView::Sequence(inner) => rendered_literal(literal, *inner),
        TypeView::Mapping(_, value) => rendered_literal(literal, *value),
        _ => Seq::empty(),
    }
}

/// The source text of `literal` inside a compound type whose values are of
/// type `inner`. Meaningful where `render_supported(literal, inner)`.
pub open spec fn rendered_literal(literal: LiteralView, inner: TypeView) -> Seq<char>
    decreases inner, 1nat,
{
    if is_absent_or_empty(literal) {
        "null"@
    } else {
        literal_of(inner, literal)
    }
}

} // verus!
