//! What holds of the mapping as a whole, proved from the definitions in
//! [`crate::model`].

use crate::descriptor::{LiteralView, TypeView};
use crate::model::{
    canonical_name_of, identifier_of, is_absent_or_empty, is_compound, is_identifier_backed,
    literal_of, literal_supported, render_supported, rendered_literal, type_label_of,
};
use vstd::prelude::*;

verus! {

/// Putting the same text in front of two different texts leaves them
/// different.
proof fn lemma_prefix_keeps_apart(prefix: Seq<char>, a: Seq<char>, b: Seq<char>)
    requires
        a != b,
    ensures
        prefix + a != prefix + b,
{
    let n = prefix.len() as int;
    assert((prefix + a).subrange(n, n + a.len()) =~= a);
    assert((prefix + b).subrange(n, n + b.len()) =~= b);
}

/// Identifier-backed types that were declared under different identifiers
/// have different canonical names.
pub proof fn lemma_distinct_identifiers_distinct_canonical_names(a: TypeView, b: TypeView)
    requires
        is_identifier_backed(a),
        is_identifier_backed(b),
        identifier_of(a) != identifier_of(b),
    ensures
        canonical_name_of(a) != canonical_name_of(b),
{
    lemma_prefix_keeps_apart("Type"@, identifier_of(a), identifier_of(b));
}

/// The label of a compound type is built around the labels of the types it
/// wraps, innermost first, and from nothing else.
pub proof fn lemma_type_label_composes(inner: TypeView, key: TypeView)
    ensures
        type_label_of(TypeView::Optional(Box::new(inner))) == type_label_of(inner) + "?"@,
        type_label_of(TypeView::Sequence(Box::new(inner))) == "List<"@ + type_label_of(inner)
            + ">"@,
        type_label_of(TypeView::Mapping(Box::new(key), Box::new(inner))) == "Dictionary<"@
            + type_label_of(key) + ", "@ + type_label_of(inner) + ">"@,
        type_label_of(TypeView::Sequence(Box::new(TypeView::Optional(Box::new(inner)))))
            == "List<"@ + (type_label_of(inner) + "?"@) + ">"@,
{
    reveal_with_fuel(type_label_of, 3);
}

/// The canonical name of a compound type is built from the names of the
/// types it wraps in the same way, at every depth.
pub proof fn lemma_canonical_name_composes(inner: TypeView, key: TypeView)
    ensures
        canonical_name_of(TypeView::Optional(Box::new(inner))) == "Optional"@
            + canonical_name_of(inner),
        canonical_name_of(TypeView::Sequence(Box::new(inner))) == "Sequence"@
            + canonical_name_of(inner),
        canonical_name_of(TypeView::Mapping(Box::new(key), Box::new(inner))) == "Dictionary"@
            + type_label_of(key) + type_label_of(inner),
        canonical_name_of(
            TypeView::Optional(
                Box::new(TypeView::Sequence(Box::new(TypeView::Mapping(Box::new(key), Box::new(inner))))),
            ),
        ) == "Optional"@ + ("Sequence"@ + ("Dictionary"@ + type_label_of(key) + type_label_of(
            inner,
        ))),
{
    reveal_with_fuel(canonical_name_of, 4);
}

/// The canonical name of a compound type, however deep, is never that of an
/// enum, a callback interface, a timestamp or a duration.
pub proof fn lemma_compound_canonical_name_is_no_plain_name(compound: TypeView, plain: TypeView)
    requires
        is_compound(compound),
        is_identifier_backed(plain) || plain is Timestamp || plain is Duration,
    ensures
        canonical_name_of(compound) != canonical_name_of(plain),
{
    reveal_strlit("Optional");
    reveal_strlit("Sequence");
    reveal_strlit("Dictionary");
    reveal_strlit("Type");
    reveal_strlit("Timestamp");
    reveal_strlit("Duration");
    let c = canonical_name_of(compound);
    let p = canonical_name_of(plain);
    assert(c.len() >= 8);
    assert(p.len() >= 4);
    assert(p[0] == 'T' || (p[0] == 'D' && p[1] == 'u'));
    assert(c[0] == 'O' || c[0] == 'S' || (c[0] == 'D' && c[1] == 'i'));
}

/// Two compound types of different kinds never have the same canonical name.
pub proof fn lemma_compound_kinds_have_distinct_canonical_names(a: TypeView, b: TypeView)
    requires
        is_compound(a),
        is_compound(b),
        (a is Optional) != (b is Optional) || (a is Sequence) != (b is Sequence),
    ensures
        canonical_name_of(a) != canonical_name_of(b),
{
    reveal_strlit("Optional");
    reveal_strlit("Sequence");
    reveal_strlit("Dictionary");
    let x = canonical_name_of(a);
    let y = canonical_name_of(b);
    assert(x.len() >= 8 && y.len() >= 8);
    assert(a is Optional ==> x[0] == 'O');
    assert(a is Sequence ==> x[0] == 'S');
    assert(a is Mapping ==> x[0] == 'D');
    assert(b is Optional ==> y[0] == 'O');
    assert(b is Sequence ==> y[0] == 'S');
    assert(b is Mapping ==> y[0] == 'D');
}

/// Wrapping two types whose canonical names differ into optionals, or into
/// sequences, gives types whose canonical names differ: nesting never makes
/// two names meet.
pub proof fn lemma_wrapping_keeps_canonical_names_apart(a: TypeView, b: TypeView)
    requires
        canonical_name_of(a) != canonical_name_of(b),
    ensures
        canonical_name_of(TypeView::Optional(Box::new(a))) != canonical_name_of(
            TypeView::Optional(Box::new(b)),
        ),
        canonical_name_of(TypeView::Sequence(Box::new(a))) != canonical_name_of(
            TypeView::Sequence(Box::new(b)),
        ),
{
    lemma_prefix_keeps_apart("Optional"@, canonical_name_of(a), canonical_name_of(b));
    lemma_prefix_keeps_apart("Sequence"@, canonical_name_of(a), canonical_name_of(b));
}

/// The absent value and the empty collections are written `null` inside
/// every compound type, whatever it wraps.
pub proof fn lemma_absent_or_empty_is_null(literal: LiteralView, inner: TypeView, key: TypeView)
    requires
        is_absent_or_empty(literal),
    ensures
        render_supported(literal, inner),
        rendered_literal(literal, inner) == "null"@,
        literal_supported(TypeView::Optional(Box::new(inner)), literal),
        literal_of(TypeView::Optional(Box::new(inner)), literal) == "null"@,
        literal_supported(TypeView::Sequence(Box::new(inner)), literal),
        literal_of(TypeView::Sequence(Box::new(inner)), literal) == "null"@,
        literal_supported(TypeView::Mapping(Box::new(key), Box::new(inner)), literal),
        literal_of(TypeView::Mapping(Box::new(key), Box::new(inner)), literal) == "null"@,
{
    reveal_with_fuel(literal_supported, 2);
    reveal_with_fuel(literal_of, 2);
}

/// Any other literal is handed to the wrapped type as it is: a compound type
/// writes down what the wrapped type writes down, and can do so exactly when
/// the wrapped type can. A map hands it to its value type.
pub proof fn lemma_other_literals_are_delegated(
    literal: LiteralView,
    inner: TypeView,
    key: TypeView,
)
    requires
        !is_absent_or_empty(literal),
    ensures
        render_supported(literal, inner) == literal_supported(inner, literal),
        rendered_literal(literal, inner) == literal_of(inner, literal),
        literal_supported(TypeView::Optional(Box::new(inner)), literal) == literal_supported(
            inner,
            literal,
        ),
        literal_of(TypeView::Optional(Box::new(inner)), literal) == literal_of(inner, literal),
        literal_supported(TypeView::Sequence(Box::new(inner)), literal) == literal_supported(
            inner,
            literal,
        ),
        literal_of(TypeView::Sequence(Box::new(inner)), literal) == literal_of(inner, literal),
        literal_supported(TypeView::Mapping(Box::new(key), Box::new(inner)), literal)
            == literal_supported(inner, literal),
        literal_of(TypeView::Mapping(Box::new(key), Box::new(inner)), literal) == literal_of(
            inner,
            literal,
        ),
{
    reveal_with_fuel(literal_supported, 2);
    reveal_with_fuel(literal_of, 2);
}

/// A scalar, a callback interface, a timestamp and a duration have no
/// literal.
pub proof fn lemma_no_literal(t: TypeView, literal: LiteralView)
    requires
        t is Scalar || t is CallbackInterface || t is Timestamp || t is Duration,
    ensures
        !literal_supported(t, literal),
{
}

} // verus!
