//! The casing rules that turn an identifier of the interface into a C# name.

use vstd::prelude::*;

verus! {

/// The upper camel case form of an identifier, as `heck` computes it.
pub uninterp spec fn upper_camel_case(nm: Seq<char>) -> Seq<char>;

/// Calls `heck::ToUpperCamelCase::to_upper_camel_case` on `nm`. What comes
/// back depends on the characters of `nm` alone and is not spelled out here:
/// the contract only gives it its name.
#[verifier::external_body]
pub(crate) fn to_upper_camel_case(nm: &str) -> (r: String)
    ensures
        r@ == upper_camel_case(nm@),
{
    heck::ToUpperCamelCase::to_upper_camel_case(nm)
}

/// The C# name of a class, enum or interface declared under the identifier `nm`.
pub open spec fn class_name_of(nm: Seq<char>) -> Seq<char> {
    upper_camel_case(nm)
}

/// The C# name of the enumerator declared under the identifier `nm`.
pub open spec fn enum_variant_name_of(nm: Seq<char>) -> Seq<char> {
    upper_camel_case(nm)
}

} // verus!
