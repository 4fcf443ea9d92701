//! The code type of an enum.

use crate::descriptor::{Literal, TypeView};
use crate::naming::{class_name_of, enum_variant_name_of};
use crate::oracle::CsCodeOracle;
use vstd::pervasive::unreached;
use vstd::prelude::*;

verus! {

/// The source text that selects the enumerator named `variant_name` of the
/// enum named `type_label`: the two names, with a dot between them.
pub fn enumerator_literal(type_label: &str, variant_name: &str) -> (text: String)
    ensures
        text@ == type_label@ + "."@ + variant_name@,
{
    String::from_str(type_label).concat(".").concat(variant_name)
}

#[derive(Debug)]
pub struct EnumCodeType {
    id: String,
}

impl View for EnumCodeType {
    type V = TypeView;

    /// The descriptor that this code type stands for.
    open spec fn view(&self) -> TypeView {
        TypeView::Enum(self.id())
    }
}

impl Clone for EnumCodeType {
    fn clone(&self) -> (res: Self)
        ensures
            res == *self,
    {
        Self { id: self.id.clone() }
    }
}

impl EnumCodeType {
    /// The identifier of the enum.
    pub closed spec fn id(&self) -> Seq<char> {
        self.id@
    }

    /// The code type of the enum declared under `id`.
    pub fn new(id: String) -> (code_type: Self)
        ensures
            code_type.id() == id@,
    {
        Self { id }
    }

    /// The C# name of the enum.
    pub fn type_label(&self) -> (label: String)
        ensures
            label@ == class_name_of(self.id()),
    {
        CsCodeOracle.class_name(self.id.as_str())
    }

    /// `Type` followed by the identifier as it was declared.
    pub fn canonical_name(&self) -> (name: String)
        ensures
            name@ == "Type"@ + self.id(),
    {
        String::from_str("Type").concat(self.id.as_str())
    }

    /// The selected enumerator, qualified by the enum's C# name. An enum has
    /// no other literal than the selection of one of its enumerators.
    pub fn literal(&self, literal: &Literal) -> (text: String)
        requires
            literal@ is Enum,
        ensures
            text@ == class_name_of(self.id()) + "."@ + enum_variant_name_of(literal@->Enum_0),
    {
        match literal {
            Literal::Enum(variant, _) => {
                let variant_name = CsCodeOracle.enum_variant_name(variant.as_str());
                enumerator_literal(self.type_label().as_str(), variant_name.as_str())
            },
            _ => unreached(),
        }
    }

    /// An enum needs nothing run at load time.
    pub fn initialization_fn(&self) -> (hook: Option<String>)
        ensures
            hook is None,
    {
        None
    }
}

} // verus!
