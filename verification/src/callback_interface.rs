//! The code type of a callback interface.

use crate::descriptor::TypeView;
use crate::model::ffi_converter_name_of;
use crate::naming::class_name_of;
use crate::oracle::CsCodeOracle;
use vstd::prelude::*;

verus! {

#[derive(Debug)]
pub struct CallbackInterfaceCodeType {
    id: String,
}

impl View for CallbackInterfaceCodeType {
    type V = TypeView;

    /// The descriptor that this code type stands for.
    open spec fn view(&self) -> TypeView {
        TypeView::CallbackInterface(self.id())
    }
}

impl Clone for CallbackInterfaceCodeType {
    fn clone(&self) -> (res: Self)
        ensures
            res == *self,
    {
        Self { id: self.id.clone() }
    }
}

impl CallbackInterfaceCodeType {
    /// The identifier of the callback interface.
    pub closed spec fn id(&self) -> Seq<char> {
        self.id@
    }

    /// The code type of the callback interface declared under `id`.
    pub fn new(id: String) -> (code_type: Self)
        ensures
            code_type.id() == id@,
    {
        Self { id }
    }

    /// The C# name of the interface.
    pub fn type_label(&self) -> (label: String)
        ensures
            label@ == class_name_of(self.id()),
    {
        CsCodeOracle.class_name(self.id.as_str())
    }

    /// `Type` followed by the identifier as it was declared.
    pub fn canonical_name(&self) -> (name: String)
        ensures
            name@ == "Type"@ + self.id(),
    {
        String::from_str("Type").concat(self.id.as_str())
    }

    /// The name of the converter generated for the interface: `FfiConverter`
    /// followed by the canonical name.
    pub fn ffi_converter_name(&self) -> (name: String)
        ensures
            name@ == "FfiConverter"@ + ("Type"@ + self.id()),
    {
        String::from_str("FfiConverter").concat(self.canonical_name().as_str())
    }

    /// The registration of the interface's converter, which generated code
    /// has to run once at load time.
    pub fn initialization_fn(&self) -> (hook: Option<String>)
        ensures
            hook matches Some(call) && call@ == ffi_converter_name_of(self@)
                + ".INSTANCE.Register"@,
    {
        Some(self.ffi_converter_name().concat(".INSTANCE.Register"))
    }
}

} // verus!
