//! The code type of a scalar kind.

use crate::descriptor::TypeView;
use vstd::prelude::*;

verus! {

/// A scalar is declared elsewhere. Here it is only referred to, by the name
/// its descriptor carries.
#[derive(Debug)]
pub struct ScalarCodeType {
    name: String,
}

impl View for ScalarCodeType {
    type V = TypeView;

    /// The descriptor that this code type stands for.
    open spec fn view(&self) -> TypeView {
        TypeView::Scalar(self.name())
    }
}

impl Clone for ScalarCodeType {
    fn clone(&self) -> (res: Self)
        ensures
            res == *self,
    {
        Self { name: self.name.clone() }
    }
}

impl ScalarCodeType {
    /// The name of the scalar.
    pub closed spec fn name(&self) -> Seq<char> {
        self.name@
    }

    /// The code type of the scalar that generated code knows as `name`.
    pub fn new(name: String) -> (code_type: Self)
        ensures
            code_type.name() == name@,
    {
        Self { name }
    }

    /// The name, as it is.
    pub fn type_label(&self) -> (label: String)
        ensures
            label@ == self.name(),
    {
        self.name.clone()
    }

    /// The name, as it is.
    pub fn canonical_name(&self) -> (name: String)
        ensures
            name@ == self.name(),
    {
        self.name.clone()
    }

    /// A scalar needs nothing run at load time.
    pub fn initialization_fn(&self) -> (hook: Option<String>)
        ensures
            hook is None,
    {
        None
    }
}

} // verus!
