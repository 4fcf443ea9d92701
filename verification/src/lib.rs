//! Type mapping for a C# binding generator: from the language-neutral
//! descriptor of a type to the text fragments that generated C# code needs
//! of it. These are the label under which the type is referred to, the
//! canonical name under which its helpers are generated, the source text of
//! a default value, and the call to make once at load time.
//!
//! [`oracle::CsCodeOracle`] resolves a [`descriptor::Type`] to its
//! [`oracle::CodeType`]. [`model`] says what each descriptor maps to, and
//! every function is proved against it. [`lemmas`] holds what follows for
//! the mapping as a whole.

pub mod callback_interface;
pub mod compounds;
pub mod descriptor;
pub mod enum_;
pub mod executor;
pub mod lemmas;
pub mod miscellany;
pub mod model;
pub mod naming;
pub mod oracle;
pub mod scalar;
