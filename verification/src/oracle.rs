//! The oracle: the one place that knows which code type stands for a
//! descriptor and how identifiers are cased.

use crate::callback_interface::CallbackInterfaceCodeType;
use crate::compounds::{MapCodeType, OptionalCodeType, SequenceCodeType};
use crate::descriptor::{Literal, Type, TypeView};
use crate::enum_::EnumCodeType;
use crate::miscellany::{DurationCodeType, TimestampCodeType};
use crate::model::{
    canonical_name_of, initialization_fn_of, literal_of, literal_supported, type_label_of,
};
use crate::naming::{class_name_of, enum_variant_name_of, to_upper_camel_case};
use crate::scalar::ScalarCodeType;
use vstd::pervasive::unreached;
use vstd::prelude::*;

verus! {

/// The code type that a descriptor resolves to: one variant for each kind of
/// descriptor. Its view is that descriptor.
#[derive(Debug)]
pub enum CodeType {
    Scalar(ScalarCodeType),
    Enum(EnumCodeType),
    CallbackInterface(CallbackInterfaceCodeType),
    Timestamp(TimestampCodeType),
    Duration(DurationCodeType),
    Optional(OptionalCodeType),
    Sequence(SequenceCodeType),
    Mapping(MapCodeType),
}

impl View for CodeType {
    type V = TypeView;

    open spec fn view(&self) -> TypeView {
        match self {
            CodeType::Scalar(code_type) => code_type@,
            CodeType::Enum(code_type) => code_type@,
            CodeType::CallbackInterface(code_type) => code_type@,
            CodeType::Timestamp(code_type) => code_type@,
            CodeType::Duration(code_type) => code_type@,
            CodeType::Optional(code_type) => code_type@,
            CodeType::Sequence(code_type) => code_type@,
            CodeType::Mapping(code_type) => code_type@,
        }
    }
}

impl Clone for CodeType {
    fn clone(&self) -> (res: Self)
        ensures
            res == *self,
    {
        match self {
            CodeType::Scalar(code_type) => CodeType::Scalar(code_type.clone()),
            CodeType::Enum(code_type) => CodeType::Enum(code_type.clone()),
            CodeType::CallbackInterface(code_type) => CodeType::CallbackInterface(
                code_type.clone(),
            ),
            CodeType::Timestamp(code_type) => CodeType::Timestamp(*code_type),
            CodeType::Duration(code_type) => CodeType::Duration(*code_type),
            CodeType::Optional(code_type) => CodeType::Optional(code_type.clone()),
            CodeType::Sequence(code_type) => CodeType::Sequence(code_type.clone()),
            CodeType::Mapping(code_type) => CodeType::Mapping(code_type.clone()),
        }
    }
}

impl CodeType {
    /// The name under which generated declarations refer to the type.
    pub fn type_label(&self) -> (label: String)
        ensures
            label@ == type_label_of(self@),
        decreases self@, 1nat,
    {
        match self {
            CodeType::Scalar(code_type) => code_type.type_label(),
            CodeType::Enum(code_type) => code_type.type_label(),
            CodeType::CallbackInterface(code_type) => code_type.type_label(),
            CodeType::Timestamp(code_type) => code_type.type_label(),
            CodeType::Duration(code_type) => code_type.type_label(),
            CodeType::Optional(code_type) => code_type.type_label(),
            CodeType::Sequence(code_type) => code_type.type_label(),
            CodeType::Mapping(code_type) => code_type.type_label(),
        }
    }

    /// The token that names the helpers generated for the type.
    pub fn canonical_name(&self) -> (name: String)
        ensures
            name@ == canonical_name_of(self@),
        decreases self@, 1nat,
    {
        match self {
            CodeType::Scalar(code_type) => code_type.canonical_name(),
            CodeType::Enum(code_type) => code_type.canonical_name(),
            CodeType::CallbackInterface(code_type) => code_type.canonical_name(),
            CodeType::Timestamp(code_type) => code_type.canonical_name(),
            CodeType::Duration(code_type) => code_type.canonical_name(),
            CodeType::Optional(code_type) => code_type.canonical_name(),
            CodeType::Sequence(code_type) => code_type.canonical_name(),
            CodeType::Mapping(code_type) => code_type.canonical_name(),
        }
    }

    /// Whether [`Self::literal`] can write `literal` down. A scalar, a
    /// callback interface, a timestamp and a duration have no literal at all.
    pub fn supports_literal(&self, literal: &Literal) -> (can: bool)
        ensures
            can == literal_supported(self@, literal@),
        decreases self@, 1nat,
    {
        match self {
            CodeType::Enum(_) => matches!(literal, Literal::Enum(_, _)),
            CodeType::Optional(code_type) => code_type.supports_literal(literal),
            CodeType::Sequence(code_type) => code_type.supports_literal(literal),
            CodeType::Mapping(code_type) => code_type.supports_literal(literal),
            _ => false,
        }
    }

    /// The source text of `literal` where a value of the type is expected.
    pub fn literal(&self, literal: &Literal) -> (text: String)
        requires
            literal_supported(self@, literal@),
        ensures
            text@ == literal_of(self@, literal@),
        decreases self@, 1nat,
    {
        match self {
            CodeType::Enum(code_type) => code_type.literal(literal),
            CodeType::Optional(code_type) => code_type.literal(literal),
            CodeType::Sequence(code_type) => code_type.literal(literal),
            CodeType::Mapping(code_type) => code_type.literal(literal),
            _ => unreached(),
        }
    }

    /// The call that generated code has to make once at load time for the
    /// type, if there is one.
    pub fn initialization_fn(&self) -> (hook: Option<String>)
        ensures
            match hook {
                Some(call) => initialization_fn_of(self@) == Some(call@),
                None => initialization_fn_of(self@) is None,
            },
    {
        match self {
            CodeType::Scalar(code_type) => code_type.initialization_fn(),
            CodeType::Enum(code_type) => code_type.initialization_fn(),
            CodeType::CallbackInterface(code_type) => code_type.initialization_fn(),
            CodeType::Timestamp(code_type) => code_type.initialization_fn(),
            CodeType::Duration(code_type) => code_type.initialization_fn(),
            CodeType::Optional(code_type) => code_type.initialization_fn(),
            CodeType::Sequence(code_type) => code_type.initialization_fn(),
            CodeType::Mapping(code_type) => code_type.initialization_fn(),
        }
    }
}

/// The naming and resolution rules of the C# bindings. It holds no state: any
/// two oracles answer alike.
#[derive(Clone, Copy, Debug)]
pub struct CsCodeOracle;

impl CsCodeOracle {
    /// The code type that stands for `type_`. Every descriptor has one. A
    /// compound code type gets its own copy of the types it wraps and
    /// resolves them when it is asked for a name, not before.
    pub fn find(&self, type_: &Type) -> (code_type: CodeType)
        ensures
            code_type@ == type_@,
            match type_ {
                Type::Scalar(_) => code_type is Scalar,
                Type::Enum(_) => code_type is Enum,
                Type::CallbackInterface(_) => code_type is CallbackInterface,
                Type::Timestamp => code_type is Timestamp,
                Type::Duration => code_type is Duration,
                Type::Optional(_) => code_type is Optional,
                Type::Sequence(_) => code_type is Sequence,
                Type::Mapping(_, _) => code_type is Mapping,
            },
    {
        match type_ {
            Type::Scalar(name) => CodeType::Scalar(ScalarCodeType::new(name.clone())),
            Type::Enum(id) => CodeType::Enum(EnumCodeType::new(id.clone())),
            Type::CallbackInterface(id) => CodeType::CallbackInterface(
                CallbackInterfaceCodeType::new(id.clone()),
            ),
            Type::Timestamp => CodeType::Timestamp(TimestampCodeType),
            Type::Duration => CodeType::Duration(DurationCodeType),
            Type::Optional(inner) => CodeType::Optional(OptionalCodeType::new((**inner).clone())),
            Type::Sequence(inner) => CodeType::Sequence(SequenceCodeType::new((**inner).clone())),
            Type::Mapping(key, value) => CodeType::Mapping(
                MapCodeType::new((**key).clone(), (**value).clone()),
            ),
        }
    }

    /// The C# name of a class, enum or interface declared as `nm`.
    pub fn class_name(&self, nm: &str) -> (name: String)
        ensures
            name@ == class_name_of(nm@),
    {
        to_upper_camel_case(nm)
    }

    /// The C# name of the enumerator declared as `nm`.
    pub fn enum_variant_name(&self, nm: &str) -> (name: String)
        ensures
            name@ == enum_variant_name_of(nm@),
    {
        to_upper_camel_case(nm)
    }
}

} // verus!
