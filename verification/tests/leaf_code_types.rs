use uniffi_bindgen_cs::callback_interface::CallbackInterfaceCodeType;
use uniffi_bindgen_cs::descriptor::{Literal, Type};
use uniffi_bindgen_cs::enum_::{enumerator_literal, EnumCodeType};
use uniffi_bindgen_cs::executor::ForeignExecutorCodeType;
use uniffi_bindgen_cs::miscellany::{DurationCodeType, TimestampCodeType};
use uniffi_bindgen_cs::oracle::{CodeType, CsCodeOracle};
use uniffi_bindgen_cs::scalar::ScalarCodeType;

fn color() -> Type {
    Type::Enum("Color".to_string())
}

fn red() -> Literal {
    Literal::Enum("Red".to_string(), color())
}

#[test]
fn enum_type_label_is_the_class_name() {
    assert_eq!(EnumCodeType::new("Color".to_string()).type_label(), "Color");
    assert_eq!(EnumCodeType::new("traffic_light".to_string()).type_label(), "TrafficLight");
}

#[test]
fn enum_canonical_name_keeps_the_identifier() {
    assert_eq!(EnumCodeType::new("Color".to_string()).canonical_name(), "TypeColor");
    assert_eq!(
        EnumCodeType::new("traffic_light".to_string()).canonical_name(),
        "Typetraffic_light"
    );
    assert_eq!(EnumCodeType::new(String::new()).canonical_name(), "Type");
}

#[test]
fn enum_literal_selects_an_enumerator() {
    let code_type = EnumCodeType::new("Color".to_string());
    assert_eq!(code_type.literal(&red()), "Color.Red");
}

#[test]
fn enumerator_literal_puts_a_dot_between_the_names() {
    assert_eq!(enumerator_literal("Color", "Red"), "Color.Red");
    assert_eq!(enumerator_literal("", ""), ".");
    assert_eq!(enumerator_literal("A.B", "c"), "A.B.c");
}

#[test]
fn enum_literal_cases_both_names() {
    let code_type = EnumCodeType::new("traffic_light".to_string());
    let literal = Literal::Enum("dark_red".to_string(), Type::Enum("traffic_light".to_string()));
    assert_eq!(code_type.literal(&literal), "TrafficLight.DarkRed");
}

#[test]
fn enum_has_no_initialization_fn() {
    assert_eq!(EnumCodeType::new("Color".to_string()).initialization_fn(), None);
}

#[test]
fn callback_interface_names() {
    let code_type = CallbackInterfaceCodeType::new("event_listener".to_string());
    assert_eq!(code_type.type_label(), "EventListener");
    assert_eq!(code_type.canonical_name(), "Typeevent_listener");
    assert_eq!(code_type.ffi_converter_name(), "FfiConverterTypeevent_listener");
}

#[test]
fn callback_interface_registers_its_converter() {
    let code_type = CallbackInterfaceCodeType::new("Listener".to_string());
    assert_eq!(
        code_type.initialization_fn(),
        Some("FfiConverterTypeListener.INSTANCE.Register".to_string())
    );
}

#[test]
fn timestamp_names() {
    assert_eq!(TimestampCodeType.type_label(), "DateTime");
    assert_eq!(TimestampCodeType.canonical_name(), "Timestamp");
    assert_eq!(TimestampCodeType.initialization_fn(), None);
}

#[test]
fn duration_names() {
    assert_eq!(DurationCodeType.type_label(), "TimeSpan");
    assert_eq!(DurationCodeType.canonical_name(), "Duration");
    assert_eq!(DurationCodeType.initialization_fn(), None);
}

#[test]
fn scalar_goes_by_its_name() {
    let code_type = ScalarCodeType::new("String".to_string());
    assert_eq!(code_type.type_label(), "String");
    assert_eq!(code_type.canonical_name(), "String");
    assert_eq!(code_type.initialization_fn(), None);
}

#[test]
fn distinct_identifiers_give_distinct_canonical_names() {
    let ids = ["Color", "color", "Colour", "Shape", "shape_kind", "", "Type"];
    let mut names: Vec<String> = Vec::new();
    for id in ids {
        names.push(CsCodeOracle.find(&Type::Enum(id.to_string())).canonical_name());
    }
    for i in 0..names.len() {
        for j in 0..names.len() {
            if i != j {
                assert_ne!(names[i], names[j]);
            }
        }
    }
    let listener = CsCodeOracle.find(&Type::CallbackInterface("Listener".to_string()));
    for name in &names {
        assert_ne!(*name, listener.canonical_name());
    }
}

#[test]
fn canonical_name_is_the_same_on_every_call() {
    let code_type = CsCodeOracle.find(&color());
    let first = code_type.canonical_name();
    assert_eq!(code_type.canonical_name(), first);
    assert_eq!(CsCodeOracle.find(&color()).canonical_name(), first);
    assert_eq!(code_type.clone().canonical_name(), first);
}

#[test]
fn find_resolves_every_leaf_kind() {
    assert!(matches!(CsCodeOracle.find(&Type::Scalar("Int".to_string())), CodeType::Scalar(_)));
    assert!(matches!(CsCodeOracle.find(&color()), CodeType::Enum(_)));
    assert!(matches!(
        CsCodeOracle.find(&Type::CallbackInterface("Listener".to_string())),
        CodeType::CallbackInterface(_)
    ));
    assert!(matches!(CsCodeOracle.find(&Type::Timestamp), CodeType::Timestamp(_)));
    assert!(matches!(CsCodeOracle.find(&Type::Duration), CodeType::Duration(_)));
}

#[test]
fn found_leaf_code_types_name_their_descriptor() {
    assert_eq!(CsCodeOracle.find(&Type::Timestamp).type_label(), "DateTime");
    assert_eq!(CsCodeOracle.find(&Type::Duration).canonical_name(), "Duration");
    assert_eq!(CsCodeOracle.find(&Type::Scalar("Int".to_string())).type_label(), "Int");
    assert_eq!(
        CsCodeOracle.find(&Type::CallbackInterface("Listener".to_string())).type_label(),
        "Listener"
    );
    assert_eq!(CsCodeOracle.find(&color()).literal(&red()), "Color.Red");
}

#[test]
fn only_a_callback_interface_has_an_initialization_fn() {
    assert_eq!(
        CsCodeOracle.find(&Type::CallbackInterface("Listener".to_string())).initialization_fn(),
        Some("FfiConverterTypeListener.INSTANCE.Register".to_string())
    );
    assert_eq!(CsCodeOracle.find(&color()).initialization_fn(), None);
    assert_eq!(CsCodeOracle.find(&Type::Timestamp).initialization_fn(), None);
    assert_eq!(CsCodeOracle.find(&Type::Duration).initialization_fn(), None);
    assert_eq!(CsCodeOracle.find(&Type::Scalar("Int".to_string())).initialization_fn(), None);
}

#[test]
fn callback_interface_and_built_ins_have_no_literal() {
    let literals = [
        Literal::Null,
        Literal::EmptySequence,
        Literal::EmptyMap,
        red(),
        Literal::Scalar("1".to_string()),
    ];
    let types = [
        Type::CallbackInterface("Listener".to_string()),
        Type::Timestamp,
        Type::Duration,
        Type::Scalar("Int".to_string()),
    ];
    for type_ in &types {
        for literal in &literals {
            assert!(!CsCodeOracle.find(type_).supports_literal(literal));
        }
    }
}

#[test]
fn enum_supports_only_the_selection_of_an_enumerator() {
    let code_type = CsCodeOracle.find(&color());
    assert!(code_type.supports_literal(&red()));
    assert!(!code_type.supports_literal(&Literal::Null));
    assert!(!code_type.supports_literal(&Literal::EmptySequence));
    assert!(!code_type.supports_literal(&Literal::EmptyMap));
    assert!(!code_type.supports_literal(&Literal::Scalar("Red".to_string())));
}

#[test]
fn foreign_executor_code_type_is_a_plain_marker() {
    assert_eq!(format!("{:?}", ForeignExecutorCodeType), "ForeignExecutorCodeType");
}
