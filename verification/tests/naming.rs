use uniffi_bindgen_cs::oracle::CsCodeOracle;

#[test]
fn class_name_is_upper_camel_case() {
    let oracle = CsCodeOracle;
    assert_eq!(oracle.class_name("Color"), "Color");
    assert_eq!(oracle.class_name("my_enum"), "MyEnum");
    assert_eq!(oracle.class_name("http_client"), "HttpClient");
    assert_eq!(oracle.class_name("XMLHttpRequest"), "XmlHttpRequest");
    assert_eq!(oracle.class_name("SHOUTY_SNAKE_CASE"), "ShoutySnakeCase");
}

#[test]
fn class_name_of_nothing_is_nothing() {
    assert_eq!(CsCodeOracle.class_name(""), "");
}

#[test]
fn enum_variant_name_is_upper_camel_case() {
    let oracle = CsCodeOracle;
    assert_eq!(oracle.enum_variant_name("Red"), "Red");
    assert_eq!(oracle.enum_variant_name("red"), "Red");
    assert_eq!(oracle.enum_variant_name("dark_red"), "DarkRed");
    assert_eq!(oracle.enum_variant_name("DARK_RED"), "DarkRed");
}

#[test]
fn naming_is_the_same_on_every_call() {
    let oracle = CsCodeOracle;
    assert_eq!(oracle.class_name("traffic_light"), oracle.class_name("traffic_light"));
    assert_eq!(
        oracle.enum_variant_name("traffic_light"),
        CsCodeOracle.enum_variant_name("traffic_light")
    );
}
