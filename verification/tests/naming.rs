use iced_form::naming::{
    builder_name, decimal_text, form_enum_message, form_enum_name, form_message_name, form_name,
    form_wrapper_message, form_wrapper_name, kind_name, positional_name, suffixed, variant_builder_name,
};

#[test]
fn artifact_names() {
    assert_eq!(form_message_name("Config"), "ConfigFormMessage");
    assert_eq!(form_name("Config"), "ConfigForm");
    assert_eq!(builder_name("Config"), "ConfigBuilder");
    assert_eq!(kind_name("Status"), "StatusKind");
    assert_eq!(variant_builder_name("Rent"), "RentVar");
    assert_eq!(form_wrapper_name("Status"), "StatusForm");
    assert_eq!(form_wrapper_message("Status"), "StatusFormMessage");
    assert_eq!(form_enum_name("Status"), "StatusEnumForm");
    assert_eq!(form_enum_message("Status"), "StatusEnumFormMessage");
}

#[test]
fn names_of_the_empty_identifier() {
    assert_eq!(form_name(""), "Form");
    assert_eq!(form_enum_message(""), "EnumFormMessage");
    assert_eq!(suffixed("", ""), "");
}

#[test]
fn decimal_text_has_no_leading_zeros() {
    assert_eq!(decimal_text(0), "0");
    assert_eq!(decimal_text(7), "7");
    assert_eq!(decimal_text(10), "10");
    assert_eq!(decimal_text(109), "109");
    assert_eq!(decimal_text(1234567890), "1234567890");
    assert_eq!(decimal_text(usize::MAX), usize::MAX.to_string());
    for n in 0..1200usize {
        assert_eq!(decimal_text(n), n.to_string());
    }
}

#[test]
fn positional_names() {
    assert_eq!(positional_name(0), "field_0");
    assert_eq!(positional_name(1), "field_1");
    assert_eq!(positional_name(12), "field_12");
}
