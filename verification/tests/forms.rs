use iced_form::buffer::{Buffer, IncompleteError};
use iced_form::form::Form;
use iced_form::form_field::Message;
use iced_form::fragment::{submit, Fragment, Route};
use iced_form::message::FormMessage;
use iced_form::registry::Registry;
use iced_form::scalar::{FloatKind, IntKind, ScalarKind, ScalarValue};
use iced_form::schema::{Data, DataEnum, DataStruct, DeriveInput, Field, Fields, TypePath, Variant};
use iced_form::value::Value;

fn field(name: &str, ty: &str) -> Field {
    Field { ident: name.to_string(), ty: TypePath::plain(ty) }
}

fn record(name: &str, fields: Vec<Field>) -> DeriveInput {
    DeriveInput { ident: name.to_string(), data: Data::Struct(DataStruct { fields }) }
}

fn union(name: &str, variants: Vec<Variant>) -> DeriveInput {
    DeriveInput { ident: name.to_string(), data: Data::Enum(DataEnum { variants }) }
}

fn unit(name: &str) -> Variant {
    Variant { ident: name.to_string(), fields: Fields::Unit }
}

fn register(registry: &mut Registry, input: &DeriveInput) -> usize {
    registry.register(TypePath::plain(&input.ident), input).unwrap()
}

fn text(value: &str) -> Value {
    Value::Scalar(ScalarValue::Text(value.to_string()))
}

fn unsigned(value: u128) -> Value {
    Value::Scalar(ScalarValue::Unsigned(value))
}

fn float(value: f32) -> Value {
    Value::Scalar(ScalarValue::Float(value.to_bits() as u64))
}

fn typed(kind: ScalarKind, field: usize, input: &str) -> FormMessage {
    let bits = input.parse::<f32>().ok().map(|v| v.to_bits() as u64);
    FormMessage::Field(field, kind.on_input(input.to_string(), bits))
}

fn nested(field: usize, message: FormMessage) -> FormMessage {
    FormMessage::Nested(field, Box::new(message))
}

fn payload(variant: usize, message: FormMessage) -> FormMessage {
    FormMessage::Form(Box::new(FormMessage::Variant(variant, Box::new(message))))
}

const TEXT: ScalarKind = ScalarKind::Text;
const INTEGER: ScalarKind = ScalarKind::Integer(IntKind::Usize);
const FLOAT: ScalarKind = ScalarKind::Float(FloatKind::Single);

fn name_and_count() -> (Registry, usize) {
    let mut registry = Registry::new();
    let place = register(&mut registry, &record("Entry", vec![field("name", "String"), field("count", "usize")]));
    (registry, place)
}

fn sale_or_rent() -> (Registry, usize) {
    let mut registry = Registry::new();
    let input = union(
        "Offer",
        vec![
            Variant { ident: "Sale".to_string(), fields: Fields::Unnamed(vec![TypePath::plain("f32")]) },
            Variant {
                ident: "Rent".to_string(),
                fields: Fields::Named(vec![field("price", "f32"), field("days", "usize")]),
            },
        ],
    );
    let place = register(&mut registry, &input);
    (registry, place)
}

fn editor_of<'a, 'b>(form: &'b Form<'a>, field: usize) -> &'b iced_form::form_field::FormField<ScalarValue> {
    match form {
        Form::Record(record) => record.editor(field).unwrap(),
        _ => panic!("a record form was expected"),
    }
}

#[test]
fn record_of_name_and_count_builds_once_both_are_typed() {
    let (registry, place) = name_and_count();
    let mut form = Form::new(&registry, place).unwrap();
    assert_eq!(form.build(), None);
    form.update(typed(TEXT, 0, "abc"));
    assert_eq!(form.build(), None);
    form.update(typed(INTEGER, 1, "5"));
    assert_eq!(form.build(), Some(Value::Record(vec![text("abc"), unsigned(5)])));
}

#[test]
fn on_input_goes_by_the_kind_of_the_field() {
    let (registry, place) = name_and_count();
    let mut form = Form::new(&registry, place).unwrap();
    let record = match &mut form {
        Form::Record(record) => record,
        _ => panic!("a record form was expected"),
    };
    assert_eq!(record.on_input(0, "5".to_string(), None), Some(typed(TEXT, 0, "5")));
    assert_eq!(record.on_input(1, "5".to_string(), None), Some(typed(INTEGER, 1, "5")));
    assert_eq!(
        record.on_input(1, "x".to_string(), None),
        Some(FormMessage::Field(
            1,
            Message::Input { input: "x".to_string(), invalid_reason: "expected Integer".to_string() }
        ))
    );
    assert_eq!(record.on_input(2, "5".to_string(), None), None);
    let message = record.on_input(1, "17".to_string(), None).unwrap();
    record.update(message);
    assert_eq!(record.builder().slots, vec![None, Some(unsigned(17))]);
}

#[test]
fn record_with_unparseable_count_does_not_build() {
    let (registry, place) = name_and_count();
    let mut form = Form::new(&registry, place).unwrap();
    form.update(typed(INTEGER, 1, "x"));
    assert_eq!(form.build(), None);
    let editor = editor_of(&form, 1);
    assert_eq!(editor.invalid_reason, Some("expected Integer".to_string()));
    assert_eq!(editor.value_str, "x");
    assert_eq!(editor.value, None);
    form.update(typed(TEXT, 0, "abc"));
    assert_eq!(form.build(), None);
}

#[test]
fn unparseable_count_retains_the_prior_value() {
    let (registry, place) = name_and_count();
    let mut form = Form::new(&registry, place).unwrap();
    form.update(typed(TEXT, 0, "abc"));
    form.update(typed(INTEGER, 1, "5"));
    form.update(typed(INTEGER, 1, "5x"));
    let editor = editor_of(&form, 1);
    assert_eq!(editor.invalid_reason, Some("expected Integer".to_string()));
    assert_eq!(editor.value_str, "5x");
    assert_eq!(editor.value, Some(ScalarValue::Unsigned(5)));
    assert_eq!(form.build(), Some(Value::Record(vec![text("abc"), unsigned(5)])));
}

#[test]
fn union_of_sale_and_rent() {
    let (registry, place) = sale_or_rent();
    let mut form = Form::new(&registry, place).unwrap();
    assert_eq!(form.build(), None);
    form.update(FormMessage::pick(1));
    assert_eq!(form.build(), None);
    form.update(payload(1, typed(FLOAT, 0, "2.5")));
    assert_eq!(form.build(), None);
    form.update(payload(1, typed(INTEGER, 1, "3")));
    assert_eq!(form.build(), Some(Value::Variant(1, vec![float(2.5), unsigned(3)])));
    form.update(FormMessage::pick(0));
    assert_eq!(form.build(), None);
    form.update(payload(0, typed(FLOAT, 0, "9.75")));
    assert_eq!(form.build(), Some(Value::Variant(0, vec![float(9.75)])));
}

#[test]
fn payload_message_for_another_variant_is_ignored() {
    let (registry, place) = sale_or_rent();
    let mut form = Form::new(&registry, place).unwrap();
    form.update(payload(0, typed(FLOAT, 0, "1.5")));
    assert_eq!(form.build(), None);
    form.update(FormMessage::pick(1));
    form.update(payload(0, typed(FLOAT, 0, "1.5")));
    form.update(payload(1, typed(INTEGER, 1, "3")));
    assert_eq!(form.build(), None);
    form.update(payload(1, typed(FLOAT, 0, "1.5")));
    assert_eq!(form.build(), Some(Value::Variant(1, vec![float(1.5), unsigned(3)])));
}

#[test]
fn switching_variants_resets_the_payload() {
    let (registry, place) = sale_or_rent();
    let mut fresh = Form::new(&registry, place).unwrap();
    fresh.update(FormMessage::pick(1));
    let mut form = Form::new(&registry, place).unwrap();
    form.update(FormMessage::pick(1));
    form.update(payload(1, typed(FLOAT, 0, "2.5")));
    form.update(payload(1, typed(INTEGER, 1, "3x")));
    form.update(FormMessage::pick(0));
    form.update(FormMessage::pick(1));
    assert_eq!(form.view(), fresh.view());
    assert_eq!(form.build(), None);
    let union = match &form {
        Form::Union(union) => union,
        _ => panic!("a union form was expected"),
    };
    assert_eq!(union.pick_list().selected(), Some(1));
    let inner = union.form().unwrap();
    assert_eq!(inner.variant(), 1);
    let rent = inner.payload().unwrap();
    assert_eq!(rent.builder().slots, vec![None, None]);
    for position in 0..2 {
        let editor = rent.editor(position).unwrap();
        assert_eq!(editor.value, None);
        assert_eq!(editor.value_str, "");
        assert_eq!(editor.invalid_reason, None);
    }
    form.update(payload(1, typed(INTEGER, 1, "3")));
    assert_eq!(form.build(), None);
}

#[test]
fn reselecting_the_same_variant_resets_the_payload_too() {
    let (registry, place) = sale_or_rent();
    let mut form = Form::new(&registry, place).unwrap();
    form.update(FormMessage::pick(0));
    form.update(payload(0, typed(FLOAT, 0, "2.5")));
    assert_eq!(form.build(), Some(Value::Variant(0, vec![float(2.5)])));
    form.update(FormMessage::pick(0));
    assert_eq!(form.build(), None);
}

#[test]
fn choosing_a_variant_that_is_not_there_changes_nothing() {
    let (registry, place) = sale_or_rent();
    let mut form = Form::new(&registry, place).unwrap();
    form.update(FormMessage::pick(0));
    form.update(payload(0, typed(FLOAT, 0, "2.5")));
    form.update(FormMessage::pick(2));
    form.update(FormMessage::PickList(Box::new(FormMessage::Complete(Value::Variant(1, vec![unsigned(1)])))));
    form.update(FormMessage::PickList(Box::new(FormMessage::Complete(Value::Record(Vec::new())))));
    form.update(FormMessage::PickList(Box::new(FormMessage::Flag(0, true))));
    form.update(FormMessage::choice(1));
    form.update(FormMessage::Flag(0, true));
    assert_eq!(form.build(), Some(Value::Variant(0, vec![float(2.5)])));
}

#[test]
fn unit_union_of_linux_and_darwin() {
    let mut registry = Registry::new();
    let place = register(&mut registry, &union("Os", vec![unit("Linux"), unit("Darwin")]));
    let mut form = Form::new(&registry, place).unwrap();
    assert_eq!(form.build(), None);
    form.update(FormMessage::choice(1));
    assert_eq!(form.build(), Some(Value::Variant(1, Vec::new())));
    form.update(FormMessage::choice(2));
    assert_eq!(form.build(), Some(Value::Variant(1, Vec::new())));
    form.update(FormMessage::choice(0));
    assert_eq!(form.build(), Some(Value::Variant(0, Vec::new())));
    form.update(typed(TEXT, 0, "x"));
    form.update(FormMessage::pick(1));
    assert_eq!(form.build(), Some(Value::Variant(0, Vec::new())));
}

#[test]
fn union_with_a_unit_variant_builds_on_selection() {
    let mut registry = Registry::new();
    let input = union(
        "Vehicle",
        vec![
            Variant { ident: "Car".to_string(), fields: Fields::Named(vec![field("used", "bool")]) },
            unit("Bus"),
        ],
    );
    let place = register(&mut registry, &input);
    let mut form = Form::new(&registry, place).unwrap();
    form.update(FormMessage::pick(1));
    assert_eq!(form.build(), Some(Value::Variant(1, Vec::new())));
    form.update(payload(1, FormMessage::Flag(0, true)));
    assert_eq!(form.build(), Some(Value::Variant(1, Vec::new())));
    form.update(FormMessage::pick(0));
    assert_eq!(form.build(), None);
    form.update(payload(0, FormMessage::Flag(0, false)));
    assert_eq!(form.build(), Some(Value::Variant(0, vec![Value::Flag(false)])));
}

fn nested_schema() -> (Registry, usize) {
    let mut registry = Registry::new();
    register(&mut registry, &union("Fuel", vec![unit("Petrol"), unit("Diesel")]));
    register(&mut registry, &record("Price", vec![field("cost", "f32"), field("tax", "f32")]));
    let place = register(
        &mut registry,
        &record("Car", vec![field("name", "String"), field("price", "Price"), field("fuel", "Fuel"), field("used", "bool")]),
    );
    (registry, place)
}

#[test]
fn nested_forms_contribute_once_they_are_complete() {
    let (registry, place) = nested_schema();
    let mut form = Form::new(&registry, place).unwrap();
    form.update(typed(TEXT, 0, "Mini"));
    form.update(nested(1, typed(FLOAT, 0, "10")));
    form.update(nested(2, FormMessage::choice(1)));
    form.update(FormMessage::Flag(3, true));
    assert_eq!(form.build(), None);
    form.update(nested(1, typed(FLOAT, 1, "0.5")));
    assert_eq!(
        form.build(),
        Some(Value::Record(vec![
            text("Mini"),
            Value::Record(vec![float(10.0), float(0.5)]),
            Value::Variant(1, Vec::new()),
            Value::Flag(true),
        ]))
    );
}

#[test]
fn forwarding_the_same_nested_value_twice_changes_nothing() {
    let (registry, place) = nested_schema();
    let mut form = Form::new(&registry, place).unwrap();
    form.update(typed(TEXT, 0, "Mini"));
    form.update(nested(2, FormMessage::choice(0)));
    form.update(FormMessage::Flag(3, false));
    form.update(nested(1, typed(FLOAT, 0, "10")));
    form.update(nested(1, typed(FLOAT, 1, "0.5")));
    let once = form.build();
    assert!(once.is_some());
    form.update(nested(1, typed(FLOAT, 1, "0.5")));
    assert_eq!(form.build(), once);
    form.update(nested(2, FormMessage::choice(0)));
    assert_eq!(form.build(), once);
}

#[test]
fn messages_that_name_no_field_of_their_sort_are_ignored() {
    let (registry, place) = nested_schema();
    let mut form = Form::new(&registry, place).unwrap();
    let fresh = Form::new(&registry, place).unwrap().view();
    form.update(FormMessage::Flag(0, true));
    form.update(FormMessage::Flag(4, true));
    form.update(typed(TEXT, 1, "x"));
    form.update(typed(TEXT, 3, "x"));
    form.update(typed(TEXT, 9, "x"));
    form.update(nested(0, FormMessage::choice(0)));
    form.update(nested(3, FormMessage::choice(0)));
    form.update(nested(7, FormMessage::choice(0)));
    form.update(FormMessage::pick(0));
    form.update(FormMessage::choice(0));
    form.update(FormMessage::Complete(Value::Flag(true)));
    form.update(payload(0, FormMessage::Flag(3, true)));
    assert_eq!(form.view(), fresh);
    assert_eq!(form.build(), None);
}

#[test]
fn record_form_shows_its_fields_in_order() {
    let (registry, place) = nested_schema();
    let mut form = Form::new(&registry, place).unwrap();
    form.update(typed(TEXT, 0, "Mini"));
    form.update(nested(1, typed(FLOAT, 1, "x")));
    form.update(nested(2, FormMessage::choice(1)));
    form.update(FormMessage::Flag(3, true));
    let editor = |label: &str, value: &str| {
        Fragment::Row(vec![
            Fragment::Text(label.to_string()),
            Fragment::TextInput { placeholder: value.to_string(), value: value.to_string() },
        ])
    };
    let fields = vec![
        Fragment::Mapped(Route::Field(0, TEXT), Box::new(editor("Name", "Mini"))),
        Fragment::Mapped(
            Route::Nested(1),
            Box::new(Fragment::Column(vec![
                Fragment::Mapped(Route::Field(0, FLOAT), Box::new(editor("Cost", ""))),
                Fragment::Mapped(Route::Field(1, FLOAT), Box::new(editor("Tax", "x"))),
            ])),
        ),
        Fragment::Mapped(
            Route::Nested(2),
            Box::new(Fragment::Row(vec![
                Fragment::Text("Fuel".to_string()),
                Fragment::PickList {
                    options: vec!["Petrol".to_string(), "Diesel".to_string()],
                    selected: Some(1),
                },
            ])),
        ),
        Fragment::Toggler { label: "Used".to_string(), on: true, field: 3 },
    ];
    let mut with_submit = Vec::new();
    for part in &fields {
        with_submit.push(match part {
            Fragment::Mapped(route, inner) => Fragment::Mapped(*route, Box::new(copy(inner))),
            other => copy(other),
        });
    }
    with_submit.push(Fragment::Button { label: "Submit".to_string(), on_press: None });
    assert_eq!(form.view_nested(), Fragment::Column(fields));
    assert_eq!(form.view(), Fragment::Column(with_submit));
}

fn copy(fragment: &Fragment) -> Fragment {
    match fragment {
        Fragment::Text(text) => Fragment::Text(text.clone()),
        Fragment::TextInput { placeholder, value } => {
            Fragment::TextInput { placeholder: placeholder.clone(), value: value.clone() }
        },
        Fragment::Toggler { label, on, field } => Fragment::Toggler { label: label.clone(), on: *on, field: *field },
        Fragment::PickList { options, selected } => {
            Fragment::PickList { options: options.clone(), selected: *selected }
        },
        Fragment::Button { label, on_press } => {
            Fragment::Button { label: label.clone(), on_press: on_press.as_ref().map(Value::duplicate) }
        },
        Fragment::Row(parts) => Fragment::Row(parts.iter().map(copy).collect()),
        Fragment::Column(parts) => Fragment::Column(parts.iter().map(copy).collect()),
        Fragment::Mapped(route, inner) => Fragment::Mapped(*route, Box::new(copy(inner))),
    }
}

#[test]
fn submit_can_be_pressed_once_the_form_is_complete() {
    let (registry, place) = name_and_count();
    let mut form = Form::new(&registry, place).unwrap();
    form.update(typed(TEXT, 0, "abc"));
    let last = |fragment: Fragment| match fragment {
        Fragment::Column(mut parts) => parts.pop().unwrap(),
        other => panic!("a column was expected, not {:?}", other),
    };
    assert_eq!(last(form.view()), Fragment::Button { label: "Submit".to_string(), on_press: None });
    form.update(typed(INTEGER, 1, "5"));
    assert_eq!(
        last(form.view()),
        Fragment::Button {
            label: "Submit".to_string(),
            on_press: Some(Value::Record(vec![text("abc"), unsigned(5)])),
        }
    );
    assert_eq!(submit(None), Fragment::Button { label: "Submit".to_string(), on_press: None });
}

#[test]
fn toggle_is_off_until_it_is_set() {
    let mut registry = Registry::new();
    let place = register(&mut registry, &record("Flags", vec![field("used", "bool")]));
    let mut form = Form::new(&registry, place).unwrap();
    let toggle = |on: bool| Fragment::Column(vec![Fragment::Toggler { label: "Used".to_string(), on, field: 0 }]);
    assert_eq!(form.view_nested(), toggle(false));
    assert_eq!(form.build(), None);
    form.update(FormMessage::Flag(0, false));
    assert_eq!(form.view_nested(), toggle(false));
    assert_eq!(form.build(), Some(Value::Record(vec![Value::Flag(false)])));
    form.update(FormMessage::Flag(0, true));
    assert_eq!(form.view_nested(), toggle(true));
    assert_eq!(form.build(), Some(Value::Record(vec![Value::Flag(true)])));
}

#[test]
fn union_form_shows_selector_and_payload() {
    let (registry, place) = sale_or_rent();
    let mut form = Form::new(&registry, place).unwrap();
    let selector = |selected: Option<usize>| {
        Fragment::Mapped(
            Route::PickList,
            Box::new(Fragment::Row(vec![
                Fragment::Text("Offer Kind".to_string()),
                Fragment::PickList { options: vec!["Sale".to_string(), "Rent".to_string()], selected },
            ])),
        )
    };
    assert_eq!(form.view_nested(), Fragment::Column(vec![selector(None)]));
    form.update(FormMessage::pick(0));
    let sale = Fragment::Mapped(
        Route::Form,
        Box::new(Fragment::Mapped(
            Route::Variant(0),
            Box::new(Fragment::Column(vec![Fragment::Mapped(
                Route::Field(0, FLOAT),
                Box::new(Fragment::Row(vec![
                    Fragment::Text("Field 0".to_string()),
                    Fragment::TextInput { placeholder: String::new(), value: String::new() },
                ])),
            )])),
        )),
    );
    assert_eq!(form.view_nested(), Fragment::Column(vec![selector(Some(0)), sale]));
}

#[test]
fn unit_variant_is_shown_by_its_name() {
    let mut registry = Registry::new();
    let input = union(
        "Status",
        vec![Variant { ident: "Sale".to_string(), fields: Fields::Unnamed(vec![TypePath::plain("u8")]) }, unit("NotForSale")],
    );
    let place = register(&mut registry, &input);
    let mut form = Form::new(&registry, place).unwrap();
    form.update(FormMessage::pick(1));
    match form.view() {
        Fragment::Column(parts) => {
            assert_eq!(parts.len(), 2);
            match &parts[0] {
                Fragment::Column(inner) => {
                    assert_eq!(inner.len(), 2);
                    assert_eq!(
                        inner[1],
                        Fragment::Mapped(Route::Form, Box::new(Fragment::Text("NotForSale".to_string())))
                    );
                },
                other => panic!("a column was expected, not {:?}", other),
            }
            assert_eq!(
                parts[1],
                Fragment::Button { label: "Submit".to_string(), on_press: Some(Value::Variant(1, Vec::new())) }
            );
        },
        other => panic!("a column was expected, not {:?}", other),
    }
}

#[test]
fn there_is_no_form_where_there_is_no_plan() {
    let (registry, place) = name_and_count();
    assert!(Form::new(&registry, place + 1).is_none());
    assert!(Form::new(&Registry::new(), 0).is_none());
}

#[test]
fn buffer_finalizes_once_every_field_is_set() {
    let mut buffer = Buffer::new(3);
    assert_eq!(buffer.len(), 3);
    assert_eq!(buffer.finalize(), Err(IncompleteError { field: 0 }));
    buffer.set_field(0, unsigned(1));
    buffer.set_field(2, Value::Flag(true));
    assert!(buffer.is_set(0));
    assert!(!buffer.is_set(1));
    assert!(!buffer.is_set(3));
    assert!(buffer.flag(2));
    assert!(!buffer.flag(0));
    assert!(!buffer.flag(1));
    assert!(!buffer.flag(3));
    assert_eq!(buffer.finalize(), Err(IncompleteError { field: 1 }));
    buffer.set_field(3, unsigned(9));
    assert_eq!(buffer.len(), 3);
    buffer.set_field(1, text("x"));
    assert_eq!(buffer.finalize(), Ok(Value::Record(vec![unsigned(1), text("x"), Value::Flag(true)])));
    buffer.set_field(1, text("x"));
    assert_eq!(buffer.finalize(), Ok(Value::Record(vec![unsigned(1), text("x"), Value::Flag(true)])));
    buffer.set_field(1, text("y"));
    assert_eq!(buffer.finalize(), Ok(Value::Record(vec![unsigned(1), text("y"), Value::Flag(true)])));
    assert_eq!(Buffer::new(0).finalize(), Ok(Value::Record(Vec::new())));
}

#[test]
fn values_are_copied_in_depth() {
    let value = Value::Record(vec![
        text("a"),
        Value::Variant(2, vec![Value::Flag(true), Value::Record(Vec::new())]),
        unsigned(7),
    ]);
    assert_eq!(value.duplicate(), value);
    let values = vec![Value::Flag(false), text("b")];
    assert_eq!(Value::duplicate_all(&values), values);
}

#[test]
fn a_value_of_another_kind_is_not_taken() {
    let (registry, place) = name_and_count();
    let mut form = Form::new(&registry, place).unwrap();
    let fresh = Form::new(&registry, place).unwrap().view();
    form.update(FormMessage::Field(1, Message::Value((ScalarValue::Text("5".to_string()), "5".to_string()))));
    form.update(FormMessage::Field(1, Message::Value((ScalarValue::Signed(5), "5".to_string()))));
    form.update(FormMessage::Field(0, Message::Value((ScalarValue::Unsigned(5), "5".to_string()))));
    form.update(FormMessage::Field(0, Message::Value((ScalarValue::Float(5), "5".to_string()))));
    assert_eq!(form.view(), fresh);
    assert_eq!(form.build(), None);
    form.update(FormMessage::Field(1, Message::Value((ScalarValue::Unsigned(5), "5".to_string()))));
    form.update(FormMessage::Field(0, Message::Value((ScalarValue::Text("5".to_string()), "five".to_string()))));
    assert_eq!(form.build(), Some(Value::Record(vec![text("5"), unsigned(5)])));
    assert_eq!(editor_of(&form, 0).value_str, "five");
}

#[test]
fn a_value_out_of_range_is_not_taken() {
    let mut registry = Registry::new();
    let place = register(&mut registry, &record("Small", vec![field("low", "u8"), field("signed", "i8")]));
    let mut form = Form::new(&registry, place).unwrap();
    form.update(FormMessage::Field(0, Message::Value((ScalarValue::Unsigned(256), "256".to_string()))));
    form.update(FormMessage::Field(1, Message::Value((ScalarValue::Signed(128), "128".to_string()))));
    form.update(FormMessage::Field(1, Message::Value((ScalarValue::Signed(-129), "-129".to_string()))));
    assert_eq!(editor_of(&form, 0).value, None);
    assert_eq!(editor_of(&form, 0).value_str, "");
    assert_eq!(editor_of(&form, 1).value, None);
    form.update(FormMessage::Field(0, Message::Value((ScalarValue::Unsigned(255), "255".to_string()))));
    form.update(FormMessage::Field(1, Message::Value((ScalarValue::Signed(-128), "-128".to_string()))));
    assert_eq!(
        form.build(),
        Some(Value::Record(vec![unsigned(255), Value::Scalar(ScalarValue::Signed(-128))]))
    );
}

#[test]
fn routes_wrap_messages_in_their_case() {
    assert_eq!(Route::Nested(2).wrap(FormMessage::Flag(0, true)), nested(2, FormMessage::Flag(0, true)));
    assert_eq!(Route::PickList.wrap(FormMessage::choice(1)), FormMessage::pick(1));
    assert_eq!(
        Route::Form.wrap(Route::Variant(3).wrap(FormMessage::Flag(0, true))),
        payload(3, FormMessage::Flag(0, true))
    );
    assert_eq!(Route::Field(1, INTEGER).wrap(typed(INTEGER, 1, "5")), typed(INTEGER, 1, "5"));
}

#[test]
fn messages_are_copied_in_depth() {
    let message = payload(1, nested(0, typed(INTEGER, 2, "5x")));
    assert_eq!(message.duplicate(), message);
    assert_eq!(message.clone(), message);
    assert_eq!(FormMessage::pick(3).clone(), FormMessage::pick(3));
    assert_eq!(FormMessage::choice(3), FormMessage::Complete(Value::Variant(3, Vec::new())));
}
