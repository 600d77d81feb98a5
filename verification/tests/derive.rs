use iced_form::de_enum::{
    derive_for_enum, generate_form_enum, generate_form_message, generate_form_wrapper,
    generate_variant_builder, generate_variant_kinds, handle_named_variant, handle_unnamed_variant,
};
use iced_form::de_struct::{derive_for_struct, gen_fields};
use iced_form::de_unit_enum::{derive_for_unit_enum, gen_variants};
use iced_form::plan::{
    Artifact, Carried, DeriveError, FieldPlan, FormVariant, MessageCase, UnitPlan, ValueKind,
};
use iced_form::registry::Registry;
use iced_form::scalar::{FloatKind, IntKind, ScalarKind};
use iced_form::schema::{Data, DataEnum, DataStruct, DeriveInput, Field, Fields, TypePath, Variant};

fn path(segments: &[&str]) -> TypePath {
    let (ident, leading) = segments.split_last().unwrap();
    TypePath { leading: leading.iter().map(|s| s.to_string()).collect(), ident: ident.to_string() }
}

fn field(name: &str, ty: &[&str]) -> Field {
    Field { ident: name.to_string(), ty: path(ty) }
}

fn record(name: &str, fields: Vec<Field>) -> DeriveInput {
    DeriveInput { ident: name.to_string(), data: Data::Struct(DataStruct { fields }) }
}

fn union(name: &str, variants: Vec<Variant>) -> DeriveInput {
    DeriveInput { ident: name.to_string(), data: Data::Enum(DataEnum { variants }) }
}

fn unit(name: &str) -> Variant {
    Variant { ident: name.to_string(), fields: Fields::Unit }
}

fn named(name: &str, fields: Vec<Field>) -> Variant {
    Variant { ident: name.to_string(), fields: Fields::Named(fields) }
}

fn unnamed(name: &str, types: Vec<TypePath>) -> Variant {
    Variant { ident: name.to_string(), fields: Fields::Unnamed(types) }
}

fn body(input: &DeriveInput) -> &DataStruct {
    match &input.data {
        Data::Struct(data) => data,
        Data::Enum(_) => panic!("a record was expected"),
    }
}

fn variants(input: &DeriveInput) -> &DataEnum {
    match &input.data {
        Data::Enum(data) => data,
        Data::Struct(_) => panic!("a union was expected"),
    }
}

fn scalar_plan(name: &str, case: &str, label: &str, kind: ScalarKind) -> FieldPlan {
    FieldPlan {
        ident: name.to_string(),
        case: case.to_string(),
        label: label.to_string(),
        kind: ValueKind::Scalar(kind),
        form: None,
        message: None,
    }
}

fn price() -> DeriveInput {
    record("Price", vec![field("cost", &["f32"]), field("tax", &["f32"])])
}

fn status() -> DeriveInput {
    union(
        "Status",
        vec![
            unnamed("Sale", vec![path(&["Price"])]),
            named("Rent", vec![field("price", &["Price"]), field("min_days", &["usize"])]),
            unit("NotForSale"),
        ],
    )
}

fn registry_with_price() -> Registry {
    let mut registry = Registry::new();
    assert_eq!(registry.register(path(&["Price"]), &price()), Ok(0));
    registry
}

#[test]
fn record_of_scalars() {
    let registry = Registry::new();
    let input =
        record("Config", vec![field("name", &["String"]), field("seed", &["usize"]), field("num", &["f32"])]);
    let plan = derive_for_struct(&registry, &input, body(&input)).unwrap();
    assert_eq!(plan.ident, "Config");
    assert_eq!(plan.form, "ConfigForm");
    assert_eq!(plan.message, "ConfigFormMessage");
    assert_eq!(plan.builder, "ConfigBuilder");
    assert_eq!(
        plan.fields,
        vec![
            scalar_plan("name", "Name", "Name", ScalarKind::Text),
            scalar_plan("seed", "Seed", "Seed", ScalarKind::Integer(IntKind::Usize)),
            scalar_plan("num", "Num", "Num", ScalarKind::Float(FloatKind::Single)),
        ]
    );
}

#[test]
fn field_names_change_case() {
    let registry = Registry::new();
    let fields = vec![field("min_days", &["usize"]), field("used", &["bool"]), field("vehicle_config_2", &["u8"])];
    let plans = gen_fields(&registry, &fields).unwrap();
    assert_eq!(plans.len(), 3);
    assert_eq!(plans[0].ident, "min_days");
    assert_eq!(plans[0].case, "MinDays");
    assert_eq!(plans[0].label, "Min Days");
    assert_ne!(plans[0].case, plans[0].ident);
    assert_ne!(plans[0].label, plans[0].ident);
    assert_eq!(plans[1].case, "Used");
    assert_eq!(plans[1].label, "Used");
    assert_eq!(plans[1].kind, ValueKind::Boolean);
    assert_eq!(plans[1].form, None);
    assert_eq!(plans[1].message, None);
    assert_eq!(plans[2].case, "VehicleConfig2");
    assert_eq!(plans[2].label, "Vehicle Config 2");
}

#[test]
fn record_without_fields() {
    let registry = Registry::new();
    let input = record("Empty", Vec::new());
    let plan = derive_for_struct(&registry, &input, body(&input)).unwrap();
    assert_eq!(plan.form, "EmptyForm");
    assert!(plan.fields.is_empty());
}

#[test]
fn unresolved_type_fails_with_the_first_such_field() {
    let registry = Registry::new();
    let input = record(
        "Config",
        vec![field("name", &["String"]), field("price", &["shop", "Price"]), field("other", &["Other"])],
    );
    assert_eq!(
        derive_for_struct(&registry, &input, body(&input)),
        Err(DeriveError::Unresolved(path(&["shop", "Price"])))
    );
    assert_eq!(gen_fields(&registry, &body(&input).fields), Err(DeriveError::Unresolved(path(&["shop", "Price"]))));
    assert_eq!(iced_form::dispatch::derive(&registry, &input), Err(DeriveError::Unresolved(path(&["shop", "Price"]))));
}

#[test]
fn failed_registration_leaves_the_registry() {
    let mut registry = registry_with_price();
    let input = record("Config", vec![field("price", &["Price"]), field("other", &["Other"])]);
    assert_eq!(registry.register(path(&["Config"]), &input), Err(DeriveError::Unresolved(path(&["Other"]))));
    assert_eq!(registry.len(), 1);
    assert_eq!(registry.lookup(&path(&["Config"])), None);
    assert_eq!(registry.lookup(&path(&["Price"])), Some(0));
}

#[test]
fn nested_record_refers_to_the_registered_plan() {
    let mut registry = registry_with_price();
    let input = record("Offer", vec![field("price", &["Price"]), field("used", &["bool"])]);
    assert_eq!(registry.register(path(&["Offer"]), &input), Ok(1));
    let plan = match registry.get(1) {
        Some(Artifact::Record(plan)) => plan,
        other => panic!("a record plan was expected, not {:?}", other),
    };
    assert_eq!(plan.fields[0].kind, ValueKind::NestedRecord(0));
    assert_eq!(plan.fields[0].case, "Price");
    assert_eq!(plan.fields[0].form, Some(path(&["PriceForm"])));
    assert_eq!(plan.fields[0].message, Some(path(&["PriceFormMessage"])));
    assert_eq!(plan.fields[1].kind, ValueKind::Boolean);
    assert!(registry.get(2).is_none());
}

#[test]
fn nested_names_stand_where_the_type_stands() {
    let mut registry = Registry::new();
    let fuel = union("Fuel", vec![unit("Petrol"), unit("Diesel")]);
    assert_eq!(registry.register(path(&["vehicle", "Fuel"]), &fuel), Ok(0));
    let fields = vec![field("fuel", &["vehicle", "Fuel"])];
    let plans = gen_fields(&registry, &fields).unwrap();
    assert_eq!(plans[0].kind, ValueKind::UnitUnion(0));
    assert_eq!(plans[0].form, Some(path(&["vehicle", "FuelForm"])));
    assert_eq!(plans[0].message, Some(path(&["vehicle", "FuelFormMessage"])));
    assert_eq!(
        gen_fields(&registry, &vec![field("fuel", &["Fuel"])]),
        Err(DeriveError::Unresolved(path(&["Fuel"])))
    );
}

#[test]
fn classification_is_by_name() {
    let mut registry = registry_with_price();
    assert_eq!(registry.register(path(&["Status"]), &status()), Ok(1));
    let fuel = union("Fuel", vec![unit("Petrol"), unit("Diesel")]);
    assert_eq!(registry.register(path(&["Fuel"]), &fuel), Ok(2));
    assert_eq!(registry.classify(&path(&["bool"])), Ok(ValueKind::Boolean));
    assert_eq!(registry.classify(&path(&["x", "bool"])), Ok(ValueKind::Boolean));
    assert_eq!(registry.classify(&path(&["i64"])), Ok(ValueKind::Scalar(ScalarKind::Integer(IntKind::I64))));
    assert_eq!(registry.classify(&path(&["Price"])), Ok(ValueKind::NestedRecord(0)));
    assert_eq!(registry.classify(&path(&["Status"])), Ok(ValueKind::NestedUnion(1)));
    assert_eq!(registry.classify(&path(&["Fuel"])), Ok(ValueKind::UnitUnion(2)));
    assert_eq!(registry.classify(&path(&["shop", "Price"])), Err(DeriveError::Unresolved(path(&["shop", "Price"]))));
}

#[test]
fn a_later_plan_shadows_an_earlier_one() {
    let mut registry = registry_with_price();
    let fuel = union("Price", vec![unit("Low"), unit("High")]);
    assert_eq!(registry.register(path(&["Price"]), &fuel), Ok(1));
    assert_eq!(registry.lookup(&path(&["Price"])), Some(1));
    assert_eq!(registry.classify(&path(&["Price"])), Ok(ValueKind::UnitUnion(1)));
}

#[test]
fn scalars_are_never_looked_up() {
    let mut registry = Registry::new();
    let odd = record("String", Vec::new());
    assert_eq!(registry.register(path(&["String"]), &odd), Ok(0));
    assert_eq!(registry.classify(&path(&["String"])), Ok(ValueKind::Scalar(ScalarKind::Text)));
}

#[test]
fn unit_union() {
    let input = union("UnitEnum", vec![unit("TypeOne"), unit("TypeTwo")]);
    let plan = derive_for_unit_enum(&input, variants(&input));
    assert_eq!(
        plan,
        UnitPlan {
            ident: "UnitEnum".to_string(),
            form: "UnitEnumForm".to_string(),
            message: "UnitEnumFormMessage".to_string(),
            label: "Unit Enum".to_string(),
            variants: vec!["TypeOne".to_string(), "TypeTwo".to_string()],
            labels: vec!["Type One".to_string(), "Type Two".to_string()],
        }
    );
    let (count, names, labels) = gen_variants(variants(&input));
    assert_eq!(count, 2);
    assert_eq!(names, plan.variants);
    assert_eq!(labels, plan.labels);
}

#[test]
fn union_without_variants_is_a_choice_among_none() {
    let registry = Registry::new();
    let input = union("Never", Vec::new());
    match iced_form::dispatch::derive(&registry, &input) {
        Ok(Artifact::Unit(plan)) => {
            assert_eq!(plan.form, "NeverForm");
            assert!(plan.variants.is_empty());
            assert!(plan.labels.is_empty());
        },
        other => panic!("a plan of a single choice was expected, not {:?}", other),
    }
}

#[test]
fn dispatch_goes_by_the_shape() {
    let registry = registry_with_price();
    assert!(matches!(iced_form::dispatch::derive(&registry, &price()), Ok(Artifact::Record(_))));
    assert!(matches!(iced_form::dispatch::derive(&registry, &status()), Ok(Artifact::Union(_))));
    let fuel = union("Fuel", vec![unit("Petrol"), unit("Diesel")]);
    assert!(matches!(iced_form::dispatch::derive(&registry, &fuel), Ok(Artifact::Unit(_))));
    let mixed = union("Mixed", vec![unit("A"), named("B", Vec::new())]);
    assert!(matches!(iced_form::dispatch::derive(&registry, &mixed), Ok(Artifact::Union(_))));
}

#[test]
fn payload_records() {
    let input = status();
    let data = variants(&input);
    let records = generate_variant_builder(data);
    assert_eq!(records.len(), 3);
    assert_eq!(records[0], Some(record("SaleVar", vec![field("field_0", &["Price"])])));
    assert_eq!(
        records[1],
        Some(record("RentVar", vec![field("price", &["Price"]), field("min_days", &["usize"])]))
    );
    assert_eq!(records[2], None);
}

#[test]
fn named_and_unnamed_payloads() {
    let rent = named("Rent", vec![field("price", &["shop", "Price"])]);
    let fields = vec![field("price", &["shop", "Price"])];
    assert_eq!(handle_named_variant(&rent, &fields), record("RentVar", vec![field("price", &["shop", "Price"])]));
    let pair = unnamed("Pair", vec![path(&["u8"]), path(&["shop", "Price"])]);
    let types = vec![path(&["u8"]), path(&["shop", "Price"])];
    assert_eq!(
        handle_unnamed_variant(&pair, &types),
        record("PairVar", vec![field("field_0", &["u8"]), field("field_1", &["shop", "Price"])])
    );
    assert_eq!(handle_unnamed_variant(&pair, &Vec::new()), record("PairVar", Vec::new()));
}

#[test]
fn selector_of_a_union() {
    let input = status();
    let selector = generate_variant_kinds(&input, variants(&input));
    assert_eq!(selector, union("StatusKind", vec![unit("Sale"), unit("Rent"), unit("NotForSale")]));
}

#[test]
fn message_protocol_of_a_union() {
    let input = status();
    let messages = generate_form_message(&input, variants(&input));
    assert_eq!(messages.ident, "StatusEnumFormMessage");
    assert_eq!(
        messages.cases,
        vec![
            MessageCase { ident: "Sale".to_string(), carries: Carried::Message("SaleVarFormMessage".to_string()) },
            MessageCase { ident: "Rent".to_string(), carries: Carried::Message("RentVarFormMessage".to_string()) },
            MessageCase { ident: "Status".to_string(), carries: Carried::Complete },
        ]
    );
}

#[test]
fn form_enum_and_wrapper_of_a_union() {
    let input = status();
    let listed = vec![
        FormVariant { ident: "Sale".to_string(), form: Some("SaleVarForm".to_string()) },
        FormVariant { ident: "Rent".to_string(), form: Some("RentVarForm".to_string()) },
        FormVariant { ident: "NotForSale".to_string(), form: None },
    ];
    let form = generate_form_enum(&input, variants(&input));
    assert_eq!(form.ident, "StatusEnumForm");
    assert_eq!(form.message, "StatusEnumFormMessage");
    assert_eq!(form.variants, listed);
    let wrapper = generate_form_wrapper(&input, variants(&input));
    assert_eq!(wrapper.ident, "StatusForm");
    assert_eq!(wrapper.message, "StatusFormMessage");
    assert_eq!(wrapper.kind, "StatusKind");
    assert_eq!(wrapper.kind_form, "StatusKindForm");
    assert_eq!(wrapper.kind_message, "StatusKindFormMessage");
    assert_eq!(wrapper.enum_form, "StatusEnumForm");
    assert_eq!(wrapper.enum_message, "StatusEnumFormMessage");
    assert_eq!(wrapper.starts, listed);
}

#[test]
fn union_with_payloads() {
    let registry = registry_with_price();
    let input = status();
    let plan = derive_for_enum(&registry, &input, variants(&input)).unwrap();
    assert_eq!(plan.ident, "Status");
    assert_eq!(plan.builders.len(), 3);
    let sale = plan.builders[0].as_ref().unwrap();
    assert_eq!(sale.ident, "SaleVar");
    assert_eq!(sale.form, "SaleVarForm");
    assert_eq!(sale.message, "SaleVarFormMessage");
    assert_eq!(sale.builder, "SaleVarBuilder");
    assert_eq!(sale.fields.len(), 1);
    assert_eq!(sale.fields[0].ident, "field_0");
    assert_eq!(sale.fields[0].case, "Field0");
    assert_eq!(sale.fields[0].label, "Field 0");
    assert_eq!(sale.fields[0].kind, ValueKind::NestedRecord(0));
    let rent = plan.builders[1].as_ref().unwrap();
    assert_eq!(rent.ident, "RentVar");
    assert_eq!(rent.fields[0].kind, ValueKind::NestedRecord(0));
    assert_eq!(rent.fields[1], scalar_plan("min_days", "MinDays", "Min Days", ScalarKind::Integer(IntKind::Usize)));
    assert_eq!(plan.builders[2], None);
    assert_eq!(plan.kinds.ident, "StatusKind");
    assert_eq!(plan.kinds.form, "StatusKindForm");
    assert_eq!(plan.kinds.message, "StatusKindFormMessage");
    assert_eq!(plan.kinds.label, "Status Kind");
    assert_eq!(plan.kinds.variants, vec!["Sale".to_string(), "Rent".to_string(), "NotForSale".to_string()]);
    assert_eq!(plan.kinds.labels, vec!["Sale".to_string(), "Rent".to_string(), "Not For Sale".to_string()]);
    assert_eq!(plan.messages, generate_form_message(&input, variants(&input)));
    assert_eq!(plan.form_enum, generate_form_enum(&input, variants(&input)));
    assert_eq!(plan.wrapper, generate_form_wrapper(&input, variants(&input)));
}

#[test]
fn union_with_an_unresolved_payload_fails() {
    let registry = Registry::new();
    let input = status();
    assert_eq!(
        derive_for_enum(&registry, &input, variants(&input)),
        Err(DeriveError::Unresolved(path(&["Price"])))
    );
    let later = union(
        "Later",
        vec![unit("A"), unnamed("B", vec![path(&["u8"]), path(&["Second"])]), unnamed("C", vec![path(&["First"])])],
    );
    assert_eq!(
        iced_form::dispatch::derive(&registry, &later),
        Err(DeriveError::Unresolved(path(&["Second"])))
    );
}
