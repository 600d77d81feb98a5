//! The derivation for a union of which some variant carries a payload: a
//! selector over the variants, and for each variant with a payload a record
//! that holds it.

use vstd::prelude::*;
use crate::de_struct::{derive_for_struct, fields_resolved, first_unresolved, record_derived};
use crate::de_unit_enum::{derive_for_unit_enum, unit_derived};
use crate::naming::{
    form_enum_message,
    form_enum_name,
    form_message_name,
    form_name,
    form_wrapper_message,
    form_wrapper_name,
    kind_name,
    positional_name,
    spec_form_enum_message,
    spec_form_enum_name,
    spec_form_message_name,
    spec_form_name,
    spec_kind_name,
    spec_positional_name,
    spec_variant_builder_name,
    variant_builder_name,
};
use crate::plan::{
    case_views,
    Carried,
    DeriveError,
    FormEnum,
    FormVariant,
    FormVariantView,
    MessageCase,
    MessageCaseView,
    MessageEnum,
    RecordPlan,
    UnionPlan,
    Wrapper,
};
use crate::registry::Registry;
use crate::schema::{field_views, Data, DataEnum, DataStruct, DeriveInput, Field, FieldView, Fields, TypePath, Variant};

verus! {

/// The fields of the record that holds the payload of a variant. Fields
/// with names keep them; fields without are named after their position.
pub open spec fn payload_fields(fields: Fields) -> Seq<FieldView> {
    match fields {
        Fields::Named(named) => field_views(named@),
        Fields::Unnamed(types) => positional_fields(types@),
        Fields::Unit => Seq::empty(),
    }
}

/// The given types as fields named after their position.
pub open spec fn positional_fields(types: Seq<TypePath>) -> Seq<FieldView> {
    Seq::new(types.len(), |i: int| FieldView { ident: spec_positional_name(i as nat), ty: types[i]@ })
}

/// Whether `record` declares the record that holds a payload of the given
/// fields for the variant `ident`.
pub open spec fn builder_declared(ident: Seq<char>, fields: Seq<FieldView>, record: DeriveInput) -> bool {
    &&& record.ident@ == spec_variant_builder_name(ident)
    &&& record.data is Struct
    &&& field_views(record.data->Struct_0.fields@) == fields
}

/// Whether `records` declare the payload records of `variants`, one for one:
/// none for a variant without payload.
pub open spec fn builders_declared(variants: Seq<Variant>, records: Seq<Option<DeriveInput>>) -> bool {
    &&& records.len() == variants.len()
    &&& forall|k: int|
        0 <= k < variants.len() ==> match #[trigger] records[k] {
            Some(record) => !variants[k].fields.is_unit() && builder_declared(
                variants[k].ident@,
                payload_fields(variants[k].fields),
                record,
            ),
            None => variants[k].fields.is_unit(),
        }
}

/// Whether `selector` declares the selector of the union `ident`: a union
/// with the same variants, none of which carries a payload.
pub open spec fn kinds_declared(ident: Seq<char>, variants: Seq<Variant>, selector: DeriveInput) -> bool {
    &&& selector.ident@ == spec_kind_name(ident)
    &&& selector.data is Enum
    &&& selector.data->Enum_0.variants@.len() == variants.len()
    &&& forall|k: int|
        0 <= k < variants.len() ==> {
            &&& (#[trigger] selector.data->Enum_0.variants@[k]).ident@ == variants[k].ident@
            &&& selector.data->Enum_0.variants@[k].fields.is_unit()
        }
}

/// The cases that carry the messages of the payload forms: one for each
/// variant with a payload, in the order of declaration.
pub open spec fn payload_cases(variants: Seq<Variant>) -> Seq<MessageCaseView>
    decreases variants.len(),
{
    if variants.len() == 0 {
        Seq::empty()
    } else if variants.last().fields.is_unit() {
        payload_cases(variants.drop_last())
    } else {
        payload_cases(variants.drop_last()).push(
            MessageCaseView {
                ident: variants.last().ident@,
                carries: Some(spec_form_message_name(spec_variant_builder_name(variants.last().ident@))),
            },
        )
    }
}

/// Whether `messages` is the message protocol of the form that holds the
/// payload form of the union `ident`: the payload cases, then the case that
/// carries the complete value.
pub open spec fn messages_derived(ident: Seq<char>, variants: Seq<Variant>, messages: MessageEnum) -> bool {
    &&& messages.ident@ == spec_form_enum_message(ident)
    &&& case_views(messages.cases@) == payload_cases(variants).push(MessageCaseView { ident, carries: None })
}

/// The variant of a union with the name of the form of its payload record.
pub open spec fn form_variant(variant: Variant) -> FormVariantView {
    FormVariantView {
        ident: variant.ident@,
        form: if variant.fields.is_unit() {
            None
        } else {
            Some(spec_form_name(spec_variant_builder_name(variant.ident@)))
        },
    }
}

/// Whether `listed` are the variants of a union, each with the form of its
/// payload, one for one and in order.
pub open spec fn form_variants_listed(variants: Seq<Variant>, listed: Seq<FormVariant>) -> bool {
    &&& listed.len() == variants.len()
    &&& forall|k: int| 0 <= k < variants.len() ==> (#[trigger] listed[k])@ == form_variant(variants[k])
}

/// Whether `form` is the form that holds the payload form of the union
/// `ident`.
pub open spec fn form_enum_derived(ident: Seq<char>, variants: Seq<Variant>, form: FormEnum) -> bool {
    &&& form.ident@ == spec_form_enum_name(ident)
    &&& form.message@ == spec_form_enum_message(ident)
    &&& form_variants_listed(variants, form.variants@)
}

/// Whether `wrapper` is the form of the union `ident`.
pub open spec fn wrapper_derived(ident: Seq<char>, variants: Seq<Variant>, wrapper: Wrapper) -> bool {
    &&& wrapper.ident@ == spec_form_name(ident)
    &&& wrapper.message@ == spec_form_message_name(ident)
    &&& wrapper.kind@ == spec_kind_name(ident)
    &&& wrapper.kind_form@ == spec_form_name(spec_kind_name(ident))
    &&& wrapper.kind_message@ == spec_form_message_name(spec_kind_name(ident))
    &&& wrapper.enum_form@ == spec_form_enum_name(ident)
    &&& wrapper.enum_message@ == spec_form_enum_message(ident)
    &&& form_variants_listed(variants, wrapper.starts@)
}

/// Whether the kind of every payload field of each of the first `upto`
/// variants can be told.
pub open spec fn payloads_resolved(registry: Registry, variants: Seq<Variant>, upto: int) -> bool {
    forall|j: int|
        0 <= j < upto ==> fields_resolved(
            registry,
            #[trigger] payload_fields(variants[j].fields),
            payload_fields(variants[j].fields).len() as int,
        )
}

/// Whether `path` is the type of the first payload field, in the order of
/// declaration, whose kind cannot be told.
pub open spec fn first_unresolved_payload(registry: Registry, variants: Seq<Variant>, path: Seq<Seq<char>>) -> bool {
    exists|k: int|
        {
            &&& 0 <= k < variants.len()
            &&& payloads_resolved(registry, variants, k)
            &&& first_unresolved(registry, #[trigger] payload_fields(variants[k].fields), path)
        }
}

/// Whether `plans` are the plans of the payload records of `variants`, one
/// for one: none for a variant without payload.
pub open spec fn builders_derived(registry: Registry, variants: Seq<Variant>, plans: Seq<Option<RecordPlan>>) -> bool {
    &&& plans.len() == variants.len()
    &&& forall|k: int|
        0 <= k < variants.len() ==> match #[trigger] plans[k] {
            Some(plan) => !variants[k].fields.is_unit() && record_derived(
                registry,
                spec_variant_builder_name(variants[k].ident@),
                payload_fields(variants[k].fields),
                plan,
            ),
            None => variants[k].fields.is_unit(),
        }
}

/// Whether `plan` is the plan of the union `ident` with the given variants.
pub open spec fn union_derived(registry: Registry, ident: Seq<char>, variants: Seq<Variant>, plan: UnionPlan) -> bool {
    &&& plan.ident@ == ident
    &&& builders_derived(registry, variants, plan.builders@)
    &&& messages_derived(ident, variants, plan.messages)
    &&& form_enum_derived(ident, variants, plan.form_enum)
    &&& unit_derived(spec_kind_name(ident), variants, plan.kinds)
    &&& wrapper_derived(ident, variants, plan.wrapper)
}

/// A copy of the field.
fn clone_field(field: &Field) -> (copy: Field)
    ensures
        copy@ == field@,
{
    Field { ident: field.ident.clone(), ty: field.ty.duplicate() }
}

/// Declares the record that holds the payload of a variant whose fields
/// have names: the record has the same fields.
pub fn handle_named_variant(var: &Variant, fields: &Vec<Field>) -> (record: DeriveInput)
    ensures
        builder_declared(var.ident@, field_views(fields@), record),
{
    let mut copies: Vec<Field> = Vec::new();
    let n: usize = fields.len();
    let mut i: usize = 0;
    while i < n
        invariant
            i <= n,
            n == fields@.len(),
            copies@.len() == i,
            forall|j: int| 0 <= j < i ==> (#[trigger] copies@[j])@ == fields@[j]@,
        decreases n - i,
    {
        copies.push(clone_field(&fields[i]));
        i = i + 1;
    }
    assert(field_views(copies@) =~= field_views(fields@));
    DeriveInput { ident: variant_builder_name(var.ident.as_str()), data: Data::Struct(DataStruct { fields: copies }) }
}

/// Declares the record that holds the payload of a variant whose fields
/// are known by position: each field is named after its position.
pub fn handle_unnamed_variant(var: &Variant, fields: &Vec<TypePath>) -> (record: DeriveInput)
    ensures
        builder_declared(var.ident@, positional_fields(fields@), record),
{
    let mut named: Vec<Field> = Vec::new();
    let n: usize = fields.len();
    let mut i: usize = 0;
    while i < n
        invariant
            i <= n,
            n == fields@.len(),
            named@.len() == i,
            forall|j: int| 0 <= j < i ==> (#[trigger] named@[j])@ == positional_fields(fields@)[j],
        decreases n - i,
    {
        named.push(Field { ident: positional_name(i), ty: fields[i].duplicate() });
        i = i + 1;
    }
    assert(field_views(named@) =~= positional_fields(fields@));
    DeriveInput { ident: variant_builder_name(var.ident.as_str()), data: Data::Struct(DataStruct { fields: named }) }
}

/// Declares the payload records of a union: one for each variant with a
/// payload, none for a variant without.
pub fn generate_variant_builder(data: &DataEnum) -> (records: Vec<Option<DeriveInput>>)
    ensures
        builders_declared(data.variants@, records@),
{
    let mut records: Vec<Option<DeriveInput>> = Vec::new();
    let n: usize = data.variants.len();
    let mut i: usize = 0;
    while i < n
        invariant
            i <= n,
            n == data.variants@.len(),
            builders_declared(data.variants@.take(i as int), records@),
        decreases n - i,
    {
        let var = &data.variants[i];
        let record = match &var.fields {
            Fields::Named(fields) => Some(handle_named_variant(var, fields)),
            Fields::Unnamed(fields) => Some(handle_unnamed_variant(var, fields)),
            Fields::Unit => None,
        };
        records.push(record);
        i = i + 1;
    }
    records
}

/// Declares the selector of a union: a union of its own, with the same
/// variants and no payloads.
pub fn generate_variant_kinds(input: &DeriveInput, data: &DataEnum) -> (selector: DeriveInput)
    ensures
        kinds_declared(input.ident@, data.variants@, selector),
{
    let mut kinds: Vec<Variant> = Vec::new();
    let n: usize = data.variants.len();
    let mut i: usize = 0;
    while i < n
        invariant
            i <= n,
            n == data.variants@.len(),
            kinds@.len() == i,
            forall|k: int|
                0 <= k < i ==> {
                    &&& (#[trigger] kinds@[k]).ident@ == data.variants@[k].ident@
                    &&& kinds@[k].fields.is_unit()
                },
        decreases n - i,
    {
        kinds.push(Variant { ident: data.variants[i].ident.clone(), fields: Fields::Unit });
        i = i + 1;
    }
    DeriveInput { ident: kind_name(input.ident.as_str()), data: Data::Enum(DataEnum { variants: kinds }) }
}

/// Derives the message protocol of the form that holds the payload form:
/// for each variant with a payload a case that carries the messages of its
/// payload form, and a last case that carries the complete value.
pub fn generate_form_message(input: &DeriveInput, data: &DataEnum) -> (messages: MessageEnum)
    ensures
        messages_derived(input.ident@, data.variants@, messages),
{
    let mut cases: Vec<MessageCase> = Vec::new();
    let n: usize = data.variants.len();
    let mut i: usize = 0;
    while i < n
        invariant
            i <= n,
            n == data.variants@.len(),
            case_views(cases@) == payload_cases(data.variants@.take(i as int)),
        decreases n - i,
    {
        let var = &data.variants[i];
        let ghost before = data.variants@.take(i as int);
        let ghost after = data.variants@.take(i + 1);
        assert(after.drop_last() =~= before);
        assert(after.last() == data.variants@[i as int]);
        if !var.fields.is_unit() {
            let builder = variant_builder_name(var.ident.as_str());
            let carried = form_message_name(builder.as_str());
            cases.push(MessageCase { ident: var.ident.clone(), carries: Carried::Message(carried) });
            assert(case_views(cases@) =~= payload_cases(after));
        }
        i = i + 1;
    }
    assert(data.variants@.take(n as int) =~= data.variants@);
    let ghost payloads = case_views(cases@);
    cases.push(MessageCase { ident: input.ident.clone(), carries: Carried::Complete });
    assert(case_views(cases@) =~= payloads.push(MessageCaseView { ident: input.ident@, carries: None }));
    MessageEnum { ident: form_enum_message(input.ident.as_str()), cases }
}

/// Lists the variants of a union, each with the name of the form of its
/// payload record where it has one.
fn list_form_variants(data: &DataEnum) -> (listed: Vec<FormVariant>)
    ensures
        form_variants_listed(data.variants@, listed@),
{
    let mut listed: Vec<FormVariant> = Vec::new();
    let n: usize = data.variants.len();
    let mut i: usize = 0;
    while i < n
        invariant
            i <= n,
            n == data.variants@.len(),
            form_variants_listed(data.variants@.take(i as int), listed@),
        decreases n - i,
    {
        let var = &data.variants[i];
        let form = if var.fields.is_unit() {
            None
        } else {
            let builder = variant_builder_name(var.ident.as_str());
            Some(form_name(builder.as_str()))
        };
        listed.push(FormVariant { ident: var.ident.clone(), form });
        i = i + 1;
    }
    listed
}

/// Derives the form that holds the payload form of the variant in use. It
/// has one variant for each variant of the union: with the payload form,
/// where the variant has a payload, and bare where it has none.
pub fn generate_form_enum(input: &DeriveInput, data: &DataEnum) -> (form: FormEnum)
    ensures
        form_enum_derived(input.ident@, data.variants@, form),
{
    let name = input.ident.as_str();
    FormEnum { ident: form_enum_name(name), message: form_enum_message(name), variants: list_form_variants(data) }
}

/// Derives the form of the union: the selector and the payload form of the
/// selected variant, with the names of all the artifacts it is made of and,
/// for each variant, the form with which a selection of it starts.
pub fn generate_form_wrapper(input: &DeriveInput, data: &DataEnum) -> (wrapper: Wrapper)
    ensures
        wrapper_derived(input.ident@, data.variants@, wrapper),
{
    let name = input.ident.as_str();
    let kind = kind_name(name);
    let kind_message = form_message_name(kind.as_str());
    let kind_form = form_name(kind.as_str());
    Wrapper {
        ident: form_wrapper_name(name),
        message: form_wrapper_message(name),
        kind,
        kind_form,
        kind_message,
        enum_form: form_enum_name(name),
        enum_message: form_enum_message(name),
        starts: list_form_variants(data),
    }
}

/// Derives the plans of the payload records, in the order of the variants.
fn derive_builders(registry: &Registry, data: &DataEnum) -> (plans: Result<Vec<Option<RecordPlan>>, DeriveError>)
    ensures
        match plans {
            Ok(plans) => {
                &&& builders_derived(*registry, data.variants@, plans@)
                &&& forall|k: int|
                    0 <= k < plans@.len() ==> match #[trigger] plans@[k] {
                        Some(plan) => plan.resolves_in(registry@, registry@.len() as int),
                        None => true,
                    }
            },
            Err(DeriveError::Unresolved(path)) => first_unresolved_payload(*registry, data.variants@, path@),
        },
{
    let records = generate_variant_builder(data);
    let mut plans: Vec<Option<RecordPlan>> = Vec::new();
    let n: usize = records.len();
    let mut k: usize = 0;
    while k < n
        invariant
            k <= n,
            n == data.variants@.len(),
            builders_declared(data.variants@, records@),
            builders_derived(*registry, data.variants@.take(k as int), plans@),
            payloads_resolved(*registry, data.variants@, k as int),
            forall|j: int|
                0 <= j < k ==> match #[trigger] plans@[j] {
                    Some(plan) => plan.resolves_in(registry@, registry@.len() as int),
                    None => true,
                },
        decreases n - k,
    {
        let ghost fields = payload_fields(data.variants@[k as int].fields);
        match &records[k] {
            Some(record) => match &record.data {
                Data::Struct(body) => match derive_for_struct(registry, record, body) {
                    Ok(plan) => {
                        plans.push(Some(plan));
                    },
                    Err(error) => {
                        return Err(error);
                    },
                },
                Data::Enum(_) => {
                    assert(false);
                    plans.push(None);
                },
            },
            None => {
                assert(fields =~= Seq::<FieldView>::empty());
                plans.push(None);
            },
        }
        k = k + 1;
    }
    Ok(plans)
}

/// Derives the plan of a union of which some variant carries a payload: the
/// payload records, the message protocol, the form that holds the payload
/// form, the selector and the form of the union itself. Fails where the kind
/// of a payload field cannot be told, with the type of the first such field.
pub fn derive_for_enum(registry: &Registry, input: &DeriveInput, data: &DataEnum) -> (plan: Result<
    UnionPlan,
    DeriveError,
>)
    ensures
        match plan {
            Ok(plan) => {
                &&& union_derived(*registry, input.ident@, data.variants@, plan)
                &&& plan.wf()
                &&& plan.resolves_in(registry@, registry@.len() as int)
            },
            Err(DeriveError::Unresolved(path)) => first_unresolved_payload(*registry, data.variants@, path@),
        },
{
    let builders = match derive_builders(registry, data) {
        Ok(builders) => builders,
        Err(error) => {
            return Err(error);
        },
    };
    let messages = generate_form_message(input, data);
    let form_enum = generate_form_enum(input, data);
    let selector = generate_variant_kinds(input, data);
    let kinds = match &selector.data {
        Data::Enum(body) => derive_for_unit_enum(&selector, body),
        Data::Struct(_) => {
            assert(false);
            derive_for_unit_enum(&selector, data)
        },
    };
    let wrapper = generate_form_wrapper(input, data);
    Ok(UnionPlan { ident: input.ident.clone(), builders, messages, form_enum, kinds, wrapper })
}

} // verus!
