//! The derivation for a record: one message case, one member and one slot
//! for each field, in the order of declaration.

use vstd::prelude::*;
use crate::naming::{
    builder_name,
    cased,
    form_message_name,
    form_name,
    spec_builder_name,
    spec_form_message_name,
    spec_form_name,
    to_case,
    Case,
};
use crate::plan::{DeriveError, FieldPlan, RecordPlan, ValueKind};
use crate::registry::{spec_classify, Registry};
use crate::schema::{field_views, get_type_ident, DataStruct, DeriveInput, Field, FieldView, TypePath};

verus! {

impl FieldPlan {
    /// Whether this is the plan of `field`, given the kind of value the
    /// field holds. The message case is the field's name in Pascal case, the
    /// label its name in title case. A nested field refers to the form and
    /// the message protocol of its type: they stand where the type stands,
    /// under the names derived from the type's name.
    pub open spec fn derived_from(self, field: FieldView, kind: ValueKind) -> bool {
        &&& self.ident@ == field.ident
        &&& self.case@ == cased(field.ident, Case::Pascal)
        &&& self.label@ == cased(field.ident, Case::Title)
        &&& self.kind == kind
        &&& if kind.is_nested() {
            &&& self.form is Some
            &&& self.form->Some_0@ == field.ty.drop_last().push(spec_form_name(field.ty.last()))
            &&& self.message is Some
            &&& self.message->Some_0@ == field.ty.drop_last().push(spec_form_message_name(field.ty.last()))
        } else {
            &&& self.form is None
            &&& self.message is None
        }
    }
}

/// Whether the kind of each of the first `upto` fields can be told.
pub open spec fn fields_resolved(registry: Registry, fields: Seq<FieldView>, upto: int) -> bool {
    forall|j: int| 0 <= j < upto ==> spec_classify(registry@, (#[trigger] fields[j]).ty) is Some
}

/// Whether `path` is the type of the first field whose kind cannot be told.
pub open spec fn first_unresolved(registry: Registry, fields: Seq<FieldView>, path: Seq<Seq<char>>) -> bool {
    exists|i: int|
        {
            &&& 0 <= i < fields.len()
            &&& fields_resolved(registry, fields, i)
            &&& spec_classify(registry@, (#[trigger] fields[i]).ty) is None
            &&& path == fields[i].ty
        }
}

/// Whether `plans` are the plans of `fields`, one for one and in order.
pub open spec fn fields_derived(registry: Registry, fields: Seq<FieldView>, plans: Seq<FieldPlan>) -> bool {
    &&& plans.len() == fields.len()
    &&& fields_resolved(registry, fields, fields.len() as int)
    &&& forall|i: int|
        0 <= i < fields.len() ==> (#[trigger] plans[i]).derived_from(
            fields[i],
            spec_classify(registry@, fields[i].ty)->Some_0,
        )
}

/// Whether `plan` is the plan of the record `ident` with the given fields.
pub open spec fn record_derived(registry: Registry, ident: Seq<char>, fields: Seq<FieldView>, plan: RecordPlan) -> bool {
    &&& plan.ident@ == ident
    &&& plan.form@ == spec_form_name(ident)
    &&& plan.message@ == spec_form_message_name(ident)
    &&& plan.builder@ == spec_builder_name(ident)
    &&& fields_derived(registry, fields, plan.fields@)
}

/// Plans that were derived against a registry refer only to its plans.
pub proof fn lemma_derived_resolves(registry: Registry, fields: Seq<FieldView>, plans: Seq<FieldPlan>)
    requires
        fields_derived(registry, fields, plans),
        registry@.len() <= usize::MAX,
    ensures
        forall|i: int|
            0 <= i < plans.len() ==> (#[trigger] plans[i]).kind.resolves_in(
                registry@,
                registry@.len() as int,
            ),
{
    assert forall|i: int| 0 <= i < plans.len() implies (#[trigger] plans[i]).kind.resolves_in(
        registry@,
        registry@.len() as int,
    ) by {
        crate::registry::lemma_classified_resolves(registry@, fields[i].ty);
    }
}

/// Derives the plan of one field.
fn gen_field(registry: &Registry, field: &Field) -> (plan: Result<FieldPlan, DeriveError>)
    ensures
        match spec_classify(registry@, field.ty@) {
            Some(kind) => plan matches Ok(derived) && derived.derived_from(field@, kind),
            None => plan matches Err(DeriveError::Unresolved(path)) && path@ == field.ty@,
        },
{
    let kind = match registry.classify(&field.ty) {
        Ok(kind) => kind,
        Err(error) => {
            return Err(error);
        },
    };
    let case = to_case(field.ident.as_str(), Case::Pascal);
    let label = to_case(field.ident.as_str(), Case::Title);
    let (form, message) = match kind {
        ValueKind::Boolean => (None, None),
        ValueKind::Scalar(_) => (None, None),
        _ => {
            let (leading, ident) = get_type_ident(&field.ty);
            let form_ident = form_name(ident.as_str());
            let message_ident = form_message_name(ident.as_str());
            let form = field.ty.sibling(form_ident);
            let message = TypePath { leading, ident: message_ident };
            proof {
                assert(field.ty@.drop_last() =~= crate::schema::texts(field.ty.leading@));
                assert(field.ty@.last() == field.ty.ident@);
            }
            (Some(form), Some(message))
        },
    };
    Ok(FieldPlan { ident: field.ident.clone(), case, label, kind, form, message })
}

/// Derives the plans of the fields of a record, in the order of their
/// declaration. The derivation stops at the first field whose kind cannot
/// be told, and fails with that field's type.
pub fn gen_fields(registry: &Registry, fields: &Vec<Field>) -> (plans: Result<Vec<FieldPlan>, DeriveError>)
    ensures
        match plans {
            Ok(plans) => fields_derived(*registry, field_views(fields@), plans@),
            Err(DeriveError::Unresolved(path)) => first_unresolved(*registry, field_views(fields@), path@),
        },
{
    let mut plans: Vec<FieldPlan> = Vec::new();
    let n: usize = fields.len();
    let mut i: usize = 0;
    while i < n
        invariant
            i <= n,
            n == fields@.len(),
            plans@.len() == i,
            fields_resolved(*registry, field_views(fields@), i as int),
            forall|j: int|
                0 <= j < i ==> (#[trigger] plans@[j]).derived_from(
                    fields@[j]@,
                    spec_classify(registry@, fields@[j].ty@)->Some_0,
                ),
        decreases n - i,
    {
        match gen_field(registry, &fields[i]) {
            Ok(plan) => {
                plans.push(plan);
            },
            Err(error) => {
                assert(field_views(fields@)[i as int] == fields@[i as int]@);
                return Err(error);
            },
        }
        i = i + 1;
    }
    Ok(plans)
}

/// Derives the plan of a record: the names of its form, of its message
/// protocol and of its buffer, and the plans of its fields. Fails where the
/// kind of a field cannot be told, with the type of the first such field.
pub fn derive_for_struct(registry: &Registry, input: &DeriveInput, data: &DataStruct) -> (plan: Result<
    RecordPlan,
    DeriveError,
>)
    ensures
        match plan {
            Ok(plan) => {
                &&& record_derived(*registry, input.ident@, field_views(data.fields@), plan)
                &&& plan.resolves_in(registry@, registry@.len() as int)
            },
            Err(DeriveError::Unresolved(path)) => first_unresolved(*registry, field_views(data.fields@), path@),
        },
{
    let name = input.ident.as_str();
    let fields = match gen_fields(registry, &data.fields) {
        Ok(fields) => fields,
        Err(error) => {
            return Err(error);
        },
    };
    let n: usize = registry.len();
    proof {
        lemma_derived_resolves(*registry, field_views(data.fields@), fields@);
    }
    Ok(
        RecordPlan {
            ident: input.ident.clone(),
            form: form_name(name),
            message: form_message_name(name),
            builder: builder_name(name),
            fields,
        },
    )
}

} // verus!
