//! Which values belong to a form, and the invariant that a form holds and
//! hands over only such values.

use vstd::prelude::*;
use crate::buffer::{complete, held};
use crate::message::FormMessage;
use crate::plan::{Artifact, Entry, RecordPlan, UnionPlan, ValueKind};
use crate::state::{
    fresh_field,
    fresh_form,
    fresh_record,
    fresh_union,
    lemma_update_keeps_variants,
    unit_choice,
    FieldStateView,
    FormView,
    RecordView,
    UnionView,
    UnitView,
};
use crate::value::ValueView;

verus! {

impl FieldStateView {
    /// Whether `value` is a value of the field: a boolean for a boolean
    /// field, a scalar of the field's kind for a scalar field, a value of
    /// the nested form for a nested field.
    pub open spec fn admits(self, value: ValueView) -> bool
        decreases self, 1int,
    {
        match self {
            FieldStateView::Flag(_) => value is Flag,
            FieldStateView::Editor(kind, _) => value matches ValueView::Scalar(scalar) && kind.spec_admits(scalar),
            FieldStateView::Nested(form) => form.admits(value),
        }
    }
}

impl RecordView {
    /// Whether `value` is a value of the record: a record with a value of
    /// each field, in the order of declaration.
    pub open spec fn admits(self, value: ValueView) -> bool
        decreases self, 0int,
    {
        &&& value is Record
        &&& value->Record_0.len() == self.fields.len()
        &&& forall|i: int|
            0 <= i < self.fields.len() ==> (#[trigger] self.fields[i]).admits(value->Record_0[i])
    }

    /// Whether the form has a slot for each field, every value in a slot is
    /// a value of the slot's field, and the same holds within its nested
    /// forms.
    pub open spec fn typed(self) -> bool
        decreases self, 0int,
    {
        &&& self.slots.len() == self.fields.len()
        &&& forall|i: int|
            0 <= i < self.fields.len() ==> {
                &&& self.slots[i] matches Some(value) ==> (#[trigger] self.fields[i]).admits(value)
                &&& self.fields[i] matches FieldStateView::Nested(form) ==> form.typed()
            }
    }

    /// Whether the two forms are forms of the same record: the same values
    /// belong to both.
    pub open spec fn alike(self, other: RecordView) -> bool {
        forall|value: ValueView| #[trigger] self.admits(value) == other.admits(value)
    }
}

impl UnitView {
    /// Whether `value` is one of the variants.
    pub open spec fn admits(self, value: ValueView) -> bool {
        unit_choice(value, self.labels.len()) is Some
    }

    /// Whether the variant chosen, if any, is one of the variants.
    pub open spec fn typed(self) -> bool {
        self.selected matches Some(tag) ==> tag < self.labels.len()
    }
}

impl UnionView {
    /// Whether `value` is a value of the union: one of its variants, with a
    /// payload of the variant's record, or with none where it has none.
    pub open spec fn admits(self, value: ValueView) -> bool
        decreases self, 1int,
    {
        &&& value is Variant
        &&& value->Variant_0 < self.fresh.len()
        &&& match self.fresh[value->Variant_0 as int] {
            Some(payload) => payload.admits(ValueView::Record(value->Variant_1)),
            None => value->Variant_1.len() == 0,
        }
    }

    /// Whether the selector has the union's variants, the payload form is
    /// that of the variant selected, and every form within holds only
    /// values that belong to it.
    pub open spec fn typed(self) -> bool
        decreases self, 1int,
    {
        &&& self.selector.labels.len() == self.fresh.len()
        &&& self.selector.typed()
        &&& self.follows_selector()
        &&& forall|k: int|
            0 <= k < self.fresh.len() ==> (#[trigger] self.fresh[k] matches Some(payload) ==> payload.typed())
        &&& match self.form {
            Some(form) => {
                &&& form.variant < self.fresh.len()
                &&& match form.payload {
                    Some(payload) => {
                        &&& self.fresh[form.variant as int] is Some
                        &&& payload.alike(self.fresh[form.variant as int]->Some_0)
                        &&& payload.typed()
                    },
                    None => self.fresh[form.variant as int] is None,
                }
            },
            None => true,
        }
    }
}

impl FormView {
    /// Whether `value` is a value of the form's schema.
    pub open spec fn admits(self, value: ValueView) -> bool
        decreases self, 2int,
    {
        match self {
            FormView::Record(form) => form.admits(value),
            FormView::Union(form) => form.admits(value),
            FormView::Unit(form) => form.admits(value),
        }
    }

    /// Whether the form, and every form within, holds only values that
    /// belong to it.
    pub open spec fn typed(self) -> bool
        decreases self, 2int,
    {
        match self {
            FormView::Record(form) => form.typed(),
            FormView::Union(form) => form.typed(),
            FormView::Unit(form) => form.typed(),
        }
    }
}

/// A message leaves the values that belong to a record form as they
/// were.
pub proof fn lemma_record_update_keeps_admits(form: RecordView, message: FormMessage)
    ensures
        form.update(message).alike(form),
        form.update(message).fields.len() == form.fields.len(),
        forall|i: int, value: ValueView|
            0 <= i < form.fields.len() ==> #[trigger] form.update(message).fields[i].admits(value)
                == form.fields[i].admits(value),
    decreases message, 0int,
{
    let after = form.update(message);
    match message {
        FormMessage::Nested(field, inner) => {
            if field < form.fields.len() && form.fields[field as int] is Nested {
                lemma_form_update_keeps_admits(form.fields[field as int]->Nested_0, *inner);
            }
        },
        _ => {},
    }
    assert forall|i: int, value: ValueView| 0 <= i < form.fields.len() implies #[trigger] after.fields[i].admits(
        value,
    ) == form.fields[i].admits(value) by {
        match message {
            FormMessage::Nested(field, inner) => {
                if field == i && form.fields[i] is Nested {
                    let nested = form.fields[i]->Nested_0;
                    assert(after.fields[i] == FieldStateView::Nested(nested.update(*inner)));
                    assert(nested.update(*inner).admits(value) == nested.admits(value));
                }
            },
            FormMessage::Field(field, edit) => {
                if field == i && form.takes_edit(field as int, edit) {
                    assert(after.fields[i] is Editor);
                    assert(after.fields[i]->Editor_0 == form.fields[i]->Editor_0);
                }
            },
            _ => {},
        }
    }
    assert forall|value: ValueView| #[trigger] after.admits(value) == form.admits(value) by {
        if value is Record && value->Record_0.len() == form.fields.len() {
            if form.admits(value) {
                assert forall|i: int| 0 <= i < after.fields.len() implies (#[trigger] after.fields[i]).admits(
                    value->Record_0[i],
                ) by {
                    assert(form.fields[i].admits(value->Record_0[i]));
                }
            }
            if after.admits(value) {
                assert forall|i: int| 0 <= i < form.fields.len() implies (#[trigger] form.fields[i]).admits(
                    value->Record_0[i],
                ) by {
                    assert(after.fields[i].admits(value->Record_0[i]));
                }
            }
        }
    }
}

/// A message leaves the values that belong to a form as they were.
pub proof fn lemma_form_update_keeps_admits(form: FormView, message: FormMessage)
    ensures
        forall|value: ValueView| #[trigger] form.update(message).admits(value) == form.admits(value),
    decreases message, 1int,
{
    match form {
        FormView::Record(record) => {
            lemma_record_update_keeps_admits(record, message);
            assert forall|value: ValueView| #[trigger] form.update(message).admits(value) == form.admits(value) by {
                assert(record.update(message).admits(value) == record.admits(value));
            }
        },
        FormView::Union(union) => {
            lemma_update_keeps_variants(union, message);
        },
        FormView::Unit(_) => {},
    }
}

/// What a record form hands over belongs to it.
pub proof fn lemma_record_built_is_admitted(form: RecordView)
    requires
        form.typed(),
    ensures
        form.build() matches Some(value) ==> form.admits(value),
{
    if complete(form.slots) {
        let fields = held(form.slots);
        assert forall|i: int| 0 <= i < form.fields.len() implies (#[trigger] form.fields[i]).admits(fields[i]) by {
            assert(form.slots[i] is Some);
        }
    }
}

/// What a form hands over belongs to it.
pub proof fn lemma_built_is_admitted(form: FormView)
    requires
        form.typed(),
    ensures
        form.build() matches Some(value) ==> form.admits(value),
{
    match form {
        FormView::Record(record) => {
            lemma_record_built_is_admitted(record);
        },
        FormView::Union(union) => {
            match union.form {
                Some(inner) => match inner.payload {
                    Some(payload) => {
                        lemma_record_built_is_admitted(payload);
                        if payload.build() is Some {
                            let value = payload.build()->Some_0;
                            assert(payload.admits(value) == union.fresh[inner.variant as int]->Some_0.admits(value));
                        }
                    },
                    None => {},
                },
                None => {},
            }
        },
        FormView::Unit(_) => {},
    }
}

/// A message leaves a record form holding only values that belong to it.
pub proof fn lemma_record_update_keeps_typed(form: RecordView, message: FormMessage)
    requires
        form.typed(),
    ensures
        form.update(message).typed(),
    decreases message, 0int,
{
    let after = form.update(message);
    lemma_record_update_keeps_admits(form, message);
    match message {
        FormMessage::Nested(field, inner) => {
            if field < form.fields.len() && form.fields[field as int] is Nested {
                let nested = form.fields[field as int]->Nested_0;
                lemma_form_update_keeps_typed(nested, *inner);
                lemma_built_is_admitted(nested.update(*inner));
            }
        },
        _ => {},
    }
    assert forall|i: int| 0 <= i < after.fields.len() implies {
        &&& after.slots[i] matches Some(value) ==> (#[trigger] after.fields[i]).admits(value)
        &&& after.fields[i] matches FieldStateView::Nested(nested) ==> nested.typed()
    } by {
        assert(form.slots[i] matches Some(value) ==> form.fields[i].admits(value));
        assert(form.fields[i] matches FieldStateView::Nested(nested) ==> nested.typed());
        if after.slots[i] is Some {
            let value = after.slots[i]->Some_0;
            if form.slots[i] == after.slots[i] {
                assert(after.fields[i].admits(value) == form.fields[i].admits(value));
            }
        }
    }
}

/// A message leaves a union form holding only values that belong to it.
pub proof fn lemma_union_update_keeps_typed(form: UnionView, message: FormMessage)
    requires
        form.typed(),
    ensures
        form.update(message).typed(),
    decreases message, 0int,
{
    let after = form.update(message);
    lemma_update_keeps_variants(form, message);
    match message {
        FormMessage::PickList(inner) => {
            match *inner {
                FormMessage::Complete(value) => {
                    if unit_choice(value@, form.selector.labels.len()) is Some {
                        let variant = unit_choice(value@, form.selector.labels.len())->Some_0;
                        assert(form.fresh[variant as int] matches Some(payload) ==> payload.typed());
                    }
                },
                _ => {},
            }
        },
        FormMessage::Form(inner) => {
            match form.form {
                Some(held) => match *inner {
                    FormMessage::Variant(variant, innermost) => {
                        if variant == held.variant && held.payload is Some {
                            let payload = held.payload->Some_0;
                            lemma_record_update_keeps_typed(payload, *innermost);
                            lemma_record_update_keeps_admits(payload, *innermost);
                            let fresh = form.fresh[held.variant as int]->Some_0;
                            assert forall|value: ValueView| #[trigger]
                                payload.update(*innermost).admits(value) == fresh.admits(value) by {
                                assert(payload.update(*innermost).admits(value) == payload.admits(value));
                                assert(payload.admits(value) == fresh.admits(value));
                            }
                        }
                    },
                    _ => {},
                },
                None => {},
            }
        },
        _ => {},
    }
    assert forall|k: int| 0 <= k < after.fresh.len() implies (#[trigger] after.fresh[k] matches Some(payload)
        ==> payload.typed()) by {
        assert(form.fresh[k] matches Some(payload) ==> payload.typed());
    }
}

/// A message leaves a form holding only values that belong to it.
pub proof fn lemma_form_update_keeps_typed(form: FormView, message: FormMessage)
    requires
        form.typed(),
    ensures
        form.update(message).typed(),
    decreases message, 1int,
{
    match form {
        FormView::Record(record) => lemma_record_update_keeps_typed(record, message),
        FormView::Union(union) => lemma_union_update_keeps_typed(union, message),
        FormView::Unit(_) => {},
    }
}

/// Whether every plan is well formed and refers only to plans that stand
/// before it.
pub open spec fn entries_wf(entries: Seq<Entry>) -> bool {
    forall|i: int| 0 <= i < entries.len() ==> (#[trigger] entries[i]).artifact.resolves_in(entries, i)
}

/// A fresh record form holds no value, so none that does not belong to it.
pub proof fn lemma_fresh_record_is_typed(entries: Seq<Entry>, plan: RecordPlan, bound: nat)
    requires
        entries_wf(entries),
        bound <= entries.len(),
        plan.resolves_in(entries, bound as int),
    ensures
        fresh_record(entries, plan, bound).typed(),
    decreases bound, 1int,
{
    let form = fresh_record(entries, plan, bound);
    assert forall|i: int| 0 <= i < form.fields.len() implies {
        &&& form.slots[i] matches Some(value) ==> (#[trigger] form.fields[i]).admits(value)
        &&& form.fields[i] matches FieldStateView::Nested(nested) ==> nested.typed()
    } by {
        assert(plan.fields@[i].kind.resolves_in(entries, bound as int));
        assert(form.fields[i] == fresh_field(entries, plan.fields@[i], bound));
        match plan.fields@[i].kind {
            ValueKind::NestedRecord(place) => {
                lemma_fresh_form_is_typed(entries, place as nat);
            },
            ValueKind::NestedUnion(place) => {
                lemma_fresh_form_is_typed(entries, place as nat);
            },
            ValueKind::UnitUnion(place) => {
                lemma_fresh_form_is_typed(entries, place as nat);
            },
            _ => {},
        }
    }
}

/// A fresh union form holds no value, so none that does not belong to it.
pub proof fn lemma_fresh_union_is_typed(entries: Seq<Entry>, plan: UnionPlan, bound: nat)
    requires
        entries_wf(entries),
        bound <= entries.len(),
        plan.wf(),
        plan.resolves_in(entries, bound as int),
    ensures
        fresh_union(entries, plan, bound).typed(),
    decreases bound, 2int,
{
    let form = fresh_union(entries, plan, bound);
    assert forall|k: int| 0 <= k < form.fresh.len() implies (#[trigger] form.fresh[k] matches Some(payload)
        ==> payload.typed()) by {
        match plan.builders@[k] {
            Some(payload) => {
                lemma_fresh_record_is_typed(entries, payload, bound);
            },
            None => {},
        }
    }
}

/// A fresh form holds no value, so none that does not belong to it.
pub proof fn lemma_fresh_form_is_typed(entries: Seq<Entry>, place: nat)
    requires
        entries_wf(entries),
        place < entries.len(),
    ensures
        fresh_form(entries, place).typed(),
    decreases place, 3int,
{
    assert(entries[place as int].artifact.resolves_in(entries, place as int));
    match entries[place as int].artifact {
        Artifact::Record(plan) => {
            lemma_fresh_record_is_typed(entries, plan, place);
        },
        Artifact::Union(plan) => {
            lemma_fresh_union_is_typed(entries, plan, place);
        },
        Artifact::Unit(_) => {},
    }
}

} // verus!
