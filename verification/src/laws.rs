//! Laws of forms: what holds of every form, whatever messages it takes.

use vstd::prelude::*;
use crate::buffer::{spec_finalize, spec_set_field};
use crate::message::FormMessage;
use crate::registry::Registry;
use crate::state::{
    fresh_form,
    lemma_update_keeps_variants,
    unit_choice,
    EnumView,
    FieldStateView,
    FormView,
    RecordView,
    UnionView,
};
use crate::typing::{
    lemma_built_is_admitted,
    lemma_form_update_keeps_admits,
    lemma_form_update_keeps_typed,
    lemma_fresh_form_is_typed,
};
use crate::value::ValueView;

verus! {

/// Whether `message` is a message to the selector of a union of `count`
/// variants that chooses the variant at `variant`.
pub open spec fn chooses(message: FormMessage, variant: nat, count: nat) -> bool {
    &&& message matches FormMessage::PickList(inner)
    &&& *inner matches FormMessage::Complete(value)
    &&& unit_choice(value@, count) == Some(variant)
}

/// Whether `message` is a message to the nested form `nested` of the field
/// at `field` of `record`.
pub open spec fn forwards_to(message: FormMessage, record: RecordView, field: nat, nested: FormView) -> bool {
    &&& message matches FormMessage::Nested(position, _)
    &&& position == field
    &&& field < record.fields.len()
    &&& record.fields[field as int] == FieldStateView::Nested(nested)
}

impl UnionView {
    /// The form after the given messages, in order.
    pub open spec fn update_all(self, messages: Seq<FormMessage>) -> UnionView
        decreases messages.len(),
    {
        if messages.len() == 0 {
            self
        } else {
            self.update_all(messages.drop_last()).update(messages.last())
        }
    }
}

/// Setting a value that is already set changes nothing: a buffer into which
/// the same value goes twice for the same field holds what it held after
/// the first time, and finalizes to the same.
pub proof fn law_set_field_twice(slots: Seq<Option<ValueView>>, field: int, value: ValueView)
    ensures
        spec_set_field(spec_set_field(slots, field, value), field, value) == spec_set_field(slots, field, value),
        spec_finalize(spec_set_field(spec_set_field(slots, field, value), field, value)) == spec_finalize(
            spec_set_field(slots, field, value),
        ),
{
    assert(spec_set_field(spec_set_field(slots, field, value), field, value) =~= spec_set_field(
        slots,
        field,
        value,
    ));
}

/// Forwarding the same complete value of a nested form twice leaves the
/// record's complete value as it was: where a message to a nested form
/// leaves that form with the same complete value the second time as the
/// first, the record finalizes to the same after both.
pub proof fn law_forward_twice(record: RecordView, message: FormMessage, field: nat, nested: FormView)
    requires
        forwards_to(message, record, field, nested),
        nested.update(*message->Nested_1).build() is Some,
        nested.update(*message->Nested_1).update(*message->Nested_1).build() == nested.update(
            *message->Nested_1,
        ).build(),
    ensures
        record.update(message).update(message).build() == record.update(message).build(),
{
    let inner = *message->Nested_1;
    let value = nested.update(inner).build()->Some_0;
    let once = record.update(message);
    assert(once.slots == spec_set_field(record.slots, field as int, value));
    assert(once.fields[field as int] == FieldStateView::Nested(nested.update(inner)));
    let twice = once.update(message);
    assert(twice.slots == spec_set_field(once.slots, field as int, value));
    law_set_field_twice(record.slots, field as int, value);
}

/// So do any number of messages.
pub proof fn lemma_update_all_keeps_variants(union: UnionView, messages: Seq<FormMessage>)
    ensures
        union.update_all(messages).selector.labels == union.selector.labels,
        union.update_all(messages).selector.title == union.selector.title,
        union.update_all(messages).idents == union.idents,
        union.update_all(messages).fresh == union.fresh,
    decreases messages.len(),
{
    if messages.len() > 0 {
        lemma_update_all_keeps_variants(union, messages.drop_last());
        lemma_update_keeps_variants(union.update_all(messages.drop_last()), messages.last());
    }
}

/// A record form keeps one state and one slot for each field: a message
/// changes neither their number nor the sort of any state.
pub proof fn law_update_keeps_fields(record: RecordView, message: FormMessage)
    ensures
        record.update(message).fields.len() == record.fields.len(),
        record.update(message).slots.len() == record.slots.len(),
        forall|i: int|
            0 <= i < record.fields.len() ==> {
                &&& (#[trigger] record.update(message).fields[i]) is Flag <==> record.fields[i] is Flag
                &&& record.update(message).fields[i] is Editor <==> record.fields[i] is Editor
                &&& record.update(message).fields[i] is Nested <==> record.fields[i] is Nested
            },
{
}

/// At most one payload form is live, and it is that of the variant
/// selected: a message to a union form of which this holds leaves it so.
pub proof fn law_payload_follows_selector(union: UnionView, message: FormMessage)
    requires
        union.follows_selector(),
    ensures
        union.update(message).follows_selector(),
{
}

/// Selecting a variant starts its payload form afresh, whatever the form
/// held before.
pub proof fn law_select_starts_fresh(union: UnionView, select: FormMessage, variant: nat)
    requires
        chooses(select, variant, union.selector.labels.len()),
    ensures
        union.update(select).selector.selected == Some(variant),
        union.update(select).form == Some(
            EnumView { variant, ident: union.idents[variant as int], payload: union.fresh[variant as int] },
        ),
{
}

/// Switching variants resets the payload: after a variant is selected and
/// its payload form has taken any messages, selecting another variant and
/// then the first again leaves the payload form of the first as it was
/// when the variant was first selected, with nothing of the earlier edits.
pub proof fn law_reselect_starts_fresh(
    union: UnionView,
    select_first: FormMessage,
    edits: Seq<FormMessage>,
    select_other: FormMessage,
    first: nat,
    other: nat,
)
    requires
        chooses(select_first, first, union.selector.labels.len()),
        chooses(select_other, other, union.selector.labels.len()),
    ensures
        union.update(select_first).update_all(edits).update(select_other).update(select_first).form
            == union.update(select_first).form,
        union.update(select_first).form == Some(
            EnumView { variant: first, ident: union.idents[first as int], payload: union.fresh[first as int] },
        ),
{
    let selected = union.update(select_first);
    let edited = selected.update_all(edits);
    let switched = edited.update(select_other);
    lemma_update_keeps_variants(union, select_first);
    lemma_update_all_keeps_variants(selected, edits);
    lemma_update_keeps_variants(edited, select_other);
    law_select_starts_fresh(union, select_first, first);
    law_select_starts_fresh(switched, select_first, first);
}

/// A fresh form holds only values that belong to it: it holds none.
pub proof fn law_fresh_form_is_typed(registry: Registry, place: nat)
    requires
        registry.wf(),
        place < registry@.len(),
    ensures
        fresh_form(registry@, place).typed(),
{
    lemma_fresh_form_is_typed(registry@, place);
}

/// Only values that belong to a form go into its buffers: a form that
/// holds only such values holds only such values after any message.
pub proof fn law_update_keeps_typed(form: FormView, message: FormMessage)
    requires
        form.typed(),
    ensures
        form.update(message).typed(),
{
    lemma_form_update_keeps_typed(form, message);
}

/// A form hands over only values of its schema.
pub proof fn law_built_is_admitted(form: FormView)
    requires
        form.typed(),
    ensures
        form.build() matches Some(value) ==> form.admits(value),
{
    lemma_built_is_admitted(form);
}

/// The values that belong to a form do not change with what is typed into
/// it.
pub proof fn law_update_keeps_admits(form: FormView, message: FormMessage, value: ValueView)
    ensures
        form.update(message).admits(value) == form.admits(value),
{
    lemma_form_update_keeps_admits(form, message);
}

} // verus!
