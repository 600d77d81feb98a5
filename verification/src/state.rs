//! The model of a form: what a form holds, as mathematical values, and how
//! a message changes it.

use vstd::prelude::*;
use crate::buffer::{spec_finalize, spec_set_field};
use crate::form_field::{EditorView, Message};
use crate::message::FormMessage;
use crate::plan::{Artifact, Entry, FieldPlan, RecordPlan, UnionPlan, UnitPlan, ValueKind};
use crate::schema::texts;
use crate::scalar::{ScalarKind, ScalarValue, ScalarView};
use crate::value::ValueView;

verus! {

/// What a record form holds for one field. A boolean field has no state of
/// its own but the label it is shown under: its value lives in the buffer
/// alone.
pub enum FieldStateView {
    Flag(Seq<char>),
    Editor(ScalarKind, EditorView<ScalarView>),
    Nested(FormView),
}

/// What a record form holds: the slots of its buffer and the states of its
/// fields, in the order of declaration.
pub struct RecordView {
    pub slots: Seq<Option<ValueView>>,
    pub fields: Seq<FieldStateView>,
}

/// What the form that holds the payload form holds: the position and the
/// name of the variant in use, and its payload form where the variant has a
/// payload.
pub struct EnumView {
    pub variant: nat,
    pub ident: Seq<char>,
    pub payload: Option<RecordView>,
}

/// What a single choice holds: the label it is shown under, the texts of
/// the variants to choose from, and the position of the variant chosen.
pub struct UnitView {
    pub title: Seq<char>,
    pub labels: Seq<Seq<char>>,
    pub selected: Option<nat>,
}

/// What a union form holds: its selector, the names of its variants, for
/// each variant the payload form with which a selection of it starts, and
/// the form of the payload in progress.
pub struct UnionView {
    pub selector: UnitView,
    pub idents: Seq<Seq<char>>,
    pub fresh: Seq<Option<RecordView>>,
    pub form: Option<EnumView>,
}

/// What a form holds.
pub enum FormView {
    Record(RecordView),
    Union(UnionView),
    Unit(UnitView),
}

/// The variant that `value` chooses among `count` variants without
/// payload, if it is one of them.
pub open spec fn unit_choice(value: ValueView, count: nat) -> Option<nat> {
    match value {
        ValueView::Variant(tag, fields) => if tag < count && fields.len() == 0 {
            Some(tag)
        } else {
            None
        },
        _ => None,
    }
}

impl UnitView {
    /// The choice after a message: the complete value of one of the variants
    /// chooses it; any other message changes nothing.
    pub open spec fn update(self, message: FormMessage) -> UnitView {
        match message {
            FormMessage::Complete(value) => match unit_choice(value@, self.labels.len()) {
                Some(tag) => UnitView { selected: Some(tag), ..self },
                None => self,
            },
            _ => self,
        }
    }

    /// The variant chosen, once one is.
    pub open spec fn build(self) -> Option<ValueView> {
        match self.selected {
            Some(tag) => Some(ValueView::Variant(tag, Seq::empty())),
            None => None,
        }
    }
}

impl RecordView {
    /// Whether `edit` is an edit that the editor of the field at `field`
    /// takes: the field is a scalar field, and the value that the edit
    /// carries, if it carries one, is of the field's kind.
    pub open spec fn takes_edit(self, field: int, edit: Message<ScalarValue>) -> bool {
        &&& 0 <= field < self.fields.len()
        &&& self.fields[field] is Editor
        &&& edit matches Message::Value((value, _)) ==> self.fields[field]->Editor_0.spec_admits(value@)
    }

    /// The form after a message. A toggle goes straight into the buffer. An
    /// edit goes to the field's editor, and the value it carries, if it
    /// carries one, into the buffer. A nested message goes to the nested
    /// form, and that form's complete value, once it has one, into the
    /// buffer. A message that names no field of its sort, or carries a
    /// value that is not of the field's kind, changes nothing.
    pub open spec fn update(self, message: FormMessage) -> RecordView
        decreases message, 0int,
    {
        match message {
            FormMessage::Flag(field, flag) => if field < self.fields.len() && self.fields[field as int] is Flag {
                RecordView { slots: spec_set_field(self.slots, field as int, ValueView::Flag(flag)), ..self }
            } else {
                self
            },
            FormMessage::Field(field, edit) => if self.takes_edit(field as int, edit) {
                RecordView {
                    slots: match edit {
                        Message::Value((value, _)) => spec_set_field(
                            self.slots,
                            field as int,
                            ValueView::Scalar(value@),
                        ),
                        Message::Input { .. } => self.slots,
                    },
                    fields: self.fields.update(
                        field as int,
                        FieldStateView::Editor(
                            self.fields[field as int]->Editor_0,
                            self.fields[field as int]->Editor_1.update(edit@),
                        ),
                    ),
                }
            } else {
                self
            },
            FormMessage::Nested(field, inner) => if field < self.fields.len() && self.fields[field as int] is Nested {
                let nested = self.fields[field as int]->Nested_0.update(*inner);
                RecordView {
                    slots: match nested.build() {
                        Some(value) => spec_set_field(self.slots, field as int, value),
                        None => self.slots,
                    },
                    fields: self.fields.update(field as int, FieldStateView::Nested(nested)),
                }
            } else {
                self
            },
            _ => self,
        }
    }

    /// The complete record, where every field has a value.
    pub open spec fn build(self) -> Option<ValueView> {
        spec_finalize(self.slots)
    }
}

impl EnumView {
    /// The form after a message: a message to the payload form of the
    /// variant in use goes to that form; any other changes nothing.
    pub open spec fn update(self, message: FormMessage) -> EnumView
        decreases message, 0int,
    {
        match message {
            FormMessage::Variant(variant, inner) => if variant == self.variant && self.payload is Some {
                EnumView { payload: Some(self.payload->Some_0.update(*inner)), ..self }
            } else {
                self
            },
            _ => self,
        }
    }

    /// The complete value of the variant in use: the variant itself where it
    /// has no payload, else the variant with the fields of its payload
    /// record, once that record is complete.
    pub open spec fn build(self) -> Option<ValueView> {
        match self.payload {
            Some(payload) => match payload.build() {
                Some(ValueView::Record(fields)) => Some(ValueView::Variant(self.variant, fields)),
                _ => None,
            },
            None => Some(ValueView::Variant(self.variant, Seq::empty())),
        }
    }
}

impl UnionView {
    /// The form after the variant at `variant` is selected: the payload form
    /// is replaced by the one with which the variant starts, whatever was
    /// there before.
    pub open spec fn select(self, variant: nat) -> UnionView {
        UnionView {
            selector: UnitView { selected: Some(variant), ..self.selector },
            form: Some(
                EnumView { variant, ident: self.idents[variant as int], payload: self.fresh[variant as int] },
            ),
            ..self
        }
    }

    /// Whether the payload form, if any, is that of the variant selected,
    /// and there is none while nothing is selected.
    pub open spec fn follows_selector(self) -> bool {
        match self.form {
            Some(form) => self.selector.selected == Some(form.variant),
            None => self.selector.selected is None,
        }
    }

    /// The form after a message. A message to the selector that chooses a
    /// variant selects it. A message to the payload goes to the form of the
    /// payload in progress, if there is one. Any other changes nothing.
    pub open spec fn update(self, message: FormMessage) -> UnionView
        decreases message, 0int,
    {
        match message {
            FormMessage::PickList(inner) => match *inner {
                FormMessage::Complete(value) => match unit_choice(value@, self.selector.labels.len()) {
                    Some(variant) => self.select(variant),
                    None => self,
                },
                _ => self,
            },
            FormMessage::Form(inner) => match self.form {
                Some(form) => UnionView { form: Some(form.update(*inner)), ..self },
                None => self,
            },
            _ => self,
        }
    }

    /// The complete value of the variant selected, once it has one.
    pub open spec fn build(self) -> Option<ValueView> {
        match self.form {
            Some(form) => form.build(),
            None => None,
        }
    }
}

impl FormView {
    /// The form after a message.
    pub open spec fn update(self, message: FormMessage) -> FormView
        decreases message, 1int,
    {
        match self {
            FormView::Record(form) => FormView::Record(form.update(message)),
            FormView::Union(form) => FormView::Union(form.update(message)),
            FormView::Unit(form) => FormView::Unit(form.update(message)),
        }
    }

    /// The complete value, once the form has one.
    pub open spec fn build(self) -> Option<ValueView> {
        match self {
            FormView::Record(form) => form.build(),
            FormView::Union(form) => form.build(),
            FormView::Unit(form) => form.build(),
        }
    }
}

/// A message leaves the selector's variants, the variants' names and the
/// payload forms with which selections start as they were.
pub proof fn lemma_update_keeps_variants(union: UnionView, message: FormMessage)
    ensures
        union.update(message).selector.labels == union.selector.labels,
        union.update(message).selector.title == union.selector.title,
        union.update(message).idents == union.idents,
        union.update(message).fresh == union.fresh,
{
}

/// The state with which the field of a record form starts: nothing for a
/// boolean, an empty editor under the field's label for a scalar, the fresh
/// form of its type for a nested field.
pub open spec fn fresh_field(entries: Seq<Entry>, field: FieldPlan, bound: nat) -> FieldStateView
    decreases bound, 0int,
{
    match field.kind {
        ValueKind::Boolean => FieldStateView::Flag(field.label@),
        ValueKind::Scalar(kind) => FieldStateView::Editor(kind, EditorView::fresh(field.label@)),
        ValueKind::NestedRecord(place) | ValueKind::NestedUnion(place) | ValueKind::UnitUnion(place) => if place
            < bound {
            FieldStateView::Nested(fresh_form(entries, place as nat))
        } else {
            FieldStateView::Flag(field.label@)
        },
    }
}

/// The state with which a record form starts: every slot empty, every field
/// fresh.
pub open spec fn fresh_record(entries: Seq<Entry>, plan: RecordPlan, bound: nat) -> RecordView
    decreases bound, 1int,
{
    RecordView {
        slots: Seq::new(plan.fields@.len(), |i: int| None::<ValueView>),
        fields: Seq::new(plan.fields@.len(), |i: int| fresh_field(entries, plan.fields@[i], bound)),
    }
}

/// The payload forms with which the variants of a union start: none for a
/// variant without payload.
pub open spec fn fresh_payloads(entries: Seq<Entry>, plan: UnionPlan, bound: nat) -> Seq<Option<RecordView>>
    decreases bound, 2int,
{
    Seq::new(
        plan.builders@.len(),
        |k: int|
            match plan.builders@[k] {
                Some(payload) => Some(fresh_record(entries, payload, bound)),
                None => None,
            },
    )
}

/// The state with which a single choice starts: nothing chosen.
pub open spec fn fresh_unit(plan: UnitPlan) -> UnitView {
    UnitView { title: plan.label@, labels: texts(plan.labels@), selected: None }
}

/// The state with which a union form starts: nothing selected, no payload
/// form.
pub open spec fn fresh_union(entries: Seq<Entry>, plan: UnionPlan, bound: nat) -> UnionView
    decreases bound, 3int,
{
    UnionView {
        selector: fresh_unit(plan.kinds),
        idents: texts(plan.kinds.variants@),
        fresh: fresh_payloads(entries, plan, bound),
        form: None,
    }
}

/// The state with which the form of the plan at `place` starts: nothing
/// typed, nothing set, nothing selected.
pub open spec fn fresh_form(entries: Seq<Entry>, place: nat) -> FormView
    decreases place, 4int,
{
    if place < entries.len() {
        match entries[place as int].artifact {
            Artifact::Record(plan) => FormView::Record(fresh_record(entries, plan, place)),
            Artifact::Union(plan) => FormView::Union(fresh_union(entries, plan, place)),
            Artifact::Unit(plan) => FormView::Unit(fresh_unit(plan)),
        }
    } else {
        FormView::Unit(UnitView { title: Seq::empty(), labels: Seq::empty(), selected: None })
    }
}

} // verus!
