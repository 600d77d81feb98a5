//! Forms: the editing state derived for a schema. A form starts fresh, takes
//! messages, and hands over the complete value once there is one.

use vstd::prelude::*;
use crate::buffer::Buffer;
use crate::form_field::{EditorView, FormField, Message};
use crate::fragment::{fragment_views, lemma_fragment_views, submit, Fragment, Route};
use crate::message::FormMessage;
use crate::plan::{Artifact, RecordPlan, UnionPlan, UnitPlan, ValueKind};
use crate::registry::Registry;
use crate::scalar::{ScalarKind, ScalarValue};
use crate::schema::{clone_strings, texts};
use crate::state::{
    fresh_field,
    fresh_form,
    fresh_payloads,
    fresh_record,
    fresh_union,
    fresh_unit,
    EnumView,
    FieldStateView,
    FormView,
    RecordView,
    UnionView,
    UnitView,
};
use crate::typing::{
    lemma_built_is_admitted,
    lemma_fresh_record_is_typed,
    lemma_fresh_union_is_typed,
    lemma_record_update_keeps_typed,
    lemma_union_update_keeps_typed,
};
use crate::value::{lemma_value_views, opt_view, value_views, Value, ValueView};

verus! {

/// What a record form holds for one field.
#[derive(Debug)]
pub enum FieldState<'a> {
    /// A boolean field, with its label: its value lives in the buffer
    /// alone.
    Flag(String),
    /// A scalar field: its kind, and its editor.
    Editor(ScalarKind, FormField<ScalarValue>),
    /// A nested field: the form of its type.
    Nested(Form<'a>),
}

/// The form of a record: a buffer, and the state of each field.
#[derive(Debug)]
pub struct RecordForm<'a> {
    plan: &'a RecordPlan,
    builder: Buffer,
    fields: Vec<FieldState<'a>>,
}

/// The form that holds the payload form of the variant in use.
#[derive(Debug)]
pub struct EnumForm<'a> {
    plan: &'a UnionPlan,
    variant: usize,
    payload: Option<RecordForm<'a>>,
}

/// The form of a union whose variants carry no payload: a single choice.
#[derive(Debug)]
pub struct UnitForm<'a> {
    plan: &'a UnitPlan,
    selected: Option<usize>,
}

/// The form of a union: a selector over the variants, and the form of the
/// payload of the variant selected.
#[derive(Debug)]
pub struct UnionForm<'a> {
    registry: &'a Registry,
    plan: &'a UnionPlan,
    bound: usize,
    pick_list: UnitForm<'a>,
    form: Option<EnumForm<'a>>,
}

/// A form of any of the three sorts.
#[derive(Debug)]
pub enum Form<'a> {
    Record(RecordForm<'a>),
    Union(UnionForm<'a>),
    Unit(UnitForm<'a>),
}

/// The content of a form.
pub closed spec fn form_view(form: Form) -> FormView
    decreases form,
{
    match form {
        Form::Record(record) => FormView::Record(record_view(record)),
        Form::Union(union) => FormView::Union(union_view(union)),
        Form::Unit(unit) => FormView::Unit(unit_view(unit)),
    }
}

/// The content of a record form.
pub closed spec fn record_view(form: RecordForm) -> RecordView
    decreases form,
{
    RecordView { slots: form.builder@, fields: state_views(form.fields@) }
}

/// The contents of the states of the fields of a record form.
pub closed spec fn state_views(states: Seq<FieldState>) -> Seq<FieldStateView>
    decreases states,
{
    if states.len() == 0 {
        Seq::empty()
    } else {
        state_views(states.drop_last()).push(state_view(states.last()))
    }
}

/// The content of the state of a field.
pub closed spec fn state_view(state: FieldState) -> FieldStateView
    decreases state,
{
    match state {
        FieldState::Flag(label) => FieldStateView::Flag(label@),
        FieldState::Editor(kind, editor) => FieldStateView::Editor(kind, editor.state()),
        FieldState::Nested(form) => FieldStateView::Nested(form_view(form)),
    }
}

/// The content of the form that holds a payload form.
pub closed spec fn enum_view(form: EnumForm) -> EnumView
    decreases form,
{
    EnumView {
        variant: form.variant as nat,
        ident: form.plan.kinds.variants@[form.variant as int]@,
        payload: match form.payload {
            Some(payload) => Some(record_view(payload)),
            None => None,
        },
    }
}

/// The content of a single choice.
pub closed spec fn unit_view(form: UnitForm) -> UnitView {
    UnitView {
        title: form.plan.label@,
        labels: texts(form.plan.labels@),
        selected: match form.selected {
            Some(tag) => Some(tag as nat),
            None => None,
        },
    }
}

/// The content of a union form.
pub closed spec fn union_view(form: UnionForm) -> UnionView
    decreases form,
{
    UnionView {
        selector: unit_view(form.pick_list),
        idents: texts(form.plan.kinds.variants@),
        fresh: fresh_payloads(form.registry@, *form.plan, form.bound as nat),
        form: match form.form {
            Some(inner) => Some(enum_view(inner)),
            None => None,
        },
    }
}

/// Whether the state of a field is of the sort that the field's kind calls
/// for, and well formed.
pub closed spec fn state_wf(state: FieldState, kind: ValueKind) -> bool
    decreases state,
{
    match state {
        FieldState::Flag(_) => kind is Boolean,
        FieldState::Editor(scalar, _) => kind == ValueKind::Scalar(scalar),
        FieldState::Nested(form) => form_wf(form) && match form {
            Form::Record(_) => kind is NestedRecord,
            Form::Union(_) => kind is NestedUnion,
            Form::Unit(_) => kind is UnitUnion,
        },
    }
}

/// Whether a record form has a slot and a state for each field of its plan,
/// each state of the sort that the field's kind calls for.
pub closed spec fn record_wf(form: RecordForm) -> bool
    decreases form,
{
    &&& form.fields@.len() == form.plan.fields@.len()
    &&& form.builder@.len() == form.fields@.len()
    &&& forall|i: int|
        0 <= i < form.fields@.len() ==> state_wf(#[trigger] form.fields@[i], form.plan.fields@[i].kind)
}

/// Whether the form holds a variant of the union, with a payload form of
/// that variant's plan where the variant has a payload.
pub closed spec fn enum_wf(form: EnumForm) -> bool
    decreases form,
{
    &&& form.plan.wf()
    &&& form.variant < form.plan.builders@.len()
    &&& match form.payload {
        Some(payload) => {
            &&& form.plan.builders@[form.variant as int] is Some
            &&& *payload.plan == form.plan.builders@[form.variant as int]->Some_0
            &&& record_wf(payload)
        },
        None => form.plan.builders@[form.variant as int] is None,
    }
}

/// Whether the choice made, if any, is one of the variants.
pub closed spec fn unit_wf(form: UnitForm) -> bool {
    &&& form.plan.wf()
    &&& form.selected matches Some(tag) ==> tag < form.plan.labels@.len()
}

/// Whether the selector is that of the union, and the payload form, if
/// any, that of the variant selected.
pub closed spec fn union_wf(form: UnionForm) -> bool
    decreases form,
{
    &&& form.registry.wf()
    &&& form.plan.wf()
    &&& form.bound <= form.registry@.len()
    &&& form.plan.resolves_in(form.registry@, form.bound as int)
    &&& *form.pick_list.plan == form.plan.kinds
    &&& unit_wf(form.pick_list)
    &&& match form.form {
        Some(inner) => {
            &&& form.pick_list.selected == Some(inner.variant)
            &&& *inner.plan == *form.plan
            &&& enum_wf(inner)
        },
        None => form.pick_list.selected is None,
    }
}

/// Whether a form is well formed.
pub closed spec fn form_wf(form: Form) -> bool
    decreases form,
{
    match form {
        Form::Record(record) => record_wf(record),
        Form::Union(union) => union_wf(union),
        Form::Unit(unit) => unit_wf(unit),
    }
}

/// The contents of the states are the contents of each state, one for one.
proof fn lemma_state_views(states: Seq<FieldState>)
    ensures
        state_views(states).len() == states.len(),
        forall|i: int| 0 <= i < states.len() ==> #[trigger] state_views(states)[i] == state_view(states[i]),
    decreases states.len(),
{
    if states.len() > 0 {
        lemma_state_views(states.drop_last());
        assert(state_views(states) == state_views(states.drop_last()).push(state_view(states.last())));
    } else {
        assert(state_views(states) == Seq::<FieldStateView>::empty());
    }
}

impl<'a> FieldState<'a> {
    /// What the state holds.
    pub closed spec fn state(&self) -> FieldStateView {
        state_view(*self)
    }
}

impl<'a> UnitForm<'a> {
    /// What the form holds.
    pub closed spec fn state(&self) -> UnitView {
        unit_view(*self)
    }

    /// Whether the form is well formed.
    pub closed spec fn wf(&self) -> bool {
        unit_wf(*self)
    }

    /// The plan of which this is the form.
    pub closed spec fn spec_plan(&self) -> UnitPlan {
        *self.plan
    }

    /// A fresh choice among the variants of `plan`: nothing chosen.
    pub(crate) fn new(plan: &'a UnitPlan) -> (form: Self)
        requires
            plan.wf(),
        ensures
            form.wf(),
            form.spec_plan() == *plan,
            form.state() == fresh_unit(*plan),
    {
        UnitForm { plan, selected: None }
    }

    /// The position of the variant chosen, if one is.
    pub fn selected(&self) -> (selected: Option<usize>)
        ensures
            match selected {
                Some(tag) => self.state().selected == Some(tag as nat),
                None => self.state().selected is None,
            },
    {
        self.selected
    }

    /// Takes a message: the complete value of one of the variants chooses
    /// that variant; any other message changes nothing.
    pub fn update(&mut self, message: FormMessage)
        requires
            old(self).wf(),
        ensures
            final(self).wf(),
            final(self).spec_plan() == old(self).spec_plan(),
            final(self).state() == old(self).state().update(message),
    {
        match message {
            FormMessage::Complete(Value::Variant(tag, fields)) => {
                proof {
                    lemma_value_views(fields@);
                }
                if tag < self.plan.labels.len() && fields.len() == 0 {
                    self.selected = Some(tag);
                }
            },
            _ => {},
        }
    }

    /// The choice as shown inside another form: its label, and a picker
    /// over the variants with the chosen one marked.
    pub fn view_nested(&self) -> (fragment: Fragment)
        ensures
            fragment@ == self.state().render(),
    {
        let mut parts: Vec<Fragment> = Vec::new();
        parts.push(Fragment::Text(self.plan.label.clone()));
        parts.push(Fragment::PickList { options: clone_strings(&self.plan.labels), selected: self.selected });
        proof {
            lemma_fragment_views(parts@);
            assert(fragment_views(parts@) =~= self.state().render()->Row_0);
        }
        Fragment::Row(parts)
    }

    /// The choice as shown on its own: as inside another form.
    pub fn view(&self) -> (fragment: Fragment)
        ensures
            fragment@ == self.state().render(),
    {
        self.view_nested()
    }

    /// The variant chosen, once one is.
    pub fn build(&self) -> (built: Option<Value>)
        ensures
            opt_view(built) == self.state().build(),
    {
        match self.selected {
            Some(tag) => {
                let fields: Vec<Value> = Vec::new();
                proof {
                    lemma_value_views(fields@);
                    assert(value_views(fields@) =~= Seq::<ValueView>::empty());
                }
                Some(Value::Variant(tag, fields))
            },
            None => None,
        }
    }
}

impl<'a> RecordForm<'a> {
    /// What the form holds.
    pub closed spec fn state(&self) -> RecordView {
        record_view(*self)
    }

    /// Whether the form is well formed.
    pub closed spec fn wf(&self) -> bool {
        record_wf(*self) && record_view(*self).typed()
    }

    /// A well-formed form holds only values that belong to it.
    pub proof fn lemma_typed(&self)
        requires
            self.wf(),
        ensures
            self.state().typed(),
    {
    }

    /// The plan of which this is the form.
    pub closed spec fn spec_plan(&self) -> RecordPlan {
        *self.plan
    }

    /// A fresh form of the record `plan`, whose nested fields refer to the
    /// plans of `registry` below `bound`: every slot empty, every field
    /// fresh.
    pub(crate) fn new(registry: &'a Registry, plan: &'a RecordPlan, bound: usize) -> (form: Self)
        requires
            registry.wf(),
            bound <= registry@.len(),
            plan.resolves_in(registry@, bound as int),
        ensures
            form.wf(),
            form.spec_plan() == *plan,
            form.state() == fresh_record(registry@, *plan, bound as nat),
        decreases bound, 1int,
    {
        let n: usize = plan.fields.len();
        let mut fields: Vec<FieldState<'a>> = Vec::new();
        let mut i: usize = 0;
        while i < n
            invariant
                i <= n,
                n == plan.fields@.len(),
                registry.wf(),
                bound <= registry@.len(),
                plan.resolves_in(registry@, bound as int),
                fields@.len() == i,
                forall|j: int|
                    0 <= j < i ==> state_view(#[trigger] fields@[j]) == fresh_field(
                        registry@,
                        plan.fields@[j],
                        bound as nat,
                    ),
                forall|j: int| 0 <= j < i ==> state_wf(#[trigger] fields@[j], plan.fields@[j].kind),
            decreases n - i,
        {
            let field = &plan.fields[i];
            assert(field.kind.resolves_in(registry@, bound as int));
            let state = match field.kind {
                ValueKind::Boolean => FieldState::Flag(field.label.clone()),
                ValueKind::Scalar(kind) => {
                    let editor: FormField<ScalarValue> = FormField::new(field.label.as_str());
                    assert(editor.state() == EditorView::<crate::scalar::ScalarView>::fresh(field.label@));
                    FieldState::Editor(kind, editor)
                },
                ValueKind::NestedRecord(place) => FieldState::Nested(Form::fresh(registry, place)),
                ValueKind::NestedUnion(place) => FieldState::Nested(Form::fresh(registry, place)),
                ValueKind::UnitUnion(place) => FieldState::Nested(Form::fresh(registry, place)),
            };
            fields.push(state);
            i = i + 1;
        }
        let form = RecordForm { plan, builder: Buffer::new(n), fields };
        proof {
            lemma_state_views(form.fields@);
            assert(form.state().fields =~= fresh_record(registry@, *plan, bound as nat).fields);
            assert(form.state().slots =~= fresh_record(registry@, *plan, bound as nat).slots);
            lemma_fresh_record_is_typed(registry@, *plan, bound as nat);
        }
        form
    }

    /// The plan of which this is the form.
    pub fn plan(&self) -> (plan: &'a RecordPlan)
        ensures
            *plan == self.spec_plan(),
    {
        self.plan
    }

    /// The buffer in which the record is put together.
    pub fn builder(&self) -> (builder: &Buffer)
        ensures
            builder@ == self.state().slots,
    {
        &self.builder
    }

    /// The editor of the field at `field`, where that is a scalar field.
    pub fn editor(&self, field: usize) -> (editor: Option<&FormField<ScalarValue>>)
        ensures
            match editor {
                Some(editor) => {
                    &&& field < self.state().fields.len()
                    &&& self.state().fields[field as int] is Editor
                    &&& self.state().fields[field as int]->Editor_1 == editor.state()
                },
                None => !(field < self.state().fields.len() && self.state().fields[field as int] is Editor),
            },
    {
        proof {
            lemma_state_views(self.fields@);
        }
        if field < self.fields.len() {
            match &self.fields[field] {
                FieldState::Editor(_, editor) => Some(editor),
                _ => None,
            }
        } else {
            None
        }
    }

    /// The form of the field at `field`, where that is a nested field.
    pub fn nested(&self, field: usize) -> (nested: Option<&Form<'a>>)
        requires
            self.wf(),
        ensures
            match nested {
                Some(nested) => {
                    &&& field < self.state().fields.len()
                    &&& self.state().fields[field as int] == FieldStateView::Nested(nested.state())
                    &&& nested.wf()
                },
                None => !(field < self.state().fields.len() && self.state().fields[field as int] is Nested),
            },
    {
        proof {
            lemma_state_views(self.fields@);
        }
        if field < self.fields.len() {
            match &self.fields[field] {
                FieldState::Nested(nested) => Some(nested),
                _ => None,
            }
        } else {
            None
        }
    }

    /// The message that typing `input` into the editor of the field at
    /// `field` sends to this form: the edit that the field's kind reports,
    /// in the field's case. There is none where the field is no scalar
    /// field. `float` is what the host's floating-point parser made of
    /// `input`; it is consulted for the floating-point kinds only.
    pub fn on_input(&self, field: usize, input: String, float: Option<u64>) -> (message: Option<FormMessage>)
        ensures
            match message {
                Some(message) => {
                    &&& field < self.state().fields.len()
                    &&& self.state().fields[field as int] is Editor
                    &&& message matches FormMessage::Field(position, edit)
                    &&& position == field
                    &&& self.state().fields[field as int]->Editor_0.reports(input, float, edit)
                },
                None => !(field < self.state().fields.len() && self.state().fields[field as int] is Editor),
            },
    {
        proof {
            lemma_state_views(self.fields@);
        }
        if field < self.fields.len() {
            match &self.fields[field] {
                FieldState::Editor(kind, _) => Some(FormMessage::Field(field, kind.on_input(input, float))),
                _ => None,
            }
        } else {
            None
        }
    }

    /// The fields as shown, in the order of declaration.
    fn view_fields(&self) -> (parts: Vec<Fragment>)
        requires
            self.wf(),
        ensures
            fragment_views(parts@) == self.state().render_fields(self.state().fields.len()),
        decreases self, 0int,
    {
        let n: usize = self.fields.len();
        let mut parts: Vec<Fragment> = Vec::new();
        let mut i: usize = 0;
        proof {
            lemma_state_views(self.fields@);
            lemma_fragment_views(parts@);
            assert(fragment_views(parts@) =~= self.state().render_fields(0));
        }
        while i < n
            invariant
                i <= n,
                n == self.fields@.len(),
                n == self.state().fields.len(),
                self.wf(),
                fragment_views(parts@) == self.state().render_fields(i as nat),
            decreases n - i,
        {
            let ghost before = parts@;
            proof {
                lemma_state_views(self.fields@);
                assert(self.state().fields[i as int] == state_view(self.fields@[i as int]));
            }
            let part = match &self.fields[i] {
                FieldState::Flag(label) => Fragment::Toggler {
                    label: label.clone(),
                    on: self.builder.flag(i),
                    field: i,
                },
                FieldState::Editor(kind, editor) => Fragment::Mapped(
                    Route::Field(i, *kind),
                    Box::new(editor.view()),
                ),
                FieldState::Nested(form) => Fragment::Mapped(Route::Nested(i), Box::new(form.view_nested())),
            };
            proof {
                lemma_state_views(self.fields@);
                assert(part@ == self.state().render_field(i as int));
            }
            parts.push(part);
            proof {
                lemma_fragment_views(parts@);
                lemma_fragment_views(before);
                assert(fragment_views(parts@) =~= fragment_views(before).push(part@));
                assert(self.state().render_fields((i + 1) as nat) == self.state().render_fields(i as nat).push(
                    self.state().render_field(i as int),
                ));
            }
            i = i + 1;
        }
        parts
    }

    /// The form as shown inside another: its fields one below the other, in
    /// the order of declaration.
    pub fn view_nested(&self) -> (fragment: Fragment)
        requires
            self.wf(),
        ensures
            fragment@ == self.state().render_nested(),
        decreases self, 1int,
    {
        Fragment::Column(self.view_fields())
    }

    /// The form as shown on its own: its fields, then the button that
    /// submits it. The button can be pressed only where the buffer
    /// finalizes, and hands over the complete record.
    pub fn view(&self) -> (fragment: Fragment)
        requires
            self.wf(),
        ensures
            fragment@ == self.state().render(),
    {
        let mut parts = self.view_fields();
        let ghost fields = parts@;
        let button = submit(self.build());
        parts.push(button);
        proof {
            lemma_fragment_views(parts@);
            lemma_fragment_views(fields);
            assert(fragment_views(parts@) =~= fragment_views(fields).push(button@));
        }
        Fragment::Column(parts)
    }

    /// The complete record, where every field has a value.
    pub fn build(&self) -> (built: Option<Value>)
        ensures
            opt_view(built) == self.state().build(),
            built matches Some(value) ==> value is Record,
    {
        match self.builder.finalize() {
            Ok(value) => Some(value),
            Err(_) => None,
        }
    }

    /// Takes a message. A toggle goes straight into the buffer. An edit
    /// goes to the field's editor, and the value it carries, if it carries
    /// one, into the buffer. A nested message goes to the nested form, and
    /// that form's complete value, once it has one, into the buffer. A
    /// message that names no field of its sort, or carries a value that is
    /// not of the field's kind, changes nothing.
    pub fn update(&mut self, message: FormMessage)
        requires
            old(self).wf(),
        ensures
            final(self).wf(),
            final(self).spec_plan() == old(self).spec_plan(),
            final(self).state() == old(self).state().update(message),
        decreases message, 0int,
    {
        let ghost sent = message;
        proof {
            lemma_state_views(self.fields@);
            lemma_record_update_keeps_typed(self.state(), sent);
        }
        match message {
            FormMessage::Flag(field, flag) => {
                if field < self.fields.len() {
                    let is_flag = match &self.fields[field] {
                        FieldState::Flag(_) => true,
                        _ => false,
                    };
                    if is_flag {
                        self.builder.set_field(field, Value::Flag(flag));
                    }
                }
                assert(record_wf(*self));
                assert(self.state() == old(self).state().update(sent));
            },
            FormMessage::Field(field, edit) => {
                if field < self.fields.len() {
                    let value = match &edit {
                        Message::Value((value, _)) => Some(Value::Scalar(value.duplicate())),
                        Message::Input { .. } => None,
                    };
                    let mut edited = false;
                    match &mut self.fields[field] {
                        FieldState::Editor(kind, editor) => {
                            let taken = match &edit {
                                Message::Value((value, _)) => kind.admits(value),
                                Message::Input { .. } => true,
                            };
                            if taken {
                                editor.update(edit);
                                edited = true;
                            }
                        },
                        _ => {},
                    }
                    if edited {
                        match value {
                            Some(value) => {
                                self.builder.set_field(field, value);
                            },
                            None => {},
                        }
                    }
                    proof {
                        lemma_state_views(self.fields@);
                        if edited {
                            assert(self.state().fields =~= old(self).state().update(sent).fields);
                        }
                    }
                }
                assert(record_wf(*self));
                assert(self.state().slots == old(self).state().update(sent).slots);
                assert(self.state().fields == old(self).state().update(sent).fields);
            },
            FormMessage::Nested(field, inner) => {
                if field < self.fields.len() {
                    let mut built: Option<Value> = None;
                    match &mut self.fields[field] {
                        FieldState::Nested(form) => {
                            form.update(*inner);
                            built = form.build();
                        },
                        _ => {},
                    }
                    match built {
                        Some(value) => {
                            self.builder.set_field(field, value);
                        },
                        None => {},
                    }
                    proof {
                        lemma_state_views(self.fields@);
                        assert(self.state().fields =~= old(self).state().update(sent).fields);
                    }
                }
                assert(record_wf(*self));
                assert(self.state().slots == old(self).state().update(sent).slots);
                assert(self.state().fields == old(self).state().update(sent).fields);
            },
            _ => {},
        }
    }
}

impl<'a> EnumForm<'a> {
    /// What the form holds.
    pub closed spec fn state(&self) -> EnumView {
        enum_view(*self)
    }

    /// Whether the form is well formed.
    pub closed spec fn wf(&self) -> bool {
        enum_wf(*self) && (self.payload matches Some(payload) ==> record_view(payload).typed())
    }

    /// The plan of the union of which this form holds a variant.
    pub closed spec fn spec_plan(&self) -> UnionPlan {
        *self.plan
    }

    /// The form with which a selection of the variant at `variant` starts:
    /// a fresh payload form where the variant has a payload.
    pub(crate) fn new(registry: &'a Registry, plan: &'a UnionPlan, bound: usize, variant: usize) -> (form: Self)
        requires
            registry.wf(),
            bound <= registry@.len(),
            plan.wf(),
            plan.resolves_in(registry@, bound as int),
            variant < plan.builders@.len(),
        ensures
            form.wf(),
            form.spec_plan() == *plan,
            form.state() == fresh_union(registry@, *plan, bound as nat).select(variant as nat).form->Some_0,
    {
        let payload = match &plan.builders[variant] {
            Some(record) => Some(RecordForm::new(registry, record, bound)),
            None => None,
        };
        EnumForm { plan, variant, payload }
    }

    /// The position of the variant in use.
    pub fn variant(&self) -> (variant: usize)
        ensures
            variant == self.state().variant,
    {
        self.variant
    }

    /// The payload form, where the variant in use has a payload.
    pub fn payload(&self) -> (payload: Option<&RecordForm<'a>>)
        requires
            self.wf(),
        ensures
            match payload {
                Some(payload) => self.state().payload == Some(payload.state()) && payload.wf(),
                None => self.state().payload is None,
            },
    {
        match &self.payload {
            Some(payload) => Some(payload),
            None => None,
        }
    }

    /// Takes a message: a message to the payload form of the variant in use
    /// goes to that form; any other changes nothing.
    pub fn update(&mut self, message: FormMessage)
        requires
            old(self).wf(),
        ensures
            final(self).wf(),
            final(self).spec_plan() == old(self).spec_plan(),
            final(self).state().variant == old(self).state().variant,
            final(self).state() == old(self).state().update(message),
        decreases message, 0int,
    {
        match message {
            FormMessage::Variant(variant, inner) => {
                if variant == self.variant {
                    match &mut self.payload {
                        Some(payload) => {
                            payload.update(*inner);
                        },
                        None => {},
                    }
                }
            },
            _ => {},
        }
    }

    /// The form as shown inside another: the payload form of the variant in
    /// use; for a variant without payload, its name.
    pub fn view_nested(&self) -> (fragment: Fragment)
        requires
            self.wf(),
        ensures
            fragment@ == self.state().render_nested(),
        decreases self, 1int,
    {
        match &self.payload {
            Some(payload) => Fragment::Mapped(Route::Variant(self.variant), Box::new(payload.view_nested())),
            None => Fragment::Text(self.plan.kinds.variants[self.variant].clone()),
        }
    }

    /// The form as shown on its own: as inside another, then the button
    /// that submits it.
    pub fn view(&self) -> (fragment: Fragment)
        requires
            self.wf(),
        ensures
            fragment@ == self.state().render(),
    {
        let mut parts: Vec<Fragment> = Vec::new();
        parts.push(self.view_nested());
        parts.push(submit(self.build()));
        proof {
            lemma_fragment_views(parts@);
            assert(fragment_views(parts@) =~= self.state().render()->Column_0);
        }
        Fragment::Column(parts)
    }

    /// The complete value of the variant in use: the variant itself where it
    /// has no payload, else the variant with the fields of its payload
    /// record, once that record is complete.
    pub fn build(&self) -> (built: Option<Value>)
        ensures
            opt_view(built) == self.state().build(),
    {
        match &self.payload {
            Some(payload) => match payload.build() {
                Some(Value::Record(fields)) => Some(Value::Variant(self.variant, fields)),
                _ => None,
            },
            None => {
                let fields: Vec<Value> = Vec::new();
                proof {
                    lemma_value_views(fields@);
                    assert(value_views(fields@) =~= Seq::<ValueView>::empty());
                }
                Some(Value::Variant(self.variant, fields))
            },
        }
    }
}

impl<'a> UnionForm<'a> {
    /// What the form holds.
    pub closed spec fn state(&self) -> UnionView {
        union_view(*self)
    }

    /// Whether the form is well formed.
    pub closed spec fn wf(&self) -> bool {
        union_wf(*self) && union_view(*self).typed()
    }

    /// A well-formed form holds only values that belong to it.
    pub proof fn lemma_typed(&self)
        requires
            self.wf(),
        ensures
            self.state().typed(),
    {
    }

    /// A fresh form of the union `plan`, whose payload fields refer to the
    /// plans of `registry` below `bound`: nothing selected, no payload form.
    pub(crate) fn new(registry: &'a Registry, plan: &'a UnionPlan, bound: usize) -> (form: Self)
        requires
            registry.wf(),
            bound <= registry@.len(),
            plan.wf(),
            plan.resolves_in(registry@, bound as int),
        ensures
            form.wf(),
            form.state() == fresh_union(registry@, *plan, bound as nat),
    {
        proof {
            lemma_fresh_union_is_typed(registry@, *plan, bound as nat);
        }
        UnionForm { registry, plan, bound, pick_list: UnitForm::new(&plan.kinds), form: None }
    }

    /// The selector over the variants.
    pub fn pick_list(&self) -> (selector: &UnitForm<'a>)
        requires
            self.wf(),
        ensures
            selector.state() == self.state().selector,
            selector.wf(),
    {
        &self.pick_list
    }

    /// The form of the payload in progress, once a variant is selected.
    pub fn form(&self) -> (form: Option<&EnumForm<'a>>)
        requires
            self.wf(),
        ensures
            match form {
                Some(form) => self.state().form == Some(form.state()) && form.wf(),
                None => self.state().form is None,
            },
    {
        match &self.form {
            Some(form) => Some(form),
            None => None,
        }
    }

    /// Takes a message. A message to the selector that chooses a variant
    /// selects it: the payload form is replaced by the one with which the
    /// variant starts, and whatever was typed into the old one is gone. A
    /// message to the payload goes to the form of the payload in progress,
    /// if there is one. Any other changes nothing.
    pub fn update(&mut self, message: FormMessage)
        requires
            old(self).wf(),
        ensures
            final(self).wf(),
            final(self).state() == old(self).state().update(message),
        decreases message, 0int,
    {
        proof {
            lemma_union_update_keeps_typed(self.state(), message);
        }
        match message {
            FormMessage::PickList(inner) => {
                let chosen = match &*inner {
                    FormMessage::Complete(Value::Variant(tag, fields)) => {
                        proof {
                            lemma_value_views(fields@);
                        }
                        if *tag < self.plan.kinds.labels.len() && fields.len() == 0 {
                            Some(*tag)
                        } else {
                            None
                        }
                    },
                    _ => None,
                };
                match chosen {
                    Some(variant) => {
                        self.form = Some(EnumForm::new(self.registry, self.plan, self.bound, variant));
                        self.pick_list.update(*inner);
                    },
                    None => {},
                }
            },
            FormMessage::Form(inner) => {
                match &mut self.form {
                    Some(form) => {
                        form.update(*inner);
                    },
                    None => {},
                }
            },
            _ => {},
        }
    }

    /// The form as shown inside another: the selector and, below it, the
    /// form of the payload in progress, if there is one.
    pub fn view_nested(&self) -> (fragment: Fragment)
        requires
            self.wf(),
        ensures
            fragment@ == self.state().render_nested(),
        decreases self, 1int,
    {
        let mut parts: Vec<Fragment> = Vec::new();
        parts.push(Fragment::Mapped(Route::PickList, Box::new(self.pick_list.view_nested())));
        match &self.form {
            Some(form) => {
                parts.push(Fragment::Mapped(Route::Form, Box::new(form.view_nested())));
            },
            None => {},
        }
        proof {
            lemma_fragment_views(parts@);
            assert(fragment_views(parts@) =~= self.state().render_nested()->Column_0);
        }
        Fragment::Column(parts)
    }

    /// The form as shown on its own: as inside another, then the button
    /// that submits it.
    pub fn view(&self) -> (fragment: Fragment)
        requires
            self.wf(),
        ensures
            fragment@ == self.state().render(),
    {
        let mut parts: Vec<Fragment> = Vec::new();
        parts.push(self.view_nested());
        parts.push(submit(self.build()));
        proof {
            lemma_fragment_views(parts@);
            assert(fragment_views(parts@) =~= self.state().render()->Column_0);
        }
        Fragment::Column(parts)
    }

    /// The complete value of the variant selected, once it has one.
    pub fn build(&self) -> (built: Option<Value>)
        ensures
            opt_view(built) == self.state().build(),
    {
        match &self.form {
            Some(form) => form.build(),
            None => None,
        }
    }
}

impl<'a> Form<'a> {
    /// What the form holds.
    pub closed spec fn state(&self) -> FormView {
        form_view(*self)
    }

    /// Whether the form is well formed.
    pub closed spec fn wf(&self) -> bool {
        form_wf(*self) && form_view(*self).typed()
    }

    /// A well-formed form holds only values that belong to it.
    pub proof fn lemma_typed(&self)
        requires
            self.wf(),
        ensures
            self.state().typed(),
    {
    }

    /// A fresh form of the plan at `place` in the registry: nothing typed,
    /// nothing set, nothing selected. There is none where the registry has
    /// no plan at `place`.
    pub fn new(registry: &'a Registry, place: usize) -> (form: Option<Self>)
        requires
            registry.wf(),
        ensures
            match form {
                Some(form) => {
                    &&& place < registry@.len()
                    &&& form.wf()
                    &&& form.state() == fresh_form(registry@, place as nat)
                },
                None => place >= registry@.len(),
            },
    {
        if place < registry.len() {
            Some(Form::fresh(registry, place))
        } else {
            None
        }
    }

    /// A fresh form of the plan at `place` in the registry.
    pub(crate) fn fresh(registry: &'a Registry, place: usize) -> (form: Self)
        requires
            registry.wf(),
            place < registry@.len(),
        ensures
            form.wf(),
            form.state() == fresh_form(registry@, place as nat),
        decreases place, 4int,
    {
        match registry.get(place) {
            Some(Artifact::Record(plan)) => Form::Record(RecordForm::new(registry, plan, place)),
            Some(Artifact::Union(plan)) => Form::Union(UnionForm::new(registry, plan, place)),
            Some(Artifact::Unit(plan)) => Form::Unit(UnitForm::new(plan)),
            None => vstd::pervasive::unreached(),
        }
    }

    /// Takes a message, as the sort of the form does.
    pub fn update(&mut self, message: FormMessage)
        requires
            old(self).wf(),
        ensures
            final(self).wf(),
            final(self).state() == old(self).state().update(message),
            *final(self) is Record <==> *old(self) is Record,
            *final(self) is Union <==> *old(self) is Union,
        decreases message, 1int,
    {
        match self {
            Form::Record(form) => form.update(message),
            Form::Union(form) => form.update(message),
            Form::Unit(form) => form.update(message),
        }
    }

    /// The form as shown inside another.
    pub fn view_nested(&self) -> (fragment: Fragment)
        requires
            self.wf(),
        ensures
            fragment@ == self.state().render_nested(),
        decreases self, 1int,
    {
        match self {
            Form::Record(form) => form.view_nested(),
            Form::Union(form) => form.view_nested(),
            Form::Unit(form) => form.view_nested(),
        }
    }

    /// The form as shown on its own, with the button that submits it.
    pub fn view(&self) -> (fragment: Fragment)
        requires
            self.wf(),
        ensures
            fragment@ == self.state().render(),
    {
        match self {
            Form::Record(form) => form.view(),
            Form::Union(form) => form.view(),
            Form::Unit(form) => form.view(),
        }
    }

    /// The complete value, once the form has one. What a well-formed form
    /// hands over is a value of its schema.
    pub fn build(&self) -> (built: Option<Value>)
        ensures
            opt_view(built) == self.state().build(),
            self.wf() ==> (built matches Some(value) ==> self.state().admits(value@)),
    {
        proof {
            if self.wf() {
                lemma_built_is_admitted(self.state());
            }
        }
        match self {
            Form::Record(form) => form.build(),
            Form::Union(form) => form.build(),
            Form::Unit(form) => form.build(),
        }
    }
}

} // verus!
