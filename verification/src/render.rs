//! What a form shows, as a function of what it holds.

use vstd::prelude::*;
use crate::form_field::EditorView;
use crate::fragment::{spec_submit, FragmentView, Route};
use crate::state::{EnumView, FieldStateView, FormView, RecordView, UnionView, UnitView};
use crate::buffer::flag_of;

verus! {

impl<V> EditorView<V> {
    /// The editor as shown: its label, and a text input that holds the text
    /// as typed.
    pub open spec fn render(self) -> FragmentView {
        FragmentView::Row(
            seq![
                FragmentView::Text(self.key),
                FragmentView::TextInput { placeholder: self.text, value: self.text },
            ],
        )
    }
}

impl UnitView {
    /// The choice as shown: its label, and a picker over the variants with
    /// the chosen one marked.
    pub open spec fn render(self) -> FragmentView {
        FragmentView::Row(
            seq![
                FragmentView::Text(self.title),
                FragmentView::PickList { options: self.labels, selected: self.selected },
            ],
        )
    }
}

impl RecordView {
    /// The field at `field` as shown: a toggle for a boolean, the editor
    /// for a scalar, the nested form for a nested field. The messages of an
    /// editor and of a nested form are wrapped in the field's case.
    pub open spec fn render_field(self, field: int) -> FragmentView
        decreases self, 0int,
    {
        if 0 <= field < self.fields.len() {
            match self.fields[field] {
                FieldStateView::Flag(label) => FragmentView::Toggler {
                    label,
                    on: flag_of(self.slots[field]),
                    field: field as nat,
                },
                FieldStateView::Editor(kind, editor) => FragmentView::Mapped(
                    Route::Field(field as usize, kind),
                    Box::new(editor.render()),
                ),
                FieldStateView::Nested(form) => FragmentView::Mapped(
                    Route::Nested(field as usize),
                    Box::new(form.render_nested()),
                ),
            }
        } else {
            FragmentView::Column(Seq::empty())
        }
    }

    /// The first `count` fields as shown, in the order of declaration.
    pub open spec fn render_fields(self, count: nat) -> Seq<FragmentView>
        decreases self, count + 1,
    {
        if count == 0 {
            Seq::empty()
        } else {
            self.render_fields((count - 1) as nat).push(self.render_field(count - 1))
        }
    }

    /// The form as shown inside another: its fields one below the other, in
    /// the order of declaration.
    pub open spec fn render_nested(self) -> FragmentView
        decreases self, self.fields.len() + 2,
    {
        FragmentView::Column(self.render_fields(self.fields.len()))
    }

    /// The form as shown on its own: its fields, then the button that
    /// submits it.
    pub open spec fn render(self) -> FragmentView {
        FragmentView::Column(self.render_fields(self.fields.len()).push(spec_submit(self.build())))
    }
}

impl EnumView {
    /// The form as shown inside another: the payload form of the variant in
    /// use, its messages wrapped in the variant's case; for a variant
    /// without payload, its name.
    pub open spec fn render_nested(self) -> FragmentView
        decreases self, 0int,
    {
        match self.payload {
            Some(payload) => FragmentView::Mapped(
                Route::Variant(self.variant as usize),
                Box::new(payload.render_nested()),
            ),
            None => FragmentView::Text(self.ident),
        }
    }

    /// The form as shown on its own: as inside another, then the button
    /// that submits it.
    pub open spec fn render(self) -> FragmentView {
        FragmentView::Column(seq![self.render_nested(), spec_submit(self.build())])
    }
}

impl UnionView {
    /// The form as shown inside another: the selector and, below it, the
    /// form of the payload in progress, if there is one.
    pub open spec fn render_nested(self) -> FragmentView
        decreases self, 1int,
    {
        let selector = FragmentView::Mapped(Route::PickList, Box::new(self.selector.render()));
        match self.form {
            Some(form) => FragmentView::Column(
                seq![selector, FragmentView::Mapped(Route::Form, Box::new(form.render_nested()))],
            ),
            None => FragmentView::Column(seq![selector]),
        }
    }

    /// The form as shown on its own: as inside another, then the button
    /// that submits it.
    pub open spec fn render(self) -> FragmentView {
        FragmentView::Column(seq![self.render_nested(), spec_submit(self.build())])
    }
}

impl FormView {
    /// The form as shown inside another.
    pub open spec fn render_nested(self) -> FragmentView
        decreases self, 2int,
    {
        match self {
            FormView::Record(form) => form.render_nested(),
            FormView::Union(form) => form.render_nested(),
            FormView::Unit(form) => form.render(),
        }
    }

    /// The form as shown on its own.
    pub open spec fn render(self) -> FragmentView {
        match self {
            FormView::Record(form) => form.render(),
            FormView::Union(form) => form.render(),
            FormView::Unit(form) => form.render(),
        }
    }
}

} // verus!
