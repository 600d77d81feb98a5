//! The messages that forms take.

use vstd::prelude::*;
use crate::form_field::Message;
use crate::scalar::ScalarValue;
use crate::value::{lemma_value_views, value_views, Value, ValueView};

verus! {

/// A message to a form. Which cases a form takes depends on its sort; it
/// ignores the others.
#[derive(Debug, PartialEq, Eq)]
pub enum FormMessage {
    /// To a record: the boolean field at this position was toggled.
    Flag(usize, bool),
    /// To a record: an edit of the scalar field at this position.
    Field(usize, Message<ScalarValue>),
    /// To a record: a message to the form of the nested field at this
    /// position.
    Nested(usize, Box<FormMessage>),
    /// To a union: a message to its selector.
    PickList(Box<FormMessage>),
    /// To a union: a message to the form that holds the payload form.
    Form(Box<FormMessage>),
    /// To the form that holds the payload form: a message to the payload
    /// form of the variant at this position.
    Variant(usize, Box<FormMessage>),
    /// The complete value. A single choice takes it as the choice made; to
    /// the other forms it is what they hand over when they are submitted.
    Complete(Value),
}

impl FormMessage {
    /// Whether `copy` says what `self` says.
    pub open spec fn same_as(self, copy: FormMessage) -> bool
        decreases self,
    {
        match (self, copy) {
            (FormMessage::Flag(field, flag), FormMessage::Flag(copied_field, copied_flag)) => copied_field == field
                && copied_flag == flag,
            (FormMessage::Field(field, edit), FormMessage::Field(copied_field, copied_edit)) => copied_field
                == field && copied_edit@ == edit@,
            (FormMessage::Nested(field, inner), FormMessage::Nested(copied_field, copied_inner)) => copied_field
                == field && (*inner).same_as(*copied_inner),
            (FormMessage::PickList(inner), FormMessage::PickList(copied_inner)) => (*inner).same_as(*copied_inner),
            (FormMessage::Form(inner), FormMessage::Form(copied_inner)) => (*inner).same_as(*copied_inner),
            (FormMessage::Variant(variant, inner), FormMessage::Variant(copied_variant, copied_inner)) => {
                copied_variant == variant && (*inner).same_as(*copied_inner)
            },
            (FormMessage::Complete(value), FormMessage::Complete(copied_value)) => copied_value@ == value@,
            _ => false,
        }
    }

    /// A copy that says the same.
    pub fn duplicate(&self) -> (copy: FormMessage)
        ensures
            self.same_as(copy),
        decreases self,
    {
        match self {
            FormMessage::Flag(field, flag) => FormMessage::Flag(*field, *flag),
            FormMessage::Field(field, edit) => FormMessage::Field(*field, edit.clone()),
            FormMessage::Nested(field, inner) => FormMessage::Nested(*field, Box::new(inner.duplicate())),
            FormMessage::PickList(inner) => FormMessage::PickList(Box::new(inner.duplicate())),
            FormMessage::Form(inner) => FormMessage::Form(Box::new(inner.duplicate())),
            FormMessage::Variant(variant, inner) => FormMessage::Variant(*variant, Box::new(inner.duplicate())),
            FormMessage::Complete(value) => FormMessage::Complete(value.duplicate()),
        }
    }

    /// The message by which a picker reports that the variant at `variant`
    /// was chosen: the variant, without payload, as a complete value.
    pub fn choice(variant: usize) -> (message: FormMessage)
        ensures
            message matches FormMessage::Complete(value) && value@ == ValueView::Variant(
                variant as nat,
                Seq::empty(),
            ),
    {
        let fields: Vec<Value> = Vec::new();
        proof {
            lemma_value_views(fields@);
            assert(value_views(fields@) =~= Seq::<ValueView>::empty());
        }
        FormMessage::Complete(Value::Variant(variant, fields))
    }

    /// The message by which the selector of a union reports that the
    /// variant at `variant` was chosen.
    pub fn pick(variant: usize) -> (message: FormMessage)
        ensures
            message matches FormMessage::PickList(inner) && *inner matches FormMessage::Complete(value)
                && value@ == ValueView::Variant(variant as nat, Seq::empty()),
    {
        FormMessage::PickList(Box::new(FormMessage::choice(variant)))
    }
}

impl Clone for FormMessage {
    fn clone(&self) -> (copy: FormMessage)
        ensures
            self.same_as(copy),
    {
        self.duplicate()
    }
}

} // verus!
