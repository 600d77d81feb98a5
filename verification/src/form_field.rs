//! The field editor: one text cell that edits a single scalar value.

use vstd::prelude::*;
use crate::fragment::{fragment_views, lemma_fragment_views, Fragment, FragmentView};

verus! {

/// An edit of a field editor, as the text input reports it.
#[derive(Debug, PartialEq, Eq)]
pub enum Message<T> {
    /// The text did not parse: the text as typed, and why it was refused.
    Input { input: String, invalid_reason: String },
    /// The text parsed: the value, and the text it was read from.
    Value((T, String)),
}

/// A text cell that holds the text as typed, the last value that parsed,
/// and the reason the current text was refused, if it was.
#[derive(Debug, PartialEq, Eq)]
pub struct FormField<T> {
    pub key: String,
    pub value: Option<T>,
    pub value_str: String,
    pub invalid_reason: Option<String>,
}

impl<T: Clone> Clone for Message<T> {
    fn clone(&self) -> (copy: Message<T>)
        ensures
            match (*self, copy) {
                (
                    Message::Input { input, invalid_reason },
                    Message::Input { input: copied_input, invalid_reason: copied_reason },
                ) => copied_input == input && copied_reason == invalid_reason,
                (Message::Value((value, text)), Message::Value((copied_value, copied_text))) => cloned::<T>(
                    value,
                    copied_value,
                ) && copied_text == text,
                _ => false,
            },
    {
        match self {
            Message::Input { input, invalid_reason } => Message::Input {
                input: input.clone(),
                invalid_reason: invalid_reason.clone(),
            },
            Message::Value((value, text)) => Message::Value((value.clone(), text.clone())),
        }
    }
}

/// The content of a [`Message`].
pub enum MessageView<V> {
    Input { input: Seq<char>, invalid_reason: Seq<char> },
    Value(V, Seq<char>),
}

impl<T: View> View for Message<T> {
    type V = MessageView<T::V>;

    open spec fn view(&self) -> MessageView<T::V> {
        match self {
            Message::Input { input, invalid_reason } => MessageView::Input {
                input: input@,
                invalid_reason: invalid_reason@,
            },
            Message::Value((value, text)) => MessageView::Value(value@, text@),
        }
    }
}

/// The content of a [`FormField`]: its label, the last value that parsed,
/// the text as typed, and the complaint about that text, if there is one.
pub struct EditorView<V> {
    pub key: Seq<char>,
    pub value: Option<V>,
    pub text: Seq<char>,
    pub complaint: Option<Seq<char>>,
}

impl<T: View> FormField<T> {
    /// What the editor holds.
    pub open spec fn state(&self) -> EditorView<T::V> {
        EditorView {
            key: self.key@,
            value: match self.value {
                Some(value) => Some(value@),
                None => None,
            },
            text: self.value_str@,
            complaint: match self.invalid_reason {
                Some(reason) => Some(reason@),
                None => None,
            },
        }
    }
}

impl<V> EditorView<V> {
    /// A fresh editor labelled `key`.
    pub open spec fn fresh(key: Seq<char>) -> Self {
        EditorView { key, value: None, text: Seq::empty(), complaint: None }
    }

    /// The editor after an edit.
    pub open spec fn update(self, message: MessageView<V>) -> Self {
        match message {
            MessageView::Input { input, invalid_reason } => EditorView {
                text: input,
                complaint: Some(invalid_reason),
                ..self
            },
            MessageView::Value(value, text) => EditorView { value: Some(value), text, complaint: None, ..self },
        }
    }
}

impl<T> FormField<T> {
    /// A fresh editor labelled `key`: empty text, no value, no complaint.
    pub fn new(key: &str) -> (field: Self)
        ensures
            field.key@ == key@,
            field.value is None,
            field.value_str@ == Seq::<char>::empty(),
            field.invalid_reason is None,
    {
        FormField {
            key: key.to_owned(),
            value: None,
            value_str: String::new(),
            invalid_reason: None,
        }
    }

    /// The editor as shown: its label, and a text input that holds the text
    /// as typed.
    pub fn view(&self) -> (fragment: Fragment)
        ensures
            fragment@ == FragmentView::Row(
                seq![
                    FragmentView::Text(self.key@),
                    FragmentView::TextInput { placeholder: self.value_str@, value: self.value_str@ },
                ],
            ),
    {
        let mut parts: Vec<Fragment> = Vec::new();
        parts.push(Fragment::Text(self.key.clone()));
        parts.push(Fragment::TextInput { placeholder: self.value_str.clone(), value: self.value_str.clone() });
        proof {
            lemma_fragment_views(parts@);
            assert(fragment_views(parts@) =~= seq![
                FragmentView::Text(self.key@),
                FragmentView::TextInput { placeholder: self.value_str@, value: self.value_str@ },
            ]);
        }
        Fragment::Row(parts)
    }

    /// Applies an edit. Text that parsed replaces text, value and complaint
    /// alike. Text that did not parse replaces the text and the complaint,
    /// and leaves the last value that parsed in place.
    pub fn update(&mut self, message: Message<T>)
        ensures
            final(self).key == old(self).key,
            match message {
                Message::Input { input, invalid_reason } => {
                    &&& final(self).value_str == input
                    &&& final(self).invalid_reason == Some(invalid_reason)
                    &&& final(self).value == old(self).value
                },
                Message::Value((value, text)) => {
                    &&& final(self).value_str == text
                    &&& final(self).value == Some(value)
                    &&& final(self).invalid_reason is None
                },
            },
    {
        match message {
            Message::Input { input, invalid_reason } => {
                self.value_str = input;
                self.invalid_reason = Some(invalid_reason);
            },
            Message::Value((value, text)) => {
                self.value_str = text;
                self.value = Some(value);
                self.invalid_reason = None;
            },
        }
    }
}

} // verus!
