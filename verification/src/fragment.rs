//! Fragments: what a form shows, as a tree of the host's primitives. The
//! host draws the tree; what a control emits when it is used is fixed by
//! the control and by the routes above it.

use vstd::prelude::*;
use crate::message::FormMessage;
use crate::scalar::ScalarKind;
use crate::value::{opt_view, Value, ValueView};

verus! {

/// The case in which the messages of a part of a form are wrapped on their
/// way to the form.
#[derive(Clone, Copy, Debug, PartialEq, Eq, Structural)]
pub enum Route {
    /// The edits of the scalar field at this position, whose text is read
    /// as this kind.
    Field(usize, ScalarKind),
    /// The messages of the form of the nested field at this position.
    Nested(usize),
    /// The messages of the selector of a union.
    PickList,
    /// The messages of the form that holds the payload form.
    Form,
    /// The messages of the payload form of the variant at this position.
    Variant(usize),
}

impl Route {
    /// Whether `wrapped` is `message` in the case of this route. An edit is
    /// made in the case of its field, and stays as it is.
    pub open spec fn wraps(self, message: FormMessage, wrapped: FormMessage) -> bool {
        match self {
            Route::Field(_, _) => wrapped == message,
            Route::Nested(field) => wrapped matches FormMessage::Nested(position, inner) && position == field
                && *inner == message,
            Route::PickList => wrapped matches FormMessage::PickList(inner) && *inner == message,
            Route::Form => wrapped matches FormMessage::Form(inner) && *inner == message,
            Route::Variant(variant) => wrapped matches FormMessage::Variant(position, inner) && position
                == variant && *inner == message,
        }
    }

    /// Wraps a message of a part of a form in the case of this route, on
    /// its way to the form. An edit is made in the case of its field, and
    /// stays as it is.
    pub fn wrap(self, message: FormMessage) -> (wrapped: FormMessage)
        ensures
            self.wraps(message, wrapped),
    {
        match self {
            Route::Field(_, _) => message,
            Route::Nested(field) => FormMessage::Nested(field, Box::new(message)),
            Route::PickList => FormMessage::PickList(Box::new(message)),
            Route::Form => FormMessage::Form(Box::new(message)),
            Route::Variant(variant) => FormMessage::Variant(variant, Box::new(message)),
        }
    }
}

/// A piece of what a form shows.
#[derive(Debug, PartialEq, Eq)]
pub enum Fragment {
    /// A text label.
    Text(String),
    /// A text input. Every keystroke emits the text as it then stands, as
    /// an edit of the field of the route above: parsed or refused.
    TextInput { placeholder: String, value: String },
    /// A toggle. It emits the new state of the boolean field at `field`.
    Toggler { label: String, on: bool, field: usize },
    /// A choice of one among several. It emits the variant at the chosen
    /// position as a complete value.
    PickList { options: Vec<String>, selected: Option<usize> },
    /// A button. It can be pressed only where it has a value to emit, and
    /// then emits that value as complete.
    Button { label: String, on_press: Option<Value> },
    /// Fragments side by side.
    Row(Vec<Fragment>),
    /// Fragments one below the other.
    Column(Vec<Fragment>),
    /// A fragment whose messages are wrapped in a case.
    Mapped(Route, Box<Fragment>),
}

/// The mathematical content of a [`Fragment`].
pub enum FragmentView {
    Text(Seq<char>),
    TextInput { placeholder: Seq<char>, value: Seq<char> },
    Toggler { label: Seq<char>, on: bool, field: nat },
    PickList { options: Seq<Seq<char>>, selected: Option<nat> },
    Button { label: Seq<char>, on_press: Option<ValueView> },
    Row(Seq<FragmentView>),
    Column(Seq<FragmentView>),
    Mapped(Route, Box<FragmentView>),
}

impl View for Fragment {
    type V = FragmentView;

    open spec fn view(&self) -> FragmentView
        decreases self,
    {
        match self {
            Fragment::Text(text) => FragmentView::Text(text@),
            Fragment::TextInput { placeholder, value } => FragmentView::TextInput {
                placeholder: placeholder@,
                value: value@,
            },
            Fragment::Toggler { label, on, field } => FragmentView::Toggler {
                label: label@,
                on: *on,
                field: *field as nat,
            },
            Fragment::PickList { options, selected } => FragmentView::PickList {
                options: crate::schema::texts(options@),
                selected: match selected {
                    Some(position) => Some(*position as nat),
                    None => None,
                },
            },
            Fragment::Button { label, on_press } => FragmentView::Button {
                label: label@,
                on_press: opt_view(*on_press),
            },
            Fragment::Row(parts) => FragmentView::Row(fragment_views(parts@)),
            Fragment::Column(parts) => FragmentView::Column(fragment_views(parts@)),
            Fragment::Mapped(route, inner) => FragmentView::Mapped(*route, Box::new((**inner).view())),
        }
    }
}

/// The contents of a sequence of fragments.
pub open spec fn fragment_views(parts: Seq<Fragment>) -> Seq<FragmentView>
    decreases parts,
{
    if parts.len() == 0 {
        Seq::empty()
    } else {
        fragment_views(parts.drop_last()).push(parts.last()@)
    }
}

/// The contents of a sequence of fragments are the contents of its
/// fragments, one for one.
pub proof fn lemma_fragment_views(parts: Seq<Fragment>)
    ensures
        fragment_views(parts).len() == parts.len(),
        forall|i: int| 0 <= i < parts.len() ==> #[trigger] fragment_views(parts)[i] == parts[i]@,
    decreases parts.len(),
{
    if parts.len() > 0 {
        lemma_fragment_views(parts.drop_last());
        assert(fragment_views(parts) == fragment_views(parts.drop_last()).push(parts.last()@));
    } else {
        assert(fragment_views(parts) == Seq::<FragmentView>::empty());
    }
}

/// The text on the button that submits a form.
pub open spec fn spec_submit_label() -> Seq<char> {
    "Submit"@
}

/// The button that submits a form: it can be pressed only where the form
/// has a complete value, and hands that value over.
pub open spec fn spec_submit(built: Option<ValueView>) -> FragmentView {
    FragmentView::Button { label: spec_submit_label(), on_press: built }
}

/// The button that submits a form: it can be pressed only where the form
/// has a complete value, and hands that value over.
pub fn submit(built: Option<Value>) -> (button: Fragment)
    ensures
        button@ == spec_submit(opt_view(built)),
{
    Fragment::Button { label: "Submit".to_owned(), on_press: built }
}

} // verus!
