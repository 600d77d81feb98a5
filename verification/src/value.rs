//! Values: what a form puts together.

use vstd::prelude::*;
use crate::scalar::{ScalarValue, ScalarView};

verus! {

/// A value of a schema. A record holds the values of its fields in the order
/// of declaration; a value of a union holds the position of its variant and
/// the values of the variant's payload.
#[derive(Debug, PartialEq, Eq)]
pub enum Value {
    Flag(bool),
    Scalar(ScalarValue),
    Record(Vec<Value>),
    Variant(usize, Vec<Value>),
}

/// The mathematical content of a [`Value`].
pub enum ValueView {
    Flag(bool),
    Scalar(ScalarView),
    Record(Seq<ValueView>),
    Variant(nat, Seq<ValueView>),
}

impl View for Value {
    type V = ValueView;

    open spec fn view(&self) -> ValueView
        decreases self,
    {
        match self {
            Value::Flag(flag) => ValueView::Flag(*flag),
            Value::Scalar(scalar) => ValueView::Scalar(scalar@),
            Value::Record(fields) => ValueView::Record(value_views(fields@)),
            Value::Variant(tag, fields) => ValueView::Variant(*tag as nat, value_views(fields@)),
        }
    }
}

/// The contents of a sequence of values.
pub open spec fn value_views(values: Seq<Value>) -> Seq<ValueView>
    decreases values,
{
    if values.len() == 0 {
        Seq::empty()
    } else {
        value_views(values.drop_last()).push(values.last()@)
    }
}

/// The contents of a sequence of values are the contents of its values, one
/// for one.
pub proof fn lemma_value_views(values: Seq<Value>)
    ensures
        value_views(values).len() == values.len(),
        forall|i: int| 0 <= i < values.len() ==> #[trigger] value_views(values)[i] == values[i]@,
    decreases values.len(),
{
    if values.len() > 0 {
        lemma_value_views(values.drop_last());
        assert(value_views(values) == value_views(values.drop_last()).push(values.last()@));
    } else {
        assert(value_views(values) == Seq::<ValueView>::empty());
    }
}

/// The content of a value that may be absent.
pub open spec fn opt_view(value: Option<Value>) -> Option<ValueView> {
    match value {
        Some(value) => Some(value@),
        None => None,
    }
}

impl Value {
    /// A copy with the same content.
    pub fn duplicate(&self) -> (copy: Value)
        ensures
            copy@ == self@,
        decreases self,
    {
        match self {
            Value::Flag(flag) => Value::Flag(*flag),
            Value::Scalar(scalar) => Value::Scalar(scalar.duplicate()),
            Value::Record(fields) => Value::Record(Self::duplicate_all(fields)),
            Value::Variant(tag, fields) => Value::Variant(*tag, Self::duplicate_all(fields)),
        }
    }

    /// Copies of the given values, in the same order.
    pub fn duplicate_all(values: &Vec<Value>) -> (copies: Vec<Value>)
        ensures
            value_views(copies@) == value_views(values@),
        decreases values,
    {
        let mut copies: Vec<Value> = Vec::new();
        let n: usize = values.len();
        let mut i: usize = 0;
        while i < n
            invariant
                i <= n,
                n == values@.len(),
                copies@.len() == i,
                forall|j: int| 0 <= j < i ==> (#[trigger] copies@[j])@ == values@[j]@,
            decreases n - i,
        {
            copies.push(values[i].duplicate());
            i = i + 1;
        }
        proof {
            lemma_value_views(copies@);
            lemma_value_views(values@);
            assert(value_views(copies@) =~= value_views(values@));
        }
        copies
    }
}

impl Clone for Value {
    fn clone(&self) -> (copy: Value)
        ensures
            copy@ == self@,
    {
        self.duplicate()
    }
}

} // verus!
