//! The buffer in which a record is put together: one slot for each field,
//! empty until the field's value is set.

use vstd::prelude::*;
use crate::value::{lemma_value_views, opt_view, value_views, Value, ValueView};

verus! {

/// The slots of a record under construction, in the order of its fields.
#[derive(Debug, PartialEq, Eq)]
pub struct Buffer {
    pub slots: Vec<Option<Value>>,
}

/// Why a buffer does not finalize: the position of the first field that has
/// no value yet.
#[derive(Clone, Copy, Debug, PartialEq, Eq, Structural)]
pub struct IncompleteError {
    pub field: usize,
}

impl View for Buffer {
    type V = Seq<Option<ValueView>>;

    open spec fn view(&self) -> Seq<Option<ValueView>> {
        self.slots@.map_values(|slot: Option<Value>| opt_view(slot))
    }
}

/// The slots after `value` is set for the field at `field`. A position past
/// the last slot sets nothing.
pub open spec fn spec_set_field(slots: Seq<Option<ValueView>>, field: int, value: ValueView) -> Seq<Option<ValueView>> {
    if 0 <= field < slots.len() {
        slots.update(field, Some(value))
    } else {
        slots
    }
}

/// Whether every slot holds a value.
pub open spec fn complete(slots: Seq<Option<ValueView>>) -> bool {
    forall|i: int| 0 <= i < slots.len() ==> (#[trigger] slots[i]) is Some
}

/// Whether `field` is the first slot without a value.
pub open spec fn first_missing(slots: Seq<Option<ValueView>>, field: int) -> bool {
    &&& 0 <= field < slots.len()
    &&& slots[field] is None
    &&& forall|i: int| 0 <= i < field ==> (#[trigger] slots[i]) is Some
}

/// The values that the slots hold, where every slot holds one.
pub open spec fn held(slots: Seq<Option<ValueView>>) -> Seq<ValueView> {
    Seq::new(slots.len(), |i: int| slots[i]->Some_0)
}

/// The record that the slots finalize to: the values they hold, where
/// every slot holds one.
pub open spec fn spec_finalize(slots: Seq<Option<ValueView>>) -> Option<ValueView> {
    if complete(slots) {
        Some(ValueView::Record(held(slots)))
    } else {
        None
    }
}

/// The state of the toggle of a boolean field: on where the field's slot
/// holds true, off where it holds false or nothing.
pub open spec fn flag_of(slot: Option<ValueView>) -> bool {
    match slot {
        Some(ValueView::Flag(flag)) => flag,
        _ => false,
    }
}

impl Buffer {
    /// A buffer of `fields` empty slots.
    pub fn new(fields: usize) -> (buffer: Buffer)
        ensures
            buffer@ == Seq::new(fields as nat, |i: int| None::<ValueView>),
            buffer.slots@.len() == fields,
    {
        let mut slots: Vec<Option<Value>> = Vec::new();
        let mut i: usize = 0;
        while i < fields
            invariant
                i <= fields,
                slots@.len() == i,
                forall|j: int| 0 <= j < i ==> (#[trigger] slots@[j]) is None,
            decreases fields - i,
        {
            slots.push(None);
            i = i + 1;
        }
        let buffer = Buffer { slots };
        assert(buffer@ =~= Seq::new(fields as nat, |i: int| None::<ValueView>));
        buffer
    }

    /// The number of slots.
    pub fn len(&self) -> (n: usize)
        ensures
            n == self@.len(),
    {
        self.slots.len()
    }

    /// Sets the value of the field at `field`, in place of any value set
    /// before. A position past the last slot sets nothing.
    pub fn set_field(&mut self, field: usize, value: Value)
        ensures
            final(self)@ == spec_set_field(old(self)@, field as int, value@),
    {
        if field < self.slots.len() {
            self.slots[field] = Some(value);
            assert(self@ =~= spec_set_field(old(self)@, field as int, value@));
        }
    }

    /// The state of the boolean field at `field`: true where its slot holds
    /// true, false where it holds false, another value or nothing.
    pub fn flag(&self, field: usize) -> (on: bool)
        ensures
            on == (field < self@.len() && flag_of(self@[field as int])),
    {
        if field < self.slots.len() {
            match &self.slots[field] {
                Some(Value::Flag(flag)) => *flag,
                _ => false,
            }
        } else {
            false
        }
    }

    /// Whether the field at `field` has a value.
    pub fn is_set(&self, field: usize) -> (set: bool)
        ensures
            set == (field < self@.len() && self@[field as int] is Some),
    {
        field < self.slots.len() && self.slots[field].is_some()
    }

    /// The complete record, where every field has a value; otherwise the
    /// first field that has none.
    pub fn finalize(&self) -> (complete: Result<Value, IncompleteError>)
        ensures
            match complete {
                Ok(value) => spec_finalize(self@) == Some(value@) && value is Record,
                Err(error) => spec_finalize(self@) is None && first_missing(self@, error.field as int),
            },
    {
        let mut values: Vec<Value> = Vec::new();
        let n: usize = self.slots.len();
        let mut i: usize = 0;
        while i < n
            invariant
                i <= n,
                n == self.slots@.len(),
                values@.len() == i,
                forall|j: int| 0 <= j < i ==> (#[trigger] self@[j]) == Some(values@[j]@),
            decreases n - i,
        {
            match &self.slots[i] {
                Some(value) => {
                    values.push(value.duplicate());
                },
                None => {
                    assert(self@[i as int] is None);
                    return Err(IncompleteError { field: i });
                },
            }
            i = i + 1;
        }
        proof {
            lemma_value_views(values@);
            assert(value_views(values@) =~= held(self@));
        }
        Ok(Value::Record(values))
    }
}

} // verus!
