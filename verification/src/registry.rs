//! The registry: the plans derived so far, in the order of their derivation.
//! A type is resolved against the plans that were there before it, so a plan
//! refers only to plans that stand before it.

use vstd::prelude::*;
use crate::plan::{lemma_resolves_in_longer, Artifact, DeriveError, Entry, ValueKind};
use crate::schema::{is_bool, scalar_kind, spec_is_bool, spec_scalar_kind, TypePath};

verus! {

/// The plans derived so far. Its view is the sequence of its entries.
#[derive(Debug)]
pub struct Registry {
    entries: Vec<Entry>,
}

impl View for Registry {
    type V = Seq<Entry>;

    closed spec fn view(&self) -> Seq<Entry> {
        self.entries@
    }
}

/// The place of the plan that `path` refers to: the last that was entered
/// under this path.
pub open spec fn spec_lookup(entries: Seq<Entry>, path: Seq<Seq<char>>) -> Option<int>
    decreases entries.len(),
{
    if entries.len() == 0 {
        None
    } else if entries.last().key@ == path {
        Some(entries.len() - 1)
    } else {
        spec_lookup(entries.drop_last(), path)
    }
}

/// The kind of value that a field of type `ty` holds, if it can be told. The
/// boolean and the scalars are known by the type's own name; any other type
/// is nested, and its kind is the sort of the plan that its path refers to.
pub open spec fn spec_classify(entries: Seq<Entry>, ty: Seq<Seq<char>>) -> Option<ValueKind> {
    if spec_is_bool(ty.last()) {
        Some(ValueKind::Boolean)
    } else if spec_scalar_kind(ty.last()) is Some {
        Some(ValueKind::Scalar(spec_scalar_kind(ty.last())->Some_0))
    } else {
        match spec_lookup(entries, ty) {
            Some(j) => Some(
                match entries[j].artifact {
                    Artifact::Record(_) => ValueKind::NestedRecord(j as usize),
                    Artifact::Union(_) => ValueKind::NestedUnion(j as usize),
                    Artifact::Unit(_) => ValueKind::UnitUnion(j as usize),
                },
            ),
            None => None,
        }
    }
}

/// A lookup finds a place that holds an entry under the path.
pub proof fn lemma_lookup_in_range(entries: Seq<Entry>, path: Seq<Seq<char>>)
    ensures
        match spec_lookup(entries, path) {
            Some(j) => 0 <= j < entries.len() && entries[j].key@ == path,
            None => forall|j: int| 0 <= j < entries.len() ==> (#[trigger] entries[j]).key@ != path,
        },
    decreases entries.len(),
{
    if entries.len() > 0 && entries.last().key@ != path {
        lemma_lookup_in_range(entries.drop_last(), path);
        if spec_lookup(entries, path) is None {
            assert forall|j: int| 0 <= j < entries.len() implies (#[trigger] entries[j]).key@ != path by {
                if j < entries.len() - 1 {
                    assert(entries.drop_last()[j] == entries[j]);
                }
            }
        }
    }
}

/// A kind that was told from the entries resolves in them.
pub proof fn lemma_classified_resolves(entries: Seq<Entry>, ty: Seq<Seq<char>>)
    requires
        entries.len() <= usize::MAX,
    ensures
        match spec_classify(entries, ty) {
            Some(kind) => kind.resolves_in(entries, entries.len() as int),
            None => true,
        },
{
    lemma_lookup_in_range(entries, ty);
}

impl Registry {
    /// Every plan is well formed and refers only to plans that stand before
    /// it.
    pub open spec fn wf(self) -> bool {
        forall|i: int| 0 <= i < self@.len() ==> (#[trigger] self@[i]).artifact.resolves_in(self@, i)
    }

    /// A registry without plans.
    pub fn new() -> (registry: Registry)
        ensures
            registry@.len() == 0,
            registry.wf(),
    {
        Registry { entries: Vec::new() }
    }

    /// Enters a plan that refers only to plans already entered. Gives the
    /// place of the new plan.
    pub(crate) fn enter(&mut self, key: TypePath, artifact: Artifact) -> (place: usize)
        requires
            old(self).wf(),
            artifact.resolves_in(old(self)@, old(self)@.len() as int),
        ensures
            final(self).wf(),
            final(self)@ == old(self)@.push(Entry { key, artifact }),
            place == old(self)@.len(),
    {
        let place: usize = self.entries.len();
        let ghost before = self.entries@;
        self.entries.push(Entry { key, artifact });
        proof {
            let after = self.entries@;
            assert forall|i: int| 0 <= i < after.len() implies (#[trigger] after[i]).artifact.resolves_in(after, i) by {
                if i < place {
                    assert(after[i] == before[i]);
                    lemma_resolves_in_longer(before[i].artifact, before, after, i);
                } else {
                    lemma_resolves_in_longer(after[i].artifact, before, after, place as int);
                }
            }
        }
        place
    }

    /// The number of plans.
    pub fn len(&self) -> (n: usize)
        ensures
            n == self@.len(),
    {
        self.entries.len()
    }

    /// The plan at place `index`.
    pub fn get(&self, index: usize) -> (artifact: Option<&Artifact>)
        ensures
            match artifact {
                Some(found) => index < self@.len() && *found == self@[index as int].artifact,
                None => index >= self@.len(),
            },
    {
        if index < self.entries.len() {
            Some(&self.entries[index].artifact)
        } else {
            None
        }
    }

    /// The place of the plan that `path` refers to: the last that was
    /// entered under this path.
    pub fn lookup(&self, path: &TypePath) -> (place: Option<usize>)
        ensures
            match spec_lookup(self@, path@) {
                Some(j) => place == Some(j as usize) && j < self@.len(),
                None => place is None,
            },
    {
        let mut i: usize = self.entries.len();
        assert(self@.take(i as int) =~= self@);
        while i > 0
            invariant
                i <= self@.len(),
                spec_lookup(self@, path@) == spec_lookup(self@.take(i as int), path@),
            decreases i,
        {
            let ghost prefix = self@.take(i as int);
            assert(prefix.last() == self@[i - 1]);
            assert(prefix.drop_last() =~= self@.take(i - 1));
            if self.entries[i - 1].key.same(path) {
                return Some(i - 1);
            }
            i = i - 1;
        }
        None
    }

    /// Tells the kind of value that a field of type `ty` holds. A type that
    /// is neither the boolean nor a scalar, and for which no plan has been
    /// derived, cannot be told.
    pub fn classify(&self, ty: &TypePath) -> (kind: Result<ValueKind, DeriveError>)
        ensures
            match spec_classify(self@, ty@) {
                Some(told) => kind == Ok::<ValueKind, DeriveError>(told) && told.resolves_in(
                    self@,
                    self@.len() as int,
                ),
                None => kind matches Err(DeriveError::Unresolved(path)) && path@ == ty@,
            },
    {
        let n: usize = self.entries.len();
        proof {
            lemma_classified_resolves(self@, ty@);
            assert(ty@.last() == ty.ident@);
        }
        if is_bool(ty) {
            return Ok(ValueKind::Boolean);
        }
        match scalar_kind(ty.ident.as_str()) {
            Some(kind) => {
                return Ok(ValueKind::Scalar(kind));
            },
            None => {},
        }
        match self.lookup(ty) {
            Some(j) => match &self.entries[j].artifact {
                Artifact::Record(_) => Ok(ValueKind::NestedRecord(j)),
                Artifact::Union(_) => Ok(ValueKind::NestedUnion(j)),
                Artifact::Unit(_) => Ok(ValueKind::UnitUnion(j)),
            },
            None => Err(DeriveError::Unresolved(ty.duplicate())),
        }
    }
}

} // verus!
