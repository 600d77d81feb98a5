//! The entry to the derivation: a schema goes to the derivation for records,
//! for unions with payloads or for unions without, and the plan that comes
//! back is entered in the registry.

use vstd::prelude::*;
use crate::de_enum::{first_unresolved_payload, union_derived};
use crate::de_struct::{derive_for_struct, first_unresolved, record_derived};
use crate::de_unit_enum::{derive_for_unit_enum, unit_derived};
use crate::plan::{Artifact, DeriveError};
use crate::registry::Registry;
use crate::schema::{field_views, Data, DataEnum, DeriveInput, TypePath, Variant};

verus! {

/// Whether none of the variants carries a payload.
pub open spec fn all_unit(variants: Seq<Variant>) -> bool {
    forall|k: int| 0 <= k < variants.len() ==> (#[trigger] variants[k]).fields.is_unit()
}

/// Whether `artifact` is the plan derived from `input`: the plan of a record
/// for a record, the plan of a single choice for a union whose variants all
/// carry no payload, the plan of a union for any other union.
pub open spec fn derived(registry: Registry, input: DeriveInput, artifact: Artifact) -> bool {
    match input.data {
        Data::Struct(body) => artifact matches Artifact::Record(plan) && record_derived(
            registry,
            input.ident@,
            field_views(body.fields@),
            plan,
        ),
        Data::Enum(body) => if all_unit(body.variants@) {
            artifact matches Artifact::Unit(plan) && unit_derived(input.ident@, body.variants@, plan)
        } else {
            artifact matches Artifact::Union(plan) && union_derived(registry, input.ident@, body.variants@, plan)
        },
    }
}

/// Whether the derivation from `input` fails, and `path` is the type of the
/// first field, in the order of declaration, whose kind cannot be told.
pub open spec fn unresolved(registry: Registry, input: DeriveInput, path: Seq<Seq<char>>) -> bool {
    match input.data {
        Data::Struct(body) => first_unresolved(registry, field_views(body.fields@), path),
        Data::Enum(body) => !all_unit(body.variants@) && first_unresolved_payload(registry, body.variants@, path),
    }
}

/// Whether none of the variants carries a payload.
fn is_all_unit(data: &DataEnum) -> (yes: bool)
    ensures
        yes == all_unit(data.variants@),
{
    let n: usize = data.variants.len();
    let mut i: usize = 0;
    while i < n
        invariant
            i <= n,
            n == data.variants@.len(),
            all_unit(data.variants@.take(i as int)),
        decreases n - i,
    {
        if !data.variants[i].fields.is_unit() {
            return false;
        }
        assert forall|k: int| 0 <= k < i + 1 implies (#[trigger] data.variants@.take(i + 1)[k]).fields.is_unit() by {
            if k < i {
                assert(data.variants@.take(i as int)[k] == data.variants@[k]);
            }
        }
        i = i + 1;
    }
    assert(data.variants@.take(n as int) =~= data.variants@);
    true
}

/// Derives the plan of a union: that of a single choice where no variant
/// carries a payload, that of a selector with payload forms otherwise.
fn derive_for_enum(registry: &Registry, input: &DeriveInput, data: &DataEnum) -> (artifact: Result<
    Artifact,
    DeriveError,
>)
    ensures
        match artifact {
            Ok(artifact) => {
                &&& if all_unit(data.variants@) {
                    artifact matches Artifact::Unit(plan) && unit_derived(input.ident@, data.variants@, plan)
                } else {
                    artifact matches Artifact::Union(plan) && union_derived(
                        *registry,
                        input.ident@,
                        data.variants@,
                        plan,
                    )
                }
                &&& artifact.resolves_in(registry@, registry@.len() as int)
            },
            Err(DeriveError::Unresolved(path)) => !all_unit(data.variants@) && first_unresolved_payload(
                *registry,
                data.variants@,
                path@,
            ),
        },
{
    if is_all_unit(data) {
        Ok(Artifact::Unit(derive_for_unit_enum(input, data)))
    } else {
        match crate::de_enum::derive_for_enum(registry, input, data) {
            Ok(plan) => Ok(Artifact::Union(plan)),
            Err(error) => Err(error),
        }
    }
}

/// Derives the plan of a schema against the plans in the registry. Fails
/// where the kind of a field cannot be told, with the type of the first such
/// field; a union without payloads has no fields and never fails.
pub fn derive(registry: &Registry, input: &DeriveInput) -> (artifact: Result<Artifact, DeriveError>)
    ensures
        match artifact {
            Ok(artifact) => {
                &&& derived(*registry, *input, artifact)
                &&& artifact.resolves_in(registry@, registry@.len() as int)
            },
            Err(DeriveError::Unresolved(path)) => unresolved(*registry, *input, path@),
        },
{
    match &input.data {
        Data::Struct(data) => match derive_for_struct(registry, input, data) {
            Ok(plan) => Ok(Artifact::Record(plan)),
            Err(error) => Err(error),
        },
        Data::Enum(data) => derive_for_enum(registry, input, data),
    }
}

impl Registry {
    /// Derives the plan of a schema and enters it under `key`, the path by
    /// which the fields of later schemas refer to the type. Gives the place
    /// of the new plan. Where the derivation fails, the registry stays as it
    /// was.
    pub fn register(&mut self, key: TypePath, input: &DeriveInput) -> (place: Result<usize, DeriveError>)
        requires
            old(self).wf(),
        ensures
            final(self).wf(),
            match place {
                Ok(place) => {
                    &&& place == old(self)@.len()
                    &&& final(self)@.len() == place + 1
                    &&& final(self)@.take(place as int) == old(self)@
                    &&& final(self)@[place as int].key == key
                    &&& derived(*old(self), *input, final(self)@[place as int].artifact)
                },
                Err(DeriveError::Unresolved(path)) => {
                    &&& unresolved(*old(self), *input, path@)
                    &&& *final(self) == *old(self)
                },
            },
    {
        let artifact = match derive(self, input) {
            Ok(artifact) => artifact,
            Err(error) => {
                return Err(error);
            },
        };
        let place = self.enter(key, artifact);
        assert(self@.take(place as int) =~= old(self)@);
        Ok(place)
    }
}

} // verus!
