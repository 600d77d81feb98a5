//! Plans: what the derivation makes of a schema. A plan names the artifacts
//! of a form and says, field by field and variant by variant, what the form
//! holds and which messages it takes.

use vstd::prelude::*;
use crate::scalar::ScalarKind;
use crate::schema::TypePath;

verus! {

/// The five kinds of value a field can hold. A nested kind carries the place
/// in the registry of the plan that was derived for the field's type.
#[derive(Clone, Copy, Debug, PartialEq, Eq, Structural)]
pub enum ValueKind {
    Boolean,
    Scalar(ScalarKind),
    NestedRecord(usize),
    NestedUnion(usize),
    UnitUnion(usize),
}

/// Why no plan could be derived.
#[derive(Debug, PartialEq, Eq)]
pub enum DeriveError {
    /// A field's type is neither the boolean nor a scalar, and no plan has
    /// been derived for it.
    Unresolved(TypePath),
}

/// What is derived for one field of a record.
#[derive(Debug, PartialEq, Eq)]
pub struct FieldPlan {
    /// The field's name: the member of the form that holds the field's
    /// state, and the slot of the buffer that takes its value.
    pub ident: String,
    /// The case of the message protocol that carries the field's edits.
    pub case: String,
    /// The label under which the field is shown.
    pub label: String,
    /// The kind of value the field holds.
    pub kind: ValueKind,
    /// For a nested kind, where the form derived for the field's type is
    /// found.
    pub form: Option<TypePath>,
    /// For a nested kind, where the message protocol of that form is found.
    pub message: Option<TypePath>,
}

/// What is derived for a record. The message protocol has one case for each
/// field, in the order of declaration, and a last case, named like the
/// record, that carries the complete value.
#[derive(Debug, PartialEq, Eq)]
pub struct RecordPlan {
    pub ident: String,
    /// The name of the form.
    pub form: String,
    /// The name of the message protocol.
    pub message: String,
    /// The name of the buffer in which the value is put together.
    pub builder: String,
    pub fields: Vec<FieldPlan>,
}

/// What is derived for a union whose variants carry no payload. The message
/// protocol has a single case, named like the union, that carries the chosen
/// variant.
#[derive(Debug, PartialEq, Eq)]
pub struct UnitPlan {
    pub ident: String,
    /// The name of the form.
    pub form: String,
    /// The name of the message protocol.
    pub message: String,
    /// The label under which the choice is shown.
    pub label: String,
    /// The names of the variants, in the order of declaration.
    pub variants: Vec<String>,
    /// The text by which each variant is shown.
    pub labels: Vec<String>,
}

/// What a case of a message protocol carries.
#[derive(Debug, PartialEq, Eq)]
pub enum Carried {
    /// A message of the protocol of this name.
    Message(String),
    /// The complete value.
    Complete,
}

/// A case of a message protocol.
#[derive(Debug, PartialEq, Eq)]
pub struct MessageCase {
    pub ident: String,
    pub carries: Carried,
}

/// The content of a [`MessageCase`]: its name, and the name of the protocol
/// whose messages it carries; none where it carries the complete value.
pub struct MessageCaseView {
    pub ident: Seq<char>,
    pub carries: Option<Seq<char>>,
}

impl View for MessageCase {
    type V = MessageCaseView;

    open spec fn view(&self) -> MessageCaseView {
        MessageCaseView {
            ident: self.ident@,
            carries: match self.carries {
                Carried::Message(name) => Some(name@),
                Carried::Complete => None,
            },
        }
    }
}

/// The contents of a sequence of message cases.
pub open spec fn case_views(cases: Seq<MessageCase>) -> Seq<MessageCaseView> {
    cases.map_values(|c: MessageCase| c@)
}

/// A message protocol.
#[derive(Debug, PartialEq, Eq)]
pub struct MessageEnum {
    pub ident: String,
    pub cases: Vec<MessageCase>,
}

/// A variant of a union, with the name of the form of its payload where it
/// has one.
#[derive(Debug, PartialEq, Eq)]
pub struct FormVariant {
    pub ident: String,
    pub form: Option<String>,
}

/// The content of a [`FormVariant`].
pub struct FormVariantView {
    pub ident: Seq<char>,
    pub form: Option<Seq<char>>,
}

impl View for FormVariant {
    type V = FormVariantView;

    open spec fn view(&self) -> FormVariantView {
        FormVariantView {
            ident: self.ident@,
            form: match self.form {
                Some(name) => Some(name@),
                None => None,
            },
        }
    }
}

/// The contents of a sequence of form variants.
pub open spec fn variant_views(variants: Seq<FormVariant>) -> Seq<FormVariantView> {
    variants.map_values(|v: FormVariant| v@)
}

/// The form that holds the payload form of the variant in use: one variant
/// for each variant of the union.
#[derive(Debug, PartialEq, Eq)]
pub struct FormEnum {
    pub ident: String,
    /// The name of its message protocol.
    pub message: String,
    pub variants: Vec<FormVariant>,
}

/// The form of a union: a selector over the variants, and the payload form
/// of the variant that was selected. Its message protocol has a case for the
/// selector's messages, one for the payload form's, and one that carries the
/// complete value.
#[derive(Debug, PartialEq, Eq)]
pub struct Wrapper {
    pub ident: String,
    /// The name of its message protocol.
    pub message: String,
    /// The name of the selector's union.
    pub kind: String,
    /// The name of the selector's form.
    pub kind_form: String,
    /// The name of the selector's message protocol.
    pub kind_message: String,
    /// The name of the form that holds the payload form.
    pub enum_form: String,
    /// The name of that form's message protocol.
    pub enum_message: String,
    /// For each variant, the form with which a selection of it starts.
    pub starts: Vec<FormVariant>,
}

/// What is derived for a union of which some variant carries a payload.
#[derive(Debug, PartialEq, Eq)]
pub struct UnionPlan {
    pub ident: String,
    /// For each variant, the plan of the record that holds its payload;
    /// none for a variant without payload.
    pub builders: Vec<Option<RecordPlan>>,
    /// The message protocol of the form that holds the payload form.
    pub messages: MessageEnum,
    pub form_enum: FormEnum,
    /// The plan of the selector: a union of its own, with the same variants
    /// and no payloads.
    pub kinds: UnitPlan,
    pub wrapper: Wrapper,
}

/// A plan of any of the three sorts.
#[derive(Debug, PartialEq, Eq)]
pub enum Artifact {
    Record(RecordPlan),
    Union(UnionPlan),
    Unit(UnitPlan),
}

/// A plan, under the path by which fields refer to its type.
#[derive(Debug, PartialEq, Eq)]
pub struct Entry {
    pub key: TypePath,
    pub artifact: Artifact,
}

impl ValueKind {
    /// Whether a nested kind points below `bound` in `entries`, at a plan of
    /// its own sort.
    pub open spec fn resolves_in(self, entries: Seq<Entry>, bound: int) -> bool {
        match self {
            ValueKind::Boolean => true,
            ValueKind::Scalar(_) => true,
            ValueKind::NestedRecord(j) => j < bound <= entries.len() && entries[j as int].artifact is Record,
            ValueKind::NestedUnion(j) => j < bound <= entries.len() && entries[j as int].artifact is Union,
            ValueKind::UnitUnion(j) => j < bound <= entries.len() && entries[j as int].artifact is Unit,
        }
    }

    /// Whether the kind is one of the nested ones.
    pub open spec fn is_nested(self) -> bool {
        self is NestedRecord || self is NestedUnion || self is UnitUnion
    }
}

impl RecordPlan {
    /// Whether every nested field points below `bound` in `entries`, at a
    /// plan of its own sort.
    pub open spec fn resolves_in(self, entries: Seq<Entry>, bound: int) -> bool {
        forall|i: int| 0 <= i < self.fields@.len() ==> (#[trigger] self.fields@[i]).kind.resolves_in(entries, bound)
    }
}

impl UnitPlan {
    /// Every variant has its label.
    pub open spec fn wf(self) -> bool {
        self.labels@.len() == self.variants@.len()
    }
}

impl UnionPlan {
    /// The selector has the union's variants, one for one.
    pub open spec fn wf(self) -> bool {
        &&& self.kinds.wf()
        &&& self.kinds.variants@.len() == self.builders@.len()
    }

    /// Whether every nested field of every payload points below `bound` in
    /// `entries`, at a plan of its own sort.
    pub open spec fn resolves_in(self, entries: Seq<Entry>, bound: int) -> bool {
        forall|k: int| 0 <= k < self.builders@.len() ==> match #[trigger] self.builders@[k] {
            Some(plan) => plan.resolves_in(entries, bound),
            None => true,
        }
    }
}

impl Artifact {
    /// The plan is well formed, and whatever it refers to lies below `bound`
    /// in `entries`.
    pub open spec fn resolves_in(self, entries: Seq<Entry>, bound: int) -> bool {
        match self {
            Artifact::Record(plan) => plan.resolves_in(entries, bound),
            Artifact::Union(plan) => plan.wf() && plan.resolves_in(entries, bound),
            Artifact::Unit(plan) => plan.wf(),
        }
    }
}

/// A plan that refers only to plans below `bound` does so in any longer
/// sequence of entries that begins alike.
pub proof fn lemma_resolves_in_longer(artifact: Artifact, entries: Seq<Entry>, longer: Seq<Entry>, bound: int)
    requires
        artifact.resolves_in(entries, bound),
        entries.len() <= longer.len(),
        forall|j: int| 0 <= j < entries.len() ==> longer[j] == entries[j],
    ensures
        artifact.resolves_in(longer, bound),
{
    match artifact {
        Artifact::Record(plan) => {
            assert forall|i: int| 0 <= i < plan.fields@.len() implies (#[trigger] plan.fields@[i]).kind.resolves_in(
                longer,
                bound,
            ) by {
                assert(plan.fields@[i].kind.resolves_in(entries, bound));
            }
        },
        Artifact::Union(plan) => {
            assert forall|k: int| 0 <= k < plan.builders@.len() implies match #[trigger] plan.builders@[k] {
                Some(payload) => payload.resolves_in(longer, bound),
                None => true,
            } by {
                match plan.builders@[k] {
                    Some(payload) => {
                        assert(payload.resolves_in(entries, bound));
                        assert forall|i: int| 0 <= i < payload.fields@.len() implies (
                        #[trigger] payload.fields@[i]).kind.resolves_in(longer, bound) by {
                            assert(payload.fields@[i].kind.resolves_in(entries, bound));
                        }
                    },
                    None => {},
                }
            }
        },
        Artifact::Unit(_) => {},
    }
}

} // verus!
