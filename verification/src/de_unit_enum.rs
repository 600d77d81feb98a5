//! The derivation for a union whose variants carry no payload: a single
//! choice among the variants.

use vstd::prelude::*;
use crate::naming::{cased, form_message_name, form_name, spec_form_message_name, spec_form_name, to_case, Case};
use crate::plan::UnitPlan;
use crate::schema::{DataEnum, DeriveInput, Variant};

verus! {

/// Whether `names` are the names of `variants` and `labels` their names in
/// title case, one for one and in order.
pub open spec fn variants_listed(variants: Seq<Variant>, names: Seq<String>, labels: Seq<String>) -> bool {
    &&& names.len() == variants.len()
    &&& labels.len() == variants.len()
    &&& forall|i: int| 0 <= i < variants.len() ==> (#[trigger] names[i])@ == variants[i].ident@
    &&& forall|i: int| 0 <= i < variants.len() ==> (#[trigger] labels[i])@ == cased(variants[i].ident@, Case::Title)
}

/// Whether `plan` is the plan of the choice among the variants of the union
/// `ident`.
pub open spec fn unit_derived(ident: Seq<char>, variants: Seq<Variant>, plan: UnitPlan) -> bool {
    &&& plan.ident@ == ident
    &&& plan.form@ == spec_form_name(ident)
    &&& plan.message@ == spec_form_message_name(ident)
    &&& plan.label@ == cased(ident, Case::Title)
    &&& variants_listed(variants, plan.variants@, plan.labels@)
}

/// Lists the variants of a union: how many there are, their names, and the
/// text by which each is shown, which is its name in title case.
pub fn gen_variants(data: &DataEnum) -> (listed: (usize, Vec<String>, Vec<String>))
    ensures
        listed.0 == data.variants@.len(),
        variants_listed(data.variants@, listed.1@, listed.2@),
{
    let mut names: Vec<String> = Vec::new();
    let mut labels: Vec<String> = Vec::new();
    let n: usize = data.variants.len();
    let mut i: usize = 0;
    while i < n
        invariant
            i <= n,
            n == data.variants@.len(),
            variants_listed(data.variants@.take(i as int), names@, labels@),
        decreases n - i,
    {
        let ident = &data.variants[i].ident;
        names.push(ident.clone());
        labels.push(to_case(ident.as_str(), Case::Title));
        i = i + 1;
    }
    (n, names, labels)
}

/// Derives the plan of a union whose variants carry no payload: the names of
/// its form and of its message protocol, its label, and its variants.
pub fn derive_for_unit_enum(input: &DeriveInput, data: &DataEnum) -> (plan: UnitPlan)
    ensures
        unit_derived(input.ident@, data.variants@, plan),
        plan.wf(),
{
    let name = input.ident.as_str();
    let (_, variants, labels) = gen_variants(data);
    UnitPlan {
        ident: input.ident.clone(),
        form: form_name(name),
        message: form_message_name(name),
        label: to_case(name, Case::Title),
        variants,
        labels,
    }
}

} // verus!
