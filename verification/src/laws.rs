//! The engine's global guarantees, stated and proved over the synthesis
//! function itself.

use vstd::prelude::*;

use crate::descriptor::{EnumDescriptorModel, VariantModel};
use crate::render::spec_render_impl;
use crate::synth::{
    spec_qualified_assoc, spec_synthesize, AssocEqModel, PayloadAccess,
};
use crate::tables::TraitSpecModel;

verus! {

/// One synthesis call yields one block (by construction), and every method
/// of that block dispatches over exactly the descriptor's variants: one
/// match arm per variant, in declaration order.
pub proof fn lemma_one_arm_per_variant(d: EnumDescriptorModel, t: TraitSpecModel)
    ensures
        spec_synthesize(d, t).methods.len() == t.methods.len(),
        forall|j: int|
            0 <= j < t.methods.len() ==> (#[trigger] spec_synthesize(d, t).methods[j]).arms.len()
                == d.variants.len(),
        forall|j: int, i: int|
            0 <= j < t.methods.len() && 0 <= i < d.variants.len() ==> (#[trigger] spec_synthesize(
                d,
                t,
            ).methods[j].arms[i]).variant == d.variants[i].name,
{
}

/// Every method of the table appears in the generated block with its
/// declared signature, verbatim, at its declared position.
pub proof fn lemma_methods_verbatim(d: EnumDescriptorModel, t: TraitSpecModel)
    ensures
        spec_synthesize(d, t).methods.len() == t.methods.len(),
        forall|j: int|
            0 <= j < t.methods.len() ==> (#[trigger] spec_synthesize(d, t).methods[j]).sig
                == t.methods[j],
{
}

/// A table whose method names are pairwise distinct generates each method
/// exactly once: no two generated methods share a name.
pub proof fn lemma_method_names_unique(d: EnumDescriptorModel, t: TraitSpecModel)
    requires
        forall|j: int, k: int|
            0 <= j < k < t.methods.len() ==> t.methods[j].name != t.methods[k].name,
    ensures
        forall|j: int, k: int|
            0 <= j < k < t.methods.len() ==> (#[trigger] spec_synthesize(d, t).methods[j]).sig.name
                != (#[trigger] spec_synthesize(d, t).methods[k]).sig.name,
{
}

/// Associated-type unification is asymmetric: the first variant's bound
/// carries no equality constraints, and every later variant's bound forces
/// each associated type to equal the first variant's — never the reverse.
pub proof fn lemma_first_variant_authoritative(d: EnumDescriptorModel, t: TraitSpecModel)
    requires
        d.variants.len() >= 1,
    ensures
        spec_synthesize(d, t).bounds.len() == d.variants.len(),
        spec_synthesize(d, t).bounds[0].eq.len() == 0,
        forall|i: int, k: int|
            1 <= i < d.variants.len() && 0 <= k < t.assoc_types.len()
                ==> (#[trigger] spec_synthesize(d, t).bounds[i].eq[k]) == (AssocEqModel {
                assoc: t.assoc_types[k],
                value: spec_qualified_assoc(
                    d.variants[0].payload,
                    t.path,
                    t.generics,
                    t.assoc_types[k],
                ),
            }),
{
}

/// Swapping the declaration order of a two-variant enum swaps which payload
/// is authoritative: the second bound's constraints then reference the
/// other payload.
pub proof fn lemma_unification_swap(
    a: VariantModel,
    b: VariantModel,
    d1: EnumDescriptorModel,
    d2: EnumDescriptorModel,
    t: TraitSpecModel,
    k: int,
)
    requires
        d1.variants == seq![a, b],
        d2.variants == seq![b, a],
        0 <= k < t.assoc_types.len(),
    ensures
        spec_synthesize(d1, t).bounds[1].eq[k].value == spec_qualified_assoc(
            a.payload,
            t.path,
            t.generics,
            t.assoc_types[k],
        ),
        spec_synthesize(d2, t).bounds[1].eq[k].value == spec_qualified_assoc(
            b.payload,
            t.path,
            t.generics,
            t.assoc_types[k],
        ),
{
}

/// Synthesis and rendering are pure functions of descriptor and table:
/// repeated derivation of the same pair yields byte-identical text.
pub proof fn lemma_derivation_deterministic(
    d1: EnumDescriptorModel,
    t1: TraitSpecModel,
    d2: EnumDescriptorModel,
    t2: TraitSpecModel,
)
    requires
        d1 == d2,
        t1 == t2,
    ensures
        spec_render_impl(spec_synthesize(d1, t1)) == spec_render_impl(spec_synthesize(d2, t2)),
{
}

/// No generated dispatch arm ever moves a payload out of the enum, and the
/// arms of every pinned-receiver method re-pin the payload in place.
pub proof fn lemma_pinned_dispatch_never_moves(d: EnumDescriptorModel, t: TraitSpecModel)
    ensures
        forall|j: int, i: int|
            0 <= j < t.methods.len() && 0 <= i < d.variants.len() ==> (#[trigger] spec_synthesize(
                d,
                t,
            ).methods[j].arms[i]).access != PayloadAccess::Moved,
        forall|j: int, i: int|
            0 <= j < t.methods.len() && 0 <= i < d.variants.len() && t.methods[j].receiver
                is Pinned ==> (#[trigger] spec_synthesize(d, t).methods[j].arms[i]).access
                == PayloadAccess::Repinned,
{
}

} // verus!
