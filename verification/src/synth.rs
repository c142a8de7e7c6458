//! The implementation synthesizer.
//!
//! Given a validated enum descriptor and a trait table, `synthesize` builds
//! the structured implementation block: the impl's generic parameters, one
//! trait bound per variant (with associated types unified onto the first
//! variant's), the associated type declarations, and one dispatch method per
//! table entry with one match arm per variant in declaration order.

use vstd::prelude::*;
use vstd::string::StringExecFns;

use crate::descriptor::{EnumDescriptor, EnumDescriptorModel, GenericParamModel, VariantModel};
use crate::tables::{MethodSig, MethodSigModel, Param, Receiver, TraitSpec, TraitSpecModel};
use crate::text::{clone_strings, push_angle_args, spec_angle_args};

verus! {

/// How a dispatch arm reaches the matched variant's payload.
#[derive(Clone, Copy)]
pub enum PayloadAccess {
    /// Through the reference bound by matching on a borrowed receiver.
    Borrowed,
    /// Through a pin re-projection of the reference bound by the match:
    /// the payload is narrowed in place and never leaves its storage.
    Repinned,
    /// By moving the payload out of the enum. The synthesizer never
    /// produces this; it exists so that the pinned-dispatch guarantee is a
    /// statement, not a tautology.
    Moved,
}

/// One arm of a generated dispatch match.
pub struct MatchArm {
    pub variant: String,
    pub access: PayloadAccess,
}

#[verifier::ext_equal]
pub struct MatchArmModel {
    pub variant: Seq<char>,
    pub access: PayloadAccess,
}

impl View for MatchArm {
    type V = MatchArmModel;

    open spec fn view(&self) -> MatchArmModel {
        MatchArmModel { variant: self.variant@, access: self.access }
    }
}

/// One generated method: the forwarded signature and its dispatch arms.
pub struct GenMethod {
    pub sig: MethodSig,
    pub arms: Vec<MatchArm>,
}

#[verifier::ext_equal]
pub struct GenMethodModel {
    pub sig: MethodSigModel,
    pub arms: Seq<MatchArmModel>,
}

impl View for GenMethod {
    type V = GenMethodModel;

    open spec fn view(&self) -> GenMethodModel {
        GenMethodModel { sig: self.sig@, arms: self.arms@.map_values(|a: MatchArm| a@) }
    }
}

/// An `Assoc = Type` constraint inside a variant's trait bound.
pub struct AssocEq {
    pub assoc: String,
    pub value: String,
}

#[verifier::ext_equal]
pub struct AssocEqModel {
    pub assoc: Seq<char>,
    pub value: Seq<char>,
}

impl View for AssocEq {
    type V = AssocEqModel;

    open spec fn view(&self) -> AssocEqModel {
        AssocEqModel { assoc: self.assoc@, value: self.value@ }
    }
}

/// The trait bound generated for one variant's payload type.
pub struct TraitBound {
    pub ty: String,
    pub eq: Vec<AssocEq>,
}

#[verifier::ext_equal]
pub struct TraitBoundModel {
    pub ty: Seq<char>,
    pub eq: Seq<AssocEqModel>,
}

impl View for TraitBound {
    type V = TraitBoundModel;

    open spec fn view(&self) -> TraitBoundModel {
        TraitBoundModel { ty: self.ty@, eq: self.eq@.map_values(|e: AssocEq| e@) }
    }
}

/// One `type Name = Value;` declaration of the generated impl.
pub struct AssocDecl {
    pub name: String,
    pub value: String,
}

#[verifier::ext_equal]
pub struct AssocDeclModel {
    pub name: Seq<char>,
    pub value: Seq<char>,
}

impl View for AssocDecl {
    type V = AssocDeclModel;

    open spec fn view(&self) -> AssocDeclModel {
        AssocDeclModel { name: self.name@, value: self.value@ }
    }
}

/// The synthesized implementation block, structurally.
pub struct GeneratedImpl {
    /// Generic parameters of the impl: the enum's own declarations followed
    /// by the trait table's generics.
    pub impl_generics: Vec<String>,
    pub trait_path: String,
    /// Generic arguments the trait is instantiated with.
    pub trait_args: Vec<String>,
    pub enum_name: String,
    /// Generic arguments of the self type: the enum's parameter names.
    pub enum_args: Vec<String>,
    /// One bound per variant, in declaration order.
    pub bounds: Vec<TraitBound>,
    pub assoc_decls: Vec<AssocDecl>,
    /// One method per table entry, in table order.
    pub methods: Vec<GenMethod>,
}

#[verifier::ext_equal]
pub struct GeneratedImplModel {
    pub impl_generics: Seq<Seq<char>>,
    pub trait_path: Seq<char>,
    pub trait_args: Seq<Seq<char>>,
    pub enum_name: Seq<char>,
    pub enum_args: Seq<Seq<char>>,
    pub bounds: Seq<TraitBoundModel>,
    pub assoc_decls: Seq<AssocDeclModel>,
    pub methods: Seq<GenMethodModel>,
}

impl View for GeneratedImpl {
    type V = GeneratedImplModel;

    open spec fn view(&self) -> GeneratedImplModel {
        GeneratedImplModel {
            impl_generics: self.impl_generics@.map_values(|s: String| s@),
            trait_path: self.trait_path@,
            trait_args: self.trait_args@.map_values(|s: String| s@),
            enum_name: self.enum_name@,
            enum_args: self.enum_args@.map_values(|s: String| s@),
            bounds: self.bounds@.map_values(|b: TraitBound| b@),
            assoc_decls: self.assoc_decls@.map_values(|a: AssocDecl| a@),
            methods: self.methods@.map_values(|m: GenMethod| m@),
        }
    }
}

/// The payload access implied by a receiver kind: pinned receivers dispatch
/// through a pin re-projection, borrowed receivers through the match binding.
pub open spec fn spec_access_for(r: Receiver) -> PayloadAccess {
    match r {
        Receiver::Pinned => PayloadAccess::Repinned,
        Receiver::Shared => PayloadAccess::Borrowed,
        Receiver::Exclusive => PayloadAccess::Borrowed,
    }
}

/// The dispatch arms of one method: one per variant, in declaration order.
pub open spec fn spec_arms_for(variants: Seq<VariantModel>, r: Receiver) -> Seq<MatchArmModel> {
    variants.map_values(
        |v: VariantModel| MatchArmModel { variant: v.name, access: spec_access_for(r) },
    )
}

/// The associated type `assoc` of the first variant's payload, written as a
/// fully qualified type: `<P0 as Trait<Args>>::Assoc`.
pub open spec fn spec_qualified_assoc(
    payload: Seq<char>,
    path: Seq<char>,
    args: Seq<Seq<char>>,
    assoc: Seq<char>,
) -> Seq<char> {
    "<"@ + payload + " as "@ + path + spec_angle_args(args) + ">::"@ + assoc
}

/// The authoritative value every variant's `assoc` is unified with: the
/// first variant's, by policy.
pub open spec fn spec_assoc_value(d: EnumDescriptorModel, t: TraitSpecModel, assoc: Seq<char>) -> Seq<char> {
    spec_qualified_assoc(d.variants[0].payload, t.path, t.generics, assoc)
}

/// The unification constraints of one variant's bound: none for the first
/// variant, `Assoc = <first payload as Trait>::Assoc` for every later one.
pub open spec fn spec_bound_eqs(d: EnumDescriptorModel, t: TraitSpecModel, i: int) -> Seq<AssocEqModel> {
    if i == 0 {
        Seq::empty()
    } else {
        t.assoc_types.map_values(
            |a: Seq<char>| AssocEqModel { assoc: a, value: spec_assoc_value(d, t, a) },
        )
    }
}

/// The trait bound generated for variant `i`.
pub open spec fn spec_bound_for(d: EnumDescriptorModel, t: TraitSpecModel, i: int) -> TraitBoundModel {
    TraitBoundModel { ty: d.variants[i].payload, eq: spec_bound_eqs(d, t, i) }
}

/// The whole synthesized block, as a function of descriptor and table alone.
pub open spec fn spec_synthesize(d: EnumDescriptorModel, t: TraitSpecModel) -> GeneratedImplModel {
    GeneratedImplModel {
        impl_generics: d.generics.map_values(|g: GenericParamModel| g.decl) + t.generics,
        trait_path: t.path,
        trait_args: t.generics,
        enum_name: d.name,
        enum_args: d.generics.map_values(|g: GenericParamModel| g.name),
        bounds: Seq::new(d.variants.len(), |i: int| spec_bound_for(d, t, i)),
        assoc_decls: t.assoc_types.map_values(
            |a: Seq<char>| AssocDeclModel { name: a, value: spec_assoc_value(d, t, a) },
        ),
        methods: t.methods.map_values(
            |m: MethodSigModel| GenMethodModel { sig: m, arms: spec_arms_for(d.variants, m.receiver) },
        ),
    }
}

fn clone_params(ps: &Vec<Param>) -> (r: Vec<Param>)
    ensures
        r@.map_values(|p: Param| p@) == ps@.map_values(|p: Param| p@),
{
    let mut out: Vec<Param> = Vec::new();
    let mut i: usize = 0;
    while i < ps.len()
        invariant
            i <= ps.len(),
            out.len() == i,
            forall|j: int| 0 <= j < i ==> #[trigger] out@[j]@ == ps@[j]@,
        decreases ps.len() - i,
    {
        let p = &ps[i];
        out.push(Param { name: p.name.clone(), ty: p.ty.clone() });
        i = i + 1;
    }
    proof {
        assert(out@.map_values(|p: Param| p@) =~= ps@.map_values(|p: Param| p@));
    }
    out
}

fn clone_opt_string(o: &Option<String>) -> (r: Option<String>)
    ensures
        crate::tables::view_opt_string(r) == crate::tables::view_opt_string(*o),
{
    match o {
        Some(s) => Some(s.clone()),
        None => None,
    }
}

fn clone_sig(m: &MethodSig) -> (r: MethodSig)
    ensures
        r@ == m@,
{
    let r = MethodSig {
        name: m.name.clone(),
        lifetime: clone_opt_string(&m.lifetime),
        receiver: m.receiver,
        params: clone_params(&m.params),
        ret: clone_opt_string(&m.ret),
        is_unsafe: m.is_unsafe,
    };
    proof {
        assert(r@ =~~= m@);
    }
    r
}

/// Build `<P0 as Trait<Args>>::Assoc` as text.
fn qualified_assoc(payload: &str, path: &str, args: &Vec<String>, assoc: &str) -> (r: String)
    ensures
        r@ == spec_qualified_assoc(payload@, path@, args@.map_values(|s: String| s@), assoc@),
{
    let mut out = "<".to_owned();
    out.append(payload);
    out.append(" as ");
    out.append(path);
    push_angle_args(&mut out, args);
    out.append(">::");
    out.append(assoc);
    proof {
        assert(out@ =~= spec_qualified_assoc(
            payload@,
            path@,
            args@.map_values(|s: String| s@),
            assoc@,
        ));
    }
    out
}

/// The unification constraints of any non-first variant's bound.
fn assoc_eq_list(d: &EnumDescriptor, t: &TraitSpec) -> (r: Vec<AssocEq>)
    requires
        d@.variants.len() >= 1,
    ensures
        r@.map_values(|e: AssocEq| e@) == t@.assoc_types.map_values(
            |a: Seq<char>| AssocEqModel { assoc: a, value: spec_assoc_value(d@, t@, a) },
        ),
{
    let mut out: Vec<AssocEq> = Vec::new();
    let first_payload = &d.variants[0].payload;
    let mut i: usize = 0;
    while i < t.assoc_types.len()
        invariant
            i <= t.assoc_types.len(),
            out.len() == i,
            d@.variants.len() >= 1,
            first_payload@ == d@.variants[0].payload,
            forall|j: int|
                0 <= j < i ==> #[trigger] out@[j]@ == (AssocEqModel {
                    assoc: t@.assoc_types[j],
                    value: spec_assoc_value(d@, t@, t@.assoc_types[j]),
                }),
        decreases t.assoc_types.len() - i,
    {
        let a = &t.assoc_types[i];
        let value = qualified_assoc(
            first_payload.as_str(),
            t.path.as_str(),
            &t.generics,
            a.as_str(),
        );
        out.push(AssocEq { assoc: a.clone(), value });
        i = i + 1;
    }
    proof {
        assert(out@.map_values(|e: AssocEq| e@) =~= t@.assoc_types.map_values(
            |a: Seq<char>| AssocEqModel { assoc: a, value: spec_assoc_value(d@, t@, a) },
        ));
    }
    out
}

/// The dispatch arms for one method, one per variant in declaration order.
fn arms_for(d: &EnumDescriptor, receiver: Receiver) -> (r: Vec<MatchArm>)
    ensures
        r@.map_values(|a: MatchArm| a@) == spec_arms_for(d@.variants, receiver),
{
    let access = match receiver {
        Receiver::Pinned => PayloadAccess::Repinned,
        Receiver::Shared => PayloadAccess::Borrowed,
        Receiver::Exclusive => PayloadAccess::Borrowed,
    };
    let mut out: Vec<MatchArm> = Vec::new();
    let mut i: usize = 0;
    while i < d.variants.len()
        invariant
            i <= d.variants.len(),
            out.len() == i,
            access == spec_access_for(receiver),
            forall|j: int|
                0 <= j < i ==> #[trigger] out@[j]@ == (MatchArmModel {
                    variant: d@.variants[j].name,
                    access: spec_access_for(receiver),
                }),
        decreases d.variants.len() - i,
    {
        out.push(MatchArm { variant: d.variants[i].name.clone(), access });
        i = i + 1;
    }
    proof {
        assert(out@.map_values(|a: MatchArm| a@) =~= spec_arms_for(d@.variants, receiver));
    }
    out
}

/// Synthesize the implementation block for one descriptor and one table.
///
/// The result is a pure function of the two inputs: repeated calls on equal
/// inputs yield equal blocks.
pub fn synthesize(d: &EnumDescriptor, t: &TraitSpec) -> (g: GeneratedImpl)
    requires
        d@.variants.len() >= 1,
    ensures
        g@ == spec_synthesize(d@, t@),
{
    // Generic parameters of the impl: enum declarations, then trait generics.
    let mut impl_generics: Vec<String> = Vec::new();
    let mut i: usize = 0;
    while i < d.generics.len()
        invariant
            i <= d.generics.len(),
            impl_generics.len() == i,
            forall|j: int| 0 <= j < i ==> #[trigger] impl_generics@[j]@ == d@.generics[j].decl,
        decreases d.generics.len() - i,
    {
        impl_generics.push(d.generics[i].decl.clone());
        i = i + 1;
    }
    let mut k: usize = 0;
    while k < t.generics.len()
        invariant
            k <= t.generics.len(),
            impl_generics.len() == d.generics.len() + k,
            forall|j: int|
                0 <= j < d.generics.len() ==> #[trigger] impl_generics@[j]@ == d@.generics[j].decl,
            forall|j: int|
                d.generics.len() <= j < d.generics.len() + k ==> #[trigger] impl_generics@[j]@
                    == t@.generics[j - d.generics@.len()],
        decreases t.generics.len() - k,
    {
        impl_generics.push(t.generics[k].clone());
        k = k + 1;
    }

    // Enum type arguments: the enum's generic parameter names.
    let mut enum_args: Vec<String> = Vec::new();
    let mut i2: usize = 0;
    while i2 < d.generics.len()
        invariant
            i2 <= d.generics.len(),
            enum_args.len() == i2,
            forall|j: int| 0 <= j < i2 ==> #[trigger] enum_args@[j]@ == d@.generics[j].name,
        decreases d.generics.len() - i2,
    {
        enum_args.push(d.generics[i2].name.clone());
        i2 = i2 + 1;
    }

    // One bound per variant; later variants get the unification constraints.
    let mut bounds: Vec<TraitBound> = Vec::new();
    let mut b: usize = 0;
    while b < d.variants.len()
        invariant
            b <= d.variants.len(),
            bounds.len() == b,
            d@.variants.len() >= 1,
            forall|j: int| 0 <= j < b ==> #[trigger] bounds@[j]@ == spec_bound_for(d@, t@, j),
        decreases d.variants.len() - b,
    {
        let eq: Vec<AssocEq> = if b == 0 {
            Vec::new()
        } else {
            assoc_eq_list(d, t)
        };
        bounds.push(TraitBound { ty: d.variants[b].payload.clone(), eq });
        proof {
            assert(bounds@[b as int]@ =~~= spec_bound_for(d@, t@, b as int));
        }
        b = b + 1;
    }

    // Associated type declarations, unified onto the first variant.
    let mut assoc_decls: Vec<AssocDecl> = Vec::new();
    let mut a: usize = 0;
    while a < t.assoc_types.len()
        invariant
            a <= t.assoc_types.len(),
            assoc_decls.len() == a,
            d@.variants.len() >= 1,
            forall|j: int|
                0 <= j < a ==> #[trigger] assoc_decls@[j]@ == (AssocDeclModel {
                    name: t@.assoc_types[j],
                    value: spec_assoc_value(d@, t@, t@.assoc_types[j]),
                }),
        decreases t.assoc_types.len() - a,
    {
        let name = &t.assoc_types[a];
        let value = qualified_assoc(
            d.variants[0].payload.as_str(),
            t.path.as_str(),
            &t.generics,
            name.as_str(),
        );
        assoc_decls.push(AssocDecl { name: name.clone(), value });
        a = a + 1;
    }

    // One dispatch method per table entry, in table order.
    let mut methods: Vec<GenMethod> = Vec::new();
    let mut m: usize = 0;
    while m < t.methods.len()
        invariant
            m <= t.methods.len(),
            methods.len() == m,
            forall|j: int|
                0 <= j < m ==> #[trigger] methods@[j]@ == (GenMethodModel {
                    sig: t@.methods[j],
                    arms: spec_arms_for(d@.variants, t@.methods[j].receiver),
                }),
        decreases t.methods.len() - m,
    {
        let sig = clone_sig(&t.methods[m]);
        let arms = arms_for(d, sig.receiver);
        proof {
            assert(sig@.receiver == t@.methods[m as int].receiver);
        }
        methods.push(GenMethod { sig, arms });
        m = m + 1;
    }

    let g = GeneratedImpl {
        impl_generics,
        trait_path: t.path.clone(),
        trait_args: clone_strings(&t.generics),
        enum_name: d.name.clone(),
        enum_args,
        bounds,
        assoc_decls,
        methods,
    };
    proof {
        assert(g@.impl_generics =~= spec_synthesize(d@, t@).impl_generics);
        assert(g@.enum_args =~= spec_synthesize(d@, t@).enum_args);
        assert(g@.bounds =~= spec_synthesize(d@, t@).bounds);
        assert(g@.assoc_decls =~= spec_synthesize(d@, t@).assoc_decls);
        assert(g@.methods =~= spec_synthesize(d@, t@).methods);
        assert(g@ =~= spec_synthesize(d@, t@));
    }
    g
}

} // verus!
