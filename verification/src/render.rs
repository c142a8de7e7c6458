//! Rendering the synthesized block as source text.
//!
//! The renderer is a deterministic function of the structured block: the
//! impl header with its generic parameters, the where clause with one bound
//! per variant, the associated type declarations, and one forwarding method
//! per table entry whose body is an exhaustive match over the variants.

use vstd::prelude::*;
use vstd::string::StringExecFns;

use crate::synth::{
    AssocDecl, AssocDeclModel, AssocEqModel, GenMethod, GenMethodModel, GeneratedImpl,
    GeneratedImplModel, MatchArm, MatchArmModel, PayloadAccess, TraitBound, TraitBoundModel,
};
use crate::tables::{MethodSig, MethodSigModel, Param, ParamModel, Receiver};
use crate::text::{clone_strings, push_angle_args, spec_angle_args};

verus! {

/// One `Assoc = Value` item inside a bound's angle brackets.
pub open spec fn spec_bound_item(e: AssocEqModel) -> Seq<char> {
    e.assoc + " = "@ + e.value
}

pub open spec fn spec_bound_items(eq: Seq<AssocEqModel>) -> Seq<Seq<char>> {
    eq.map_values(|e: AssocEqModel| spec_bound_item(e))
}

/// One variant's bound: the payload type, the trait reference, and the
/// unification constraints inside the same angle brackets.
pub open spec fn spec_render_bound(b: TraitBoundModel, path: Seq<char>, args: Seq<Seq<char>>) -> Seq<char> {
    b.ty + ": "@ + path + spec_angle_args(args + spec_bound_items(b.eq))
}

/// The where-clause lines, one bound per line.
pub open spec fn spec_render_bound_lines(
    bounds: Seq<TraitBoundModel>,
    path: Seq<char>,
    args: Seq<Seq<char>>,
) -> Seq<char>
    decreases bounds.len(),
{
    if bounds.len() == 0 {
        Seq::empty()
    } else {
        spec_render_bound_lines(bounds.drop_last(), path, args) + "\n    "@ + spec_render_bound(
            bounds.last(),
            path,
            args,
        ) + ","@
    }
}

/// The whole where clause, or nothing when there are no bounds.
pub open spec fn spec_render_where(
    bounds: Seq<TraitBoundModel>,
    path: Seq<char>,
    args: Seq<Seq<char>>,
) -> Seq<char> {
    if bounds.len() == 0 {
        Seq::empty()
    } else {
        "\nwhere"@ + spec_render_bound_lines(bounds, path, args)
    }
}

/// `    type Name = Value;` lines, one per associated type.
pub open spec fn spec_render_assoc_decls(decls: Seq<AssocDeclModel>) -> Seq<char>
    decreases decls.len(),
{
    if decls.len() == 0 {
        Seq::empty()
    } else {
        spec_render_assoc_decls(decls.drop_last()) + "    type "@ + decls.last().name + " = "@
            + decls.last().value + ";\n"@
    }
}

/// The declared parameters of a method signature, each as `, name: ty`.
pub open spec fn spec_render_sig_params(params: Seq<ParamModel>) -> Seq<char>
    decreases params.len(),
{
    if params.len() == 0 {
        Seq::empty()
    } else {
        spec_render_sig_params(params.drop_last()) + ", "@ + params.last().name + ": "@
            + params.last().ty
    }
}

/// The forwarded arguments of a dispatch call, each as `, name`.
pub open spec fn spec_render_arg_names(params: Seq<ParamModel>) -> Seq<char>
    decreases params.len(),
{
    if params.len() == 0 {
        Seq::empty()
    } else {
        spec_render_arg_names(params.drop_last()) + ", "@ + params.last().name
    }
}

/// How a dispatch arm hands the matched payload to the forwarded call.
pub open spec fn spec_access_text(a: PayloadAccess) -> Seq<char> {
    match a {
        PayloadAccess::Borrowed => "x"@,
        PayloadAccess::Repinned => "::core::pin::Pin::new_unchecked(x)"@,
        PayloadAccess::Moved => "*x"@,
    }
}

/// One dispatch arm: pattern, forwarded call, trailing comma.
pub open spec fn spec_render_arm(
    arm: MatchArmModel,
    indent: Seq<char>,
    enum_name: Seq<char>,
    trait_path: Seq<char>,
    method_name: Seq<char>,
    params: Seq<ParamModel>,
) -> Seq<char> {
    indent + enum_name + "::"@ + arm.variant + "(x) => "@ + trait_path + "::"@ + method_name
        + "("@ + spec_access_text(arm.access) + spec_render_arg_names(params) + "),\n"@
}

pub open spec fn spec_render_arms(
    arms: Seq<MatchArmModel>,
    indent: Seq<char>,
    enum_name: Seq<char>,
    trait_path: Seq<char>,
    method_name: Seq<char>,
    params: Seq<ParamModel>,
) -> Seq<char>
    decreases arms.len(),
{
    if arms.len() == 0 {
        Seq::empty()
    } else {
        spec_render_arms(arms.drop_last(), indent, enum_name, trait_path, method_name, params)
            + spec_render_arm(arms.last(), indent, enum_name, trait_path, method_name, params)
    }
}

/// A method body: pinned receivers are narrowed by a pin projection inside
/// an unsafe block, borrowed receivers are matched directly.
pub open spec fn spec_render_body(
    m: GenMethodModel,
    enum_name: Seq<char>,
    trait_path: Seq<char>,
) -> Seq<char> {
    match m.sig.receiver {
        Receiver::Pinned => "        unsafe {\n            match self.get_unchecked_mut() {\n"@
            + spec_render_arms(
            m.arms,
            "                "@,
            enum_name,
            trait_path,
            m.sig.name,
            m.sig.params,
        ) + "            }\n        }\n"@,
        Receiver::Shared => "        match self {\n"@ + spec_render_arms(
            m.arms,
            "            "@,
            enum_name,
            trait_path,
            m.sig.name,
            m.sig.params,
        ) + "        }\n"@,
        Receiver::Exclusive => "        match self {\n"@ + spec_render_arms(
            m.arms,
            "            "@,
            enum_name,
            trait_path,
            m.sig.name,
            m.sig.params,
        ) + "        }\n"@,
    }
}

pub open spec fn spec_lifetime_text(lt: Option<Seq<char>>) -> Seq<char> {
    match lt {
        Some(l) => "<"@ + l + ">"@,
        None => Seq::empty(),
    }
}

pub open spec fn spec_receiver_text(r: Receiver, lt: Option<Seq<char>>) -> Seq<char> {
    match r {
        Receiver::Shared => "&self"@,
        Receiver::Exclusive => "&mut self"@,
        Receiver::Pinned => match lt {
            Some(l) => "self: ::core::pin::Pin<&"@ + l + " mut Self>"@,
            None => "self: ::core::pin::Pin<&mut Self>"@,
        },
    }
}

pub open spec fn spec_ret_text(ret: Option<Seq<char>>) -> Seq<char> {
    match ret {
        Some(t) => " -> "@ + t,
        None => Seq::empty(),
    }
}

pub open spec fn spec_unsafe_text(u: bool) -> Seq<char> {
    if u {
        "unsafe "@
    } else {
        Seq::empty()
    }
}

/// A forwarded method's signature line, up to and including the opening
/// brace of its body.
pub open spec fn spec_render_sig(sig: MethodSigModel) -> Seq<char> {
    "    #[inline]\n    "@ + spec_unsafe_text(sig.is_unsafe) + "fn "@ + sig.name
        + spec_lifetime_text(sig.lifetime) + "("@ + spec_receiver_text(sig.receiver, sig.lifetime)
        + spec_render_sig_params(sig.params) + ")"@ + spec_ret_text(sig.ret) + " {\n"@
}

/// One generated method, signature and dispatch body.
pub open spec fn spec_render_method(
    m: GenMethodModel,
    enum_name: Seq<char>,
    trait_path: Seq<char>,
) -> Seq<char> {
    spec_render_sig(m.sig) + spec_render_body(m, enum_name, trait_path) + "    }\n"@
}

pub open spec fn spec_render_methods(
    methods: Seq<GenMethodModel>,
    enum_name: Seq<char>,
    trait_path: Seq<char>,
) -> Seq<char>
    decreases methods.len(),
{
    if methods.len() == 0 {
        Seq::empty()
    } else {
        spec_render_methods(methods.drop_last(), enum_name, trait_path) + spec_render_method(
            methods.last(),
            enum_name,
            trait_path,
        )
    }
}

/// The full implementation block.
pub open spec fn spec_render_impl(g: GeneratedImplModel) -> Seq<char> {
    "#[allow(unsafe_code)]\nimpl"@ + spec_angle_args(g.impl_generics) + " "@ + g.trait_path
        + spec_angle_args(g.trait_args) + " for "@ + g.enum_name + spec_angle_args(g.enum_args)
        + spec_render_where(g.bounds, g.trait_path, g.trait_args) + "\n{\n"@
        + spec_render_assoc_decls(g.assoc_decls) + spec_render_methods(
        g.methods,
        g.enum_name,
        g.trait_path,
    ) + "}\n"@
}

fn push_bound(out: &mut String, b: &TraitBound, path: &str, args: &Vec<String>)
    ensures
        final(out)@ == old(out)@ + spec_render_bound(b@, path@, args@.map_values(|s: String| s@)),
{
    let ghost argsm = args@.map_values(|s: String| s@);
    out.append(b.ty.as_str());
    out.append(": ");
    out.append(path);
    let mut items: Vec<String> = clone_strings(args);
    let ghost items0 = items@.map_values(|s: String| s@);
    proof {
        assert(items0.len() == items@.len());
        assert(argsm.len() == args@.len());
        assert forall|j: int| 0 <= j < args@.len() implies #[trigger] items@[j]@ == argsm[j] by {
            assert(items0[j] == items@[j]@);
            assert(argsm[j] == args@[j]@);
        }
    }
    let mut i: usize = 0;
    while i < b.eq.len()
        invariant
            i <= b.eq.len(),
            items.len() == args@.len() + i,
            items0 == argsm,
            argsm == args@.map_values(|s: String| s@),
            forall|j: int| 0 <= j < args@.len() ==> #[trigger] items@[j]@ == argsm[j],
            forall|j: int|
                args@.len() <= j < args@.len() + i ==> #[trigger] items@[j]@ == spec_bound_item(
                    b@.eq[j - args@.len()],
                ),
        decreases b.eq.len() - i,
    {
        let e = &b.eq[i];
        let mut item = e.assoc.clone();
        item.append(" = ");
        item.append(e.value.as_str());
        proof {
            assert(item@ == spec_bound_item(b@.eq[i as int]));
        }
        items.push(item);
        i = i + 1;
    }
    push_angle_args(out, &items);
    proof {
        assert(items@.map_values(|s: String| s@) =~= argsm + spec_bound_items(b@.eq));
        assert(out@ =~= old(out)@ + spec_render_bound(b@, path@, argsm));
    }
}

fn push_where(out: &mut String, bounds: &Vec<TraitBound>, path: &str, args: &Vec<String>)
    ensures
        final(out)@ == old(out)@ + spec_render_where(
            bounds@.map_values(|b: TraitBound| b@),
            path@,
            args@.map_values(|s: String| s@),
        ),
{
    let ghost bm = bounds@.map_values(|b: TraitBound| b@);
    let ghost argsm = args@.map_values(|s: String| s@);
    if bounds.len() == 0 {
        proof {
            assert(old(out)@ + spec_render_where(bm, path@, argsm) =~= old(out)@);
        }
        return ;
    }
    out.append("\nwhere");
    let mut i: usize = 0;
    while i < bounds.len()
        invariant
            i <= bounds.len(),
            bm == bounds@.map_values(|b: TraitBound| b@),
            argsm == args@.map_values(|s: String| s@),
            out@ == old(out)@ + "\nwhere"@ + spec_render_bound_lines(
                bm.take(i as int),
                path@,
                argsm,
            ),
        decreases bounds.len() - i,
    {
        out.append("\n    ");
        push_bound(out, &bounds[i], path, args);
        out.append(",");
        proof {
            assert(bm.take(i as int + 1).drop_last() =~= bm.take(i as int));
            assert(out@ =~= old(out)@ + "\nwhere"@ + spec_render_bound_lines(
                bm.take(i as int + 1),
                path@,
                argsm,
            ));
        }
        i = i + 1;
    }
    proof {
        assert(bm.take(bounds@.len() as int) =~= bm);
        assert(out@ =~= old(out)@ + spec_render_where(bm, path@, argsm));
    }
}

fn push_assoc_decls(out: &mut String, decls: &Vec<AssocDecl>)
    ensures
        final(out)@ == old(out)@ + spec_render_assoc_decls(
            decls@.map_values(|a: AssocDecl| a@),
        ),
{
    let ghost dm = decls@.map_values(|a: AssocDecl| a@);
    let mut i: usize = 0;
    while i < decls.len()
        invariant
            i <= decls.len(),
            dm == decls@.map_values(|a: AssocDecl| a@),
            out@ == old(out)@ + spec_render_assoc_decls(dm.take(i as int)),
        decreases decls.len() - i,
    {
        out.append("    type ");
        out.append(decls[i].name.as_str());
        out.append(" = ");
        out.append(decls[i].value.as_str());
        out.append(";\n");
        proof {
            assert(dm.take(i as int + 1).drop_last() =~= dm.take(i as int));
            assert(out@ =~= old(out)@ + spec_render_assoc_decls(dm.take(i as int + 1)));
        }
        i = i + 1;
    }
    proof {
        assert(dm.take(decls@.len() as int) =~= dm);
    }
}

fn push_sig_params(out: &mut String, params: &Vec<Param>)
    ensures
        final(out)@ == old(out)@ + spec_render_sig_params(params@.map_values(|p: Param| p@)),
{
    let ghost pm = params@.map_values(|p: Param| p@);
    let mut i: usize = 0;
    while i < params.len()
        invariant
            i <= params.len(),
            pm == params@.map_values(|p: Param| p@),
            out@ == old(out)@ + spec_render_sig_params(pm.take(i as int)),
        decreases params.len() - i,
    {
        out.append(", ");
        out.append(params[i].name.as_str());
        out.append(": ");
        out.append(params[i].ty.as_str());
        proof {
            assert(pm.take(i as int + 1).drop_last() =~= pm.take(i as int));
            assert(out@ =~= old(out)@ + spec_render_sig_params(pm.take(i as int + 1)));
        }
        i = i + 1;
    }
    proof {
        assert(pm.take(params@.len() as int) =~= pm);
    }
}

fn push_arg_names(out: &mut String, params: &Vec<Param>)
    ensures
        final(out)@ == old(out)@ + spec_render_arg_names(params@.map_values(|p: Param| p@)),
{
    let ghost pm = params@.map_values(|p: Param| p@);
    let mut i: usize = 0;
    while i < params.len()
        invariant
            i <= params.len(),
            pm == params@.map_values(|p: Param| p@),
            out@ == old(out)@ + spec_render_arg_names(pm.take(i as int)),
        decreases params.len() - i,
    {
        out.append(", ");
        out.append(params[i].name.as_str());
        proof {
            assert(pm.take(i as int + 1).drop_last() =~= pm.take(i as int));
            assert(out@ =~= old(out)@ + spec_render_arg_names(pm.take(i as int + 1)));
        }
        i = i + 1;
    }
    proof {
        assert(pm.take(params@.len() as int) =~= pm);
    }
}

#[verifier::rlimit(100)]
fn push_arms(
    out: &mut String,
    arms: &Vec<MatchArm>,
    indent: &str,
    enum_name: &str,
    trait_path: &str,
    method_name: &str,
    params: &Vec<Param>,
)
    ensures
        final(out)@ == old(out)@ + spec_render_arms(
            arms@.map_values(|a: MatchArm| a@),
            indent@,
            enum_name@,
            trait_path@,
            method_name@,
            params@.map_values(|p: Param| p@),
        ),
{
    let ghost am = arms@.map_values(|a: MatchArm| a@);
    let ghost pm = params@.map_values(|p: Param| p@);
    let mut i: usize = 0;
    while i < arms.len()
        invariant
            i <= arms.len(),
            am == arms@.map_values(|a: MatchArm| a@),
            pm == params@.map_values(|p: Param| p@),
            out@ == old(out)@ + spec_render_arms(
                am.take(i as int),
                indent@,
                enum_name@,
                trait_path@,
                method_name@,
                pm,
            ),
        decreases arms.len() - i,
    {
        out.append(indent);
        out.append(enum_name);
        out.append("::");
        out.append(arms[i].variant.as_str());
        out.append("(x) => ");
        out.append(trait_path);
        out.append("::");
        out.append(method_name);
        out.append("(");
        match arms[i].access {
            PayloadAccess::Borrowed => out.append("x"),
            PayloadAccess::Repinned => out.append("::core::pin::Pin::new_unchecked(x)"),
            PayloadAccess::Moved => out.append("*x"),
        }
        push_arg_names(out, params);
        out.append("),\n");
        proof {
            assert(am.take(i as int + 1).drop_last() =~= am.take(i as int));
            assert(out@ =~= old(out)@ + spec_render_arms(
                am.take(i as int + 1),
                indent@,
                enum_name@,
                trait_path@,
                method_name@,
                pm,
            ));
        }
        i = i + 1;
    }
    proof {
        assert(am.take(arms@.len() as int) =~= am);
    }
}

#[verifier::rlimit(100)]
fn push_sig(out: &mut String, sig: &MethodSig)
    ensures
        final(out)@ == old(out)@ + spec_render_sig(sig@),
{
    out.append("    #[inline]\n    ");
    if sig.is_unsafe {
        out.append("unsafe ");
    }
    out.append("fn ");
    out.append(sig.name.as_str());
    proof {
        assert(out@ =~= old(out)@ + "    #[inline]\n    "@ + spec_unsafe_text(sig@.is_unsafe)
            + "fn "@ + sig@.name);
    }
    match &sig.lifetime {
        Some(lt) => {
            out.append("<");
            out.append(lt.as_str());
            out.append(">");
        },
        None => {},
    }
    out.append("(");
    let ghost head = old(out)@ + "    #[inline]\n    "@ + spec_unsafe_text(sig@.is_unsafe)
        + "fn "@ + sig@.name + spec_lifetime_text(sig@.lifetime) + "("@;
    proof {
        assert(out@ =~= head);
    }
    match sig.receiver {
        Receiver::Shared => out.append("&self"),
        Receiver::Exclusive => out.append("&mut self"),
        Receiver::Pinned => {
            match &sig.lifetime {
                Some(lt) => {
                    out.append("self: ::core::pin::Pin<&");
                    out.append(lt.as_str());
                    out.append(" mut Self>");
                },
                None => out.append("self: ::core::pin::Pin<&mut Self>"),
            }
        },
    }
    proof {
        assert(out@ =~= head + spec_receiver_text(sig@.receiver, sig@.lifetime));
    }
    push_sig_params(out, &sig.params);
    out.append(")");
    match &sig.ret {
        Some(t) => {
            out.append(" -> ");
            out.append(t.as_str());
        },
        None => {},
    }
    out.append(" {\n");
    proof {
        assert(out@ =~= head + spec_receiver_text(sig@.receiver, sig@.lifetime)
            + spec_render_sig_params(sig@.params) + ")"@ + spec_ret_text(sig@.ret) + " {\n"@);
        assert(out@ =~= old(out)@ + spec_render_sig(sig@));
    }
}

fn push_body(out: &mut String, m: &GenMethod, enum_name: &str, trait_path: &str)
    ensures
        final(out)@ == old(out)@ + spec_render_body(m@, enum_name@, trait_path@),
{
    match m.sig.receiver {
        Receiver::Pinned => {
            out.append("        unsafe {\n            match self.get_unchecked_mut() {\n");
            push_arms(
                out,
                &m.arms,
                "                ",
                enum_name,
                trait_path,
                m.sig.name.as_str(),
                &m.sig.params,
            );
            out.append("            }\n        }\n");
        },
        Receiver::Shared => {
            out.append("        match self {\n");
            push_arms(
                out,
                &m.arms,
                "            ",
                enum_name,
                trait_path,
                m.sig.name.as_str(),
                &m.sig.params,
            );
            out.append("        }\n");
        },
        Receiver::Exclusive => {
            out.append("        match self {\n");
            push_arms(
                out,
                &m.arms,
                "            ",
                enum_name,
                trait_path,
                m.sig.name.as_str(),
                &m.sig.params,
            );
            out.append("        }\n");
        },
    }
    proof {
        assert(out@ =~= old(out)@ + spec_render_body(m@, enum_name@, trait_path@));
    }
}

fn push_method(out: &mut String, m: &GenMethod, enum_name: &str, trait_path: &str)
    ensures
        final(out)@ == old(out)@ + spec_render_method(m@, enum_name@, trait_path@),
{
    push_sig(out, &m.sig);
    push_body(out, m, enum_name, trait_path);
    out.append("    }\n");
    proof {
        assert(out@ =~= old(out)@ + spec_render_method(m@, enum_name@, trait_path@));
    }
}

/// Render the synthesized block as source text. The text is a pure function
/// of the block: equal blocks render to identical text.
pub fn render_impl(g: &GeneratedImpl) -> (s: String)
    ensures
        s@ == spec_render_impl(g@),
{
    let mut out = "#[allow(unsafe_code)]\nimpl".to_owned();
    push_angle_args(&mut out, &g.impl_generics);
    out.append(" ");
    out.append(g.trait_path.as_str());
    push_angle_args(&mut out, &g.trait_args);
    out.append(" for ");
    out.append(g.enum_name.as_str());
    push_angle_args(&mut out, &g.enum_args);
    push_where(&mut out, &g.bounds, g.trait_path.as_str(), &g.trait_args);
    out.append("\n{\n");
    push_assoc_decls(&mut out, &g.assoc_decls);
    let ghost mid = out@;
    let mut i: usize = 0;
    while i < g.methods.len()
        invariant
            i <= g.methods.len(),
            out@ == mid + spec_render_methods(
                g.methods@.map_values(|m: GenMethod| m@).take(i as int),
                g.enum_name@,
                g.trait_path@,
            ),
        decreases g.methods.len() - i,
    {
        push_method(&mut out, &g.methods[i], g.enum_name.as_str(), g.trait_path.as_str());
        proof {
            let mm = g.methods@.map_values(|m: GenMethod| m@);
            assert(mm.take(i as int + 1).drop_last() =~= mm.take(i as int));
            assert(out@ =~= mid + spec_render_methods(
                mm.take(i as int + 1),
                g.enum_name@,
                g.trait_path@,
            ));
        }
        i = i + 1;
    }
    out.append("}\n");
    proof {
        let mm = g.methods@.map_values(|m: GenMethod| m@);
        assert(mm.take(g.methods@.len() as int) =~= mm);
        assert(out@ =~= spec_render_impl(g@));
    }
    out
}

} // verus!
