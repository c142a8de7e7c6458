//! Small text-building helpers shared by the synthesizer and the renderer.

use vstd::prelude::*;
use vstd::string::StringExecFns;

verus! {

/// `parts` joined with `sep` between consecutive parts.
pub open spec fn spec_join(parts: Seq<Seq<char>>, sep: Seq<char>) -> Seq<char>
    decreases parts.len(),
{
    if parts.len() == 0 {
        Seq::empty()
    } else if parts.len() == 1 {
        parts[0]
    } else {
        spec_join(parts.drop_last(), sep) + sep + parts.last()
    }
}

/// A comma-separated list in angle brackets, or nothing when `args` is empty.
pub open spec fn spec_angle_args(args: Seq<Seq<char>>) -> Seq<char> {
    if args.len() == 0 {
        Seq::empty()
    } else {
        "<"@ + spec_join(args, ", "@) + ">"@
    }
}

/// Append `parts`, joined with `sep`, onto `out`.
pub fn push_join(out: &mut String, parts: &Vec<String>, sep: &str)
    ensures
        final(out)@ == old(out)@ + spec_join(parts@.map_values(|p: String| p@), sep@),
{
    let ghost pm = parts@.map_values(|p: String| p@);
    let mut i: usize = 0;
    while i < parts.len()
        invariant
            i <= parts.len(),
            pm == parts@.map_values(|p: String| p@),
            out@ == old(out)@ + spec_join(pm.take(i as int), sep@),
        decreases parts.len() - i,
    {
        if i > 0 {
            out.append(sep);
        }
        out.append(parts[i].as_str());
        proof {
            assert(pm.take(i as int + 1).drop_last() =~= pm.take(i as int));
            assert(pm.take(i as int + 1).last() == pm[i as int]);
            assert(out@ =~= old(out)@ + spec_join(pm.take(i as int + 1), sep@));
        }
        i = i + 1;
    }
    proof {
        assert(pm.take(parts@.len() as int) =~= pm);
    }
}

/// Append `args` as an angle-bracketed list (nothing when `args` is empty).
pub fn push_angle_args(out: &mut String, args: &Vec<String>)
    ensures
        final(out)@ == old(out)@ + spec_angle_args(args@.map_values(|p: String| p@)),
{
    if args.len() > 0 {
        out.append("<");
        push_join(out, args, ", ");
        out.append(">");
        proof {
            assert(out@ =~= old(out)@ + spec_angle_args(args@.map_values(|p: String| p@)));
        }
    }
}

/// Copy a list of strings element for element.
pub(crate) fn clone_strings(v: &Vec<String>) -> (r: Vec<String>)
    ensures
        r@.map_values(|s: String| s@) == v@.map_values(|s: String| s@),
{
    let mut out: Vec<String> = Vec::new();
    let mut i: usize = 0;
    while i < v.len()
        invariant
            i <= v.len(),
            out.len() == i,
            forall|j: int| 0 <= j < i ==> #[trigger] out@[j]@ == v@[j]@,
        decreases v.len() - i,
    {
        out.push(v[i].clone());
        i = i + 1;
    }
    proof {
        assert(out@.map_values(|s: String| s@) =~= v@.map_values(|s: String| s@));
    }
    out
}

/// Character-for-character equality of two string slices.
pub fn str_eq(a: &str, b: &str) -> (r: bool)
    ensures
        r == (a@ == b@),
{
    let sa = a.to_owned();
    let sb = b.to_owned();
    sa == sb
}

} // verus!
