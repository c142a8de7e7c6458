//! Module-path resolution for the resolvable trait families.
//!
//! The provider of the stream, consumer and byte-capability traits may be
//! addressed in the invoking project under its own name, under a rename, or
//! through one of its split-out sub-crates. The host looks the provider up
//! in the project's dependency metadata; this module supplies the predicate
//! that lookup applies, maps its outcome to a `CrateResolution`, and builds
//! the trait paths from a resolution. When nothing was found, resolution
//! falls back to the default provider name, never to a failure.

use vstd::prelude::*;
use vstd::string::StringExecFns;

use crate::text::str_eq;

verus! {

/// A provider entry found in the invoking project's dependency metadata.
pub struct FoundPackage {
    /// The name under which the provider is addressed by the project.
    pub name: String,
    /// The provider's own name when the project addresses it under a
    /// rename; `None` when it appears under its own name.
    pub original: Option<String>,
}

#[verifier::ext_equal]
pub struct FoundPackageModel {
    pub name: Seq<char>,
    pub original: Option<Seq<char>>,
}

impl View for FoundPackage {
    type V = FoundPackageModel;

    open spec fn view(&self) -> FoundPackageModel {
        FoundPackageModel {
            name: self.name@,
            original: crate::tables::view_opt_string(self.original),
        }
    }
}

/// The module prefix the generated paths address the trait family through.
pub struct CrateResolution {
    /// The crate name to generate paths under.
    pub name: String,
    /// The provider's own name when `name` is a rename or a sub-crate,
    /// `None` otherwise.
    pub original: Option<String>,
}

#[verifier::ext_equal]
pub struct CrateResolutionModel {
    pub name: Seq<char>,
    pub original: Option<Seq<char>>,
}

impl View for CrateResolution {
    type V = CrateResolutionModel;

    open spec fn view(&self) -> CrateResolutionModel {
        CrateResolutionModel {
            name: self.name@,
            original: crate::tables::view_opt_string(self.original),
        }
    }
}

pub open spec fn view_opt_package(o: Option<FoundPackage>) -> Option<FoundPackageModel> {
    match o {
        Some(p) => Some(p@),
        None => None,
    }
}

/// The static default: address the trait family through `::futures`.
pub open spec fn spec_default_crate_name() -> CrateResolutionModel {
    CrateResolutionModel { name: "futures"@, original: None }
}

pub fn default_crate_name() -> (r: CrateResolution)
    ensures
        r@ == spec_default_crate_name(),
{
    CrateResolution { name: "futures".to_owned(), original: None }
}

/// What resolution yields for a lookup outcome: the found entry's names, or
/// the silent fallback to the default when nothing was found.
pub open spec fn spec_crate_name(found: Option<FoundPackageModel>) -> CrateResolutionModel {
    match found {
        Some(p) => CrateResolutionModel { name: p.name, original: p.original },
        None => spec_default_crate_name(),
    }
}

/// Map the dependency lookup's outcome to the resolution the generated
/// paths use. Absent metadata degrades to the default, never to an error.
pub fn crate_name(found: Option<FoundPackage>) -> (r: CrateResolution)
    ensures
        r@ == spec_crate_name(view_opt_package(found)),
{
    match found {
        Some(p) => CrateResolution { name: p.name, original: p.original },
        None => default_crate_name(),
    }
}

/// The component of the version string before the first `.`.
pub open spec fn spec_leading_component(s: Seq<char>) -> Seq<char>
    decreases s.len(),
{
    if s.len() == 0 {
        s
    } else if s[0] == '.' {
        Seq::empty()
    } else {
        seq![s[0]] + spec_leading_component(s.drop_first())
    }
}

/// A nonempty run of decimal digits.
pub open spec fn spec_is_digits(s: Seq<char>) -> bool {
    s.len() > 0 && forall|i: int| 0 <= i < s.len() ==> '0' <= #[trigger] s[i] <= '9'
}

/// The number a digit run denotes.
pub open spec fn spec_digits_value(s: Seq<char>) -> int
    decreases s.len(),
{
    if s.len() == 0 {
        0
    } else {
        spec_digits_value(s.drop_last()) * 10 + (s.last() as int - '0' as int)
    }
}

/// The number a version component denotes, if it is one: an optional
/// leading `+`, then digits.
pub open spec fn spec_parse_component(s: Seq<char>) -> Option<int> {
    let digits = if s.len() > 0 && s[0] == '+' {
        s.drop_first()
    } else {
        s
    };
    if spec_is_digits(digits) {
        Some(spec_digits_value(digits))
    } else {
        None
    }
}

/// Whether a version string names the supported major line of the default
/// provider: its leading component denotes three.
pub open spec fn spec_version_major_is_3(version: Seq<char>) -> bool {
    spec_parse_component(spec_leading_component(version)) == Some(3int)
}

/// The predicate the dependency lookup applies to each entry: the default
/// provider on its supported major line, or one of the family's candidate
/// provider names.
pub open spec fn spec_package_matches(
    name: Seq<char>,
    version: Seq<char>,
    candidates: Seq<Seq<char>>,
) -> bool {
    if name == "futures"@ {
        spec_version_major_is_3(version)
    } else {
        candidates.contains(name)
    }
}

proof fn lemma_leading_component_prefix(s: Seq<char>, k: int)
    requires
        0 <= k <= s.len(),
        forall|j: int| 0 <= j < k ==> #[trigger] s[j] != '.',
        k == s.len() || s[k] == '.',
    ensures
        spec_leading_component(s) == s.subrange(0, k),
    decreases k,
{
    if k == 0 {
        if s.len() == 0 {
            assert(s.subrange(0, 0) =~= s);
        } else {
            assert(s.subrange(0, 0) =~= Seq::<char>::empty());
        }
    } else {
        assert(forall|j: int| 0 <= j < k - 1 ==> #[trigger] s.drop_first()[j] != '.');
        lemma_leading_component_prefix(s.drop_first(), k - 1);
        assert(seq![s[0]] + s.drop_first().subrange(0, k - 1) =~= s.subrange(0, k));
    }
}

/// Test whether the leading version component denotes three, saturating the
/// running value so that large components stay comparable without overflow.
fn version_major_is_3(version: &str) -> (b: bool)
    ensures
        b == spec_version_major_is_3(version@),
{
    let n = version.unicode_len();
    // Find the end of the leading component.
    let mut k: usize = 0;
    while k < n
        invariant
            0 <= k <= n,
            n == version@.len(),
            forall|j: int| 0 <= j < k ==> #[trigger] version@[j] != '.',
        ensures
            0 <= k <= n,
            n == version@.len(),
            forall|j: int| 0 <= j < k ==> #[trigger] version@[j] != '.',
            k == n || version@[k as int] == '.',
        decreases n - k,
    {
        if version.get_char(k) == '.' {
            break ;
        }
        k = k + 1;
    }
    proof {
        lemma_leading_component_prefix(version@, k as int);
    }
    let ghost comp = version@.subrange(0, k as int);
    // Skip a leading plus sign.
    let start: usize = if k > 0 && version.get_char(0) == '+' {
        1
    } else {
        0
    };
    let ghost digits = if comp.len() > 0 && comp[0] == '+' {
        comp.drop_first()
    } else {
        comp
    };
    proof {
        assert(digits =~= version@.subrange(start as int, k as int));
    }
    if start == k {
        // No digits at all: not a number.
        proof {
            assert(digits.len() == 0);
            assert(!spec_is_digits(digits));
            assert(spec_parse_component(comp) is None);
            assert(!spec_version_major_is_3(version@));
        }
        return false;
    }
    let mut value: u32 = 0;
    let mut i: usize = start;
    while i < k
        invariant
            start <= i <= k,
            k <= n,
            n == version@.len(),
            comp == version@.subrange(0, k as int),
            spec_leading_component(version@) == comp,
            digits == version@.subrange(start as int, k as int),
            digits == (if comp.len() > 0 && comp[0] == '+' {
                comp.drop_first()
            } else {
                comp
            }),
            forall|j: int|
                start <= j < i ==> '0' <= #[trigger] version@[j] <= '9',
            value <= 1019,
            spec_digits_value(version@.subrange(start as int, i as int)) <= 100 ==> value
                == spec_digits_value(version@.subrange(start as int, i as int)),
            spec_digits_value(version@.subrange(start as int, i as int)) > 100 ==> value > 100,
            spec_digits_value(version@.subrange(start as int, i as int)) >= 0,
        decreases k - i,
    {
        let c = version.get_char(i);
        if !('0' <= c && c <= '9') {
            proof {
                assert(digits[i - start] == c);
                assert(!spec_is_digits(digits));
                assert(spec_parse_component(comp) is None);
                assert(!spec_version_major_is_3(version@));
            }
            return false;
        }
        let d: u32 = (c as u32) - ('0' as u32);
        let capped: u32 = if value > 100 {
            101
        } else {
            value
        };
        value = capped * 10 + d;
        proof {
            let prev = version@.subrange(start as int, i as int);
            let cur = version@.subrange(start as int, i as int + 1);
            assert(cur.drop_last() =~= prev);
            assert(cur.last() == c);
            assert(spec_digits_value(cur) == spec_digits_value(prev) * 10 + (c as int
                - '0' as int));
        }
        i = i + 1;
    }
    proof {
        assert(spec_is_digits(digits));
        assert(spec_parse_component(comp) == Some(spec_digits_value(digits)));
        assert(digits == version@.subrange(start as int, i as int));
        if spec_digits_value(digits) == 3 {
            assert(value == 3);
        } else {
            assert(value != 3);
        }
    }
    value == 3
}

/// The lookup predicate on one dependency entry, over the candidate names
/// of the requested family.
pub fn package_matches(name: &str, version: &str, candidates: &Vec<String>) -> (b: bool)
    ensures
        b == spec_package_matches(name@, version@, candidates@.map_values(|s: String| s@)),
{
    let ghost cm = candidates@.map_values(|s: String| s@);
    if str_eq(name, "futures") {
        version_major_is_3(version)
    } else {
        let mut i: usize = 0;
        while i < candidates.len()
            invariant
                i <= candidates.len(),
                cm == candidates@.map_values(|s: String| s@),
                name@ != "futures"@,
                forall|j: int| 0 <= j < i ==> #[trigger] cm[j] != name@,
            decreases candidates.len() - i,
        {
            if str_eq(candidates[i].as_str(), name) {
                proof {
                    assert(cm[i as int] == candidates@[i as int]@);
                    assert(cm.contains(name@)) by {
                        assert(cm[i as int] == name@);
                    }
                }
                return true;
            }
            i = i + 1;
        }
        proof {
            assert(!cm.contains(name@));
        }
        false
    }
}

fn push_candidate(v: &mut Vec<String>, s: &str)
    ensures
        final(v)@.map_values(|x: String| x@) == old(v)@.map_values(|x: String| x@).push(s@),
{
    v.push(s.to_owned());
    proof {
        assert(v@.map_values(|x: String| x@) =~= old(v)@.map_values(|x: String| x@).push(s@));
    }
}

/// Candidate provider names for the multi-value-producer family.
pub fn stream_crate_candidates() -> (r: Vec<String>)
    ensures
        r@.map_values(|s: String| s@) == seq!["futures"@, "futures-util"@, "futures-core"@],
{
    let mut v: Vec<String> = Vec::new();
    push_candidate(&mut v, "futures");
    push_candidate(&mut v, "futures-util");
    push_candidate(&mut v, "futures-core");
    proof {
        assert(v@.map_values(|s: String| s@) =~= seq!["futures"@, "futures-util"@, "futures-core"@]);
    }
    v
}

/// Candidate provider names for the multi-value-consumer family.
pub fn sink_crate_candidates() -> (r: Vec<String>)
    ensures
        r@.map_values(|s: String| s@) == seq!["futures"@, "futures-sink"@],
{
    let mut v: Vec<String> = Vec::new();
    push_candidate(&mut v, "futures");
    push_candidate(&mut v, "futures-sink");
    proof {
        assert(v@.map_values(|s: String| s@) =~= seq!["futures"@, "futures-sink"@]);
    }
    v
}

/// Candidate provider names for the byte-capability families.
pub fn io_crate_candidates() -> (r: Vec<String>)
    ensures
        r@.map_values(|s: String| s@) == seq!["futures"@, "futures-io"@],
{
    let mut v: Vec<String> = Vec::new();
    push_candidate(&mut v, "futures");
    push_candidate(&mut v, "futures-io");
    proof {
        assert(v@.map_values(|s: String| s@) =~= seq!["futures"@, "futures-io"@]);
    }
    v
}

/// The multi-value-producer trait path under a resolution: the producer
/// module of the resolved crate.
pub open spec fn spec_stream_trait_path(res: CrateResolutionModel) -> Seq<char> {
    "::"@ + res.name + "::stream::Stream"@
}

pub fn stream_trait_path(res: &CrateResolution) -> (r: String)
    ensures
        r@ == spec_stream_trait_path(res@),
{
    let mut out = "::".to_owned();
    out.append(res.name.as_str());
    out.append("::stream::Stream");
    proof {
        assert(out@ =~= spec_stream_trait_path(res@));
    }
    out
}

/// The consumer trait path under a resolution: at the crate root when the
/// resolved provider is the split-out consumer crate, else in its consumer
/// module.
pub open spec fn spec_sink_trait_path(res: CrateResolutionModel) -> Seq<char> {
    if res.original == Some("futures-sink"@) {
        "::"@ + res.name + "::Sink"@
    } else {
        "::"@ + res.name + "::sink::Sink"@
    }
}

pub fn sink_trait_path(res: &CrateResolution) -> (r: String)
    ensures
        r@ == spec_sink_trait_path(res@),
{
    let mut out = "::".to_owned();
    out.append(res.name.as_str());
    let at_root = match &res.original {
        Some(orig) => str_eq(orig.as_str(), "futures-sink"),
        None => false,
    };
    if at_root {
        out.append("::Sink");
    } else {
        out.append("::sink::Sink");
    }
    proof {
        assert(out@ =~= spec_sink_trait_path(res@));
    }
    out
}

/// A byte-capability trait path under a resolution: at the crate root when
/// the resolved provider is the split-out byte-capability crate, else in
/// its byte-capability module.
pub open spec fn spec_io_trait_path(res: CrateResolutionModel, trait_name: Seq<char>) -> Seq<char> {
    if res.original == Some("futures-io"@) {
        "::"@ + res.name + "::"@ + trait_name
    } else {
        "::"@ + res.name + "::io::"@ + trait_name
    }
}

pub fn io_trait_path(res: &CrateResolution, trait_name: &str) -> (r: String)
    ensures
        r@ == spec_io_trait_path(res@, trait_name@),
{
    let mut out = "::".to_owned();
    out.append(res.name.as_str());
    let at_root = match &res.original {
        Some(orig) => str_eq(orig.as_str(), "futures-io"),
        None => false,
    };
    if at_root {
        out.append("::");
    } else {
        out.append("::io::");
    }
    out.append(trait_name);
    proof {
        assert(out@ =~= spec_io_trait_path(res@, trait_name@));
    }
    out
}

} // verus!
