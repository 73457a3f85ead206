//! Discovery of remote environments and their kernel specifications:
//! parsing the distribution list a `-l -q` query prints (often UTF-16LE on
//! the host side), and aggregating per-environment query results, where
//! every failure downgrades to an empty list instead of an error.

use vstd::prelude::*;

use crate::command::EnvVar;
use crate::outside::{
    bytes_to_string_lossy, utf16_lossy_of, utf16_to_string_lossy, utf8_lossy_of,
};
use crate::text::{spec_clean_lines, clean_lines};
use vstd::string::StrSliceExecFns;

verus! {

/// The declared shape of one kernel specification, as the discovery
/// collaborator parses it from an environment's registry: the argument
/// vector (possibly holding the connection-file placeholder), the declared
/// environment variables, and a display name.
pub struct KernelSpecDecl {
    pub argv: Vec<String>,
    pub env: Option<Vec<EnvVar>>,
    pub display_name: String,
}

/// One discovered kernel: its registry name, the specification it
/// declares, and the environment (distribution) it lives in.
pub struct WslKernelSpecification {
    pub name: String,
    pub kernelspec: KernelSpecDecl,
    pub distro: String,
}

/// The arguments of the environment-enumeration query.
pub fn distro_list_args() -> (r: Vec<String>)
    ensures
        r.deep_view() == seq!["-l"@, "-q"@],
{
    let mut r: Vec<String> = Vec::new();
    r.push("-l".to_owned());
    r.push("-q".to_owned());
    proof {
        assert(r.deep_view() =~~= seq!["-l"@, "-q"@]);
    }
    r
}

/// The arguments of the per-environment kernel-specification query.
pub fn kernelspec_list_args(distro: &str) -> (r: Vec<String>)
    ensures
        r.deep_view() == seq!["-d"@, distro@, "jupyter"@, "kernelspec"@, "list"@, "--json"@],
{
    let mut r: Vec<String> = Vec::new();
    r.push("-d".to_owned());
    r.push(distro.to_owned());
    r.push("jupyter".to_owned());
    r.push("kernelspec".to_owned());
    r.push("list".to_owned());
    r.push("--json".to_owned());
    proof {
        assert(r.deep_view() =~~= seq![
            "-d"@,
            distro@,
            "jupyter"@,
            "kernelspec"@,
            "list"@,
            "--json"@,
        ]);
    }
    r
}

/// The enumeration output looks like UTF-16LE when its second byte is a
/// zero: host-side tools often print wide text.
pub open spec fn looks_utf16le(bytes: Seq<u8>) -> bool {
    bytes.len() >= 2 && bytes[1] == 0
}

/// The little-endian 16-bit units of `bytes`, pairwise.
pub open spec fn le_units(bytes: Seq<u8>) -> Seq<u16> {
    Seq::new(bytes.len() / 2, |i: int| (bytes[2 * i] + 256 * bytes[2 * i + 1]) as u16)
}

/// The decoded text of the enumeration output: UTF-16LE when it looks like
/// it, UTF-8 otherwise, both lossily.
pub open spec fn spec_decoded_output(bytes: Seq<u8>) -> Seq<char> {
    if looks_utf16le(bytes) {
        utf16_lossy_of(le_units(bytes))
    } else {
        utf8_lossy_of(bytes)
    }
}

/// Decodes the raw enumeration output to text.
fn decode_output(bytes: &Vec<u8>) -> (r: String)
    ensures
        r@ == spec_decoded_output(bytes@),
{
    if bytes.len() >= 2 && bytes[1] == 0 {
        let mut units: Vec<u16> = Vec::new();
        let mut i: usize = 0;
        while i + 1 < bytes.len()
            invariant
                0 <= i <= bytes@.len(),
                i % 2 == 0,
                units@ =~= le_units(bytes@).subrange(0, (i / 2) as int),
            decreases bytes@.len() - i,
        {
            let u: u16 = (bytes[i] as u16) + 256 * (bytes[i + 1] as u16);
            units.push(u);
            proof {
                assert(units@ =~= le_units(bytes@).subrange(0, (i / 2) + 1));
            }
            i = i + 2;
        }
        proof {
            assert(units@ =~= le_units(bytes@));
        }
        utf16_to_string_lossy(&units)
    } else {
        bytes_to_string_lossy(bytes)
    }
}

/// The distribution names in the enumeration output: the non-empty
/// trimmed lines of the decoded text, each decoded from its UTF-8 bytes.
pub open spec fn spec_distro_lines(bytes: Seq<u8>) -> Seq<Seq<u8>> {
    spec_clean_lines(vstd::utf8::encode_utf8(spec_decoded_output(bytes)))
}

/// Parses the enumeration output into the list of distribution names. A
/// name's characters are the lossy UTF-8 reading of its line, which for
/// the valid text the decoder produced is the line itself.
pub fn parse_distro_list(stdout: &Vec<u8>) -> (r: Vec<String>)
    ensures
        r@.len() == spec_distro_lines(stdout@).len(),
        forall|i: int|
            0 <= i < r@.len() ==> (#[trigger] r@[i])@ == utf8_lossy_of(
                spec_distro_lines(stdout@)[i],
            ),
{
    let decoded = decode_output(stdout);
    let bytes = decoded.as_str().as_bytes_vec();
    let lines = clean_lines(&bytes);
    let mut r: Vec<String> = Vec::new();
    let mut i: usize = 0;
    while i < lines.len()
        invariant
            0 <= i <= lines@.len(),
            lines.deep_view() == spec_distro_lines(stdout@),
            r@.len() == i,
            forall|k: int|
                0 <= k < i ==> (#[trigger] r@[k])@ == utf8_lossy_of(spec_distro_lines(stdout@)[k]),
        decreases lines@.len() - i,
    {
        let name = bytes_to_string_lossy(&lines[i]);
        proof {
            assert(lines@[i as int]@ == lines.deep_view()[i as int]);
        }
        r.push(name);
        i = i + 1;
    }
    r
}

/// The outcome of querying one environment for its kernel specifications:
/// the query command ran and succeeded and its output parsed, or not.
pub struct EnvQueryOutcome {
    pub distro: String,
    pub parsed: Option<Vec<(String, KernelSpecDecl)>>,
}

/// The number of specifications an outcome contributes: all of its parsed
/// entries, or none at all when the command or the parse failed.
pub open spec fn outcome_len(o: EnvQueryOutcome) -> nat {
    match o.parsed {
        Some(entries) => entries@.len(),
        None => 0,
    }
}

/// Builds the discovered-kernel records of one environment's outcome: one
/// per parsed entry, carrying the environment's name; an outcome whose
/// command failed, exited non-zero or did not parse contributes nothing —
/// failures degrade to empty results, never to an error.
pub fn specs_from_outcome(outcome: EnvQueryOutcome) -> (r: Vec<WslKernelSpecification>)
    ensures
        r@.len() == outcome_len(outcome),
        outcome.parsed is None ==> r@.len() == 0,
        outcome.parsed matches Some(entries) ==> forall|i: int|
            0 <= i < entries@.len() ==> {
                &&& (#[trigger] r@[i]).name == entries@[i].0
                &&& r@[i].kernelspec == entries@[i].1
                &&& r@[i].distro@ == outcome.distro@
            },
{
    let EnvQueryOutcome { distro, parsed } = outcome;
    let mut r: Vec<WslKernelSpecification> = Vec::new();
    match parsed {
        None => r,
        Some(entries) => {
            let mut entries = entries;
            let ghost entries0 = entries@;
            let mut i: usize = 0;
            let n = entries.len();
            while i < n
                invariant
                    0 <= i <= n,
                    n == entries0.len(),
                    entries@ =~= entries0.subrange(i as int, entries0.len() as int),
                    r@.len() == i,
                    forall|k: int|
                        0 <= k < i ==> {
                            &&& (#[trigger] r@[k]).name == entries0[k].0
                            &&& r@[k].kernelspec == entries0[k].1
                            &&& r@[k].distro@ == distro@
                        },
                decreases n - i,
            {
                let (name, spec) = entries.remove(0);
                r.push(WslKernelSpecification { name, kernelspec: spec, distro: distro.clone() });
                proof {
                    assert(entries@ =~= entries0.subrange(i + 1, entries0.len() as int));
                }
                i = i + 1;
            }
            r
        },
    }
}

/// Flattens the per-environment record lists into the discovery result,
/// in environment order.
pub open spec fn spec_concat_specs(lists: Seq<Seq<WslKernelSpecification>>) -> Seq<
    WslKernelSpecification,
>
    decreases lists.len(),
{
    if lists.len() == 0 {
        Seq::empty()
    } else {
        spec_concat_specs(lists.drop_last()) + lists.last()
    }
}

/// Collects every environment's records into one list, in order.
pub fn collect_specs(lists: Vec<Vec<WslKernelSpecification>>) -> (r: Vec<WslKernelSpecification>)
    ensures
        r@ == spec_concat_specs(views_of(lists@)),
{
    let mut r: Vec<WslKernelSpecification> = Vec::new();
    let mut lists = lists;
    let ghost lists0 = views_of(lists@);
    let mut i: usize = 0;
    let n = lists.len();
    while i < n
        invariant
            0 <= i <= n,
            n == lists0.len(),
            views_of(lists@) =~= lists0.subrange(i as int, lists0.len() as int),
            r@ =~= spec_concat_specs(lists0.subrange(0, i as int)),
        decreases n - i,
    {
        let ghost before = lists@;
        proof {
            assert(views_of(lists@).len() == lists@.len());
        }
        let mut l = lists.remove(0);
        proof {
            assert(l@ == views_of(before)[0]);
            assert(views_of(before) == lists0.subrange(i as int, lists0.len() as int));
            assert forall|t: int| 0 <= t < lists@.len() implies #[trigger] views_of(lists@)[t]
                == lists0.subrange(i + 1, lists0.len() as int)[t] by {
                assert(lists@[t] == before[t + 1]);
                assert(views_of(before)[t + 1] == before[t + 1]@);
            }
            assert(views_of(lists@) =~= lists0.subrange(i + 1, lists0.len() as int));
        }
        let mut k: usize = 0;
        let m = l.len();
        let ghost l0 = l@;
        proof {
            assert(l0 == lists0[i as int]);
        }
        while k < m
            invariant
                0 <= i < lists0.len(),
                0 <= k <= m,
                m == l0.len(),
                l@ =~= l0.subrange(k as int, l0.len() as int),
                r@ =~= spec_concat_specs(lists0.subrange(0, i as int)) + l0.subrange(0, k as int),
            decreases m - k,
        {
            let x = l.remove(0);
            r.push(x);
            proof {
                assert(l@ =~= l0.subrange(k + 1, l0.len() as int));
                assert(r@ =~= spec_concat_specs(lists0.subrange(0, i as int)) + l0.subrange(
                    0,
                    k + 1,
                ));
            }
            k = k + 1;
        }
        proof {
            assert(l0.subrange(0, l0.len() as int) =~= l0);
            assert(lists0.subrange(0, i + 1).drop_last() =~= lists0.subrange(0, i as int));
            assert(lists0.subrange(0, i + 1).last() == lists0[i as int]);
            assert(r@ =~= spec_concat_specs(lists0.subrange(0, i + 1)));
        }
        i = i + 1;
    }
    proof {
        assert(lists0.subrange(0, lists0.len() as int) =~= lists0);
    }
    r
}

/// The element views of a vector of record lists.
pub open spec fn views_of(lists: Seq<Vec<WslKernelSpecification>>) -> Seq<
    Seq<WslKernelSpecification>,
> {
    Seq::new(lists.len(), |i: int| lists[i]@)
}

/// One failing environment among several does not fail discovery: its
/// outcome contributes nothing, the others contribute everything they
/// parsed, and the result is their lists in order.
pub proof fn lemma_failed_environment_degrades(
    a: Seq<WslKernelSpecification>,
    b: Seq<WslKernelSpecification>,
    c: Seq<WslKernelSpecification>,
)
    requires
        b.len() == 0,
    ensures
        spec_concat_specs(seq![a, b, c]) == a + c,
        a.len() > 0 || c.len() > 0 ==> spec_concat_specs(seq![a, b, c]).len() > 0,
{
    let all = seq![a, b, c];
    let ab = seq![a, b];
    let ja = seq![a];
    let none = Seq::<Seq<WslKernelSpecification>>::empty();
    assert(all.drop_last() =~= ab);
    assert(ab.drop_last() =~= ja);
    assert(ja.drop_last() =~= none);
    assert(all.last() == c);
    assert(ab.last() == b);
    assert(ja.last() == a);
    assert(spec_concat_specs(none) == Seq::<WslKernelSpecification>::empty());
    assert(spec_concat_specs(ja) == spec_concat_specs(none) + a);
    assert(spec_concat_specs(ab) == spec_concat_specs(ja) + b);
    assert(spec_concat_specs(all) == spec_concat_specs(ab) + c);
    assert(b =~= Seq::<WslKernelSpecification>::empty());
    assert(spec_concat_specs(all) =~= a + c);
}

} // verus!
