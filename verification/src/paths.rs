//! Locating the sidecar's entry script among prioritized candidate locations.
//!
//! The host looks at the filesystem and reports one `Probe` per candidate, in
//! priority order; the choice among them is made here.

use vstd::prelude::*;
use vstd::string::*;
use crate::messages::{canonicalize_failure_message, canonicalize_failure_text, outcome_view};

verus! {

/// What the host found at one candidate location.
#[derive(Debug, PartialEq, Eq)]
pub enum Probe {
    /// Nothing exists there.
    Missing,
    /// The location exists; the text is its canonical form.
    Found(String),
    /// The location exists but could not be canonicalized; the text is the error.
    Unresolvable(String),
}

/// The candidate at `index` of the fixed list, or the empty text past its end.
pub open spec fn candidate_text(index: int) -> Seq<char> {
    if index == 0 {
        "src-tauri/sidecar/deno.ts"@
    } else if index == 1 {
        "sidecar/deno.ts"@
    } else if index == 2 {
        "../sidecar/deno.ts"@
    } else if index == 3 {
        "../../src-tauri/sidecar/deno.ts"@
    } else {
        Seq::empty()
    }
}

/// The fixed candidate list, in priority order.
pub open spec fn candidate_texts() -> Seq<Seq<char>> {
    Seq::new(4, |i: int| candidate_text(i))
}

/// The views of a list of paths.
pub open spec fn texts_of(paths: Seq<String>) -> Seq<Seq<char>> {
    Seq::new(paths.len(), |i: int| paths[i]@)
}

/// Whether `index` is the first of the first `limit` probes that is not `Missing`.
pub open spec fn is_first_existing(probes: Seq<Probe>, limit: int, index: int) -> bool {
    &&& 0 <= index < limit
    &&& index < probes.len()
    &&& !(probes[index] is Missing)
    &&& forall|j: int| 0 <= j < index ==> probes[j] is Missing
}

/// Whether none of the first `limit` probes found anything.
pub open spec fn none_existing(probes: Seq<Probe>, limit: int) -> bool {
    forall|j: int| 0 <= j < limit && j < probes.len() ==> probes[j] is Missing
}

/// What one probe resolves to: the canonical form of what was found, the error
/// of canonicalizing it, or `fallback` where nothing was found.
pub open spec fn canonical_or_failure(probe: Probe, fallback: Seq<char>) -> Result<
    Seq<char>,
    Seq<char>,
> {
    match probe {
        Probe::Found(canonical) => Ok(canonical@),
        Probe::Unresolvable(cause) => Err(canonicalize_failure_text(cause@)),
        Probe::Missing => Ok(fallback),
    }
}

/// What resolution yields: the canonical form of the first candidate that
/// exists (or the canonicalization error), and the first candidate as written
/// when none exists. A candidate without a probe counts as missing.
pub open spec fn resolution(candidates: Seq<Seq<char>>, probes: Seq<Probe>) -> Result<
    Seq<char>,
    Seq<char>,
>
    recommends
        candidates.len() > 0,
{
    if exists|i: int| is_first_existing(probes, candidates.len() as int, i) {
        let i = choose|i: int| is_first_existing(probes, candidates.len() as int, i);
        canonical_or_failure(probes[i], candidates[0])
    } else {
        Ok(candidates[0])
    }
}

/// Two first-existing indices of the same probes are the same index.
pub proof fn lemma_first_existing_unique(probes: Seq<Probe>, limit: int, a: int, b: int)
    requires
        is_first_existing(probes, limit, a),
        is_first_existing(probes, limit, b),
    ensures
        a == b,
{
    if a < b {
        assert(probes[a] is Missing);
    } else if b < a {
        assert(probes[b] is Missing);
    }
}

/// The fixed candidate list, in priority order.
pub fn candidate_paths() -> (candidates: Vec<String>)
    ensures
        texts_of(candidates@) == candidate_texts(),
{
    let mut candidates: Vec<String> = Vec::new();
    candidates.push(String::from_str("src-tauri/sidecar/deno.ts"));
    candidates.push(String::from_str("sidecar/deno.ts"));
    candidates.push(String::from_str("../sidecar/deno.ts"));
    candidates.push(String::from_str("../../src-tauri/sidecar/deno.ts"));
    assert(texts_of(candidates@) =~= candidate_texts());
    candidates
}

/// Resolves among `candidates`, given one probe per candidate in the same order.
pub fn resolve(candidates: &Vec<String>, probes: &Vec<Probe>) -> (path: Result<String, String>)
    requires
        candidates.len() > 0,
    ensures
        outcome_view(path) == resolution(texts_of(candidates@), probes@),
{
    let ghost limit = candidates@.len() as int;
    let mut index: usize = 0;
    while index < candidates.len() && index < probes.len()
        invariant
            limit == candidates@.len(),
            index <= candidates.len(),
            index <= probes.len(),
            forall|j: int| 0 <= j < index ==> probes@[j] is Missing,
        decreases candidates.len() - index,
    {
        match &probes[index] {
            Probe::Missing => {},
            Probe::Found(canonical) => {
                proof {
                    assert(is_first_existing(probes@, limit, index as int));
                    let chosen = choose|i: int| is_first_existing(probes@, limit, i);
                    lemma_first_existing_unique(probes@, limit, chosen, index as int);
                }
                return Ok(canonical.clone());
            },
            Probe::Unresolvable(cause) => {
                proof {
                    assert(is_first_existing(probes@, limit, index as int));
                    let chosen = choose|i: int| is_first_existing(probes@, limit, i);
                    lemma_first_existing_unique(probes@, limit, chosen, index as int);
                }
                return Err(canonicalize_failure_message(cause.as_str()));
            },
        }
        index += 1;
    }
    proof {
        assert forall|i: int| !is_first_existing(probes@, limit, i) by {
            if is_first_existing(probes@, limit, i) {
                assert(i < index);
            }
        }
    }
    Ok(candidates[0].clone())
}

/// Resolves the sidecar's entry script among the fixed candidates.
pub fn find_sidecar_script(probes: &Vec<Probe>) -> (path: Result<String, String>)
    ensures
        outcome_view(path) == resolution(candidate_texts(), probes@),
{
    let candidates = candidate_paths();
    resolve(&candidates, probes)
}

} // verus!
