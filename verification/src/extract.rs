//! The call-graph extractor: from the files of a directory, with the raw call
//! edges of each module, to the flat list of accepted edges.

use crate::artifact::{is_bitcode_file, is_bitcode_name, Artifact, ArtifactView};
use crate::error::Error;
use crate::demangle::demangled;
use crate::filter::{accept_with, accepted, blocked_strings, denylist, is_noise};
use vstd::prelude::*;

verus! {

/// The accepted edges of one module, in the order of its raw edges: each raw
/// edge is demangled and filtered, and what passes is kept.
pub open spec fn module_calls(edges: Seq<(Seq<char>, Seq<char>)>) -> Seq<(Seq<char>, Seq<char>)> {
    edges.filter_map(|e: (Seq<char>, Seq<char>)| accepted(blocked_strings(), e.0, e.1))
}

/// What one file of the directory adds to the result: the accepted edges of
/// its module if it is a bitcode artifact, nothing otherwise.
pub open spec fn artifact_calls(entry: ArtifactView) -> Seq<(Seq<char>, Seq<char>)> {
    if is_bitcode_name(entry.file_name) {
        module_calls(entry.edges)
    } else {
        Seq::empty()
    }
}

/// The result of the extraction over a directory: what each file adds, one
/// file after the other in the order of the listing. Nothing is merged and
/// nothing is sorted.
pub open spec fn directory_calls(entries: Seq<ArtifactView>) -> Seq<(Seq<char>, Seq<char>)>
    decreases entries.len(),
{
    if entries.len() == 0 {
        Seq::empty()
    } else {
        directory_calls(entries.drop_last()) + artifact_calls(entries.last())
    }
}

/// Extracts the accepted edges of one module and appends them to `calls`.
pub fn extend_calls(calls: &mut Vec<(String, String)>, edges: &Vec<(String, String)>)
    ensures
        final(calls).deep_view() == old(calls).deep_view() + module_calls(edges.deep_view()),
{
    let deny = denylist();
    let ghost before = calls.deep_view();
    let ghost raw = edges.deep_view();
    let ghost pick = |e: (Seq<char>, Seq<char>)| accepted(blocked_strings(), e.0, e.1);
    let mut j: usize = 0;
    while j < edges.len()
        invariant
            j <= edges.len(),
            raw == edges.deep_view(),
            deny.deep_view() == blocked_strings(),
            pick == |e: (Seq<char>, Seq<char>)| accepted(blocked_strings(), e.0, e.1),
            calls.deep_view() == before + raw.take(j as int).filter_map(pick),
        decreases edges.len() - j,
    {
        let ghost so_far = calls.deep_view();
        let kept = accept_with(&deny, edges[j].0.as_str(), edges[j].1.as_str());
        proof {
            raw.lemma_filter_map_take_succ(pick, j as int);
        }
        match kept {
            Some(pair) => {
                calls.push(pair);
                assert(calls.deep_view() =~= so_far + seq![pair.deep_view()]);
            },
            None => {},
        }
        j += 1;
    }
    assert(raw.take(edges.len() as int) =~= raw);
}

/// Extracts all function calls of the bitcode artifacts of a directory.
/// `entries` lists the files of the directory in the order in which the
/// directory was read. Returns the accepted edges as pairs of demangled
/// caller and callee names: those of the first artifact, then those of the
/// second, and so on, each module's edges in their own order. Files without
/// the bitcode extension add nothing. The extraction itself cannot fail.
pub fn extract_calls(entries: &Vec<Artifact>) -> (res: Result<Vec<(String, String)>, Error>)
    ensures
        res matches Ok(calls) && calls.deep_view() == directory_calls(entries.deep_view()),
{
    let mut calls: Vec<(String, String)> = Vec::new();
    let ghost listing = entries.deep_view();
    let mut i: usize = 0;
    while i < entries.len()
        invariant
            i <= entries.len(),
            listing == entries.deep_view(),
            calls.deep_view() == directory_calls(listing.take(i as int)),
        decreases entries.len() - i,
    {
        assert(listing.take(i + 1).drop_last() =~= listing.take(i as int));
        if is_bitcode_file(entries[i].file_name.as_str()) {
            extend_calls(&mut calls, &entries[i].edges);
        }
        i += 1;
    }
    assert(listing.take(entries.len() as int) =~= listing);
    Ok(calls)
}

/// Extraction is additive: the result for a listing made of two parts, one
/// after the other, is the result for the first part followed by the result
/// for the second.
pub proof fn lemma_extraction_additive(first: Seq<ArtifactView>, second: Seq<ArtifactView>)
    ensures
        directory_calls(first + second) == directory_calls(first) + directory_calls(second),
    decreases second.len(),
{
    if second.len() == 0 {
    } else {
        lemma_extraction_additive(first, second.drop_last());
        assert((first + second).drop_last() =~= first + second.drop_last());
    }
}

/// Files without the bitcode extension are not reflected in the result: the
/// extraction over a listing gives what it gives over the bitcode artifacts
/// of the listing alone.
pub proof fn lemma_other_files_ignored(entries: Seq<ArtifactView>)
    ensures
        directory_calls(entries) == directory_calls(
            entries.filter(|entry: ArtifactView| is_bitcode_name(entry.file_name)),
        ),
    decreases entries.len(),
{
    let bitcode = |entry: ArtifactView| is_bitcode_name(entry.file_name);
    reveal(Seq::filter);
    if entries.len() > 0 {
        let rest = entries.drop_last();
        lemma_other_files_ignored(rest);
        if bitcode(entries.last()) {
            let kept = rest.filter(bitcode).push(entries.last());
            assert(kept.drop_last() =~= rest.filter(bitcode));
        }
    }
}

/// Every edge of the result comes from a bitcode artifact of the listing: it
/// is the pair of display names of one of that artifact's raw edges, and
/// neither of the two names is noise.
pub proof fn lemma_calls_are_accepted_edges(entries: Seq<ArtifactView>, k: int)
    requires
        0 <= k < directory_calls(entries).len(),
    ensures
        !is_noise(directory_calls(entries)[k].0),
        !is_noise(directory_calls(entries)[k].1),
        exists|i: int, j: int|
            0 <= i < entries.len() && is_bitcode_name(entries[i].file_name) && 0 <= j
                < entries[i].edges.len() && directory_calls(entries)[k] == (
                demangled(#[trigger] entries[i].edges[j].0),
                demangled(entries[i].edges[j].1),
            ),
    decreases entries.len(),
{
    let rest = entries.drop_last();
    let earlier = directory_calls(rest);
    if k < earlier.len() {
        lemma_calls_are_accepted_edges(rest, k);
        let (i, j) = choose|i: int, j: int|
            0 <= i < rest.len() && is_bitcode_name(rest[i].file_name) && 0 <= j
                < rest[i].edges.len() && earlier[k] == (
                demangled(#[trigger] rest[i].edges[j].0),
                demangled(rest[i].edges[j].1),
            );
        assert(is_bitcode_name(entries[i].file_name) && directory_calls(entries)[k] == (
            demangled(entries[i].edges[j].0),
            demangled(entries[i].edges[j].1),
        ));
    } else {
        let last = entries.last();
        let pick = |e: (Seq<char>, Seq<char>)| accepted(blocked_strings(), e.0, e.1);
        let edge = artifact_calls(last)[k - earlier.len()];
        last.edges.lemma_filter_map_contains(pick, edge);
        let raw = choose|raw: (Seq<char>, Seq<char>)| #[trigger]
            last.edges.contains(raw) && pick(raw) == Some(edge);
        let j = choose|j: int| 0 <= j < last.edges.len() && last.edges[j] == raw;
        let i = entries.len() - 1;
        assert(is_bitcode_name(entries[i].file_name) && directory_calls(entries)[k] == (
            demangled(entries[i].edges[j].0),
            demangled(entries[i].edges[j].1),
        ));
    }
}

/// An element that `pick` maps to `Some(b)` leaves `b` in the filtered
/// sequence.
proof fn lemma_filter_map_keeps<A, B>(s: Seq<A>, pick: spec_fn(A) -> Option<B>, j: int, b: B)
    requires
        0 <= j < s.len(),
        pick(s[j]) == Some(b),
    ensures
        s.filter_map(pick).contains(b),
    decreases s.len(),
{
    let rest = s.drop_last();
    if j == s.len() - 1 {
        let kept = rest.filter_map(pick) + seq![b];
        assert(kept[kept.len() - 1] == b);
    } else {
        lemma_filter_map_keeps(rest, pick, j, b);
        let at = choose|at: int| 0 <= at < rest.filter_map(pick).len() && rest.filter_map(pick)[at] == b;
        assert(s.filter_map(pick)[at] == b);
    }
}

/// No accepted edge is lost: a raw edge of a bitcode artifact of the listing
/// whose two display names are free of noise stands in the result, as the
/// pair of those display names.
pub proof fn lemma_accepted_edges_are_calls(entries: Seq<ArtifactView>, i: int, j: int)
    requires
        0 <= i < entries.len(),
        is_bitcode_name(entries[i].file_name),
        0 <= j < entries[i].edges.len(),
        !is_noise(demangled(entries[i].edges[j].0)),
        !is_noise(demangled(entries[i].edges[j].1)),
    ensures
        directory_calls(entries).contains(
            (demangled(entries[i].edges[j].0), demangled(entries[i].edges[j].1)),
        ),
    decreases entries.len(),
{
    let rest = entries.drop_last();
    let earlier = directory_calls(rest);
    let edge = (demangled(entries[i].edges[j].0), demangled(entries[i].edges[j].1));
    if i == entries.len() - 1 {
        let pick = |e: (Seq<char>, Seq<char>)| accepted(blocked_strings(), e.0, e.1);
        lemma_filter_map_keeps(entries[i].edges, pick, j, edge);
        let added = artifact_calls(entries.last());
        let at = choose|at: int| 0 <= at < added.len() && added[at] == edge;
        assert(directory_calls(entries)[earlier.len() + at] == edge);
    } else {
        lemma_accepted_edges_are_calls(rest, i, j);
        let at = choose|at: int| 0 <= at < earlier.len() && earlier[at] == edge;
        assert(directory_calls(entries)[at] == edge);
    }
}

} // verus!
