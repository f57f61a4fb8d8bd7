//! The noise filter: a call edge is kept unless the display name of its
//! caller or of its callee contains one of a fixed list of substrings that
//! mark runtime and standard-library internals.

use crate::demangle::{demangled, display_name};
use crate::text::{chars_of, contains, contains_seq};
use vstd::prelude::*;

verus! {

/// The substrings that mark a name as noise: the intrinsic marker, the two
/// runtime markers, and the prefixes of the standard, core and allocation
/// libraries.
pub open spec fn blocked_strings() -> Seq<Seq<char>> {
    seq![
        seq!['l', 'l', 'v', 'm', '.'],
        seq!['_', '_', 'r', 'u', 's', 't'],
        seq!['r', 't', ':', ':'],
        seq!['s', 't', 'd', ':', ':'],
        seq!['c', 'o', 'r', 'e', ':', ':'],
        seq!['a', 'l', 'l', 'o', 'c', ':', ':'],
    ]
}

/// `name` contains at least one entry of `deny` as a substring.
pub open spec fn blocked_by(deny: Seq<Seq<char>>, name: Seq<char>) -> bool {
    exists|k: int| 0 <= k < deny.len() && contains_seq(name, #[trigger] deny[k])
}

/// `name` contains at least one of the blocked substrings.
pub open spec fn is_noise(name: Seq<char>) -> bool {
    blocked_by(blocked_strings(), name)
}

/// What the filter with the blocked substrings `deny` makes of an edge given
/// by its two display names: the edge itself, caller first, when neither
/// name contains an entry of `deny`.
pub open spec fn retained(deny: Seq<Seq<char>>, caller: Seq<char>, callee: Seq<char>) -> Option<
    (Seq<char>, Seq<char>),
> {
    if blocked_by(deny, caller) || blocked_by(deny, callee) {
        None
    } else {
        Some((caller, callee))
    }
}

/// What the filter with the blocked substrings `deny` makes of an edge given
/// by its two raw symbols: both are demangled, then the edge is filtered by
/// the display names.
pub open spec fn accepted(
    deny: Seq<Seq<char>>,
    raw_caller: Seq<char>,
    raw_callee: Seq<char>,
) -> Option<(Seq<char>, Seq<char>)> {
    retained(deny, demangled(raw_caller), demangled(raw_callee))
}

/// The blocked substrings, ready for searching.
pub fn denylist() -> (deny: Vec<Vec<char>>)
    ensures
        deny.deep_view() == blocked_strings(),
{
    let mut deny: Vec<Vec<char>> = Vec::new();
    proof {
        reveal_strlit("llvm.");
        reveal_strlit("__rust");
        reveal_strlit("rt::");
        reveal_strlit("std::");
        reveal_strlit("core::");
        reveal_strlit("alloc::");
    }
    deny.push(chars_of("llvm."));
    deny.push(chars_of("__rust"));
    deny.push(chars_of("rt::"));
    deny.push(chars_of("std::"));
    deny.push(chars_of("core::"));
    deny.push(chars_of("alloc::"));
    assert(deny.deep_view() =~~= blocked_strings());
    deny
}

/// Whether `name` contains an entry of `deny`.
pub fn matches_any(deny: &Vec<Vec<char>>, name: &str) -> (hit: bool)
    ensures
        hit == blocked_by(deny.deep_view(), name@),
{
    let chars = chars_of(name);
    let mut k: usize = 0;
    while k < deny.len()
        invariant
            k <= deny.len(),
            chars@ == name@,
            forall|j: int| 0 <= j < k ==> !contains_seq(name@, #[trigger] deny.deep_view()[j]),
        decreases deny.len() - k,
    {
        assert(deny.deep_view()[k as int] == deny@[k as int]@);
        if contains(&chars, &deny[k]) {
            return true;
        }
        k += 1;
    }
    false
}

/// Whether the display name `name` marks an edge as noise.
pub fn is_blocked(name: &str) -> (hit: bool)
    ensures
        hit == is_noise(name@),
{
    let deny = denylist();
    matches_any(&deny, name)
}

/// Filters an edge given by its two display names, with the blocked
/// substrings in `deny`: the edge comes back unchanged, caller first, unless
/// one of the names contains an entry of `deny`.
pub fn retain(deny: &Vec<Vec<char>>, caller: String, callee: String) -> (kept: Option<
    (String, String),
>)
    ensures
        blocked_by(deny.deep_view(), caller@) || blocked_by(deny.deep_view(), callee@) ==> kept
            is None,
        !blocked_by(deny.deep_view(), caller@) && !blocked_by(deny.deep_view(), callee@) ==> kept
            == Some((caller, callee)),
        kept.deep_view() == retained(deny.deep_view(), caller@, callee@),
{
    if matches_any(deny, caller.as_str()) || matches_any(deny, callee.as_str()) {
        None
    } else {
        Some((caller, callee))
    }
}

/// Demangles the two raw symbols of an edge and filters the edge by the
/// display names, with the blocked substrings in `deny`.
pub fn accept_with(deny: &Vec<Vec<char>>, raw_caller: &str, raw_callee: &str) -> (kept: Option<
    (String, String),
>)
    ensures
        kept.deep_view() == accepted(deny.deep_view(), raw_caller@, raw_callee@),
{
    let caller = display_name(raw_caller);
    let callee = display_name(raw_callee);
    retain(deny, caller, callee)
}

/// The name resolver and noise filter for one edge. Both raw symbols are
/// demangled. If either display name contains a blocked substring the edge is
/// dropped; otherwise the pair of display names is returned, caller first.
pub fn accept(raw_caller: &str, raw_callee: &str) -> (kept: Option<(String, String)>)
    ensures
        is_noise(demangled(raw_caller@)) || is_noise(demangled(raw_callee@)) ==> kept is None,
        !is_noise(demangled(raw_caller@)) && !is_noise(demangled(raw_callee@)) ==> (kept matches Some(
            pair,
        ) && pair.0@ == demangled(raw_caller@) && pair.1@ == demangled(raw_callee@)),
        kept.deep_view() == accepted(blocked_strings(), raw_caller@, raw_callee@),
{
    let deny = denylist();
    accept_with(&deny, raw_caller, raw_callee)
}

} // verus!
