//! The display form of a raw symbol name, as the `rustc_demangle` crate
//! renders it.

use vstd::prelude::*;

verus! {

/// The display form of the raw symbol `raw`: what `rustc_demangle` writes for
/// it in alternate mode, with the module path and without the trailing hash.
/// The demangler works on the characters of the symbol alone, so the same
/// symbol always has the same display form.
pub uninterp spec fn demangled(raw: Seq<char>) -> Seq<char>;

/// Calls `rustc_demangle::demangle` on `raw` and formats the result with
/// `{:#}`. The contract only gives the outcome its name, `demangled`: nothing
/// about the demangling itself is proved here. Formatting into a `String`
/// cannot fail, and the demangler reports malformed input inside its output
/// instead of panicking.
#[verifier::external_body]
pub(crate) fn display_name(raw: &str) -> (shown: String)
    ensures
        shown@ == demangled(raw@),
{
    format!("{:#}", rustc_demangle::demangle(raw))
}

} // verus!
