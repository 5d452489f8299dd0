use vstd::prelude::*;

use crate::api::{Api, Missing, spec_library, spec_missing};
use crate::library::{run_load, spec_candidates, first_opening};

verus! {

/// How a call through a binding goes.
#[derive(Clone, Copy, Debug, PartialEq, Eq, Structural)]
pub enum Outcome {
    /// Call the native function that was found, and return what it returns.
    Call,
    /// Do what the fallback says, without calling anything.
    Fallback(Missing),
}

/// A binding calls its native function exactly when its library is open and
/// the symbol was found there; otherwise it takes its fixed fallback.
pub open spec fn spec_outcome(api: Api, library_open: bool, symbol_found: bool) -> Outcome {
    if library_open && symbol_found {
        Outcome::Call
    } else {
        Outcome::Fallback(spec_missing(api))
    }
}

/// Decides a call through the binding `api`, given whether its library is
/// open and whether the symbol was found in it.
pub fn outcome(api: Api, library_open: bool, symbol_found: bool) -> (o: Outcome)
    ensures
        o == spec_outcome(api, library_open, symbol_found),
        (o == Outcome::Call) == (library_open && symbol_found),
        !(library_open && symbol_found) ==> o == Outcome::Fallback(spec_missing(api)),
{
    if library_open && symbol_found {
        Outcome::Call
    } else {
        Outcome::Fallback(api.missing())
    }
}

/// The native function is called exactly when the library is open and the
/// symbol was found; in every other case the binding takes its own fallback.
pub proof fn lemma_call_only_when_found(api: Api, library_open: bool, symbol_found: bool)
    ensures
        (spec_outcome(api, library_open, symbol_found) == Outcome::Call) == (library_open
            && symbol_found),
        !(library_open && symbol_found) ==> spec_outcome(api, library_open, symbol_found)
            == Outcome::Fallback(spec_missing(api)),
{
}

/// When none of the file names of a binding's library opens, the library is
/// unavailable and the binding takes its fallback, whatever the lookup says.
pub proof fn lemma_unopened_library_falls_back(api: Api, opens: Seq<bool>, symbol_found: bool)
    requires
        opens.len() == spec_candidates(spec_library(api)).len(),
        forall|i: int| 0 <= i < opens.len() ==> !opens[i],
    ensures
        run_load(spec_library(api), opens, 0, false) is None,
        spec_outcome(api, run_load(spec_library(api), opens, 0, false) is Some, symbol_found)
            == Outcome::Fallback(spec_missing(api)),
{
    let lib = spec_library(api);
    crate::library::lemma_load_keeps_first_opening(lib, opens);
    lemma_no_opening(opens, 0, spec_candidates(lib).len());
}

proof fn lemma_no_opening(opens: Seq<bool>, from: nat, count: nat)
    requires
        count <= opens.len(),
        forall|i: int| 0 <= i < opens.len() ==> !opens[i],
    ensures
        first_opening(opens, from, count) is None,
    decreases count - from,
{
    if from < count {
        lemma_no_opening(opens, from + 1, count);
    }
}

} // verus!
