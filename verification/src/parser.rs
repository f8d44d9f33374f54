//! The adapter for a typed options structure. Filling the structure is the
//! work of `clap` and of the structure's own impls; what is decided here is
//! what becomes of the attempt.

use crate::outcome::{outcome_of, settle, Outcome, Target};
use crate::outside::Failure;
use vstd::prelude::*;

verus! {

/// Parsing into a typed options structure, on any target.
///
/// Implement it for the options type with an empty impl. The attempt is
/// what `clap::Parser::try_parse_from` returned for the arguments of an
/// `ArgSource`, its error wrapped in a `Failure`.
pub trait WeParser {
    /// Settles the attempt for a caller that wants the options or no return
    /// at all: on failure the outcome asks for the process to end after the
    /// message has gone to its sink.
    fn we_parse<T>(target: Target, attempt: Result<T, Failure>) -> (outcome: Outcome<T>)
        ensures
            outcome@ == outcome_of(target, attempt),
    {
        settle(target, attempt)
    }

    /// Hands the attempt back as it is, failure included: the caller decides
    /// what follows.
    fn we_try_parse<T>(attempt: Result<T, Failure>) -> (result: Result<T, Failure>)
        ensures
            result == attempt,
    {
        attempt
    }
}

} // verus!
