//! What holds of the adapters whatever the grammar and the arguments are.

use crate::command::WeCommand;
use crate::outcome::{is_display, outcome_of, OutcomeView, Sink, Target};
use crate::outside::{failure_kind, Failure};
use crate::source::ArgSource;
use clap::Command;
use vstd::prelude::*;

verus! {

/// Where parsing succeeds, a terminating entry point delivers exactly the
/// value that the non-terminating one returns, on either target.
pub proof fn terminating_agrees_with_trying<T>(target: Target, attempt: Result<T, Failure>)
    requires
        attempt is Ok,
    ensures
        outcome_of(target, attempt) == OutcomeView::Parsed(attempt->Ok_0),
{
}

/// For a well-formed grammar and a source: where `we_try_get_matches` returns matches,
/// `we_get_matches` and `we_get_matches_mut` deliver the same matches.
pub proof fn get_matches_agrees_with_try_get_matches(
    cmd: Command,
    target: Target,
    source: ArgSource,
)
    requires
        cmd.well_formed(),
        cmd.parsing(source.tokens()) is Ok,
    ensures
        outcome_of(target, cmd.parsing(source.tokens())) == OutcomeView::Parsed(
            cmd.parsing(source.tokens())->Ok_0,
        ),
{
}

/// A terminating entry point asks for the process to end exactly where the
/// non-terminating one returns a failure, and its request carries that very
/// failure.
pub proof fn exit_carries_the_failure<T>(target: Target, attempt: Result<T, Failure>)
    ensures
        outcome_of(target, attempt) is Exit <==> attempt is Err,
        attempt is Err ==> outcome_of(target, attempt)->Exit_0.failure == attempt->Err_0,
{
}

/// A request for help or for the version is answered on the success sink,
/// never on the error sink, whatever the target.
pub proof fn display_goes_to_success_sink<T>(target: Target, failure: Failure)
    requires
        is_display(failure_kind(failure)),
    ensures
        outcome_of::<T>(target, Err(failure)) is Exit,
        outcome_of::<T>(target, Err(failure))->Exit_0.notice.sink == Sink::Success,
        outcome_of::<T>(target, Err(failure))->Exit_0.notice.sink != Sink::Error,
{
}

/// Every other failure is announced on the error sink, never on the success
/// sink, whatever the target.
pub proof fn complaint_goes_to_error_sink<T>(target: Target, failure: Failure)
    requires
        !is_display(failure_kind(failure)),
    ensures
        outcome_of::<T>(target, Err(failure)) is Exit,
        outcome_of::<T>(target, Err(failure))->Exit_0.notice.sink == Sink::Error,
        outcome_of::<T>(target, Err(failure))->Exit_0.notice.sink != Sink::Success,
{
}

/// Two sources that stand for the same arguments give the same attempt with
/// the same well-formed grammar, and on success the same matches on either
/// target.
pub proof fn source_does_not_matter(
    cmd: Command,
    first: ArgSource,
    second: ArgSource,
    first_target: Target,
    second_target: Target,
)
    requires
        cmd.well_formed(),
        first.tokens() == second.tokens(),
    ensures
        cmd.parsing(first.tokens()) == cmd.parsing(second.tokens()),
        outcome_of(first_target, cmd.parsing(first.tokens())) is Parsed <==> outcome_of(
            second_target,
            cmd.parsing(second.tokens()),
        ) is Parsed,
        cmd.parsing(first.tokens()) is Ok ==> outcome_of(
            first_target,
            cmd.parsing(first.tokens()),
        ) == outcome_of(second_target, cmd.parsing(second.tokens())),
        first_target == second_target ==> outcome_of(first_target, cmd.parsing(first.tokens()))
            == outcome_of(second_target, cmd.parsing(second.tokens())),
{
}

} // verus!
