//! The adapter for a grammar definition: parsing into matches and rendering
//! help, with the arguments taken from a source and the ending left to the
//! caller as a value.

use crate::outcome::{outcome_of, settle, Notice, NoticeView, Outcome, Sink, Target};
use crate::outside::{
    help_text, long_help_text, parse_result, render_help, render_long_help, try_get_matches_from,
    try_get_matches_from_mut, well_formed, Failure,
};
use crate::source::ArgSource;
use clap::{ArgMatches, Command};
use vstd::prelude::*;

verus! {

/// Parsing and help for a grammar definition, on any target.
///
/// Every method asks for a well-formed grammar: on any other `clap` may
/// panic, or answer differently from one call to the next.
pub trait WeCommand: Sized {
    /// Whether `clap` can work with this grammar.
    spec fn well_formed(&self) -> bool;

    /// What parsing the given arguments with this grammar gives.
    spec fn parsing(self, args: Seq<Seq<char>>) -> Result<ArgMatches, Failure>;

    /// The short help text of this grammar.
    spec fn help(self) -> Seq<char>;

    /// The long help text of this grammar.
    spec fn long_help(self) -> Seq<char>;

    /// Parses the arguments of `source`, consuming the grammar. On failure
    /// the outcome asks for the process to end after the message has gone to
    /// its sink.
    fn we_get_matches(self, target: Target, source: ArgSource) -> (outcome: Outcome<ArgMatches>)
        requires
            self.well_formed(),
        ensures
            outcome@ == outcome_of(target, self.parsing(source.tokens())),
    ;

    /// Like `we_get_matches`, but leaves the grammar with the caller, fit
    /// for further calls. The grammar may have taken the program's name from
    /// the first argument, and its help and usage with it.
    fn we_get_matches_mut(&mut self, target: Target, source: ArgSource) -> (outcome: Outcome<
        ArgMatches,
    >)
        requires
            old(self).well_formed(),
        ensures
            outcome@ == outcome_of(target, old(self).parsing(source.tokens())),
            final(self).well_formed(),
    ;

    /// Parses the arguments of `source` and hands back what `clap` returned,
    /// failure included: the caller decides what follows.
    fn we_try_get_matches(self, source: ArgSource) -> (attempt: Result<ArgMatches, Failure>)
        requires
            self.well_formed(),
        ensures
            attempt == self.parsing(source.tokens()),
    ;

    /// Renders the short help as a notice for the success sink. The grammar
    /// stays fit for further calls, and renders afterwards as it did before.
    fn we_print_help(&mut self) -> (notice: Notice)
        requires
            old(self).well_formed(),
        ensures
            notice@ == (NoticeView { sink: Sink::Success, text: old(self).help() }),
            final(self).well_formed(),
            final(self).help() == old(self).help(),
            final(self).long_help() == old(self).long_help(),
    ;

    /// Renders the long help as a notice for the success sink. The grammar
    /// stays fit for further calls, and renders afterwards as it did before.
    fn we_print_long_help(&mut self) -> (notice: Notice)
        requires
            old(self).well_formed(),
        ensures
            notice@ == (NoticeView { sink: Sink::Success, text: old(self).long_help() }),
            final(self).well_formed(),
            final(self).help() == old(self).help(),
            final(self).long_help() == old(self).long_help(),
    ;
}

impl WeCommand for Command {
    open spec fn well_formed(&self) -> bool {
        well_formed(*self)
    }

    open spec fn parsing(self, args: Seq<Seq<char>>) -> Result<ArgMatches, Failure> {
        parse_result(self, args)
    }

    open spec fn help(self) -> Seq<char> {
        help_text(self)
    }

    open spec fn long_help(self) -> Seq<char> {
        long_help_text(self)
    }

    fn we_get_matches(self, target: Target, source: ArgSource) -> (outcome: Outcome<ArgMatches>) {
        let args = source.into_arguments();
        settle(target, try_get_matches_from(self, args))
    }

    fn we_get_matches_mut(&mut self, target: Target, source: ArgSource) -> (outcome: Outcome<
        ArgMatches,
    >) {
        let args = source.into_arguments();
        settle(target, try_get_matches_from_mut(self, args))
    }

    fn we_try_get_matches(self, source: ArgSource) -> (attempt: Result<ArgMatches, Failure>) {
        let args = source.into_arguments();
        try_get_matches_from(self, args)
    }

    fn we_print_help(&mut self) -> (notice: Notice) {
        let text = render_help(self);
        Notice { sink: Sink::Success, text }
    }

    fn we_print_long_help(&mut self) -> (notice: Notice) {
        let text = render_long_help(self);
        Notice { sink: Sink::Success, text }
    }
}

} // verus!
