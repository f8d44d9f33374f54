//! The boundary to `clap` and `cliw`.
//!
//! Everything in this file is taken on trust: the types that are carried
//! through unopened, the names given to what the two crates compute, and the
//! small functions that make the calls. Nothing here is proved; the rest of
//! the crate is proved from what is stated here.

use vstd::prelude::*;

verus! {

/// A grammar definition of `clap`, carried through unopened.
#[verifier::external_type_specification]
#[verifier::external_body]
pub struct ExCommand(clap::Command);

/// What `clap` matched, carried through unopened.
#[verifier::external_type_specification]
#[verifier::external_body]
pub struct ExArgMatches(clap::ArgMatches);

/// The kinds of failure that `clap` tells apart.
#[verifier::external_type_specification]
pub struct ExErrorKind(clap::error::ErrorKind);

/// The structured failure of `clap`, kept whole.
///
/// `clap::Error` is generic over a formatter trait, so it cannot be named
/// in a contract directly; this struct holds one and hides it. The field is
/// public so that code around the library can put a `clap::Error` in and
/// take it out again.
#[verifier::external_body]
pub struct Failure {
    pub inner: clap::Error,
}

/// Whether `clap` can work with this grammar. It holds where both of these
/// do, of the grammar and of each of its subcommands:
///
/// - the assertions that `clap` makes when it builds a grammar pass (they
///   are compiled in with debug assertions, and abort on contradictory
///   arguments or settings);
/// - the code that the grammar carries (a deferred builder, value parsers,
///   providers of possible values) returns without panicking, and what it
///   returns depends on what it is handed and on nothing else.
///
/// Whoever builds a grammar answers for this. `clap` builds a grammar once
/// and marks it as built, so a grammar that a call has been through holds it
/// still.
pub uninterp spec fn well_formed(cmd: clap::Command) -> bool;

/// What `clap::Command::try_get_matches_from` returns for a grammar and an
/// argument sequence. `clap` is built here without its `env` and `wrap_help`
/// features, so on a well-formed grammar the parse reads nothing but these
/// two.
pub uninterp spec fn parse_result(cmd: clap::Command, args: Seq<Seq<char>>) -> Result<
    clap::ArgMatches,
    Failure,
>;

/// What `clap::Error::kind` returns.
pub uninterp spec fn failure_kind(failure: Failure) -> clap::error::ErrorKind;

/// The text that `clap::Error` displays as.
pub uninterp spec fn failure_text(failure: Failure) -> Seq<char>;

/// The text of what `clap::Command::render_help` returns.
pub uninterp spec fn help_text(cmd: clap::Command) -> Seq<char>;

/// The text of what `clap::Command::render_long_help` returns.
pub uninterp spec fn long_help_text(cmd: clap::Command) -> Seq<char>;

/// The arguments that `cliw::url_args::UrlArgs` cuts a URL into.
pub uninterp spec fn url_tokens(url: Seq<char>) -> Seq<Seq<char>>;

/// Calls `clap::Command::try_get_matches_from`.
///
/// Claims that on a well-formed grammar the result is the one named
/// `parse_result` for this grammar and these arguments.
#[verifier::external_body]
pub(crate) fn try_get_matches_from(cmd: clap::Command, args: Vec<String>) -> (attempt: Result<
    clap::ArgMatches,
    Failure,
>)
    requires
        well_formed(cmd),
    ensures
        attempt == parse_result(cmd, args.deep_view()),
{
    cmd.try_get_matches_from(args).map_err(|inner| Failure { inner })
}

/// Calls `clap::Command::try_get_matches_from_mut`.
///
/// `clap` defines the consuming parse as this one applied to the same
/// grammar, so the result carries the same name. The call builds the grammar
/// and may give it the program's name from the first argument, so of the
/// grammar left behind only this is claimed: it is well-formed still. Its
/// help and usage may have changed with the name.
#[verifier::external_body]
pub(crate) fn try_get_matches_from_mut(cmd: &mut clap::Command, args: Vec<String>) -> (attempt:
    Result<clap::ArgMatches, Failure>)
    requires
        well_formed(*old(cmd)),
    ensures
        attempt == parse_result(*old(cmd), args.deep_view()),
        well_formed(*final(cmd)),
{
    cmd.try_get_matches_from_mut(args).map_err(|inner| Failure { inner })
}

/// Calls `clap::Error::kind`, which reads the kind the failure was made with.
#[verifier::external_body]
pub(crate) fn kind_of(failure: &Failure) -> (kind: clap::error::ErrorKind)
    ensures
        kind == failure_kind(*failure),
{
    failure.inner.kind()
}

/// Formats a `clap::Error` through its `Display` impl, which writes the
/// message without styling.
#[verifier::external_body]
pub(crate) fn text_of(failure: &Failure) -> (text: String)
    ensures
        text@ == failure_text(*failure),
{
    failure.inner.to_string()
}

/// Calls `clap::Error::use_stderr`: `clap` writes to standard output for the
/// kinds `DisplayHelp` and `DisplayVersion`, and to standard error for every
/// other kind.
#[verifier::external_body]
pub(crate) fn uses_stderr(failure: &Failure) -> (stderr: bool)
    ensures
        stderr == !(failure_kind(*failure) is DisplayHelp || failure_kind(*failure)
            is DisplayVersion),
{
    failure.inner.use_stderr()
}

/// Calls `clap::Error::exit_code`: 2 where `clap` writes to standard error,
/// 0 where it writes to standard output.
#[verifier::external_body]
pub(crate) fn clap_exit_code(failure: &Failure) -> (code: i32)
    ensures
        code == if failure_kind(*failure) is DisplayHelp || failure_kind(*failure)
            is DisplayVersion {
            0i32
        } else {
            2i32
        },
{
    failure.inner.exit_code()
}

/// Calls `clap::Command::render_help` and takes the text of what it returns.
///
/// The call builds the grammar, if it was not built yet, and then only
/// reads it. A built grammar is not built again, so the grammar left behind
/// is well-formed and renders, short and long, as the one handed in.
#[verifier::external_body]
pub(crate) fn render_help(cmd: &mut clap::Command) -> (text: String)
    requires
        well_formed(*old(cmd)),
    ensures
        text@ == help_text(*old(cmd)),
        well_formed(*final(cmd)),
        help_text(*final(cmd)) == help_text(*old(cmd)),
        long_help_text(*final(cmd)) == long_help_text(*old(cmd)),
{
    cmd.render_help().to_string()
}

/// Calls `clap::Command::render_long_help` and takes the text of what it
/// returns.
///
/// The call builds the grammar, if it was not built yet, and then only
/// reads it. A built grammar is not built again, so the grammar left behind
/// is well-formed and renders, short and long, as the one handed in.
#[verifier::external_body]
pub(crate) fn render_long_help(cmd: &mut clap::Command) -> (text: String)
    requires
        well_formed(*old(cmd)),
    ensures
        text@ == long_help_text(*old(cmd)),
        well_formed(*final(cmd)),
        help_text(*final(cmd)) == help_text(*old(cmd)),
        long_help_text(*final(cmd)) == long_help_text(*old(cmd)),
{
    cmd.render_long_help().to_string()
}

/// Runs `cliw::url_args::UrlArgs` over a URL and collects what it yields.
/// Every item was made from a `String`, so the conversion back loses nothing.
#[verifier::external_body]
pub(crate) fn url_arguments(url: String) -> (args: Vec<String>)
    ensures
        args.deep_view() == url_tokens(url@),
{
    cliw::url_args::UrlArgs::from(url).map(|arg| arg.to_string_lossy().into_owned()).collect()
}

} // verus!
