//! What becomes of a parse attempt: the value on success, and on failure the
//! message, the sink it belongs on and the exit code, for each target.

use crate::outside::{clap_exit_code, failure_kind, failure_text, kind_of, text_of, uses_stderr};
use crate::outside::Failure;
use clap::error::ErrorKind;
use vstd::prelude::*;

verus! {

/// Exit code of a process that ended as its user asked.
pub const EXIT_SUCCESS: i32 = 0;

/// Exit code of a native process whose arguments were refused.
pub const EXIT_USAGE: i32 = 2;

/// Where the program runs.
#[derive(Clone, Copy, Debug, PartialEq, Eq, Structural)]
pub enum Target {
    /// An ordinary process with standard streams and an exit code.
    Native,
    /// A page in a browser, where output goes to the console or an alert and
    /// an exit code means nothing.
    Web,
}

/// Where a message for the user belongs.
#[derive(Clone, Copy, Debug, PartialEq, Eq, Structural)]
pub enum Sink {
    /// The sink for what the user asked to see.
    Success,
    /// The sink for complaints.
    Error,
}

/// A message and the sink it belongs on.
pub struct Notice {
    pub sink: Sink,
    pub text: String,
}

/// A request to end the process after delivering a notice.
pub struct Exit {
    pub notice: Notice,
    pub code: i32,
    /// The failure that led here, whole.
    pub failure: Failure,
}

/// How a terminating entry point ends.
pub enum Outcome<T> {
    /// Parsing succeeded; the caller goes on with the value.
    Parsed(T),
    /// Parsing failed, or help or the version was asked for.
    Exit(Exit),
}

/// A notice as a plain value.
pub struct NoticeView {
    pub sink: Sink,
    pub text: Seq<char>,
}

/// An exit request as a plain value.
pub struct ExitView {
    pub notice: NoticeView,
    pub code: int,
    pub failure: Failure,
}

/// An outcome as a plain value.
pub enum OutcomeView<T> {
    Parsed(T),
    Exit(ExitView),
}

impl View for Notice {
    type V = NoticeView;

    open spec fn view(&self) -> NoticeView {
        NoticeView { sink: self.sink, text: self.text@ }
    }
}

impl View for Exit {
    type V = ExitView;

    open spec fn view(&self) -> ExitView {
        ExitView { notice: self.notice@, code: self.code as int, failure: self.failure }
    }
}

impl<T> View for Outcome<T> {
    type V = OutcomeView<T>;

    open spec fn view(&self) -> OutcomeView<T> {
        match *self {
            Outcome::Parsed(value) => OutcomeView::Parsed(value),
            Outcome::Exit(exit) => OutcomeView::Exit(exit@),
        }
    }
}

/// Whether a failure of this kind only displays what the user asked for.
pub open spec fn is_display(kind: ErrorKind) -> bool {
    kind is DisplayHelp || kind is DisplayVersion
}

/// The sink for the message of a failure of this kind.
pub open spec fn sink_of(kind: ErrorKind) -> Sink {
    if is_display(kind) {
        Sink::Success
    } else {
        Sink::Error
    }
}

/// The exit code after a failure of this kind. In a browser it is always
/// `EXIT_SUCCESS`: nothing there can observe it, so help and complaint are
/// deliberately not told apart.
pub open spec fn code_of(target: Target, kind: ErrorKind) -> int {
    match target {
        Target::Web => EXIT_SUCCESS as int,
        Target::Native => if is_display(kind) {
            EXIT_SUCCESS as int
        } else {
            EXIT_USAGE as int
        },
    }
}

/// The exit request that a failure leads to.
pub open spec fn exit_of(target: Target, failure: Failure) -> ExitView {
    ExitView {
        notice: NoticeView {
            sink: sink_of(failure_kind(failure)),
            text: failure_text(failure),
        },
        code: code_of(target, failure_kind(failure)),
        failure,
    }
}

/// The outcome that a parse attempt leads to.
pub open spec fn outcome_of<T>(target: Target, attempt: Result<T, Failure>) -> OutcomeView<T> {
    match attempt {
        Ok(value) => OutcomeView::Parsed(value),
        Err(failure) => OutcomeView::Exit(exit_of(target, failure)),
    }
}

/// The sink for a failure of the given kind: the success sink for help and
/// version displays, the error sink for everything else.
pub fn sink_for(kind: ErrorKind) -> (sink: Sink)
    ensures
        sink == sink_of(kind),
{
    match kind {
        ErrorKind::DisplayHelp | ErrorKind::DisplayVersion => Sink::Success,
        _ => Sink::Error,
    }
}

/// The sink that a failure's message belongs on. A native process follows
/// the stream that `clap` itself picks; a browser page routes by the kind.
/// Both come to the same sink.
pub fn route(target: Target, failure: &Failure) -> (sink: Sink)
    ensures
        sink == sink_of(failure_kind(*failure)),
{
    match target {
        Target::Native => {
            if uses_stderr(failure) {
                Sink::Error
            } else {
                Sink::Success
            }
        },
        Target::Web => sink_for(kind_of(failure)),
    }
}

/// The code to end the process with after a failure.
pub fn exit_code(target: Target, failure: &Failure) -> (code: i32)
    ensures
        code == code_of(target, failure_kind(*failure)),
{
    match target {
        Target::Native => clap_exit_code(failure),
        Target::Web => EXIT_SUCCESS,
    }
}

/// Turns a failure into the request to deliver its message and end the
/// process.
pub fn exit_for(target: Target, failure: Failure) -> (exit: Exit)
    ensures
        exit@ == exit_of(target, failure),
{
    let sink = route(target, &failure);
    let code = exit_code(target, &failure);
    let text = text_of(&failure);
    Exit { notice: Notice { sink, text }, code, failure }
}

/// Settles a parse attempt for a terminating entry point: the value where
/// parsing succeeded, an exit request where it did not.
pub fn settle<T>(target: Target, attempt: Result<T, Failure>) -> (outcome: Outcome<T>)
    ensures
        outcome@ == outcome_of(target, attempt),
{
    match attempt {
        Ok(value) => Outcome::Parsed(value),
        Err(failure) => Outcome::Exit(exit_for(target, failure)),
    }
}

} // verus!
