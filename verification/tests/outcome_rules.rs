use clap::error::ErrorKind;
use we_clap::outcome::{exit_code, exit_for, route, settle, sink_for, EXIT_SUCCESS, EXIT_USAGE};
use we_clap::{Failure, Outcome, Sink, Target};

fn failure(kind: ErrorKind, message: &str) -> Failure {
    Failure { inner: clap::Error::raw(kind, message) }
}

fn all_kinds() -> Vec<ErrorKind> {
    vec![
        ErrorKind::InvalidValue,
        ErrorKind::UnknownArgument,
        ErrorKind::InvalidSubcommand,
        ErrorKind::NoEquals,
        ErrorKind::ValueValidation,
        ErrorKind::TooManyValues,
        ErrorKind::TooFewValues,
        ErrorKind::WrongNumberOfValues,
        ErrorKind::ArgumentConflict,
        ErrorKind::MissingRequiredArgument,
        ErrorKind::MissingSubcommand,
        ErrorKind::InvalidUtf8,
        ErrorKind::DisplayHelp,
        ErrorKind::DisplayHelpOnMissingArgumentOrSubcommand,
        ErrorKind::DisplayVersion,
        ErrorKind::Io,
        ErrorKind::Format,
    ]
}

#[test]
fn exit_codes_are_zero_and_two() {
    assert_eq!(EXIT_SUCCESS, 0);
    assert_eq!(EXIT_USAGE, 2);
}

#[test]
fn sink_for_sends_only_displays_to_success() {
    assert_eq!(sink_for(ErrorKind::DisplayHelp), Sink::Success);
    assert_eq!(sink_for(ErrorKind::DisplayVersion), Sink::Success);
    for kind in all_kinds() {
        let expected = if kind == ErrorKind::DisplayHelp || kind == ErrorKind::DisplayVersion {
            Sink::Success
        } else {
            Sink::Error
        };
        assert_eq!(sink_for(kind), expected);
    }
    assert_eq!(
        sink_for(ErrorKind::DisplayHelpOnMissingArgumentOrSubcommand),
        Sink::Error
    );
}

#[test]
fn route_is_the_same_on_both_targets() {
    for kind in all_kinds() {
        let f = failure(kind, "message");
        assert_eq!(route(Target::Native, &f), sink_for(kind));
        assert_eq!(route(Target::Web, &f), sink_for(kind));
    }
}

#[test]
fn exit_code_depends_on_the_target() {
    for kind in all_kinds() {
        let f = failure(kind, "message");
        let display = kind == ErrorKind::DisplayHelp || kind == ErrorKind::DisplayVersion;
        assert_eq!(exit_code(Target::Web, &f), 0);
        assert_eq!(exit_code(Target::Native, &f), if display { 0 } else { 2 });
        assert_eq!(exit_code(Target::Native, &f), f.inner.exit_code());
    }
}

#[test]
fn exit_for_carries_text_sink_code_and_failure() {
    let exit = exit_for(Target::Native, failure(ErrorKind::InvalidValue, "bad value"));
    assert_eq!(exit.notice.sink, Sink::Error);
    assert_eq!(exit.notice.text, "error: bad value");
    assert_eq!(exit.code, 2);
    assert_eq!(exit.failure.inner.kind(), ErrorKind::InvalidValue);
    assert_eq!(exit.failure.inner.to_string(), "error: bad value");

    let exit = exit_for(Target::Web, failure(ErrorKind::InvalidValue, "bad value"));
    assert_eq!(exit.notice.sink, Sink::Error);
    assert_eq!(exit.notice.text, "error: bad value");
    assert_eq!(exit.code, 0);

    let exit = exit_for(Target::Native, failure(ErrorKind::DisplayVersion, "tool 9\n"));
    assert_eq!(exit.notice.sink, Sink::Success);
    assert_eq!(exit.notice.text, "error: tool 9\n");
    assert_eq!(exit.code, 0);
}

#[test]
fn settle_passes_a_value_through() {
    for target in [Target::Native, Target::Web] {
        match settle::<u32>(target, Ok(7)) {
            Outcome::Parsed(value) => assert_eq!(value, 7),
            Outcome::Exit(_) => panic!("a value must not exit"),
        }
    }
}

#[test]
fn settle_turns_a_failure_into_an_exit() {
    match settle::<u32>(Target::Native, Err(failure(ErrorKind::TooFewValues, "more"))) {
        Outcome::Parsed(_) => panic!("a failure must not parse"),
        Outcome::Exit(exit) => {
            assert_eq!(exit.notice.sink, Sink::Error);
            assert_eq!(exit.code, 2);
            assert_eq!(exit.notice.text, "error: more");
            assert_eq!(exit.failure.inner.kind(), ErrorKind::TooFewValues);
        }
    }
    match settle::<u32>(Target::Web, Err(failure(ErrorKind::DisplayHelp, "usage\n"))) {
        Outcome::Parsed(_) => panic!("a failure must not parse"),
        Outcome::Exit(exit) => {
            assert_eq!(exit.notice.sink, Sink::Success);
            assert_eq!(exit.code, 0);
            assert_eq!(exit.notice.text, "error: usage\n");
        }
    }
}
