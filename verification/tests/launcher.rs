use withd::error::conclude;
use withd::error::Error;
use withd::error::IoErrorKind;
use withd::error::OsErrorKind;
use withd::launcher::plan_for;
use withd::launcher::run;
use withd::launcher::termination_signals;
use withd::launcher::Action;
use withd::launcher::Event;
use withd::launcher::Invocation;
use withd::launcher::Launcher;
use withd::launcher::Phase;
use withd::launcher::Stage;
use withd::launcher::TerminationSignal;
use withd::provision::ensure_directory;
use withd::provision::Naming;
use withd::provision::Step;

fn words(words: &[&str]) -> Vec<Vec<u8>> {
    words.iter().map(|word| word.as_bytes().to_vec()).collect()
}

fn invocation(directory: &str, create: bool, temporary: bool, command: &[&str]) -> Invocation {
    Invocation { directory: directory.as_bytes().to_vec(), create, temporary, command: words(command) }
}

fn all_signals() -> Vec<TerminationSignal> {
    vec![TerminationSignal::Interrupt, TerminationSignal::Quit, TerminationSignal::Terminate]
}

/// Steps a launcher that accepts the event.
fn step(launcher: Launcher, event: Event) -> (Launcher, Action) {
    assert!(launcher.accepts(&event));
    launcher.step(event)
}

#[test]
fn signals_of_termination() {
    assert_eq!(termination_signals(), all_signals());
}

#[test]
fn run_begins_by_ignoring_the_signals() {
    let (launcher, action) = run(invocation("/work", false, false, &["true"]));
    assert!(matches!(action, Action::IgnoreSignals(signals) if signals == all_signals()));
    assert!(matches!(launcher.stage, Stage::Masking));
    assert_eq!(launcher.stage.phase(), Phase::Setup);
    assert!(!launcher.holds_temporary);
}

#[test]
fn run_in_a_directory_step_by_step() {
    let (launcher, _) = run(invocation("/work", false, false, &["make", "-j", "4"]));
    let (launcher, action) = step(launcher, Event::Completed);
    assert!(matches!(action, Action::ReadWorkingDirectory));
    assert!(matches!(launcher.stage, Stage::Locating));
    let (launcher, action) = step(launcher, Event::WorkingDirectory(b"/home/me".to_vec()));
    assert!(matches!(action, Action::Provide(Step::ChangeDirectory(path)) if path == b"/work"));
    assert!(matches!(launcher.stage, Stage::Providing));
    let (launcher, action) = step(launcher, Event::Completed);
    match action {
        Action::Spawn { program, arguments, whence, restore } => {
            assert_eq!(program, b"make".to_vec());
            assert_eq!(arguments, words(&["-j", "4"]));
            assert_eq!(whence, b"/home/me".to_vec());
            assert_eq!(restore, all_signals());
        }
        other => panic!("unexpected action: {other:?}"),
    }
    assert!(matches!(launcher.stage, Stage::Spawning));
    assert_eq!(launcher.stage.phase(), Phase::Setup);
    let (launcher, action) = step(launcher, Event::Completed);
    assert!(matches!(action, Action::Wait));
    assert_eq!(launcher.stage.phase(), Phase::Running);
    let (launcher, action) = step(launcher, Event::Terminated { code: Some(3), signal: None });
    assert!(matches!(action, Action::Finish(Ok(3))));
    assert!(matches!(launcher.stage, Stage::Finished));
    assert_eq!(launcher.stage.phase(), Phase::Done);
}

#[test]
fn failure_to_ignore_the_signals_ends_the_run() {
    for (kind, code) in [
        (OsErrorKind::NotPermitted, 126),
        (OsErrorKind::NoEntry, 127),
        (OsErrorKind::Other, 1),
    ] {
        let (launcher, _) = run(invocation("/work", true, false, &["true"]));
        let (launcher, action) = step(launcher, Event::OsFailed(kind));
        assert!(matches!(launcher.stage, Stage::Finished));
        match action {
            Action::Finish(result) => {
                assert!(matches!(result, Err(Error::Os(found)) if found == kind));
                assert_eq!(conclude(result), code);
            }
            other => panic!("unexpected action: {other:?}"),
        }
    }
}

#[test]
fn failure_to_read_the_working_directory_ends_the_run() {
    let (launcher, _) = run(invocation("/work", true, false, &["true"]));
    let (launcher, _) = step(launcher, Event::Completed);
    let (launcher, action) = step(launcher, Event::IoFailed(IoErrorKind::PermissionDenied));
    assert!(matches!(launcher.stage, Stage::Finished));
    assert!(matches!(action, Action::Finish(Err(Error::Io(IoErrorKind::PermissionDenied)))));
}

#[test]
fn failure_to_start_the_command_ends_the_run() {
    for (kind, code) in [
        (IoErrorKind::PermissionDenied, 126),
        (IoErrorKind::NotFound, 127),
        (IoErrorKind::Other, 1),
    ] {
        let (launcher, _) = run(invocation("/work", false, false, &["no-such-program"]));
        let (launcher, _) = step(launcher, Event::Completed);
        let (launcher, _) = step(launcher, Event::WorkingDirectory(b"/".to_vec()));
        let (launcher, action) = step(launcher, Event::Completed);
        assert!(matches!(action, Action::Spawn { .. }));
        let (_, action) = step(launcher, Event::IoFailed(kind));
        match action {
            Action::Finish(result) => assert_eq!(conclude(result), code),
            other => panic!("unexpected action: {other:?}"),
        }
    }
}

#[test]
fn failure_to_wait_ends_the_run() {
    let (launcher, _) = run(invocation("/work", false, false, &["true"]));
    let (launcher, _) = step(launcher, Event::Completed);
    let (launcher, _) = step(launcher, Event::WorkingDirectory(b"/".to_vec()));
    let (launcher, _) = step(launcher, Event::Completed);
    let (launcher, _) = step(launcher, Event::Completed);
    let (_, action) = step(launcher, Event::IoFailed(IoErrorKind::Other));
    assert!(matches!(action, Action::Finish(Err(Error::Io(IoErrorKind::Other)))));
}

#[test]
fn command_that_a_signal_terminates() {
    let (launcher, _) = run(invocation("/work", false, false, &["sleep", "60"]));
    let (launcher, _) = step(launcher, Event::Completed);
    let (launcher, _) = step(launcher, Event::WorkingDirectory(b"/".to_vec()));
    let (launcher, _) = step(launcher, Event::Completed);
    let (launcher, _) = step(launcher, Event::Completed);
    let (_, action) = step(launcher, Event::Terminated { code: None, signal: Some(15) });
    match action {
        Action::Finish(result) => {
            assert!(matches!(result, Err(Error::TerminatedBySignal(15))));
            assert_eq!(conclude(result), 143);
        }
        other => panic!("unexpected action: {other:?}"),
    }
}

#[test]
fn command_that_ends_without_code_or_signal() {
    let (launcher, _) = run(invocation("/work", false, false, &["true"]));
    let (launcher, _) = step(launcher, Event::Completed);
    let (launcher, _) = step(launcher, Event::WorkingDirectory(b"/".to_vec()));
    let (launcher, _) = step(launcher, Event::Completed);
    let (launcher, _) = step(launcher, Event::Completed);
    let (_, action) = step(launcher, Event::Terminated { code: None, signal: None });
    match action {
        Action::Finish(result) => assert_eq!(conclude(result), 130),
        other => panic!("unexpected action: {other:?}"),
    }
}

#[test]
fn run_without_a_command_fails_after_the_directories() {
    let (launcher, _) = run(invocation("/work", false, false, &[]));
    let (launcher, _) = step(launcher, Event::Completed);
    let (launcher, action) = step(launcher, Event::WorkingDirectory(b"/".to_vec()));
    assert!(matches!(action, Action::Provide(Step::ChangeDirectory(_))));
    let (launcher, action) = step(launcher, Event::Completed);
    assert!(matches!(launcher.stage, Stage::Finished));
    match action {
        Action::Finish(result) => {
            assert!(matches!(result, Err(Error::NoCommand)));
            assert_eq!(conclude(result), 1);
        }
        other => panic!("unexpected action: {other:?}"),
    }
}

#[test]
fn run_without_a_command_releases_its_temporary_directory() {
    let (launcher, _) = run(invocation("tmp.XXXX", false, true, &[]));
    let (launcher, _) = step(launcher, Event::Completed);
    let (launcher, action) = step(launcher, Event::WorkingDirectory(b"/".to_vec()));
    assert!(matches!(action, Action::Provide(Step::CreateTemporary { .. })));
    let (launcher, action) = step(launcher, Event::Completed);
    assert!(matches!(action, Action::Provide(Step::EnterTemporary)));
    assert!(launcher.holds_temporary);
    let (launcher, action) = step(launcher, Event::Completed);
    assert!(matches!(action, Action::Release));
    assert_eq!(launcher.stage.phase(), Phase::Done);
    let (launcher, action) = step(launcher, Event::Completed);
    assert!(matches!(action, Action::Finish(Err(Error::NoCommand))));
    assert!(!launcher.holds_temporary);
}

#[test]
fn temporary_directory_that_cannot_be_entered_is_released() {
    let (launcher, _) = run(invocation("work/tmp.XXXX", false, true, &["true"]));
    let (launcher, _) = step(launcher, Event::Completed);
    let (launcher, _) = step(launcher, Event::WorkingDirectory(b"/".to_vec()));
    let (launcher, action) = step(launcher, Event::Completed);
    assert!(matches!(action, Action::Provide(Step::EnterTemporary)));
    let (launcher, action) = step(launcher, Event::IoFailed(IoErrorKind::PermissionDenied));
    assert!(matches!(action, Action::Release));
    assert!(matches!(
        launcher.stage,
        Stage::Releasing(Err(Error::Io(IoErrorKind::PermissionDenied)))
    ));
    let (_, action) = step(launcher, Event::Completed);
    match action {
        Action::Finish(result) => assert_eq!(conclude(result), 126),
        other => panic!("unexpected action: {other:?}"),
    }
}

#[test]
fn failed_release_keeps_the_result_of_the_command() {
    let (launcher, _) = run(invocation("work/tmp.XXXX", false, true, &["false"]));
    let (launcher, _) = step(launcher, Event::Completed);
    let (launcher, _) = step(launcher, Event::WorkingDirectory(b"/".to_vec()));
    let (launcher, _) = step(launcher, Event::Completed);
    let (launcher, _) = step(launcher, Event::Completed);
    let (launcher, _) = step(launcher, Event::Completed);
    let (launcher, action) = step(launcher, Event::Terminated { code: Some(1), signal: None });
    assert!(matches!(action, Action::Release));
    let (launcher, action) = step(launcher, Event::IoFailed(IoErrorKind::PermissionDenied));
    assert!(matches!(action, Action::Finish(Ok(1))));
    assert!(matches!(launcher.stage, Stage::Finished));
}

#[test]
fn target_that_is_no_template_ends_the_run_before_any_request() {
    let (launcher, _) = run(Invocation {
        directory: b"work/\xffXXX".to_vec(),
        create: true,
        temporary: true,
        command: words(&["true"]),
    });
    let (launcher, action) = step(launcher, Event::Completed);
    assert!(matches!(action, Action::ReadWorkingDirectory));
    let (launcher, action) = step(launcher, Event::WorkingDirectory(b"/".to_vec()));
    assert!(matches!(launcher.stage, Stage::Finished));
    match action {
        Action::Finish(result) => {
            assert!(matches!(&result, Err(Error::Utf8Invalid(name)) if name == b"\xffXXX"));
            assert_eq!(conclude(result), 1);
        }
        other => panic!("unexpected action: {other:?}"),
    }
}

#[test]
fn target_that_is_no_text_is_taken_as_a_plain_directory() {
    let plan = plan_for(&Invocation {
        directory: b"work/\xffXXX".to_vec(),
        create: false,
        temporary: false,
        command: Vec::new(),
    })
    .expect("a plan");
    assert_eq!(plan.len(), 1);
    assert!(matches!(&plan[0], Step::ChangeDirectory(path) if path == b"work/\xffXXX"));
}

#[test]
fn launcher_accepts_the_answers_to_its_action_only() {
    let (launcher, _) = Launcher::begin(Ok(ensure_directory(b"/work", false)), words(&["true"]));
    assert!(launcher.accepts(&Event::Completed));
    assert!(launcher.accepts(&Event::OsFailed(OsErrorKind::Other)));
    assert!(!launcher.accepts(&Event::IoFailed(IoErrorKind::Other)));
    assert!(!launcher.accepts(&Event::WorkingDirectory(Vec::new())));
    assert!(!launcher.accepts(&Event::Terminated { code: Some(0), signal: None }));
    let (launcher, _) = step(launcher, Event::Completed);
    assert!(launcher.accepts(&Event::WorkingDirectory(Vec::new())));
    assert!(launcher.accepts(&Event::IoFailed(IoErrorKind::Other)));
    assert!(!launcher.accepts(&Event::Completed));
    assert!(!launcher.accepts(&Event::OsFailed(OsErrorKind::Other)));
    let (launcher, _) = step(launcher, Event::WorkingDirectory(Vec::new()));
    assert!(launcher.accepts(&Event::Completed));
    assert!(launcher.accepts(&Event::IoFailed(IoErrorKind::Other)));
    assert!(!launcher.accepts(&Event::Terminated { code: Some(0), signal: None }));
    let (launcher, _) = step(launcher, Event::Completed);
    let (launcher, _) = step(launcher, Event::Completed);
    assert!(launcher.accepts(&Event::Terminated { code: None, signal: Some(9) }));
    assert!(launcher.accepts(&Event::IoFailed(IoErrorKind::Other)));
    assert!(!launcher.accepts(&Event::Completed));
    let (launcher, _) = step(launcher, Event::Terminated { code: Some(0), signal: None });
    assert!(!launcher.accepts(&Event::Completed));
    assert!(!launcher.accepts(&Event::IoFailed(IoErrorKind::Other)));
}

#[test]
fn launcher_with_an_empty_plan_starts_the_command_at_once() {
    let (launcher, _) = Launcher::begin(Ok(Vec::new()), words(&["true"]));
    let (launcher, _) = step(launcher, Event::Completed);
    let (_, action) = step(launcher, Event::WorkingDirectory(b"/here".to_vec()));
    assert!(matches!(action, Action::Spawn { whence, .. } if whence == b"/here"));
}

#[test]
fn default_naming_in_the_default_place() {
    let (launcher, _) = run(invocation("", true, true, &["true"]));
    let (launcher, _) = step(launcher, Event::Completed);
    let (_, action) = step(launcher, Event::WorkingDirectory(b"/".to_vec()));
    assert!(matches!(
        action,
        Action::Provide(Step::CreateTemporary { parent: None, naming: Naming::Default })
    ));
}
