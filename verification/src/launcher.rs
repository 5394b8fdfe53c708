//! The course of a run, from the first request to the result.
//!
//! A run alternates between the launcher and its caller. The launcher
//! decides what is to be done next and says so in an [`Action`]; the caller
//! does it and reports what happened in an [`Event`]. The launcher touches
//! nothing outside itself, so every course that a run can take is fixed by
//! [`next`], whatever the operating system answers.
//!
//! The termination signals are ignored before anything else is asked for,
//! and are set back to their defaults in the child only, between the split
//! of the process and the start of the command. A temporary directory that
//! was created is released before the run finishes, however it ends.

use crate::error::outcome_of;
use crate::error::termination;
use crate::error::termination_of;
use crate::error::Error;
use crate::error::ErrorView;
use crate::error::IoErrorKind;
use crate::error::OsErrorKind;
use crate::platform::path_file_name;
use crate::platform::path_is_taken;
use crate::platform::path_parent;
use crate::provision::directory_steps;
use crate::provision::ensure_directory;
use crate::provision::ensure_temporary_directory;
use crate::provision::plan_of;
use crate::provision::steps_of;
use crate::provision::temporary_plan_of;
use crate::provision::Step;
use crate::provision::StepView;
use vstd::prelude::*;
use vstd::utf8::valid_utf8;

verus! {

/// A signal that asks a process to end.
#[derive(Clone, Copy, Debug, PartialEq, Eq, Structural)]
pub enum TerminationSignal {
    /// The interactive interrupt.
    Interrupt,
    /// The interactive quit.
    Quit,
    /// The request to terminate.
    Terminate,
}

/// What a run is asked to do.
#[derive(Debug, PartialEq, Eq)]
pub struct Invocation {
    /// The target directory.
    pub directory: Vec<u8>,
    /// Whether directories that are missing are to be created.
    pub create: bool,
    /// Whether the command is to run in a new temporary directory, which
    /// the target directory then describes.
    pub temporary: bool,
    /// The program and its arguments.
    pub command: Vec<Vec<u8>>,
}

/// The mathematical value of an [`Invocation`].
pub struct InvocationView {
    pub directory: Seq<u8>,
    pub create: bool,
    pub temporary: bool,
    pub command: Seq<Seq<u8>>,
}

/// The mathematical value of a list of byte strings.
pub open spec fn strings_of(strings: Vec<Vec<u8>>) -> Seq<Seq<u8>> {
    strings@.map_values(|string: Vec<u8>| string@)
}

impl View for Invocation {
    type V = InvocationView;

    open spec fn view(&self) -> InvocationView {
        InvocationView {
            directory: self.directory@,
            create: self.create,
            temporary: self.temporary,
            command: strings_of(self.command),
        }
    }
}

/// What the caller reports of the action that it was asked for.
#[derive(Debug, PartialEq, Eq)]
pub enum Event {
    /// The action was carried out.
    Completed,
    /// The working directory that was read.
    WorkingDirectory(Vec<u8>),
    /// The command has ended, with the exit code and the signal number
    /// that the platform reports, each if it reports one.
    Terminated { code: Option<i32>, signal: Option<i32> },
    /// The action failed as an input/output operation.
    IoFailed(IoErrorKind),
    /// The action failed as a call of the operating system.
    OsFailed(OsErrorKind),
}

/// The mathematical value of an [`Event`].
pub enum EventView {
    Completed,
    WorkingDirectory(Seq<u8>),
    Terminated { code: Option<i32>, signal: Option<i32> },
    IoFailed(IoErrorKind),
    OsFailed(OsErrorKind),
}

impl View for Event {
    type V = EventView;

    open spec fn view(&self) -> EventView {
        match *self {
            Event::Completed => EventView::Completed,
            Event::WorkingDirectory(path) => EventView::WorkingDirectory(path@),
            Event::Terminated { code, signal } => EventView::Terminated { code, signal },
            Event::IoFailed(kind) => EventView::IoFailed(kind),
            Event::OsFailed(kind) => EventView::OsFailed(kind),
        }
    }
}

/// What the launcher asks its caller to do next.
#[derive(Debug, PartialEq, Eq)]
pub enum Action {
    /// Have this process ignore these signals from now on.
    IgnoreSignals(Vec<TerminationSignal>),
    /// Read the working directory of this process.
    ReadWorkingDirectory,
    /// Carry out this request to the file system.
    Provide(Step),
    /// Start `program` with `arguments` as a child of this process, in the
    /// working directory as it is now, with `whence` in its environment as
    /// the directory that the run started from. In the child, and only
    /// there, the signals of `restore` are set back to their defaults, after
    /// the process has split and before the program begins.
    Spawn { program: Vec<u8>, arguments: Vec<Vec<u8>>, whence: Vec<u8>, restore: Vec<TerminationSignal> },
    /// Wait until the child has ended.
    Wait,
    /// Delete the temporary directory that was created, with what is in it.
    Release,
    /// The run is over, with this result.
    Finish(Result<i32, Error>),
}

/// The mathematical value of an [`Action`].
pub enum ActionView {
    IgnoreSignals(Seq<TerminationSignal>),
    ReadWorkingDirectory,
    Provide(StepView),
    Spawn {
        program: Seq<u8>,
        arguments: Seq<Seq<u8>>,
        whence: Seq<u8>,
        restore: Seq<TerminationSignal>,
    },
    Wait,
    Release,
    Finish(Result<i32, ErrorView>),
}

impl View for Action {
    type V = ActionView;

    open spec fn view(&self) -> ActionView {
        match *self {
            Action::IgnoreSignals(signals) => ActionView::IgnoreSignals(signals@),
            Action::ReadWorkingDirectory => ActionView::ReadWorkingDirectory,
            Action::Provide(step) => ActionView::Provide(step@),
            Action::Spawn { program, arguments, whence, restore } => ActionView::Spawn {
                program: program@,
                arguments: strings_of(arguments),
                whence: whence@,
                restore: restore@,
            },
            Action::Wait => ActionView::Wait,
            Action::Release => ActionView::Release,
            Action::Finish(result) => ActionView::Finish(outcome_of(result)),
        }
    }
}

/// Where a run stands: which answer the launcher is waiting for.
#[derive(Debug, PartialEq, Eq)]
pub enum Stage {
    /// The signals are being ignored.
    Masking,
    /// The working directory is being read.
    Locating,
    /// A directory is being created or entered.
    Providing,
    /// The temporary directory is being created.
    MakingTemporary,
    /// The command is being started.
    Spawning,
    /// The command runs.
    Waiting,
    /// The temporary directory is being deleted; the result of the run is
    /// known.
    Releasing(Result<i32, Error>),
    /// The run is over.
    Finished,
}

/// The mathematical value of a [`Stage`].
pub enum StageView {
    Masking,
    Locating,
    Providing,
    MakingTemporary,
    Spawning,
    Waiting,
    Releasing(Result<i32, ErrorView>),
    Finished,
}

impl View for Stage {
    type V = StageView;

    open spec fn view(&self) -> StageView {
        match *self {
            Stage::Masking => StageView::Masking,
            Stage::Locating => StageView::Locating,
            Stage::Providing => StageView::Providing,
            Stage::MakingTemporary => StageView::MakingTemporary,
            Stage::Spawning => StageView::Spawning,
            Stage::Waiting => StageView::Waiting,
            Stage::Releasing(result) => StageView::Releasing(outcome_of(result)),
            Stage::Finished => StageView::Finished,
        }
    }
}

/// The three parts of a run.
#[derive(Clone, Copy, Debug, PartialEq, Eq, Structural)]
pub enum Phase {
    /// Before the command runs.
    Setup,
    /// While the command runs.
    Running,
    /// After the command has ended, or after the run has failed.
    Done,
}

/// The state of a run.
#[derive(Debug, PartialEq, Eq)]
pub struct Launcher {
    /// Where the run stands.
    pub stage: Stage,
    /// The requests to the file system that are still to be made, or why
    /// there is no such plan.
    pub plan: Result<Vec<Step>, Error>,
    /// The program and its arguments, until the command is started.
    pub command: Vec<Vec<u8>>,
    /// The directory that the run started from, once it is known and until
    /// the command is started.
    pub whence: Vec<u8>,
    /// Whether a temporary directory was created and not yet deleted.
    pub holds_temporary: bool,
}

/// The mathematical value of a [`Launcher`].
pub struct LauncherView {
    pub stage: StageView,
    pub plan: Result<Seq<StepView>, ErrorView>,
    pub command: Seq<Seq<u8>>,
    pub whence: Seq<u8>,
    pub holds_temporary: bool,
}

impl View for Launcher {
    type V = LauncherView;

    open spec fn view(&self) -> LauncherView {
        LauncherView {
            stage: self.stage@,
            plan: plan_of(self.plan),
            command: strings_of(self.command),
            whence: self.whence@,
            holds_temporary: self.holds_temporary,
        }
    }
}

/// The signals that a run ignores, and that the command gets back.
pub open spec fn termination_signals_of() -> Seq<TerminationSignal> {
    seq![TerminationSignal::Interrupt, TerminationSignal::Quit, TerminationSignal::Terminate]
}

/// The part of a run that a stage belongs to.
pub open spec fn phase_of(stage: StageView) -> Phase {
    match stage {
        StageView::Waiting => Phase::Running,
        StageView::Releasing(_) => Phase::Done,
        StageView::Finished => Phase::Done,
        _ => Phase::Setup,
    }
}

/// Whether `event` answers the action that a launcher at `stage` asked for.
pub open spec fn accepts(stage: StageView, event: EventView) -> bool {
    match stage {
        StageView::Masking => event is Completed || event is OsFailed,
        StageView::Locating => event is WorkingDirectory || event is IoFailed,
        StageView::Providing => event is Completed || event is IoFailed,
        StageView::MakingTemporary => event is Completed || event is IoFailed,
        StageView::Spawning => event is Completed || event is IoFailed,
        StageView::Waiting => event is Terminated || event is IoFailed,
        StageView::Releasing(_) => event is Completed || event is IoFailed,
        StageView::Finished => false,
    }
}

/// The state in which a run begins: the launcher has asked for the signals
/// to be ignored.
pub open spec fn initial(
    plan: Result<Seq<StepView>, ErrorView>,
    command: Seq<Seq<u8>>,
) -> LauncherView {
    LauncherView {
        stage: StageView::Masking,
        plan,
        command,
        whence: Seq::empty(),
        holds_temporary: false,
    }
}

/// How a run ends with `result`: a temporary directory that was created is
/// released first, and the result is given out after that.
pub open spec fn settle_of(state: LauncherView, result: Result<i32, ErrorView>) -> (
    LauncherView,
    ActionView,
) {
    if state.holds_temporary {
        (LauncherView { stage: StageView::Releasing(result), ..state }, ActionView::Release)
    } else {
        (LauncherView { stage: StageView::Finished, ..state }, ActionView::Finish(result))
    }
}

/// How a run goes on once the last request has been met: with the next
/// request of the plan; after the last one with the start of the command,
/// and without a command with the failure to have one. A plan that could
/// not be made ends the run with its failure.
pub open spec fn advance_of(state: LauncherView) -> (LauncherView, ActionView) {
    match state.plan {
        Err(error) => settle_of(LauncherView { plan: Ok(Seq::empty()), ..state }, Err(error)),
        Ok(steps) => if steps.len() > 0 {
            (
                LauncherView {
                    stage: if steps[0] is CreateTemporary {
                        StageView::MakingTemporary
                    } else {
                        StageView::Providing
                    },
                    plan: Ok(steps.drop_first()),
                    ..state
                },
                ActionView::Provide(steps[0]),
            )
        } else if state.command.len() > 0 {
            (
                LauncherView {
                    stage: StageView::Spawning,
                    command: Seq::empty(),
                    whence: Seq::empty(),
                    ..state
                },
                ActionView::Spawn {
                    program: state.command[0],
                    arguments: state.command.drop_first(),
                    whence: state.whence,
                    restore: termination_signals_of(),
                },
            )
        } else {
            settle_of(state, Err(ErrorView::NoCommand))
        },
    }
}

/// The state that follows `state` on `event`, and the action that the
/// launcher asks for then, for an event that the stage of `state` accepts.
///
/// A failure ends the run, whatever it was that failed. The deletion of the
/// temporary directory is the exception: the run has a result by then, and
/// keeps it. A run that is over accepts no event; it stays as it is.
pub open spec fn next(state: LauncherView, event: EventView) -> (LauncherView, ActionView) {
    match state.stage {
        StageView::Releasing(result) => (
            LauncherView { stage: StageView::Finished, holds_temporary: false, ..state },
            ActionView::Finish(result),
        ),
        StageView::Finished => (state, ActionView::Wait),
        _ => match event {
            EventView::IoFailed(kind) => settle_of(state, Err(ErrorView::Io(kind))),
            EventView::OsFailed(kind) => settle_of(state, Err(ErrorView::Os(kind))),
            EventView::WorkingDirectory(path) => advance_of(
                LauncherView { whence: path, ..state },
            ),
            EventView::Terminated { code, signal } => settle_of(
                state,
                termination_of(code, signal),
            ),
            EventView::Completed => match state.stage {
                StageView::Masking => (
                    LauncherView { stage: StageView::Locating, ..state },
                    ActionView::ReadWorkingDirectory,
                ),
                StageView::MakingTemporary => advance_of(
                    LauncherView { holds_temporary: true, ..state },
                ),
                StageView::Spawning => (
                    LauncherView { stage: StageView::Waiting, ..state },
                    ActionView::Wait,
                ),
                _ => advance_of(state),
            },
        },
    }
}

/// The plan of a run, given what the platform makes of its target
/// directory: into a new temporary directory that the target describes, or
/// into the target itself.
pub open spec fn plan_for_of(
    invocation: InvocationView,
    taken: bool,
    name: Option<Seq<u8>>,
    parent: Option<Seq<u8>>,
) -> Result<Seq<StepView>, ErrorView> {
    if invocation.temporary {
        temporary_plan_of(invocation.directory, taken, name, parent, invocation.create)
    } else {
        Ok(directory_steps(invocation.directory, invocation.create))
    }
}

/// The signals that a run ignores, and that the command gets back.
pub fn termination_signals() -> (signals: Vec<TerminationSignal>)
    ensures
        signals@ == termination_signals_of(),
{
    let mut signals: Vec<TerminationSignal> = Vec::new();
    signals.push(TerminationSignal::Interrupt);
    signals.push(TerminationSignal::Quit);
    signals.push(TerminationSignal::Terminate);
    assert(signals@ =~= termination_signals_of());
    signals
}

/// Plans the directories of a run. A target that is UTF-8 is taken as a
/// path on every platform.
pub fn plan_for(invocation: &Invocation) -> (plan: Result<Vec<Step>, Error>)
    ensures
        plan_of(plan) == plan_for_of(
            invocation@,
            path_is_taken(invocation.directory@),
            path_file_name(invocation.directory@),
            path_parent(invocation.directory@),
        ),
        invocation.temporary && valid_utf8(invocation.directory@) ==> path_is_taken(
            invocation.directory@,
        ),
{
    if invocation.temporary {
        ensure_temporary_directory(invocation.directory.as_slice(), invocation.create)
    } else {
        Ok(ensure_directory(invocation.directory.as_slice(), invocation.create))
    }
}

impl Stage {
    /// The part of the run that this stage belongs to.
    pub fn phase(&self) -> (phase: Phase)
        ensures
            phase == phase_of(self@),
    {
        match self {
            Stage::Waiting => Phase::Running,
            Stage::Releasing(_) => Phase::Done,
            Stage::Finished => Phase::Done,
            _ => Phase::Setup,
        }
    }
}

impl Launcher {
    /// Begins a run with a plan that was made before: the first action
    /// asks for the termination signals to be ignored.
    pub fn begin(plan: Result<Vec<Step>, Error>, command: Vec<Vec<u8>>) -> (started: (
        Launcher,
        Action,
    ))
        ensures
            started.0@ == initial(plan_of(plan), strings_of(command)),
            started.1@ == ActionView::IgnoreSignals(termination_signals_of()),
    {
        let launcher = Launcher {
            stage: Stage::Masking,
            plan,
            command,
            whence: Vec::new(),
            holds_temporary: false,
        };
        (launcher, Action::IgnoreSignals(termination_signals()))
    }

    /// Whether `event` answers the action that this launcher asked for.
    pub fn accepts(&self, event: &Event) -> (accepted: bool)
        ensures
            accepted == accepts(self@.stage, event@),
    {
        match self.stage {
            Stage::Masking => matches!(event, Event::Completed | Event::OsFailed(_)),
            Stage::Locating => matches!(event, Event::WorkingDirectory(_) | Event::IoFailed(_)),
            Stage::Waiting => matches!(event, Event::Terminated { .. } | Event::IoFailed(_)),
            Stage::Finished => false,
            _ => matches!(event, Event::Completed | Event::IoFailed(_)),
        }
    }

    /// Ends the run with `result`.
    fn settle(self, result: Result<i32, Error>) -> (settled: (Launcher, Action))
        ensures
            (settled.0@, settled.1@) == settle_of(self@, outcome_of(result)),
    {
        let mut launcher = self;
        if launcher.holds_temporary {
            launcher.stage = Stage::Releasing(result);
            (launcher, Action::Release)
        } else {
            launcher.stage = Stage::Finished;
            (launcher, Action::Finish(result))
        }
    }

    /// Goes on once the last request has been met.
    fn advance(self) -> (advanced: (Launcher, Action))
        ensures
            (advanced.0@, advanced.1@) == advance_of(self@),
    {
        let Launcher { stage, plan, command, whence, holds_temporary } = self;
        match plan {
            Err(error) => {
                let steps: Vec<Step> = Vec::new();
                assert(steps_of(steps) =~= Seq::empty());
                let emptied = Launcher { stage, plan: Ok(steps), command, whence, holds_temporary };
                emptied.settle(Err(error))
            },
            Ok(mut steps) => {
                if steps.len() > 0 {
                    let ghost planned = steps_of(steps);
                    let step = steps.remove(0);
                    assert(steps_of(steps) =~= planned.drop_first());
                    assert(step@ == planned[0]);
                    let stage = match step {
                        Step::CreateTemporary { .. } => Stage::MakingTemporary,
                        _ => Stage::Providing,
                    };
                    (
                        Launcher { stage, plan: Ok(steps), command, whence, holds_temporary },
                        Action::Provide(step),
                    )
                } else if command.len() > 0 {
                    let mut arguments = command;
                    let ghost strings = strings_of(arguments);
                    let program = arguments.remove(0);
                    assert(strings_of(arguments) =~= strings.drop_first());
                    assert(program@ == strings[0]);
                    let started: Vec<Vec<u8>> = Vec::new();
                    assert(strings_of(started) =~= Seq::empty());
                    (
                        Launcher {
                            stage: Stage::Spawning,
                            plan: Ok(steps),
                            command: started,
                            whence: Vec::new(),
                            holds_temporary,
                        },
                        Action::Spawn { program, arguments, whence, restore: termination_signals() },
                    )
                } else {
                    assert(steps_of(steps).len() == 0);
                    assert(strings_of(command).len() == 0);
                    let provided = Launcher {
                        stage,
                        plan: Ok(steps),
                        command,
                        whence,
                        holds_temporary,
                    };
                    provided.settle(Err(Error::NoCommand))
                }
            },
        }
    }

    /// Takes what the caller reports of the last action, and says what is
    /// to be done next.
    pub fn step(self, event: Event) -> (stepped: (Launcher, Action))
        requires
            accepts(self@.stage, event@),
        ensures
            (stepped.0@, stepped.1@) == next(self@, event@),
    {
        let Launcher { stage, plan, command, whence, holds_temporary } = self;
        match stage {
            Stage::Releasing(result) => (
                Launcher { stage: Stage::Finished, plan, command, whence, holds_temporary: false },
                Action::Finish(result),
            ),
            stage => {
                let mut launcher = Launcher { stage, plan, command, whence, holds_temporary };
                match event {
                    Event::IoFailed(kind) => launcher.settle(Err(Error::Io(kind))),
                    Event::OsFailed(kind) => launcher.settle(Err(Error::Os(kind))),
                    Event::Terminated { code, signal } => launcher.settle(
                        termination(code, signal),
                    ),
                    Event::WorkingDirectory(path) => {
                        launcher.whence = path;
                        launcher.advance()
                    },
                    Event::Completed => match launcher.stage {
                        Stage::Masking => {
                            launcher.stage = Stage::Locating;
                            (launcher, Action::ReadWorkingDirectory)
                        },
                        Stage::MakingTemporary => {
                            launcher.holds_temporary = true;
                            launcher.advance()
                        },
                        Stage::Spawning => {
                            launcher.stage = Stage::Waiting;
                            (launcher, Action::Wait)
                        },
                        _ => launcher.advance(),
                    },
                }
            },
        }
    }
}

/// Begins the run of `invocation`: the directories are planned, and the
/// first action asks for the termination signals to be ignored.
///
/// The plan is the one of [`plan_for`]. Where there is none, the run holds
/// the failure in place of a plan, and ends with it once the signals are
/// ignored and the working directory is read.
pub fn run(invocation: Invocation) -> (started: (Launcher, Action))
    ensures
        started.1@ == ActionView::IgnoreSignals(termination_signals_of()),
        started.0@ == initial(
            plan_for_of(
                invocation@,
                path_is_taken(invocation.directory@),
                path_file_name(invocation.directory@),
                path_parent(invocation.directory@),
            ),
            invocation@.command,
        ),
        invocation.temporary && valid_utf8(invocation.directory@) ==> path_is_taken(
            invocation.directory@,
        ),
{
    let plan = plan_for(&invocation);
    Launcher::begin(plan, invocation.command)
}

} // verus!
