//! What holds of every run, proved from the definition of the launcher.
//!
//! The first part states what a single step can and cannot do, in any
//! state. The second part follows whole runs: what is asked for, in which
//! order, when every request is met, and where a run that fails comes to
//! its end.

use crate::error::conclusion_of;
use crate::error::io_exit_code;
use crate::error::termination_of;
use crate::error::ErrorView;
use crate::error::IoErrorKind;
use crate::launcher::accepts;
use crate::launcher::initial;
use crate::launcher::next;
use crate::launcher::phase_of;
use crate::launcher::termination_signals_of;
use crate::launcher::ActionView;
use crate::launcher::EventView;
use crate::launcher::LauncherView;
use crate::launcher::Phase;
use crate::launcher::StageView;
use crate::provision::directory_steps;
use crate::provision::naming_of;
use crate::provision::temporary_steps;
use crate::provision::StepView;
use crate::template::TemplateView;
use vstd::prelude::*;

verus! {

/// How far a run has come: a number that grows with every stage.
pub open spec fn rank_of(stage: StageView) -> nat {
    match stage {
        StageView::Masking => 0,
        StageView::Locating => 1,
        StageView::Providing => 2,
        StageView::MakingTemporary => 2,
        StageView::Spawning => 3,
        StageView::Waiting => 4,
        StageView::Releasing(_) => 5,
        StageView::Finished => 6,
    }
}

/// The number of requests of the plan that are still to be made.
pub open spec fn pending_of(state: LauncherView) -> nat {
    match state.plan {
        Ok(steps) => steps.len(),
        Err(_) => 0,
    }
}

/// An upper bound of the number of steps that a run can still take.
pub open spec fn steps_left(state: LauncherView) -> nat {
    (6 - rank_of(state.stage)) as nat + pending_of(state)
}

/// Nothing touches the file system, and no command is started, before the
/// termination signals are ignored: the answer to that request leads to the
/// reading of the working directory or to the end of the run, and to
/// nothing else.
pub proof fn lemma_signals_are_ignored_first(state: LauncherView, event: EventView)
    requires
        state.stage is Masking,
        accepts(state.stage, event),
    ensures
        event is Completed ==> next(state, event).1 is ReadWorkingDirectory && next(
            state,
            event,
        ).0.stage is Locating,
        !(event is Completed) ==> next(state, event).1 is Finish || next(state, event).1 is Release,
        !(next(state, event).1 is Provide),
        !(next(state, event).1 is Spawn),
{
}

/// The working directory is read before any directory is created or
/// entered: a request to the file system is only ever made once the
/// working directory has been reported, and the reading is never asked for
/// again after that.
pub proof fn lemma_origin_is_read_before_any_change(state: LauncherView, event: EventView)
    requires
        accepts(state.stage, event),
    ensures
        next(state, event).1 is Provide ==> state.stage is Locating || state.stage is Providing
            || state.stage is MakingTemporary,
        next(state, event).1 is ReadWorkingDirectory ==> state.stage is Masking,
{
}

/// The directory that the command is told it came from is the working
/// directory that was reported: a command that is started on that report
/// gets the reported directory, the launcher keeps it while directories are
/// provided, and a command that is started later gets what was kept.
pub proof fn lemma_whence_is_the_reported_directory(state: LauncherView, event: EventView)
    requires
        accepts(state.stage, event),
        state.stage is Locating || state.stage is Providing || state.stage is MakingTemporary,
    ensures
        ({
            let reported = match event {
                EventView::WorkingDirectory(path) => path,
                _ => state.whence,
            };
            let (after, action) = next(state, event);
            &&& action matches ActionView::Spawn { whence, .. } ==> whence == reported
            &&& after.stage is Providing || after.stage is MakingTemporary ==> after.whence
                == reported
        }),
{
}

/// The command is started with the program and the arguments of the run,
/// and gets back exactly the signals that the run ignores.
pub proof fn lemma_spawn_hands_on_the_command(state: LauncherView, event: EventView)
    requires
        accepts(state.stage, event),
    ensures
        next(state, event).1 matches ActionView::Spawn { program, arguments, restore, .. } ==> {
            &&& state.command.len() > 0
            &&& program == state.command[0]
            &&& arguments == state.command.drop_first()
            &&& restore == termination_signals_of()
            &&& next(state, event).0.stage is Spawning
        },
{
}

/// A command is started only when every request of the plan has been met.
pub proof fn lemma_spawn_follows_the_plan(state: LauncherView, event: EventView)
    requires
        accepts(state.stage, event),
    ensures
        next(state, event).1 is Spawn ==> state.plan == Ok::<Seq<StepView>, ErrorView>(
            Seq::empty(),
        ) && !(event is IoFailed) && !(event is OsFailed),
{
    if next(state, event).1 is Spawn {
        assert(state.plan->Ok_0 =~= Seq::empty());
    }
}

/// A run never finishes while it holds a temporary directory: the
/// directory is released first, and a run that has finished holds none.
/// A release is asked for only of a directory that is held or was just
/// created, and a directory comes to be held only by its creation.
pub proof fn lemma_temporary_is_released_before_the_end(state: LauncherView, event: EventView)
    requires
        accepts(state.stage, event),
    ensures
        next(state, event).1 is Finish ==> !next(state, event).0.holds_temporary,
        next(state, event).1 is Finish && state.holds_temporary ==> state.stage is Releasing,
        next(state, event).1 is Release ==> next(state, event).0.stage is Releasing && (
        state.holds_temporary || (state.stage is MakingTemporary && event is Completed)),
        next(state, event).0.holds_temporary && !state.holds_temporary ==> state.stage
            is MakingTemporary && event is Completed,
{
}

/// The result of a run is kept while the temporary directory is deleted,
/// whether the deletion succeeds or fails.
pub proof fn lemma_release_keeps_the_result(state: LauncherView, event: EventView)
    requires
        accepts(state.stage, event),
        state.stage is Releasing,
    ensures
        next(state, event).1 == ActionView::Finish(state.stage->Releasing_0),
        next(state, event).0.stage is Finished,
{
}

/// A failure of any request before the end ends the run with that failure:
/// at once where no temporary directory is held, and after its release
/// where one is.
pub proof fn lemma_failure_ends_the_run(state: LauncherView, kind: IoErrorKind)
    requires
        accepts(state.stage, EventView::IoFailed(kind)),
        !(state.stage is Releasing),
    ensures
        ({
            let (after, action) = next(state, EventView::IoFailed(kind));
            let failure = Err::<i32, ErrorView>(ErrorView::Io(kind));
            if state.holds_temporary {
                action is Release && after.stage == StageView::Releasing(failure)
            } else {
                action == ActionView::Finish(failure) && after.stage is Finished
            }
        }),
{
}

/// What the end of the command leads to: its exit code where it has one,
/// else the failure that names the signal, given out at once where no
/// temporary directory is held, and after its release where one is.
pub proof fn lemma_termination_ends_the_run(
    state: LauncherView,
    code: Option<i32>,
    signal: Option<i32>,
)
    requires
        state.stage is Waiting,
    ensures
        ({
            let (after, action) = next(state, EventView::Terminated { code, signal });
            let result = termination_of(code, signal);
            if state.holds_temporary {
                action is Release && after.stage == StageView::Releasing(result)
            } else {
                action == ActionView::Finish(result) && after.stage is Finished
            }
        }),
{
}

/// Every step brings a run nearer to its end: no stage is ever gone back
/// to, and the number of steps that are left goes down.
pub proof fn lemma_every_step_makes_progress(state: LauncherView, event: EventView)
    requires
        accepts(state.stage, event),
    ensures
        rank_of(next(state, event).0.stage) >= rank_of(state.stage),
        steps_left(next(state, event).0) < steps_left(state),
        next(state, event).1 is Finish <==> next(state, event).0.stage is Finished,
{
}

/// The three parts of a run follow one another: a step leaves the setup
/// only for the running command or for the end, and the running command
/// only for the end.
pub proof fn lemma_phases_follow_one_another(state: LauncherView, event: EventView)
    requires
        accepts(state.stage, event),
    ensures
        phase_of(state.stage) == Phase::Running ==> phase_of(next(state, event).0.stage)
            == Phase::Done,
        phase_of(state.stage) == Phase::Done ==> phase_of(next(state, event).0.stage)
            == Phase::Done,
        phase_of(next(state, event).0.stage) == Phase::Running ==> state.stage is Spawning
            && event is Completed,
{
}

/// A run in a directory that exists. When every request is met, the run
/// asks, in this order, for the signals to be ignored, for the working
/// directory, for the change into the target, and for the command to be
/// started there with the directory that was reported; it waits, and its
/// result is the exit code of the command, unchanged.
pub proof fn lemma_run_in_directory(
    directory: Seq<u8>,
    command: Seq<Seq<u8>>,
    whence: Seq<u8>,
    code: i32,
    signal: Option<i32>,
)
    requires
        command.len() > 0,
    ensures
        ({
            let s0 = initial(Ok(directory_steps(directory, false)), command);
            let (s1, a1) = next(s0, EventView::Completed);
            let (s2, a2) = next(s1, EventView::WorkingDirectory(whence));
            let (s3, a3) = next(s2, EventView::Completed);
            let (s4, a4) = next(s3, EventView::Completed);
            let (s5, a5) = next(s4, EventView::Terminated { code: Some(code), signal });
            &&& a1 == ActionView::ReadWorkingDirectory
            &&& a2 == ActionView::Provide(StepView::ChangeDirectory(directory))
            &&& a3 == ActionView::Spawn {
                program: command[0],
                arguments: command.drop_first(),
                whence,
                restore: termination_signals_of(),
            }
            &&& a4 == ActionView::Wait
            &&& a5 == ActionView::Finish(Ok(code))
            &&& s5.stage is Finished
            &&& conclusion_of(Ok(code)) == code
        }),
{
}

/// A run in a directory that is missing, and that is not to be created.
/// The change into the target is the first request to the file system, and
/// its failure ends the run: nothing is created, no command is started, and
/// the exit code is not 0.
pub proof fn lemma_missing_directory_ends_the_run(
    directory: Seq<u8>,
    command: Seq<Seq<u8>>,
    whence: Seq<u8>,
    kind: IoErrorKind,
)
    ensures
        ({
            let s0 = initial(Ok(directory_steps(directory, false)), command);
            let (s1, a1) = next(s0, EventView::Completed);
            let (s2, a2) = next(s1, EventView::WorkingDirectory(whence));
            let (s3, a3) = next(s2, EventView::IoFailed(kind));
            let failure = Err::<i32, ErrorView>(ErrorView::Io(kind));
            &&& a1 == ActionView::ReadWorkingDirectory
            &&& a2 == ActionView::Provide(StepView::ChangeDirectory(directory))
            &&& a3 == ActionView::Finish(failure)
            &&& s3.stage is Finished
            &&& conclusion_of(failure) == io_exit_code(kind)
            &&& conclusion_of(failure) != 0
        }),
{
}

/// A run in a directory that is to be created. The directory is created,
/// with its missing ancestors, before it is entered, and the command is
/// started after both; its exit code is the result.
pub proof fn lemma_run_in_created_directory(
    directory: Seq<u8>,
    command: Seq<Seq<u8>>,
    whence: Seq<u8>,
    code: i32,
    signal: Option<i32>,
)
    requires
        command.len() > 0,
    ensures
        ({
            let s0 = initial(Ok(directory_steps(directory, true)), command);
            let (s1, a1) = next(s0, EventView::Completed);
            let (s2, a2) = next(s1, EventView::WorkingDirectory(whence));
            let (s3, a3) = next(s2, EventView::Completed);
            let (s4, a4) = next(s3, EventView::Completed);
            let (s5, a5) = next(s4, EventView::Completed);
            let (s6, a6) = next(s5, EventView::Terminated { code: Some(code), signal });
            &&& a1 == ActionView::ReadWorkingDirectory
            &&& a2 == ActionView::Provide(StepView::CreateDirectories(directory))
            &&& a3 == ActionView::Provide(StepView::ChangeDirectory(directory))
            &&& a4 == ActionView::Spawn {
                program: command[0],
                arguments: command.drop_first(),
                whence,
                restore: termination_signals_of(),
            }
            &&& a5 == ActionView::Wait
            &&& a6 == ActionView::Finish(Ok(code))
            &&& s6.stage is Finished
        }),
{
}

/// A run in a temporary directory whose parent exists. The directory is
/// created in the parent of the template and named as the template says,
/// it is entered, and the command is started in it. When the command has
/// ended, the directory is released before the result is given out, and
/// the result is that of the command whether the release succeeds or not.
pub proof fn lemma_run_in_temporary_directory(
    template: TemplateView,
    command: Seq<Seq<u8>>,
    whence: Seq<u8>,
    code: Option<i32>,
    signal: Option<i32>,
    released: bool,
)
    requires
        command.len() > 0,
    ensures
        ({
            let s0 = initial(Ok(temporary_steps(template, false)), command);
            let (s1, a1) = next(s0, EventView::Completed);
            let (s2, a2) = next(s1, EventView::WorkingDirectory(whence));
            let (s3, a3) = next(s2, EventView::Completed);
            let (s4, a4) = next(s3, EventView::Completed);
            let (s5, a5) = next(s4, EventView::Completed);
            let (s6, a6) = next(s5, EventView::Terminated { code, signal });
            let (s7, a7) = next(
                s6,
                if released {
                    EventView::Completed
                } else {
                    EventView::IoFailed(IoErrorKind::Other)
                },
            );
            &&& a1 == ActionView::ReadWorkingDirectory
            &&& a2 == ActionView::Provide(
                StepView::CreateTemporary { parent: template.parent, naming: naming_of(template) },
            )
            &&& a3 == ActionView::Provide(StepView::EnterTemporary)
            &&& a4 == ActionView::Spawn {
                program: command[0],
                arguments: command.drop_first(),
                whence,
                restore: termination_signals_of(),
            }
            &&& a5 == ActionView::Wait
            &&& a6 == ActionView::Release
            &&& a7 == ActionView::Finish(termination_of(code, signal))
            &&& s7.stage is Finished
            &&& !s7.holds_temporary
        }),
{
}

/// A run in a temporary directory whose parent is to be created. The
/// parent is created, with its missing ancestors, before the temporary
/// directory is created in it, and is not released afterwards.
pub proof fn lemma_parent_is_created_first(
    template: TemplateView,
    command: Seq<Seq<u8>>,
    whence: Seq<u8>,
)
    requires
        template.parent is Some,
    ensures
        ({
            let s0 = initial(Ok(temporary_steps(template, true)), command);
            let (s1, a1) = next(s0, EventView::Completed);
            let (s2, a2) = next(s1, EventView::WorkingDirectory(whence));
            let (s3, a3) = next(s2, EventView::Completed);
            let (s4, a4) = next(s3, EventView::Completed);
            &&& a2 == ActionView::Provide(StepView::CreateDirectories(template.parent->Some_0))
            &&& !s3.holds_temporary
            &&& a3 == ActionView::Provide(
                StepView::CreateTemporary { parent: template.parent, naming: naming_of(template) },
            )
            &&& a4 == ActionView::Provide(StepView::EnterTemporary)
            &&& s4.holds_temporary
        }),
{
}

/// A run in a temporary directory whose parent is missing, and is not to
/// be created. No plan without the creation asks for a directory other than
/// the temporary one; the creation of that one is the first request to the
/// file system, and its failure ends the run: nothing was created, nothing
/// is released, no command is started, and the exit code is not 0.
pub proof fn lemma_missing_parent_ends_the_run(
    template: TemplateView,
    command: Seq<Seq<u8>>,
    whence: Seq<u8>,
    kind: IoErrorKind,
)
    ensures
        forall|i: int|
            0 <= i < temporary_steps(template, false).len() ==> !(#[trigger] temporary_steps(
                template,
                false,
            )[i] is CreateDirectories),
        ({
            let s0 = initial(Ok(temporary_steps(template, false)), command);
            let (s1, a1) = next(s0, EventView::Completed);
            let (s2, a2) = next(s1, EventView::WorkingDirectory(whence));
            let (s3, a3) = next(s2, EventView::IoFailed(kind));
            let failure = Err::<i32, ErrorView>(ErrorView::Io(kind));
            &&& a1 == ActionView::ReadWorkingDirectory
            &&& a2 == ActionView::Provide(
                StepView::CreateTemporary { parent: template.parent, naming: naming_of(template) },
            )
            &&& a3 == ActionView::Finish(failure)
            &&& s3.stage is Finished
            &&& conclusion_of(failure) != 0
        }),
{
}

/// A temporary directory that cannot be entered is released before the run
/// ends with that failure.
pub proof fn lemma_unentered_temporary_is_released(
    template: TemplateView,
    command: Seq<Seq<u8>>,
    whence: Seq<u8>,
    kind: IoErrorKind,
)
    ensures
        ({
            let s0 = initial(Ok(temporary_steps(template, false)), command);
            let (s1, a1) = next(s0, EventView::Completed);
            let (s2, a2) = next(s1, EventView::WorkingDirectory(whence));
            let (s3, a3) = next(s2, EventView::Completed);
            let (s4, a4) = next(s3, EventView::IoFailed(kind));
            let (s5, a5) = next(s4, EventView::Completed);
            &&& a3 == ActionView::Provide(StepView::EnterTemporary)
            &&& a4 == ActionView::Release
            &&& a5 == ActionView::Finish(Err(ErrorView::Io(kind)))
        }),
{
}

/// A run without a command fails for the want of one only after its
/// directories are provided, and releases a temporary directory that it
/// made.
pub proof fn lemma_run_without_command(directory: Seq<u8>, create: bool, whence: Seq<u8>)
    ensures
        ({
            let s0 = initial(Ok(directory_steps(directory, create)), Seq::empty());
            let (s1, a1) = next(s0, EventView::Completed);
            let (s2, a2) = next(s1, EventView::WorkingDirectory(whence));
            let (s3, a3) = next(s2, EventView::Completed);
            let (s4, a4) = next(s3, EventView::Completed);
            let failure = ActionView::Finish(Err(ErrorView::NoCommand));
            &&& a2 is Provide
            &&& if create {
                a3 is Provide && a4 == failure
            } else {
                a3 == failure
            }
        }),
{
}

/// A target that cannot be read as a template ends the run with that
/// failure once the signals are ignored and the working directory is read,
/// before anything is asked of the file system.
pub proof fn lemma_unreadable_template_ends_the_run(
    error: ErrorView,
    command: Seq<Seq<u8>>,
    whence: Seq<u8>,
)
    ensures
        ({
            let s0 = initial(Err(error), command);
            let (s1, a1) = next(s0, EventView::Completed);
            let (s2, a2) = next(s1, EventView::WorkingDirectory(whence));
            &&& a1 == ActionView::ReadWorkingDirectory
            &&& a2 == ActionView::Finish(Err(error))
            &&& s2.stage is Finished
        }),
{
}

/// Whether these events can come in this order, from `state` on: each one
/// answers the action that was asked for before it.
pub open spec fn admissible(state: LauncherView, events: Seq<EventView>) -> bool
    decreases events.len(),
{
    events.len() > 0 ==> accepts(state.stage, events[0]) && admissible(
        next(state, events[0]).0,
        events.drop_first(),
    )
}

/// The action that is asked for in answer to the event at place `i`, when
/// the events come in from `state` on.
pub open spec fn action_at(state: LauncherView, events: Seq<EventView>, i: int) -> ActionView
    recommends
        0 <= i < events.len(),
    decreases i,
{
    if i <= 0 {
        next(state, events[0]).1
    } else {
        action_at(next(state, events[0]).0, events.drop_first(), i - 1)
    }
}

/// Every run ends: no more events can come than the stage and the plan
/// leave room for.
pub proof fn lemma_every_run_ends(state: LauncherView, events: Seq<EventView>)
    requires
        admissible(state, events),
    ensures
        events.len() <= steps_left(state),
    decreases events.len(),
{
    if events.len() > 0 {
        lemma_every_step_makes_progress(state, events[0]);
        lemma_every_run_ends(next(state, events[0]).0, events.drop_first());
    }
}

/// No event can come after the result of a run has been given out.
proof fn lemma_nothing_follows_the_end(state: LauncherView, events: Seq<EventView>)
    requires
        admissible(state, events),
        state.stage is Finished,
    ensures
        events.len() == 0,
{
}

/// Nothing is asked for after the result of a run has been given out.
pub proof fn lemma_finish_is_the_last_action(
    state: LauncherView,
    events: Seq<EventView>,
    i: int,
)
    requires
        admissible(state, events),
        0 <= i < events.len(),
        action_at(state, events, i) is Finish,
    ensures
        i == events.len() - 1,
    decreases i,
{
    let after = next(state, events[0]).0;
    let rest = events.drop_first();
    if i == 0 {
        lemma_every_step_makes_progress(state, events[0]);
        lemma_nothing_follows_the_end(after, rest);
    } else {
        lemma_finish_is_the_last_action(after, rest, i - 1);
    }
}

/// Once a command has been asked for, none is asked for again.
proof fn lemma_no_spawn_after_spawning(state: LauncherView, events: Seq<EventView>, i: int)
    requires
        admissible(state, events),
        rank_of(state.stage) >= 3,
        0 <= i < events.len(),
    ensures
        !(action_at(state, events, i) is Spawn),
    decreases i,
{
    lemma_every_step_makes_progress(state, events[0]);
    if i > 0 {
        lemma_no_spawn_after_spawning(next(state, events[0]).0, events.drop_first(), i - 1);
    }
}

/// The command of a run is started at most once.
pub proof fn lemma_command_is_started_once(
    state: LauncherView,
    events: Seq<EventView>,
    i: int,
    j: int,
)
    requires
        admissible(state, events),
        0 <= i < j < events.len(),
        action_at(state, events, i) is Spawn,
    ensures
        !(action_at(state, events, j) is Spawn),
    decreases i,
{
    let after = next(state, events[0]).0;
    let rest = events.drop_first();
    if i == 0 {
        lemma_spawn_hands_on_the_command(state, events[0]);
        lemma_no_spawn_after_spawning(after, rest, j - 1);
    } else {
        lemma_command_is_started_once(after, rest, i - 1, j - 1);
    }
}

/// While directories are provided, a command that is started gets the
/// directory that the launcher has kept.
proof fn lemma_spawn_gets_what_was_kept(
    state: LauncherView,
    events: Seq<EventView>,
    kept: Seq<u8>,
    i: int,
)
    requires
        admissible(state, events),
        rank_of(state.stage) >= 2,
        state.stage is Providing || state.stage is MakingTemporary ==> state.whence == kept,
        0 <= i < events.len(),
        action_at(state, events, i) is Spawn,
    ensures
        action_at(state, events, i)->whence == kept,
    decreases i,
{
    lemma_every_step_makes_progress(state, events[0]);
    if i > 0 {
        lemma_spawn_gets_what_was_kept(next(state, events[0]).0, events.drop_first(), kept, i - 1);
    }
}

/// In every run, whatever is asked for after the first answer is asked for
/// with the termination signals ignored: a run whose first request fails
/// asks for nothing but its end.
pub proof fn lemma_signals_of_a_run(
    plan: Result<Seq<StepView>, ErrorView>,
    command: Seq<Seq<u8>>,
    events: Seq<EventView>,
    i: int,
)
    requires
        admissible(initial(plan, command), events),
        0 <= i < events.len(),
        !(action_at(initial(plan, command), events, i) is Finish),
    ensures
        events[0] is Completed,
        i >= 1 ==> action_at(initial(plan, command), events, 0) is ReadWorkingDirectory,
{
    let s0 = initial(plan, command);
    if !(events[0] is Completed) {
        lemma_every_step_makes_progress(s0, events[0]);
        lemma_nothing_follows_the_end(next(s0, events[0]).0, events.drop_first());
    }
}

/// In every run, the directory that the command is told it came from is
/// the working directory that was reported in answer to the second action,
/// before any directory was created or entered.
pub proof fn lemma_whence_of_a_run(
    plan: Result<Seq<StepView>, ErrorView>,
    command: Seq<Seq<u8>>,
    events: Seq<EventView>,
    i: int,
)
    requires
        admissible(initial(plan, command), events),
        0 <= i < events.len(),
        action_at(initial(plan, command), events, i) is Spawn,
    ensures
        i >= 1,
        events[1] == EventView::WorkingDirectory(
            action_at(initial(plan, command), events, i)->whence,
        ),
{
    reveal_with_fuel(admissible, 3);
    reveal_with_fuel(action_at, 3);
    let s0 = initial(plan, command);
    let s1 = next(s0, events[0]).0;
    let rest = events.drop_first();
    lemma_signals_of_a_run(plan, command, events, i);
    assert(s1.stage is Locating);
    assert(i >= 1);
    assert(rest[0] == events[1]);
    let s2 = next(s1, rest[0]).0;
    if i > 1 {
        lemma_every_step_makes_progress(s1, rest[0]);
        match rest[0] {
            EventView::WorkingDirectory(reported) => {
                lemma_spawn_gets_what_was_kept(s2, rest.drop_first(), reported, i - 2);
            },
            _ => {
                lemma_nothing_follows_the_end(s2, rest.drop_first());
            },
        }
    }
}

/// From a state that holds a temporary directory, the result of the run is
/// given out only right after the release of the directory was asked for.
proof fn lemma_held_temporary_is_released(state: LauncherView, events: Seq<EventView>, i: int)
    requires
        admissible(state, events),
        state.holds_temporary,
        !(state.stage is Releasing),
        0 <= i < events.len(),
        action_at(state, events, i) is Finish,
    ensures
        i >= 1,
        action_at(state, events, i - 1) is Release,
    decreases i,
{
    reveal_with_fuel(admissible, 2);
    reveal_with_fuel(action_at, 2);
    let (after, action) = next(state, events[0]);
    let rest = events.drop_first();
    lemma_temporary_is_released_before_the_end(state, events[0]);
    assert(i >= 1);
    if action is Release {
        lemma_release_keeps_the_result(after, rest[0]);
        lemma_finish_is_the_last_action(after, rest, 0);
        lemma_finish_is_the_last_action(state, events, i);
    } else {
        lemma_held_temporary_is_released(after, rest, i - 1);
    }
}

/// In every run, a temporary directory that was created is released before
/// the result is given out, however the run ends: where the creation that
/// was asked for at place `made` has been reported as done, the action
/// before any end of the run is the release.
pub proof fn lemma_created_temporary_is_released(
    state: LauncherView,
    events: Seq<EventView>,
    made: int,
    end: int,
)
    requires
        admissible(state, events),
        0 <= made,
        made + 1 < end < events.len(),
        action_at(state, events, made) matches ActionView::Provide(step) && step
            is CreateTemporary,
        events[made + 1] is Completed,
        action_at(state, events, end) is Finish,
    ensures
        action_at(state, events, end - 1) is Release,
    decreases made,
{
    reveal_with_fuel(admissible, 3);
    reveal_with_fuel(action_at, 3);
    let (after, action) = next(state, events[0]);
    let rest = events.drop_first();
    if made == 0 {
        assert(after.stage is MakingTemporary);
        assert(rest[0] == events[1]);
        let (held, second) = next(after, rest[0]);
        let later = rest.drop_first();
        if second is Release {
            lemma_release_keeps_the_result(held, later[0]);
            lemma_finish_is_the_last_action(held, later, 0);
            lemma_finish_is_the_last_action(state, events, end);
        } else {
            assert(held.holds_temporary);
            lemma_held_temporary_is_released(held, later, end - 2);
        }
    } else {
        assert(rest[made] == events[made + 1]);
        lemma_created_temporary_is_released(after, rest, made - 1, end - 1);
    }
}

} // verus!
