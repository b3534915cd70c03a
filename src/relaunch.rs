//! The relaunch protocol as a state machine: probe, build where needed,
//! spawn the bundled copy, wait for it, and leave with its exit code.
//! The caller performs each action and reports what came of it.

use vstd::prelude::*;

verus! {

/// The exit code used when the child ended without one, e.g. killed by a
/// signal: the highest exit code POSIX leaves to programs.
pub const SIGNAL_EXIT_CODE: i32 = 125;

/// The exit code of a process whose bundle could not be made.
pub const BUILD_FAILURE_EXIT_CODE: i32 = 1;

/// The exit code the parent leaves with, given the child's.
pub open spec fn exit_code_for(child_code: Option<i32>) -> i32 {
    match child_code {
        Some(c) => c,
        None => SIGNAL_EXIT_CODE,
    }
}

/// The exit code the parent leaves with, given the child's.
pub fn child_exit_code(child_code: Option<i32>) -> (r: i32)
    ensures
        r == exit_code_for(child_code),
{
    match child_code {
        Some(c) => c,
        None => SIGNAL_EXIT_CODE,
    }
}

/// Where a relaunch stands.
#[derive(Clone, Copy, Debug, PartialEq, Eq, Structural)]
pub enum Phase {
    /// Nothing is known yet.
    Unchecked,
    /// The process already runs from a bundle; nothing is left to do.
    AlreadyBundled,
    /// The process runs bare, and the bundle is to be built.
    NeedsBuild,
    /// The bundle stands on disk, and its executable is to be spawned.
    Built,
    /// The bundled copy runs, and is waited for.
    Relaunching,
    /// The bundled copy ended; the process leaves.
    Exited,
    /// A step failed and its error went back to the caller.
    Failed,
}

/// What the caller found when it performed the last action.
#[derive(Clone, Copy, Debug, PartialEq, Eq, Structural)]
pub enum Event {
    /// The bundle probe answered.
    Probed(bool),
    /// The bundle build ended, successfully or not.
    BuildFinished(bool),
    /// Spawning the bundled executable succeeded or not.
    SpawnFinished(bool),
    /// The child ended, with its exit code where it had one.
    ChildExited(Option<i32>),
    /// Waiting for the child failed.
    WaitFailed,
}

/// What the caller is to do next.
#[derive(Clone, Copy, Debug, PartialEq, Eq, Structural)]
pub enum Action {
    /// Hand the caller the application running from its bundle.
    ReturnApplication,
    /// Build the bundle.
    BuildBundle,
    /// Spawn the bundle's executable, with the standard streams inherited.
    SpawnChild,
    /// Wait for the child to end.
    WaitForChild,
    /// End this process with the exit code.
    ExitProcess(i32),
    /// Return the error of the last step to the caller.
    ReportError,
    /// The event has no bearing on this phase.
    Nothing,
}

/// The next phase and action after `event` in `phase`.
pub open spec fn transition(phase: Phase, event: Event) -> (Phase, Action) {
    match (phase, event) {
        (Phase::Unchecked, Event::Probed(true)) => (Phase::AlreadyBundled, Action::ReturnApplication),
        (Phase::Unchecked, Event::Probed(false)) => (Phase::NeedsBuild, Action::BuildBundle),
        (Phase::NeedsBuild, Event::BuildFinished(true)) => (Phase::Built, Action::SpawnChild),
        (Phase::NeedsBuild, Event::BuildFinished(false)) => (Phase::Failed, Action::ReportError),
        (Phase::Built, Event::SpawnFinished(true)) => (Phase::Relaunching, Action::WaitForChild),
        (Phase::Built, Event::SpawnFinished(false)) => (Phase::Failed, Action::ReportError),
        (Phase::Relaunching, Event::ChildExited(code)) => (
            Phase::Exited,
            Action::ExitProcess(exit_code_for(code)),
        ),
        (Phase::Relaunching, Event::WaitFailed) => (Phase::Failed, Action::ReportError),
        _ => (phase, Action::Nothing),
    }
}

/// The next phase and action after `event` in `phase`.
pub fn next_step(phase: Phase, event: Event) -> (r: (Phase, Action))
    ensures
        r == transition(phase, event),
{
    match (phase, event) {
        (Phase::Unchecked, Event::Probed(bundled)) => {
            if bundled {
                (Phase::AlreadyBundled, Action::ReturnApplication)
            } else {
                (Phase::NeedsBuild, Action::BuildBundle)
            }
        },
        (Phase::NeedsBuild, Event::BuildFinished(ok)) => {
            if ok {
                (Phase::Built, Action::SpawnChild)
            } else {
                (Phase::Failed, Action::ReportError)
            }
        },
        (Phase::Built, Event::SpawnFinished(ok)) => {
            if ok {
                (Phase::Relaunching, Action::WaitForChild)
            } else {
                (Phase::Failed, Action::ReportError)
            }
        },
        (Phase::Relaunching, Event::ChildExited(code)) => (
            Phase::Exited,
            Action::ExitProcess(child_exit_code(code)),
        ),
        (Phase::Relaunching, Event::WaitFailed) => (Phase::Failed, Action::ReportError),
        _ => (phase, Action::Nothing),
    }
}

/// The actions asked for when `events` arrive in order, starting in
/// `phase`.
pub open spec fn actions_after(phase: Phase, events: Seq<Event>) -> Seq<Action>
    decreases events.len(),
{
    if events.len() == 0 {
        Seq::empty()
    } else {
        let (next, action) = transition(phase, events[0]);
        seq![action] + actions_after(next, events.drop_first())
    }
}

proof fn lemma_actions_len(phase: Phase, events: Seq<Event>)
    ensures
        actions_after(phase, events).len() == events.len(),
    decreases events.len(),
{
    if events.len() > 0 {
        lemma_actions_len(transition(phase, events[0]).0, events.drop_first());
    }
}

proof fn lemma_already_bundled_is_inert(events: Seq<Event>)
    ensures
        actions_after(Phase::AlreadyBundled, events).len() == events.len(),
        forall|i: int|
            0 <= i < events.len() ==> #[trigger] actions_after(Phase::AlreadyBundled, events)[i]
                == Action::Nothing,
    decreases events.len(),
{
    lemma_actions_len(Phase::AlreadyBundled, events);
    if events.len() > 0 {
        let rest = events.drop_first();
        lemma_already_bundled_is_inert(rest);
        let actions = actions_after(Phase::AlreadyBundled, events);
        assert(actions == seq![Action::Nothing] + actions_after(Phase::AlreadyBundled, rest));
        assert forall|i: int| 0 <= i < events.len() implies #[trigger] actions[i] == Action::Nothing by {
            if i > 0 {
                assert(actions[i] == actions_after(Phase::AlreadyBundled, rest)[i - 1]);
            }
        }
    }
}

/// Once the probe reports a bundle, the application is handed back at once,
/// and whatever is reported after that, the bundle is never built and no
/// child is spawned.
pub proof fn lemma_bundled_never_builds(later: Seq<Event>)
    ensures
        ({
            let actions = actions_after(Phase::Unchecked, seq![Event::Probed(true)] + later);
            &&& actions[0] == Action::ReturnApplication
            &&& forall|i: int|
                0 <= i < actions.len() ==> actions[i] != Action::BuildBundle && actions[i]
                    != Action::SpawnChild
        }),
{
    let events = seq![Event::Probed(true)] + later;
    assert(events.drop_first() =~= later);
    lemma_already_bundled_is_inert(later);
    let actions = actions_after(Phase::Unchecked, events);
    assert(actions == seq![Action::ReturnApplication] + actions_after(Phase::AlreadyBundled, later));
    assert forall|i: int|
        0 <= i < actions.len() implies actions[i] != Action::BuildBundle && actions[i]
            != Action::SpawnChild by {
        if i > 0 {
            assert(actions[i] == actions_after(Phase::AlreadyBundled, later)[i - 1]);
        }
    }
}

/// The parent leaves with the child's own exit code where it has one, and
/// with the fixed code 125 where the child ended without one.
pub proof fn lemma_exit_code_propagates(child_code: Option<i32>)
    ensures
        transition(Phase::Relaunching, Event::ChildExited(child_code)) == (
            Phase::Exited,
            Action::ExitProcess(
                match child_code {
                    Some(c) => c,
                    None => 125,
                },
            ),
        ),
{
}

} // verus!
