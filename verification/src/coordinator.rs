//! The supervisor's place in the life of the host: what it does when the host
//! starts, when the child has been spawned, and when the host goes away.
//!
//! The host owns the event loop and everything that touches the operating
//! system. At each point of its life that matters it calls one function here,
//! carries out what the function returns, and reports back:
//!
//! * at startup, [`on_startup`] finds runtime, artifact and sink and says
//!   whether and how to launch;
//! * after the launch attempt, [`on_spawned`] stores the child's handle or
//!   records the failure;
//! * on every event that can mean "the host is about to exit",
//!   [`on_host_event`] hands out the handle for termination, to the first
//!   caller only.
//!
//! Several shutdown events may fire for one shutdown, in any order. They race
//! harmlessly: each is served under exclusive access to the cell, the first
//! one gets the handle, the others find the cell empty.

use vstd::prelude::*;
use crate::artifact::selection;
use crate::host::{BuildProfile, Features, HostEnvironment, Platform, Probe};
use crate::launcher::{
    arguments_for,
    conclude,
    sink_candidate,
    sink_path,
    suppresses_console,
    LaunchError,
    LaunchPlan,
};
use crate::runtime::RuntimeChoice;
use crate::supervisor::{Lifecycle, SupervisorCell};

verus! {

/// The events of the host's life that can mean it is going away.
#[derive(Clone, Copy, Debug, PartialEq, Eq, Structural)]
pub enum HostEvent {
    /// The primary window was destroyed.
    WindowDestroyed,
    /// The run loop is exiting, for whatever reason.
    AppExit,
}

/// What the host does next at startup.
#[derive(Debug)]
pub enum StartupStep {
    /// Start the child as planned.
    Launch(LaunchPlan),
    /// There is no artifact to run: make no attempt, and go on without a
    /// backend.
    NoBackend,
}

/// What was found at startup.
#[derive(Debug)]
pub struct Startup {
    /// The runtime that was chosen, and why.
    pub runtime: RuntimeChoice,
    /// What to do with it.
    pub step: StartupStep,
}

/// What became of a launch attempt.
#[derive(Debug)]
pub enum SpawnReport<P> {
    /// The child runs and the supervisor holds its handle.
    Installed,
    /// The child runs, but the supervisor already had its one child or had
    /// given up on it: the handle is handed back.
    Refused(P),
    /// The child did not start.
    Failed(LaunchError),
}

/// Whether an event makes the supervisor terminate the child.
pub open spec fn is_trigger(features: Features, event: HostEvent) -> bool {
    match event {
        HostEvent::WindowDestroyed => features.terminate_on_window_destroyed,
        HostEvent::AppExit => features.terminate_on_app_exit,
    }
}

/// The state of the child after one event.
pub open spec fn state_after_event<P>(features: Features, state: Lifecycle<P>, event: HostEvent)
    -> Lifecycle<P> {
    if is_trigger(features, event) {
        state.after_termination()
    } else {
        state
    }
}

/// The handle that one event releases for termination, if any.
pub open spec fn released_by_event<P>(features: Features, state: Lifecycle<P>, event: HostEvent)
    -> Option<P> {
    if is_trigger(features, event) {
        state.held()
    } else {
        None
    }
}

/// The state of the child after a series of events, served one after the
/// other.
pub open spec fn state_after_events<P>(
    features: Features,
    state: Lifecycle<P>,
    events: Seq<HostEvent>,
) -> Lifecycle<P>
    decreases events.len(),
{
    if events.len() == 0 {
        state
    } else {
        state_after_events(
            features,
            state_after_event(features, state, events[0]),
            events.drop_first(),
        )
    }
}

/// The handles that a series of events releases for termination, in order.
/// Each of them stands for one termination signal.
pub open spec fn released_by_events<P>(
    features: Features,
    state: Lifecycle<P>,
    events: Seq<HostEvent>,
) -> Seq<P>
    decreases events.len(),
{
    if events.len() == 0 {
        Seq::empty()
    } else {
        let rest = released_by_events(
            features,
            state_after_event(features, state, events[0]),
            events.drop_first(),
        );
        match released_by_event(features, state, events[0]) {
            Some(process) => seq![process] + rest,
            None => rest,
        }
    }
}

/// What startup leads to, given what was located: a launch of the artifact by
/// the runtime when there is an artifact, and no attempt when there is none.
pub open spec fn startup_is(
    step: StartupStep,
    runtime: RuntimeChoice,
    artifact: Option<Seq<char>>,
    sink: Option<String>,
    platform: Platform,
    profile: BuildProfile,
) -> bool {
    match artifact {
        Some(path) => {
            &&& step matches StartupStep::Launch(plan)
            &&& plan.program@ == runtime.command_text()
            &&& plan.args.deep_view() == arguments_for(path)
            &&& plan.sink == sink
            &&& plan.hide_console == suppresses_console(platform, profile)
        },
        None => step is NoBackend,
    }
}

/// Executable form of [`is_trigger`].
pub fn triggers_shutdown(features: &Features, event: HostEvent) -> (yes: bool)
    ensures
        yes == is_trigger(*features, event),
{
    match event {
        HostEvent::WindowDestroyed => features.terminate_on_window_destroyed,
        HostEvent::AppExit => features.terminate_on_app_exit,
    }
}

/// Decides the startup step from what was located.
pub fn prepare(
    runtime: &RuntimeChoice,
    artifact: Option<String>,
    sink: Option<String>,
    platform: Platform,
    profile: BuildProfile,
) -> (step: StartupStep)
    ensures
        startup_is(step, *runtime, artifact.deep_view(), sink, platform, profile),
        step is NoBackend <==> artifact is None,
{
    match artifact {
        Some(path) => {
            let command = runtime.command();
            StartupStep::Launch(
                crate::launcher::plan(command.as_str(), path.as_str(), sink, platform, profile),
            )
        },
        None => StartupStep::NoBackend,
    }
}

/// Startup: locates the runtime, the diagnostic sink and the artifact, in
/// this order, and decides whether and how to launch.
///
/// What is on disk decides which artifact and which runtime are found, so the
/// contract states what holds of every outcome: a launch runs one of the two
/// artifact candidates, by the system's runtime or the bundled candidate,
/// with the sink and the console rule that follow from the host's
/// surroundings. [`prepare`] states the decision itself.
pub fn on_startup(env: &HostEnvironment, features: &Features) -> (startup: Startup)
    ensures
        crate::runtime::may_locate(*env, *features, startup.runtime),
        startup.step matches StartupStep::Launch(plan) ==> {
            &&& plan.program@ == startup.runtime.command_text()
            &&& plan.sink.deep_view() == sink_candidate(env.log_dir.deep_view(), *features)
            &&& plan.hide_console == suppresses_console(env.platform, env.profile)
            &&& exists|path: Seq<char>|
                #![trigger arguments_for(path)]
                crate::artifact::may_locate(*env, Some(path)) && plan.args.deep_view()
                    == arguments_for(path)
        },
{
    let runtime = crate::runtime::locate(env, features);
    let sink = sink_path(env, features);
    let artifact = crate::artifact::locate(env);
    let step = prepare(&runtime, artifact, sink, env.platform, env.profile);
    Startup { runtime, step }
}

/// After the launch attempt: a child that started is installed in the cell,
/// once; a failed attempt makes the supervisor give up on the child.
pub fn on_spawned<P>(cell: &mut SupervisorCell<P>, attempt: Result<P, String>) -> (report:
    SpawnReport<P>)
    ensures
        match attempt {
            Ok(process) => {
                &&& final(cell)@ == old(cell)@.after_install(process)
                &&& if old(cell)@ is Unstarted {
                    report is Installed
                } else {
                    report == SpawnReport::Refused(process)
                }
            },
            Err(reason) => {
                &&& final(cell)@ == old(cell)@.after_abandon()
                &&& report == SpawnReport::<P>::Failed(LaunchError { reason })
            },
        },
{
    match conclude(attempt) {
        Ok(process) => match cell.install(process) {
            Ok(()) => SpawnReport::Installed,
            Err(back) => SpawnReport::Refused(back),
        },
        Err(error) => {
            cell.abandon();
            SpawnReport::Failed(error)
        },
    }
}

/// Serves one host event. An event that is a shutdown trigger takes the
/// handle out of the cell, if there is one, and returns it: the caller lets go
/// of the cell and then sends the termination signal. Every other call
/// returns `None` and leaves the cell as it is.
pub fn on_host_event<P>(cell: &mut SupervisorCell<P>, features: &Features, event: HostEvent)
    -> (released: Option<P>)
    ensures
        final(cell)@ == state_after_event(*features, old(cell)@, event),
        released == released_by_event(*features, old(cell)@, event),
{
    if triggers_shutdown(features, event) {
        cell.take_and_terminate()
    } else {
        None
    }
}

/// Graceful absence: when the artifact is at neither of its places, startup
/// makes no launch attempt, whatever runtime and sink were found.
pub proof fn lemma_no_artifact_no_launch(
    step: StartupStep,
    runtime: RuntimeChoice,
    development: Option<Probe>,
    packaged: Option<Probe>,
    sink: Option<String>,
    platform: Platform,
    profile: BuildProfile,
)
    requires
        development matches Some(seen) ==> !seen.present,
        packaged matches Some(seen) ==> !seen.present,
        startup_is(step, runtime, selection(development, packaged), sink, platform, profile),
    ensures
        step is NoBackend,
{
}

/// Without a running child no series of events releases anything or changes
/// anything.
pub proof fn lemma_nothing_to_release<P>(
    features: Features,
    state: Lifecycle<P>,
    events: Seq<HostEvent>,
)
    requires
        !(state is Running),
    ensures
        released_by_events(features, state, events) == Seq::<P>::empty(),
        state_after_events(features, state, events) == state,
    decreases events.len(),
{
    if events.len() > 0 {
        lemma_nothing_to_release(features, state, events.drop_first());
    }
}

/// Whatever events arrive, in whatever order and number, and whatever the
/// state they find: at most one termination signal is ever called for.
pub proof fn lemma_at_most_one_signal<P>(
    features: Features,
    state: Lifecycle<P>,
    events: Seq<HostEvent>,
)
    ensures
        released_by_events(features, state, events).len() <= 1,
    decreases events.len(),
{
    if events.len() > 0 {
        let next = state_after_event(features, state, events[0]);
        if released_by_event(features, state, events[0]) is Some {
            lemma_nothing_to_release(features, next, events.drop_first());
        } else {
            lemma_at_most_one_signal(features, next, events.drop_first());
        }
    }
}

/// With a running child, a series of events that holds at least one shutdown
/// trigger calls for exactly one termination signal, for that child, and
/// leaves the cell empty.
pub proof fn lemma_exactly_one_signal<P>(
    features: Features,
    process: P,
    events: Seq<HostEvent>,
)
    requires
        exists|i: int| 0 <= i < events.len() && is_trigger(features, #[trigger] events[i]),
    ensures
        released_by_events(features, Lifecycle::Running(process), events) == seq![process],
        state_after_events(features, Lifecycle::Running(process), events)
            == Lifecycle::<P>::Terminated,
    decreases events.len(),
{
    let state = Lifecycle::Running(process);
    let rest = events.drop_first();
    if is_trigger(features, events[0]) {
        lemma_nothing_to_release(features, Lifecycle::<P>::Terminated, rest);
        assert(seq![process] + Seq::<P>::empty() =~= seq![process]);
    } else {
        let i = choose|i: int| 0 <= i < events.len() && is_trigger(features, #[trigger] events[i]);
        assert(rest[i - 1] == events[i]);
        lemma_exactly_one_signal(features, process, rest);
    }
}

/// A series of events without a shutdown trigger leaves the child alone.
pub proof fn lemma_no_trigger_no_signal<P>(
    features: Features,
    state: Lifecycle<P>,
    events: Seq<HostEvent>,
)
    requires
        forall|i: int| 0 <= i < events.len() ==> !is_trigger(features, #[trigger] events[i]),
    ensures
        released_by_events(features, state, events) == Seq::<P>::empty(),
        state_after_events(features, state, events) == state,
    decreases events.len(),
{
    if events.len() > 0 {
        let rest = events.drop_first();
        assert forall|i: int| 0 <= i < rest.len() implies !is_trigger(
            features,
            #[trigger] rest[i],
        ) by {
            assert(rest[i] == events[i + 1]);
        }
        lemma_no_trigger_no_signal(features, state, rest);
    }
}

/// The two shutdown hooks race harmlessly: with both switched on and a child
/// running, the window-destroyed hook and the app-exit hook together call for
/// exactly one termination signal, whichever of them is served first.
pub proof fn lemma_racing_hooks_signal_once<P>(features: Features, process: P)
    requires
        features.terminate_on_window_destroyed,
        features.terminate_on_app_exit,
    ensures
        released_by_events(
            features,
            Lifecycle::Running(process),
            seq![HostEvent::WindowDestroyed, HostEvent::AppExit],
        ) == seq![process],
        released_by_events(
            features,
            Lifecycle::Running(process),
            seq![HostEvent::AppExit, HostEvent::WindowDestroyed],
        ) == seq![process],
{
    let first = seq![HostEvent::WindowDestroyed, HostEvent::AppExit];
    let second = seq![HostEvent::AppExit, HostEvent::WindowDestroyed];
    assert(is_trigger(features, first[0]));
    assert(is_trigger(features, second[0]));
    lemma_exactly_one_signal(features, process, first);
    lemma_exactly_one_signal(features, process, second);
}

} // verus!
