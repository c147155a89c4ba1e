//! The watch orchestrator: one invocation's state machine.
//!
//! One watch invocation moves through `Building` and `Arming` (together the
//! start-up phase: the backend is built, then the interrupt listener is
//! installed), then `Watching`, possibly `ShuttingDown`, and ends in
//! `Stopped` or `Failed`. The orchestrator owns every decision of the
//! invocation; the activities that actually suspend — building the backend,
//! awaiting the interrupt, running the backend's watch loop, awaiting the
//! completion signal — run outside the library, perform the action the
//! orchestrator asks for, and hand the result back as the next event.
//!
//! The load-bearing ordering guarantee lives here: the interrupt activity is
//! only released once the watch activity's completion signal — sent after
//! backend resources were released — has been observed.

use vstd::prelude::*;
use vstd::pervasive::unreached;

use crate::config::TomlConfig;
use crate::account::TomlAccountConfig;
use crate::error::{BackendBuildError, ConfigResolutionError, WatchError, WatchRunError};
use crate::handshake::{ShutdownHandshake, WatchEnds};

verus! {

/// The watch command: watch changes of the given mailbox of the given
/// account.
#[derive(Clone, Debug, PartialEq, Eq)]
pub struct WatchCommand {
    /// The account whose mailbox to watch; absent, the account flagged as
    /// the default is used.
    pub account: Option<String>,
    /// The mailbox to watch; absent, the account's configured folder is
    /// watched, and failing that the inbox.
    pub folder: Option<String>,
}

/// Where one watch invocation stands.
#[derive(Clone, Copy, Debug, PartialEq, Eq, Structural)]
pub enum OrchestratorState {
    /// Start-up, first half: the watchable backend is being built. Nothing
    /// is armed yet.
    Building,
    /// Start-up, second half: the backend is ready and the interrupt
    /// listener is being installed. The handshake is not created yet.
    Arming,
    /// The watch activity and the interrupt activity are racing; the
    /// handshake is live and untouched.
    Watching,
    /// An interrupt was received and the shutdown request originated; the
    /// interrupt activity is waiting for the completion signal.
    ShuttingDown,
    /// Terminal: the invocation ended cleanly.
    Stopped,
    /// Terminal: the invocation ended with an error.
    Failed,
}

/// What one of the outside activities reports back to the orchestrator.
#[derive(Debug)]
pub enum WatchEvent {
    /// The watchable backend was built and is ready.
    BackendBuilt,
    /// The watchable backend could not be built.
    BackendBuildFailed(BackendBuildError),
    /// The interrupt listener was installed.
    ListenerInstalled,
    /// The platform's signal facility refused the interrupt listener.
    ListenerInstallFailed,
    /// The installed listener observed an operator interrupt.
    InterruptReceived,
    /// The watch activity returned cleanly.
    WatchFinished,
    /// The watch activity returned with a backend error.
    WatchFailed(WatchError),
    /// The interrupt activity observed the watch activity's completion
    /// signal.
    ShutdownDone,
}

/// What the orchestrator asks the hosting process to do next.
#[derive(Debug)]
pub enum WatchAction {
    /// Build the watchable backend for the resolved account; report
    /// `BackendBuilt` or `BackendBuildFailed`.
    BuildBackend,
    /// Install the operator-interrupt listener; report `ListenerInstalled`
    /// or `ListenerInstallFailed`.
    InstallListener,
    /// Start the watch activity and the interrupt activity with the given
    /// channel ends; report whichever of `InterruptReceived`,
    /// `WatchFinished` or `WatchFailed` happens first.
    StartWatch(WatchEnds),
    /// Await the completion signal on `wait_for_shutdown_done`; report
    /// `ShutdownDone` once it is observed, or the watch activity's own end
    /// if that comes first.
    AwaitShutdownDone,
    /// The invocation is over; its outcome says how.
    Finish,
}

/// How one watch invocation ended.
#[derive(Clone, Debug, PartialEq, Eq)]
pub enum WatchOutcome {
    /// Clean shutdown: either the ordered handshake completed, or the watch
    /// activity stopped cleanly on its own.
    CleanShutdown,
    /// The invocation failed; the error says where.
    Failed(WatchRunError),
}

/// The watch orchestrator: the decision core of one watch invocation.
#[derive(Debug)]
pub struct WatchOrchestrator {
    state: OrchestratorState,
    handshake: Option<ShutdownHandshake>,
    outcome: Option<WatchOutcome>,
}

impl WatchOrchestrator {
    /// Where the invocation stands.
    pub closed spec fn state_spec(&self) -> OrchestratorState {
        self.state
    }

    /// Whether the shutdown handshake has been created.
    pub closed spec fn has_handshake(&self) -> bool {
        self.handshake is Some
    }

    /// Whether the shutdown request has been originated.
    pub closed spec fn requested(&self) -> bool {
        match self.handshake {
            Some(h) => h.requested(),
            None => false,
        }
    }

    /// Whether the watch activity's completion signal has been observed by
    /// the interrupt side.
    pub closed spec fn done_observed(&self) -> bool {
        match self.handshake {
            Some(h) => h.done_observed(),
            None => false,
        }
    }

    /// The invocation's outcome, once it is over.
    pub closed spec fn outcome_spec(&self) -> Option<WatchOutcome> {
        self.outcome
    }

    /// The handshake's own invariant, where one exists.
    pub closed spec fn handshake_ok(&self) -> bool {
        match self.handshake {
            Some(h) => h.wf(),
            None => true,
        }
    }

    /// The orchestrator's invariant, tying the state to the handshake's
    /// phase and to the outcome. In particular: before the listener is
    /// installed no handshake exists, while watching the handshake is
    /// untouched, while shutting down the request has been originated but
    /// completion not yet observed, and completion is only ever observed in
    /// a clean stop.
    pub open spec fn wf(&self) -> bool {
        &&& self.handshake_ok()
        &&& self.done_observed() ==> self.requested()
        &&& self.done_observed() ==> self.state_spec() is Stopped
        &&& match self.state_spec() {
            OrchestratorState::Building => !self.has_handshake() && self.outcome_spec() is None,
            OrchestratorState::Arming => !self.has_handshake() && self.outcome_spec() is None,
            OrchestratorState::Watching => self.has_handshake() && !self.requested()
                && self.outcome_spec() is None,
            OrchestratorState::ShuttingDown => self.has_handshake() && self.requested()
                && !self.done_observed() && self.outcome_spec() is None,
            OrchestratorState::Stopped => self.has_handshake() && self.outcome_spec()
                == Some(WatchOutcome::CleanShutdown),
            OrchestratorState::Failed => self.outcome_spec() matches Some(
                WatchOutcome::Failed(_),
            ),
        }
    }

    /// Which events can reach the orchestrator in its current state: each
    /// non-terminal state has exactly the activities it started, and a
    /// terminal orchestrator has none left.
    pub open spec fn accepts(&self, event: WatchEvent) -> bool {
        match self.state_spec() {
            OrchestratorState::Building => event is BackendBuilt || event is BackendBuildFailed,
            OrchestratorState::Arming => event is ListenerInstalled
                || event is ListenerInstallFailed,
            OrchestratorState::Watching => event is InterruptReceived || event is WatchFinished
                || event is WatchFailed,
            OrchestratorState::ShuttingDown => event is ShutdownDone || event is WatchFinished
                || event is WatchFailed,
            OrchestratorState::Stopped => false,
            OrchestratorState::Failed => false,
        }
    }

    /// Begin one watch invocation: the account is resolved, the backend
    /// build is the first thing asked of the hosting process.
    pub fn new() -> (r: (WatchOrchestrator, WatchAction))
        ensures
            r.0.wf(),
            r.0.state_spec() is Building,
            r.0.outcome_spec() is None,
            !r.0.has_handshake(),
            r.1 is BuildBackend,
    {
        (
            WatchOrchestrator { state: OrchestratorState::Building, handshake: None, outcome: None },
            WatchAction::BuildBackend,
        )
    }

    /// Where the invocation stands.
    pub fn state(&self) -> (s: OrchestratorState)
        ensures
            s == self.state_spec(),
    {
        self.state
    }

    /// The invocation's outcome, once it is over.
    pub fn outcome(&self) -> (o: &Option<WatchOutcome>)
        ensures
            *o == self.outcome_spec(),
    {
        &self.outcome
    }

    /// Whether the shutdown request has been originated.
    pub fn shutdown_requested(&self) -> (b: bool)
        ensures
            b == self.requested(),
    {
        match &self.handshake {
            Some(h) => h.is_requested(),
            None => false,
        }
    }

    /// Whether the watch activity's completion signal has been observed.
    pub fn shutdown_done_observed(&self) -> (b: bool)
        ensures
            b == self.done_observed(),
    {
        match &self.handshake {
            Some(h) => h.is_done_observed(),
            None => false,
        }
    }

    /// Feed one event into the orchestrator and get the next action. The
    /// whole behaviour of a step is pinned down by [`step_rel`].
    pub fn step(&mut self, event: WatchEvent) -> (action: WatchAction)
        requires
            old(self).wf(),
            old(self).accepts(event),
        ensures
            final(self).wf(),
            step_rel(*old(self), event, *final(self), action),
    {
        match (self.state, event) {
            (OrchestratorState::Building, WatchEvent::BackendBuilt) => {
                self.state = OrchestratorState::Arming;
                WatchAction::InstallListener
            },
            (OrchestratorState::Building, WatchEvent::BackendBuildFailed(e)) => {
                self.state = OrchestratorState::Failed;
                self.outcome = Some(WatchOutcome::Failed(WatchRunError::BackendBuild(e)));
                WatchAction::Finish
            },
            (OrchestratorState::Arming, WatchEvent::ListenerInstalled) => {
                let (handshake, ends) = ShutdownHandshake::new();
                self.handshake = Some(handshake);
                self.state = OrchestratorState::Watching;
                WatchAction::StartWatch(ends)
            },
            (OrchestratorState::Arming, WatchEvent::ListenerInstallFailed) => {
                self.state = OrchestratorState::Failed;
                self.outcome = Some(WatchOutcome::Failed(WatchRunError::SignalInstall));
                WatchAction::Finish
            },
            (OrchestratorState::Watching, WatchEvent::InterruptReceived) => {
                let mut handshake = self.handshake.take().unwrap();
                let delivered = handshake.request_shutdown();
                self.handshake = Some(handshake);
                if delivered {
                    self.state = OrchestratorState::ShuttingDown;
                    WatchAction::AwaitShutdownDone
                } else {
                    self.state = OrchestratorState::Failed;
                    self.outcome = Some(WatchOutcome::Failed(WatchRunError::HandshakeViolation));
                    WatchAction::Finish
                }
            },
            (OrchestratorState::Watching, WatchEvent::WatchFinished) => {
                self.state = OrchestratorState::Stopped;
                self.outcome = Some(WatchOutcome::CleanShutdown);
                WatchAction::Finish
            },
            (OrchestratorState::Watching, WatchEvent::WatchFailed(e)) => {
                self.state = OrchestratorState::Failed;
                self.outcome = Some(WatchOutcome::Failed(WatchRunError::Watch(e)));
                WatchAction::Finish
            },
            (OrchestratorState::ShuttingDown, WatchEvent::ShutdownDone) => {
                let mut handshake = self.handshake.take().unwrap();
                handshake.observe_done();
                self.handshake = Some(handshake);
                self.state = OrchestratorState::Stopped;
                self.outcome = Some(WatchOutcome::CleanShutdown);
                WatchAction::Finish
            },
            (OrchestratorState::ShuttingDown, WatchEvent::WatchFinished) => {
                self.state = OrchestratorState::Stopped;
                self.outcome = Some(WatchOutcome::CleanShutdown);
                WatchAction::Finish
            },
            (OrchestratorState::ShuttingDown, WatchEvent::WatchFailed(e)) => {
                self.state = OrchestratorState::Failed;
                self.outcome = Some(WatchOutcome::Failed(WatchRunError::Watch(e)));
                WatchAction::Finish
            },
            _ => unreached(),
        }
    }
}

/// The exact transition relation of one orchestrator step: which state and
/// handshake phase the orchestrator moves to, which outcome it records, and
/// which action it asks for, per state and event. The only freedom left is
/// whether originating the shutdown request still finds the watch side's
/// receiving half alive; when it does not, the handshake was violated and
/// the invocation fails instead of shutting down in order.
pub open spec fn step_rel(
    pre: WatchOrchestrator,
    event: WatchEvent,
    post: WatchOrchestrator,
    action: WatchAction,
) -> bool {
    &&& post.handshake_ok()
    &&& match (pre.state_spec(), event) {
        (OrchestratorState::Building, WatchEvent::BackendBuilt) => {
            &&& post.state_spec() is Arming
            &&& !post.has_handshake()
            &&& post.outcome_spec() is None
            &&& action is InstallListener
        },
        (OrchestratorState::Building, WatchEvent::BackendBuildFailed(e)) => {
            &&& post.state_spec() is Failed
            &&& !post.has_handshake()
            &&& post.outcome_spec() == Some(WatchOutcome::Failed(WatchRunError::BackendBuild(e)))
            &&& action is Finish
        },
        (OrchestratorState::Arming, WatchEvent::ListenerInstalled) => {
            &&& post.state_spec() is Watching
            &&& post.has_handshake()
            &&& !post.requested()
            &&& !post.done_observed()
            &&& post.outcome_spec() is None
            &&& action is StartWatch
        },
        (OrchestratorState::Arming, WatchEvent::ListenerInstallFailed) => {
            &&& post.state_spec() is Failed
            &&& !post.has_handshake()
            &&& post.outcome_spec() == Some(WatchOutcome::Failed(WatchRunError::SignalInstall))
            &&& action is Finish
        },
        (OrchestratorState::Watching, WatchEvent::InterruptReceived) => {
            ||| {
                &&& post.state_spec() is ShuttingDown
                &&& post.requested()
                &&& !post.done_observed()
                &&& post.outcome_spec() is None
                &&& action is AwaitShutdownDone
            }
            ||| {
                &&& post.state_spec() is Failed
                &&& post.requested()
                &&& !post.done_observed()
                &&& post.outcome_spec() == Some(
                    WatchOutcome::Failed(WatchRunError::HandshakeViolation),
                )
                &&& action is Finish
            }
        },
        (OrchestratorState::Watching, WatchEvent::WatchFinished) => {
            &&& post.state_spec() is Stopped
            &&& post.has_handshake()
            &&& !post.requested()
            &&& !post.done_observed()
            &&& post.outcome_spec() == Some(WatchOutcome::CleanShutdown)
            &&& action is Finish
        },
        (OrchestratorState::Watching, WatchEvent::WatchFailed(e)) => {
            &&& post.state_spec() is Failed
            &&& !post.requested()
            &&& !post.done_observed()
            &&& post.outcome_spec() == Some(WatchOutcome::Failed(WatchRunError::Watch(e)))
            &&& action is Finish
        },
        (OrchestratorState::ShuttingDown, WatchEvent::ShutdownDone) => {
            &&& post.state_spec() is Stopped
            &&& post.requested()
            &&& post.done_observed()
            &&& post.outcome_spec() == Some(WatchOutcome::CleanShutdown)
            &&& action is Finish
        },
        (OrchestratorState::ShuttingDown, WatchEvent::WatchFinished) => {
            &&& post.state_spec() is Stopped
            &&& post.requested()
            &&& !post.done_observed()
            &&& post.outcome_spec() == Some(WatchOutcome::CleanShutdown)
            &&& action is Finish
        },
        (OrchestratorState::ShuttingDown, WatchEvent::WatchFailed(e)) => {
            &&& post.state_spec() is Failed
            &&& post.requested()
            &&& !post.done_observed()
            &&& post.outcome_spec() == Some(WatchOutcome::Failed(WatchRunError::Watch(e)))
            &&& action is Finish
        },
        _ => false,
    }
}

impl WatchCommand {
    /// Resolve which account this command is about: the explicitly named one
    /// if any, the single account flagged as the default otherwise.
    pub fn resolve_account<'a>(&self, config: &'a TomlConfig) -> (r: Result<
        (&'a String, &'a TomlAccountConfig),
        ConfigResolutionError,
    >)
        ensures
            match self.account {
                Some(wanted) => match r {
                    Ok((found_name, found)) => {
                        &&& found_name@ == wanted@
                        &&& exists|i: int|
                            0 <= i < config@.len() && config@[i].name@ == wanted@ && found_name
                                == &config@[i].name && found == &config@[i].config
                    },
                    Err(e) => e == ConfigResolutionError::NotFound && forall|i: int|
                        0 <= i < config@.len() ==> config@[i].name@ != wanted@,
                },
                None => match r {
                    Ok((found_name, found)) => {
                        &&& crate::config::count_defaults(config@) == 1
                        &&& exists|i: int|
                            0 <= i < config@.len() && crate::config::is_default(config@[i])
                                && found_name == &config@[i].name && found == &config@[i].config
                    },
                    Err(e) => e == ConfigResolutionError::NoDefaultAccount
                        && crate::config::count_defaults(config@) != 1,
                },
            },
    {
        config.resolve(self.account.as_ref())
    }
}

/// Two-phase shutdown ordering, the component's load-bearing property: in
/// any orchestrator step, the completion signal is newly observed exactly on
/// the shutdown-done event; that event is only accepted while shutting down,
/// i.e. after the interrupt activity originated the shutdown request; and
/// observing it is precisely what releases the interrupt activity and stops
/// the invocation cleanly. The interrupt activity can therefore never return
/// before the watch activity has confirmed that its resources are released.
pub proof fn lemma_interrupt_released_only_after_done(
    pre: WatchOrchestrator,
    event: WatchEvent,
    post: WatchOrchestrator,
    action: WatchAction,
)
    requires
        pre.wf(),
        step_rel(pre, event, post, action),
    ensures
        post.done_observed() <==> event is ShutdownDone,
        event is ShutdownDone ==> {
            &&& pre.state_spec() is ShuttingDown
            &&& pre.requested()
            &&& post.state_spec() is Stopped
            &&& post.outcome_spec() == Some(WatchOutcome::CleanShutdown)
        },
{
}

/// A watch failure before any interrupt was requested makes the orchestrator
/// return that failure at once: shutdown is never requested, the interrupt
/// side's completion wait is never entered, and the invocation is over.
pub proof fn lemma_watch_failure_skips_shutdown_wait(
    pre: WatchOrchestrator,
    error: WatchError,
    post: WatchOrchestrator,
    action: WatchAction,
)
    requires
        pre.wf(),
        pre.state_spec() is Watching,
        step_rel(pre, WatchEvent::WatchFailed(error), post, action),
    ensures
        post.state_spec() is Failed,
        post.outcome_spec() == Some(WatchOutcome::Failed(WatchRunError::Watch(error))),
        !post.requested(),
        !post.done_observed(),
        action is Finish,
        !(action is AwaitShutdownDone),
        forall|next: WatchEvent| !post.accepts(next),
{
}

/// A backend-build failure aborts the invocation before anything is armed:
/// the interrupt listener is never asked for, the handshake is never
/// created, no further event is accepted, and the build error is the
/// invocation's outcome.
pub proof fn lemma_build_failure_arms_nothing(
    pre: WatchOrchestrator,
    error: BackendBuildError,
    post: WatchOrchestrator,
    action: WatchAction,
)
    requires
        pre.wf(),
        step_rel(pre, WatchEvent::BackendBuildFailed(error), post, action),
    ensures
        pre.state_spec() is Building,
        post.state_spec() is Failed,
        !post.has_handshake(),
        post.outcome_spec() == Some(WatchOutcome::Failed(WatchRunError::BackendBuild(error))),
        action is Finish,
        !(action is InstallListener),
        !(action is StartWatch),
        forall|next: WatchEvent| !post.accepts(next),
{
}

/// One step away from a well-formed orchestrator, the transition relation
/// only reaches well-formed orchestrators: the invariant is inductive, so it
/// holds along any run that starts fresh.
pub proof fn lemma_step_preserves_wf(
    pre: WatchOrchestrator,
    event: WatchEvent,
    post: WatchOrchestrator,
    action: WatchAction,
)
    requires
        pre.wf(),
        step_rel(pre, event, post, action),
    ensures
        post.wf(),
{
}

/// A whole run of the orchestrator: the end value is reachable from the
/// start value through one step per event, in order.
pub open spec fn run_rel(
    start: WatchOrchestrator,
    events: Seq<WatchEvent>,
    end: WatchOrchestrator,
) -> bool
    decreases events.len(),
{
    if events.len() == 0 {
        end == start
    } else {
        exists|mid: WatchOrchestrator, action: WatchAction|
            step_rel(start, events[0], mid, action) && run_rel(mid, events.drop_first(), end)
    }
}

/// Two-phase shutdown ordering over a whole run: starting from a fresh
/// orchestrator, the completion signal has been observed at the end of a run
/// only if the run contains the shutdown-done event, and then the run ended
/// as a clean stop. However the activities interleave, the interrupt side is
/// never released without the watch side's completion signal.
pub proof fn lemma_run_releases_interrupt_only_after_done(
    start: WatchOrchestrator,
    events: Seq<WatchEvent>,
    end: WatchOrchestrator,
)
    requires
        start.wf(),
        !start.done_observed(),
        run_rel(start, events, end),
        end.done_observed(),
    ensures
        end.state_spec() is Stopped,
        end.outcome_spec() == Some(WatchOutcome::CleanShutdown),
        exists|k: int| 0 <= k < events.len() && events[k] is ShutdownDone,
    decreases events.len(),
{
    assert(events.len() > 0);
    let (mid, action) = choose|mid: WatchOrchestrator, action: WatchAction|
        step_rel(start, events[0], mid, action) && run_rel(mid, events.drop_first(), end);
    lemma_step_preserves_wf(start, events[0], mid, action);
    if mid.done_observed() {
        lemma_interrupt_released_only_after_done(start, events[0], mid, action);
        // The step that observed completion stopped the orchestrator, and a
        // stopped orchestrator takes no further step: the run ends here.
        if events.len() > 1 {
            let rest = events.drop_first();
            assert(run_rel(mid, rest, end));
            let (mid2, action2) = choose|mid2: WatchOrchestrator, action2: WatchAction|
                step_rel(mid, rest[0], mid2, action2) && run_rel(mid2, rest.drop_first(), end);
            assert(false);
        }
        assert(end == mid);
        assert(events[0] is ShutdownDone);
    } else {
        lemma_run_releases_interrupt_only_after_done(mid, events.drop_first(), end);
        let k = choose|k: int|
            0 <= k < events.drop_first().len() && events.drop_first()[k] is ShutdownDone;
        assert(events[k + 1] == events.drop_first()[k]);
    }
}

/// The shutdown request is originated at most once per invocation: once
/// requested it stays requested, and the one step that newly originates it
/// is the interrupt event received while watching.
pub proof fn lemma_shutdown_requested_at_most_once(
    pre: WatchOrchestrator,
    event: WatchEvent,
    post: WatchOrchestrator,
    action: WatchAction,
)
    requires
        pre.wf(),
        step_rel(pre, event, post, action),
    ensures
        pre.requested() ==> post.requested(),
        !pre.requested() && post.requested() ==> {
            &&& event is InterruptReceived
            &&& pre.state_spec() is Watching
        },
{
}

} // verus!
