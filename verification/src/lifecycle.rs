//! The lifecycle of the serving socket.
//!
//! A manager probes the socket path, removes a stale socket file, binds a
//! fresh listening socket, watches the socket file, serves the protocol,
//! registers with the kubelet, and waits until serving ends. Then it removes
//! the socket file and starts over. A change of the socket file while a
//! generation is up asks the serving task, once, to shut down.
//!
//! [`Lifecycle`] decides; its caller acts. The caller starts with
//! [`LifecycleEvent::Start`], performs each [`LifecycleAction`] it is given
//! and hands back the event that tells how the action ended. Changes of the
//! socket file are reported as [`LifecycleEvent::SocketChanged`] whenever they
//! happen.

use vstd::prelude::*;

verus! {

/// What a connection attempt to the socket path found.
#[derive(Clone, Copy, Debug, PartialEq, Eq, Structural)]
pub enum ProbeOutcome {
    /// Nothing exists at the path.
    NotFound,
    /// A socket file exists and nothing listens on it.
    ConnectionRefused,
    /// Something accepted the connection.
    Connected,
    /// The attempt failed in another way.
    Failed,
}

/// Why a manager has given up.
#[derive(Clone, Copy, Debug, PartialEq, Eq, Structural)]
pub enum FatalError {
    /// Another process serves the socket.
    SocketInUse,
    /// The socket path could not be probed.
    ProbeFailed,
    /// The stale socket file could not be removed.
    RemoveStaleFailed,
    /// The listening socket could not be bound.
    BindFailed,
    /// The socket file could not be watched.
    WatchFailed,
    /// The kubelet did not accept the registration.
    RegistrationFailed,
}

/// What the manager is waiting for.
#[derive(Clone, Copy, Debug, PartialEq, Eq, Structural)]
pub enum Phase {
    /// Not started.
    Idle,
    /// The socket path is being probed.
    Probing,
    /// A stale socket file is being removed.
    RemovingStale,
    /// The listening socket is being bound.
    Binding,
    /// The watch on the socket file is being set up.
    Watching,
    /// The serving task is being started.
    Starting,
    /// Serving has started and the registration is under way.
    Registering,
    /// Registered; the serving task runs.
    Serving,
    /// Serving has ended and the socket file is being removed.
    CleaningUp,
    /// The manager has given up.
    Failed(FatalError),
}

/// What happened outside the manager.
#[derive(Clone, Copy, Debug, PartialEq, Eq, Structural)]
pub enum LifecycleEvent {
    /// The manager is asked to begin.
    Start,
    /// The probe of the socket path has ended.
    Probed(ProbeOutcome),
    /// The removal of the stale socket file has ended.
    StaleRemoved { ok: bool },
    /// The attempt to bind the listening socket has ended.
    Bound { ok: bool },
    /// The attempt to watch the socket file has ended.
    WatchStarted { ok: bool },
    /// The serving task runs on the listening socket.
    ServingStarted,
    /// The registration call has ended.
    Registered { ok: bool },
    /// The socket file was created, changed or removed, or the watch failed.
    SocketChanged,
    /// The serving task has ended.
    ServingEnded,
    /// The socket file is gone, or could not be removed.
    SocketRemoved,
}

/// What the manager asks its caller to do.
#[derive(Clone, Copy, Debug, PartialEq, Eq, Structural)]
pub enum LifecycleAction {
    /// Try to connect to the socket path; answer with `Probed`.
    Probe,
    /// Remove the socket file; answer with `StaleRemoved`.
    RemoveStale,
    /// Bind a listening socket at the socket path; answer with `Bound`.
    Bind,
    /// Watch the socket file for changes; answer with `WatchStarted`.
    Watch,
    /// Serve the protocol on the listening socket until told to shut down;
    /// answer with `ServingStarted`.
    Serve,
    /// Register with the kubelet; answer with `Registered`.
    Register,
    /// Wait for the serving task to end; answer with `ServingEnded`.
    AwaitServing,
    /// Tell the serving task to shut down. No answer is expected.
    SignalShutdown,
    /// Remove the socket file, whether or not it is still there; answer with
    /// `SocketRemoved`.
    RemoveSocket,
    /// Stop with this error.
    Fail(FatalError),
    /// Nothing to do for this event.
    Nothing,
}

/// The state of a socket lifecycle manager.
#[derive(Clone, Copy, Debug, PartialEq, Eq, Structural)]
pub struct Lifecycle {
    pub phase: Phase,
    /// Whether the serving task of this generation was told to shut down.
    pub shutdown_signalled: bool,
}

impl Lifecycle {
    /// Whether a generation is up: the socket file is watched, and a serving
    /// task is starting or running.
    pub open spec fn generation_up(self) -> bool {
        self.phase is Starting || self.phase is Registering || self.phase is Serving
    }

    /// Whether the shutdown mark fits the phase: only a generation that is
    /// up, or one that is being cleaned up or has failed, can have been told
    /// to shut down.
    pub open spec fn consistent(self) -> bool {
        self.shutdown_signalled ==> self.generation_up() || self.phase is CleaningUp
            || self.phase is Failed
    }

    /// The state in which `phase` waits, with the shutdown mark unchanged.
    pub open spec fn at(self, phase: Phase) -> Lifecycle {
        Lifecycle { phase, shutdown_signalled: self.shutdown_signalled }
    }

    /// The state after giving up with `error`, and the action that says so.
    pub open spec fn fail(self, error: FatalError) -> (Lifecycle, LifecycleAction) {
        (self.at(Phase::Failed(error)), LifecycleAction::Fail(error))
    }

    /// The state after `event` and the action it calls for.
    pub open spec fn next(self, event: LifecycleEvent) -> (Lifecycle, LifecycleAction) {
        match (self.phase, event) {
            (Phase::Failed(error), _) => (self, LifecycleAction::Fail(error)),
            (Phase::Idle, LifecycleEvent::Start) => (self.at(Phase::Probing), LifecycleAction::Probe),
            (Phase::Probing, LifecycleEvent::Probed(outcome)) => match outcome {
                ProbeOutcome::NotFound => (self.at(Phase::Binding), LifecycleAction::Bind),
                ProbeOutcome::ConnectionRefused => (
                    self.at(Phase::RemovingStale),
                    LifecycleAction::RemoveStale,
                ),
                ProbeOutcome::Connected => self.fail(FatalError::SocketInUse),
                ProbeOutcome::Failed => self.fail(FatalError::ProbeFailed),
            },
            (Phase::RemovingStale, LifecycleEvent::StaleRemoved { ok }) => if ok {
                (self.at(Phase::Binding), LifecycleAction::Bind)
            } else {
                self.fail(FatalError::RemoveStaleFailed)
            },
            (Phase::Binding, LifecycleEvent::Bound { ok }) => if ok {
                (self.at(Phase::Watching), LifecycleAction::Watch)
            } else {
                self.fail(FatalError::BindFailed)
            },
            (Phase::Watching, LifecycleEvent::WatchStarted { ok }) => if ok {
                (self.at(Phase::Starting), LifecycleAction::Serve)
            } else {
                self.fail(FatalError::WatchFailed)
            },
            (Phase::Starting, LifecycleEvent::ServingStarted) => (
                self.at(Phase::Registering),
                LifecycleAction::Register,
            ),
            (Phase::Registering, LifecycleEvent::Registered { ok }) => if ok {
                (self.at(Phase::Serving), LifecycleAction::AwaitServing)
            } else {
                self.fail(FatalError::RegistrationFailed)
            },
            (Phase::Serving, LifecycleEvent::ServingEnded) => (
                self.at(Phase::CleaningUp),
                LifecycleAction::RemoveSocket,
            ),
            (Phase::CleaningUp, LifecycleEvent::SocketRemoved) => (
                Lifecycle { phase: Phase::Probing, shutdown_signalled: false },
                LifecycleAction::Probe,
            ),
            (_, LifecycleEvent::SocketChanged) => if self.generation_up()
                && !self.shutdown_signalled {
                (
                    Lifecycle { phase: self.phase, shutdown_signalled: true },
                    LifecycleAction::SignalShutdown,
                )
            } else {
                (self, LifecycleAction::Nothing)
            },
            _ => (self, LifecycleAction::Nothing),
        }
    }

    /// A manager that has not started.
    pub fn new() -> (lifecycle: Lifecycle)
        ensures
            lifecycle == (Lifecycle { phase: Phase::Idle, shutdown_signalled: false }),
            lifecycle.consistent(),
    {
        Lifecycle { phase: Phase::Idle, shutdown_signalled: false }
    }

    /// Takes in `event` and returns what to do next.
    ///
    /// An event that does not answer the action the manager waits for changes
    /// nothing and calls for nothing. A manager that has given up stays so and
    /// repeats its error.
    pub fn step(&mut self, event: LifecycleEvent) -> (action: LifecycleAction)
        ensures
            (*final(self), action) == old(self).next(event),
            old(self).consistent() ==> final(self).consistent(),
    {
        let (phase, action) = match (self.phase, event) {
            (Phase::Failed(error), _) => (self.phase, LifecycleAction::Fail(error)),
            (Phase::Idle, LifecycleEvent::Start) => (Phase::Probing, LifecycleAction::Probe),
            (Phase::Probing, LifecycleEvent::Probed(outcome)) => on_probed(outcome),
            (Phase::RemovingStale, LifecycleEvent::StaleRemoved { ok }) => proceed_if(
                ok,
                Phase::Binding,
                LifecycleAction::Bind,
                FatalError::RemoveStaleFailed,
            ),
            (Phase::Binding, LifecycleEvent::Bound { ok }) => proceed_if(
                ok,
                Phase::Watching,
                LifecycleAction::Watch,
                FatalError::BindFailed,
            ),
            (Phase::Watching, LifecycleEvent::WatchStarted { ok }) => proceed_if(
                ok,
                Phase::Starting,
                LifecycleAction::Serve,
                FatalError::WatchFailed,
            ),
            (Phase::Starting, LifecycleEvent::ServingStarted) => (
                Phase::Registering,
                LifecycleAction::Register,
            ),
            (Phase::Registering, LifecycleEvent::Registered { ok }) => proceed_if(
                ok,
                Phase::Serving,
                LifecycleAction::AwaitServing,
                FatalError::RegistrationFailed,
            ),
            (Phase::Serving, LifecycleEvent::ServingEnded) => (
                Phase::CleaningUp,
                LifecycleAction::RemoveSocket,
            ),
            (Phase::CleaningUp, LifecycleEvent::SocketRemoved) => {
                self.shutdown_signalled = false;
                (Phase::Probing, LifecycleAction::Probe)
            },
            (Phase::Starting, LifecycleEvent::SocketChanged)
            | (Phase::Registering, LifecycleEvent::SocketChanged)
            | (Phase::Serving, LifecycleEvent::SocketChanged) => {
                if self.shutdown_signalled {
                    (self.phase, LifecycleAction::Nothing)
                } else {
                    self.shutdown_signalled = true;
                    (self.phase, LifecycleAction::SignalShutdown)
                }
            },
            _ => (self.phase, LifecycleAction::Nothing),
        };
        self.phase = phase;
        action
    }
}

/// Where a probe of the socket path leads.
fn on_probed(outcome: ProbeOutcome) -> (next: (Phase, LifecycleAction))
    ensures
        next == match outcome {
            ProbeOutcome::NotFound => (Phase::Binding, LifecycleAction::Bind),
            ProbeOutcome::ConnectionRefused => (Phase::RemovingStale, LifecycleAction::RemoveStale),
            ProbeOutcome::Connected => (
                Phase::Failed(FatalError::SocketInUse),
                LifecycleAction::Fail(FatalError::SocketInUse),
            ),
            ProbeOutcome::Failed => (
                Phase::Failed(FatalError::ProbeFailed),
                LifecycleAction::Fail(FatalError::ProbeFailed),
            ),
        },
{
    match outcome {
        ProbeOutcome::NotFound => (Phase::Binding, LifecycleAction::Bind),
        ProbeOutcome::ConnectionRefused => (Phase::RemovingStale, LifecycleAction::RemoveStale),
        ProbeOutcome::Connected => give_up(FatalError::SocketInUse),
        ProbeOutcome::Failed => give_up(FatalError::ProbeFailed),
    }
}

/// The phase and action of a manager that gives up with `error`.
fn give_up(error: FatalError) -> (next: (Phase, LifecycleAction))
    ensures
        next == (Phase::Failed(error), LifecycleAction::Fail(error)),
{
    (Phase::Failed(error), LifecycleAction::Fail(error))
}

/// The step after an action that may fail: on if it went well, else give up.
fn proceed_if(ok: bool, phase: Phase, action: LifecycleAction, error: FatalError) -> (next: (
    Phase,
    LifecycleAction,
))
    ensures
        next == if ok {
            (phase, action)
        } else {
            (Phase::Failed(error), LifecycleAction::Fail(error))
        },
{
    if ok {
        (phase, action)
    } else {
        give_up(error)
    }
}

impl Lifecycle {
    /// The state after a run of events.
    pub open spec fn after(self, events: Seq<LifecycleEvent>) -> Lifecycle
        decreases events.len(),
    {
        if events.len() == 0 {
            self
        } else {
            self.next(events.first()).0.after(events.drop_first())
        }
    }

    /// How often a run of events makes the manager ask for a shutdown.
    pub open spec fn shutdown_signals(self, events: Seq<LifecycleEvent>) -> nat
        decreases events.len(),
    {
        if events.len() == 0 {
            0
        } else {
            let (then, action) = self.next(events.first());
            let now: nat = if action == LifecycleAction::SignalShutdown {
                1
            } else {
                0
            };
            now + then.shutdown_signals(events.drop_first())
        }
    }
}

/// A probe that finds nothing leads straight to binding, with no cleanup. A
/// probe that finds a socket file without a listener has the file removed, and
/// binding follows once it is gone. A probe that finds a listener, or fails
/// otherwise, ends the manager.
pub proof fn law_probe_outcomes(state: Lifecycle)
    requires
        state.phase is Probing,
    ensures
        state.next(LifecycleEvent::Probed(ProbeOutcome::NotFound)) == (
            state.at(Phase::Binding),
            LifecycleAction::Bind,
        ),
        state.next(LifecycleEvent::Probed(ProbeOutcome::ConnectionRefused)).1
            == LifecycleAction::RemoveStale,
        state.next(LifecycleEvent::Probed(ProbeOutcome::ConnectionRefused)).0.next(
            LifecycleEvent::StaleRemoved { ok: true },
        ) == (state.at(Phase::Binding), LifecycleAction::Bind),
        state.next(LifecycleEvent::Probed(ProbeOutcome::Connected)).1 == LifecycleAction::Fail(
            FatalError::SocketInUse,
        ),
        state.next(LifecycleEvent::Probed(ProbeOutcome::Connected)).0.phase is Failed,
        state.next(LifecycleEvent::Probed(ProbeOutcome::Failed)).1 == LifecycleAction::Fail(
            FatalError::ProbeFailed,
        ),
        state.next(LifecycleEvent::Probed(ProbeOutcome::Failed)).0.phase is Failed,
{
}

/// The manager asks for the registration only in answer to the news that the
/// serving task runs on the bound socket.
pub proof fn law_register_follows_serving(state: Lifecycle, event: LifecycleEvent)
    requires
        state.next(event).1 == LifecycleAction::Register,
    ensures
        state.phase is Starting,
        event == LifecycleEvent::ServingStarted,
{
}

/// A manager that has given up stays so, whatever happens.
pub proof fn law_failure_is_final(state: Lifecycle, events: Seq<LifecycleEvent>)
    requires
        state.phase is Failed,
    ensures
        state.after(events) == state,
        state.shutdown_signals(events) == 0,
    decreases events.len(),
{
    if events.len() > 0 {
        law_failure_is_final(state, events.drop_first());
    }
}

/// Every step keeps the shutdown mark fitting the phase.
pub proof fn law_step_keeps_consistent(state: Lifecycle, event: LifecycleEvent)
    requires
        state.consistent(),
    ensures
        state.next(event).0.consistent(),
{
}

/// While a generation is up, the first change of the socket file makes the
/// manager ask for a shutdown, and leaves it waiting for what it waited for.
pub proof fn law_first_change_signals_shutdown(state: Lifecycle)
    requires
        state.generation_up(),
        !state.shutdown_signalled,
    ensures
        state.next(LifecycleEvent::SocketChanged) == (
            Lifecycle { phase: state.phase, shutdown_signalled: true },
            LifecycleAction::SignalShutdown,
        ),
{
}

/// A generation starts without the shutdown mark: when a manager in a
/// consistent state asks for the serving task, it has not asked for a
/// shutdown yet.
pub proof fn law_generation_starts_unsignalled(state: Lifecycle, event: LifecycleEvent)
    requires
        state.consistent(),
        state.next(event).1 == LifecycleAction::Serve,
    ensures
        state.next(event).0.generation_up(),
        !state.next(event).0.shutdown_signalled,
{
}

/// Between two removals of the socket file the manager asks for a shutdown
/// at most once: never if it has asked before, and never outside a
/// generation.
pub proof fn law_shutdown_signalled_at_most_once(state: Lifecycle, events: Seq<LifecycleEvent>)
    requires
        forall|i: int| 0 <= i < events.len() ==> events[i] != LifecycleEvent::SocketRemoved,
    ensures
        state.shutdown_signals(events) <= 1,
        state.shutdown_signalled ==> state.shutdown_signals(events) == 0,
        state.shutdown_signalled || state.shutdown_signals(events) == 1 ==> state.after(
            events,
        ).shutdown_signalled,
    decreases events.len(),
{
    if events.len() > 0 {
        law_shutdown_signalled_at_most_once(state.next(events.first()).0, events.drop_first());
    }
}

/// When the serving task ends, the manager has the socket file removed and
/// then begins again as a manager that was just started does: it probes, with
/// no shutdown asked for.
pub proof fn law_restart_after_serving(state: Lifecycle)
    requires
        state.phase is Serving,
    ensures
        state.next(LifecycleEvent::ServingEnded) == (
            state.at(Phase::CleaningUp),
            LifecycleAction::RemoveSocket,
        ),
        state.next(LifecycleEvent::ServingEnded).0.next(LifecycleEvent::SocketRemoved) == (
            Lifecycle { phase: Phase::Idle, shutdown_signalled: false }
        ).next(LifecycleEvent::Start),
{
}

/// From the start, a run in which every action goes well brings the manager
/// through one full cycle to a served, registered socket; and when that
/// serving ends, the same run brings it there again.
pub proof fn law_full_cycle(state: Lifecycle)
    requires
        state.phase is Serving || state == (Lifecycle {
            phase: Phase::Idle,
            shutdown_signalled: false,
        }),
    ensures
        ({
            let begun = if state.phase is Serving {
                state.next(LifecycleEvent::ServingEnded).0.next(LifecycleEvent::SocketRemoved)
            } else {
                state.next(LifecycleEvent::Start)
            };
            let bound = begun.0.next(LifecycleEvent::Probed(ProbeOutcome::NotFound));
            let watched = bound.0.next(LifecycleEvent::Bound { ok: true });
            let started = watched.0.next(LifecycleEvent::WatchStarted { ok: true });
            let running = started.0.next(LifecycleEvent::ServingStarted);
            let registered = running.0.next(LifecycleEvent::Registered { ok: true });
            &&& begun.1 == LifecycleAction::Probe
            &&& bound.1 == LifecycleAction::Bind
            &&& watched.1 == LifecycleAction::Watch
            &&& started.1 == LifecycleAction::Serve
            &&& running.1 == LifecycleAction::Register
            &&& registered == (
                Lifecycle { phase: Phase::Serving, shutdown_signalled: false },
                LifecycleAction::AwaitServing,
            )
        }),
{
}

} // verus!
