//! Lifecycle supervisor for the listening service.
//!
//! The supervisor owns the listener's full lifetime: it obtains a
//! broadcast/shutdown handle before starting the accept loop on a
//! dedicated execution context, polls the engine's exit flag at a coarse
//! interval, and on exit sends the shutdown signal and only then waits for
//! the execution context to terminate.  The surrounding code performs the
//! actions (spawn, sleep, signal, join) and feeds their results back as
//! events.

use vstd::prelude::*;

use crate::timer::SUPERVISOR_POLL_MS;

verus! {

/// Lifecycle of the whole service.
#[derive(Clone, Copy, Debug, PartialEq, Eq, Structural)]
pub enum SupState {
    /// Nothing built yet.
    Idle,
    /// The accept loop runs on its own execution context; the supervisor
    /// polls the exit flag.
    Listening,
    /// The exit flag was observed true; shutdown is being coordinated.
    Draining,
    /// Shutdown coordination finished, successfully or not.
    Stopped,
}

/// What the supervisor asks its caller to do, in order.
#[derive(Clone, Copy, Debug, PartialEq, Eq, Structural)]
pub enum SupAction {
    /// Obtain the broadcast/shutdown handle from the listener, before it
    /// is started.
    ObtainShutdownHandle,
    /// Start the listener's accept loop on a dedicated execution context.
    SpawnListener,
    /// Sleep before the next poll of the exit flag.
    Sleep,
    /// Send the broadcast shutdown signal through the handle.
    SignalShutdown,
    /// Wait for the listener's execution context to terminate.
    JoinListener,
}

/// How waiting for the listener's execution context ended.
#[derive(Clone, Copy, Debug, PartialEq, Eq, Structural)]
pub enum JoinOutcome {
    /// The execution context could not be joined at all.
    JoinFailed,
    /// It terminated, and the listener's run had failed (bind or I/O
    /// error).
    ListenerFailed,
    /// It terminated and the listener's run had succeeded.
    ListenerOk,
}

/// One observation delivered to the supervisor.
#[derive(Clone, Copy, Debug, PartialEq, Eq, Structural)]
pub enum SupEvent {
    /// The caller is ready to build and start the service.
    Start,
    /// One poll of the exit flag, with the value read.
    Poll { exit: bool },
    /// Whether the shutdown signal was accepted by the handle.
    ShutdownSent { ok: bool },
    /// How waiting for the execution context ended.
    Joined { outcome: JoinOutcome },
}

/// The service-level failures the supervisor reports.  Connection-local
/// errors never reach it: user-visible failure is always at service
/// granularity.
#[derive(Clone, Copy, Debug, PartialEq, Eq, Structural)]
pub enum ServiceError {
    /// The broadcast shutdown signal was not accepted.
    ShutdownSignal,
    /// The listener's execution context could not be joined, so its stop
    /// was never confirmed.
    JoinFailed,
    /// The listener's own run failed (bind or I/O error).
    Listener,
}

/// Successor state of the supervisor.
pub open spec fn spec_sup_next(s: SupState, e: SupEvent) -> SupState {
    match s {
        SupState::Idle => match e {
            SupEvent::Start => SupState::Listening,
            _ => SupState::Idle,
        },
        SupState::Listening => match e {
            SupEvent::Poll { exit } => if exit {
                SupState::Draining
            } else {
                SupState::Listening
            },
            _ => SupState::Listening,
        },
        SupState::Draining => match e {
            SupEvent::ShutdownSent { ok } => if ok {
                SupState::Draining
            } else {
                SupState::Stopped
            },
            SupEvent::Joined { .. } => SupState::Stopped,
            _ => SupState::Draining,
        },
        SupState::Stopped => SupState::Stopped,
    }
}

/// Actions emitted by the supervisor on one event.
pub open spec fn spec_sup_actions(s: SupState, e: SupEvent) -> Seq<SupAction> {
    match s {
        SupState::Idle => match e {
            SupEvent::Start => seq![SupAction::ObtainShutdownHandle, SupAction::SpawnListener],
            _ => Seq::empty(),
        },
        SupState::Listening => match e {
            SupEvent::Poll { exit } => if exit {
                seq![SupAction::SignalShutdown]
            } else {
                seq![SupAction::Sleep]
            },
            _ => Seq::empty(),
        },
        SupState::Draining => match e {
            SupEvent::ShutdownSent { ok } => if ok {
                seq![SupAction::JoinListener]
            } else {
                Seq::empty()
            },
            _ => Seq::empty(),
        },
        SupState::Stopped => Seq::empty(),
    }
}

/// The supervisor's result once stopped.  The shutdown signal failing is
/// reported without waiting (its acceptance was never confirmed); a join
/// failure is a generic error distinct from the listener's own failure.
pub open spec fn spec_sup_outcome(s: SupState, e: SupEvent) -> Option<Result<(), ServiceError>> {
    if s is Draining {
        match e {
            SupEvent::ShutdownSent { ok } => if ok {
                None
            } else {
                Some(Err(ServiceError::ShutdownSignal))
            },
            SupEvent::Joined { outcome } => match outcome {
                JoinOutcome::JoinFailed => Some(Err(ServiceError::JoinFailed)),
                JoinOutcome::ListenerFailed => Some(Err(ServiceError::Listener)),
                JoinOutcome::ListenerOk => Some(Ok(())),
            },
            _ => None,
        }
    } else {
        None
    }
}

/// Lifecycle supervisor state machine.  The caller feeds it one event at
/// a time and performs the returned actions in order; once `Stopped`, the
/// outcome says how shutdown coordination ended.
pub struct Supervisor {
    /// Current lifecycle state.
    pub state: SupState,
    /// Set exactly when the supervisor stops.
    pub outcome: Option<Result<(), ServiceError>>,
}

impl Supervisor {
    /// A supervisor that has not built anything yet.
    pub fn new() -> (s: Supervisor)
        ensures
            s.state == SupState::Idle,
            s.outcome is None,
    {
        Supervisor { state: SupState::Idle, outcome: None }
    }

    /// Handle one event: move to the successor state, record the outcome
    /// if the service just stopped, and return the actions to perform in
    /// order.
    pub fn step(&mut self, e: SupEvent) -> (acts: Vec<SupAction>)
        requires
            old(self).state != SupState::Stopped,
            old(self).outcome is None,
        ensures
            final(self).state == spec_sup_next(old(self).state, e),
            acts@ == spec_sup_actions(old(self).state, e),
            final(self).outcome == spec_sup_outcome(old(self).state, e),
            final(self).state == SupState::Stopped <==> final(self).outcome is Some,
    {
        let ghost s0 = self.state;
        let mut acts: Vec<SupAction> = Vec::new();
        match self.state {
            SupState::Idle => {
                if let SupEvent::Start = e {
                    self.state = SupState::Listening;
                    acts.push(SupAction::ObtainShutdownHandle);
                    acts.push(SupAction::SpawnListener);
                }
            },
            SupState::Listening => {
                if let SupEvent::Poll { exit } = e {
                    if exit {
                        self.state = SupState::Draining;
                        acts.push(SupAction::SignalShutdown);
                    } else {
                        acts.push(SupAction::Sleep);
                    }
                }
            },
            SupState::Draining => {
                match e {
                    SupEvent::ShutdownSent { ok } => {
                        if ok {
                            acts.push(SupAction::JoinListener);
                        } else {
                            self.state = SupState::Stopped;
                            self.outcome = Some(Err(ServiceError::ShutdownSignal));
                        }
                    },
                    SupEvent::Joined { outcome } => {
                        self.state = SupState::Stopped;
                        match outcome {
                            JoinOutcome::JoinFailed => {
                                self.outcome = Some(Err(ServiceError::JoinFailed));
                            },
                            JoinOutcome::ListenerFailed => {
                                self.outcome = Some(Err(ServiceError::Listener));
                            },
                            JoinOutcome::ListenerOk => {
                                self.outcome = Some(Ok(()));
                            },
                        }
                    },
                    _ => {},
                }
            },
            SupState::Stopped => {},
        }
        proof {
            assert(acts@ =~= spec_sup_actions(s0, e));
        }
        acts
    }

    /// The coarse poll interval, in milliseconds, at which the caller
    /// should sleep between exit-flag polls.
    pub fn poll_interval_ms(&self) -> (ms: u64)
        ensures
            ms == SUPERVISOR_POLL_MS,
    {
        SUPERVISOR_POLL_MS
    }
}

/// The supervisor state after a whole sequence of events, from `s`.
pub open spec fn sup_run_state(s: SupState, es: Seq<SupEvent>) -> SupState
    decreases es.len(),
{
    if es.len() == 0 {
        s
    } else {
        sup_run_state(spec_sup_next(s, es[0]), es.drop_first())
    }
}

/// All actions emitted over a whole sequence of events, in order.
pub open spec fn sup_run_actions(s: SupState, es: Seq<SupEvent>) -> Seq<SupAction>
    decreases es.len(),
{
    if es.len() == 0 {
        Seq::empty()
    } else {
        spec_sup_actions(s, es[0]) + sup_run_actions(spec_sup_next(s, es[0]), es.drop_first())
    }
}

/// From `Draining` on, whatever the caller is asked to do, the shutdown
/// signal already stands at the front of the action history.
#[verifier::rlimit(50)]
proof fn lemma_join_after_shutdown_aux(s: SupState, es: Seq<SupEvent>)
    requires
        s is Idle || s is Listening,
    ensures
        forall|j: int|
            0 <= j < sup_run_actions(s, es).len() && #[trigger] sup_run_actions(s, es)[j]
                is JoinListener ==> exists|i: int|
                0 <= i < j && sup_run_actions(s, es)[i] is SignalShutdown,
    decreases es.len(),
{
    let acts = sup_run_actions(s, es);
    if es.len() > 0 {
        let a0 = spec_sup_actions(s, es[0]);
        let s1 = spec_sup_next(s, es[0]);
        let rest = sup_run_actions(s1, es.drop_first());
        assert(acts == a0 + rest);
        if s1 is Idle || s1 is Listening {
            lemma_join_after_shutdown_aux(s1, es.drop_first());
            assert forall|j: int|
                0 <= j < acts.len() && #[trigger] acts[j] is JoinListener implies exists|i: int|
                0 <= i < j && acts[i] is SignalShutdown by {
                if j < a0.len() {
                    assert(acts[j] == a0[j]);
                    assert(false);
                } else {
                    let j0 = j - a0.len();
                    assert(acts[j] == rest[j0]);
                    assert(rest[j0] is JoinListener);
                    let i0 = choose|i0: int| 0 <= i0 < j0 && rest[i0] is SignalShutdown;
                    assert(acts[i0 + a0.len()] == rest[i0]);
                    assert(acts[i0 + a0.len()] is SignalShutdown);
                }
            }
        } else {
            // The only way out of Idle/Listening that is not into
            // Idle/Listening is the poll that observes the exit flag,
            // which emits the shutdown signal itself.
            assert(s is Listening && e_is_exit_poll(es[0]));
            assert(a0 == seq![SupAction::SignalShutdown]);
            assert(acts[0] == a0[0]);
            assert(acts[0] is SignalShutdown);
            assert forall|j: int|
                0 <= j < acts.len() && #[trigger] acts[j] is JoinListener implies exists|i: int|
                0 <= i < j && acts[i] is SignalShutdown by {
                assert(j != 0);
                assert(acts[0] is SignalShutdown);
            }
        }
    }
}

/// Helper: the event is a poll that observed the exit flag.
pub open spec fn e_is_exit_poll(e: SupEvent) -> bool {
    e matches SupEvent::Poll { exit } && exit
}

/// The shutdown-before-join law: in any run of the supervisor from
/// `Idle`, every request to join the listener's execution context is
/// preceded by the request to send the shutdown signal — the supervisor
/// never waits for the listener before asking it to stop.
pub proof fn lemma_join_after_shutdown(es: Seq<SupEvent>)
    ensures
        forall|j: int|
            0 <= j < sup_run_actions(SupState::Idle, es).len()
                && #[trigger] sup_run_actions(SupState::Idle, es)[j] is JoinListener
                ==> exists|i: int|
                0 <= i < j && sup_run_actions(SupState::Idle, es)[i] is SignalShutdown,
{
    lemma_join_after_shutdown_aux(SupState::Idle, es);
}

} // verus!
