use ws_connector::handler::{Action, ConnEvent, ConnHandler, ConnState, SessionMode, TimerMode};
use ws_connector::supervisor::{
    JoinOutcome, ServiceError, SupAction, SupEvent, SupState, Supervisor,
};
use ws_connector::timer::DrainResult;

#[test]
fn start_obtains_handle_before_spawning() {
    let mut sup = Supervisor::new();
    assert_eq!(sup.state, SupState::Idle);
    let acts = sup.step(SupEvent::Start);
    assert_eq!(sup.state, SupState::Listening);
    assert_eq!(
        acts,
        vec![SupAction::ObtainShutdownHandle, SupAction::SpawnListener]
    );
}

#[test]
fn poll_sleeps_until_exit_observed() {
    let mut sup = Supervisor::new();
    sup.step(SupEvent::Start);
    for _ in 0..3 {
        let acts = sup.step(SupEvent::Poll { exit: false });
        assert_eq!(acts, vec![SupAction::Sleep]);
        assert_eq!(sup.state, SupState::Listening);
    }
    assert_eq!(sup.poll_interval_ms(), 1000);
    let acts = sup.step(SupEvent::Poll { exit: true });
    assert_eq!(acts, vec![SupAction::SignalShutdown]);
    assert_eq!(sup.state, SupState::Draining);
}

#[test]
fn shutdown_is_signalled_before_join_is_requested() {
    let mut sup = Supervisor::new();
    let mut history: Vec<SupAction> = Vec::new();
    history.extend(sup.step(SupEvent::Start));
    history.extend(sup.step(SupEvent::Poll { exit: false }));
    history.extend(sup.step(SupEvent::Poll { exit: true }));
    history.extend(sup.step(SupEvent::ShutdownSent { ok: true }));
    history.extend(sup.step(SupEvent::Joined { outcome: JoinOutcome::ListenerOk }));
    let signal_at = history
        .iter()
        .position(|a| *a == SupAction::SignalShutdown)
        .expect("shutdown must be signalled");
    let join_at = history
        .iter()
        .position(|a| *a == SupAction::JoinListener)
        .expect("join must be requested");
    assert!(signal_at < join_at);
    assert_eq!(sup.state, SupState::Stopped);
    assert_eq!(sup.outcome, Some(Ok(())));
}

#[test]
fn rejected_shutdown_signal_is_reported_without_joining() {
    let mut sup = Supervisor::new();
    sup.step(SupEvent::Start);
    sup.step(SupEvent::Poll { exit: true });
    let acts = sup.step(SupEvent::ShutdownSent { ok: false });
    assert!(acts.is_empty());
    assert_eq!(sup.state, SupState::Stopped);
    assert_eq!(sup.outcome, Some(Err(ServiceError::ShutdownSignal)));
}

#[test]
fn join_failure_is_distinct_from_listener_failure() {
    let mut sup = Supervisor::new();
    sup.step(SupEvent::Start);
    sup.step(SupEvent::Poll { exit: true });
    sup.step(SupEvent::ShutdownSent { ok: true });
    sup.step(SupEvent::Joined { outcome: JoinOutcome::JoinFailed });
    assert_eq!(sup.outcome, Some(Err(ServiceError::JoinFailed)));

    let mut sup = Supervisor::new();
    sup.step(SupEvent::Start);
    sup.step(SupEvent::Poll { exit: true });
    sup.step(SupEvent::ShutdownSent { ok: true });
    sup.step(SupEvent::Joined { outcome: JoinOutcome::ListenerFailed });
    assert_eq!(sup.outcome, Some(Err(ServiceError::Listener)));
}

#[test]
fn exit_with_three_idle_connections_shuts_down_cleanly() {
    // The engine marks exit while three connections are open and idle.
    let mut sup = Supervisor::new();
    sup.step(SupEvent::Start);

    let mut conns: Vec<ConnHandler> = (0..3)
        .map(|_| ConnHandler::new(TimerMode::Split, SessionMode::Shared))
        .collect();
    for c in conns.iter_mut() {
        c.step(ConnEvent::Opened);
        let acts = c.step(ConnEvent::Drain { drain: DrainResult::Empty });
        assert_eq!(acts.len(), 1); // idle: nothing queued, just a reschedule
        assert_eq!(c.state, ConnState::Open);
    }

    // The supervisor's next poll detects the exit flag and issues shutdown.
    let acts = sup.step(SupEvent::Poll { exit: true });
    assert_eq!(acts, vec![SupAction::SignalShutdown]);

    // Every live handler observes the flag on its next exit check, closes
    // its socket, and reaches Closed.
    for c in conns.iter_mut() {
        let acts = c.step(ConnEvent::ExitCheck { exit: true });
        assert!(matches!(acts[0], Action::CloseSocket));
        assert_eq!(c.state, ConnState::Closing);
        c.step(ConnEvent::SocketClosed);
        assert_eq!(c.state, ConnState::Closed);
    }

    // The execution context terminates and the supervisor returns success.
    sup.step(SupEvent::ShutdownSent { ok: true });
    sup.step(SupEvent::Joined { outcome: JoinOutcome::ListenerOk });
    assert_eq!(sup.state, SupState::Stopped);
    assert_eq!(sup.outcome, Some(Ok(())));
}
