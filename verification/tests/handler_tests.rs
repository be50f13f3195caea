use ws_connector::handler::{Action, ConnEvent, ConnHandler, ConnState, SessionMode, TimerMode};
use ws_connector::timer::{drain_interval, DrainResult, TimerToken};

fn open_handler(mode: TimerMode) -> ConnHandler {
    let mut h = ConnHandler::new(mode, SessionMode::PerConnection);
    h.step(ConnEvent::Opened);
    assert_eq!(h.state, ConnState::Open);
    h
}

#[test]
fn drain_interval_follows_backoff_table() {
    assert_eq!(drain_interval(&DrainResult::Message(vec![1, 2, 3])), 100);
    assert_eq!(drain_interval(&DrainResult::Empty), 50);
    assert_eq!(drain_interval(&DrainResult::Disconnected), 300);
}

#[test]
fn split_drain_firing_reschedules_per_table() {
    let mut h = open_handler(TimerMode::Split);

    let acts = h.step(ConnEvent::Drain { drain: DrainResult::Empty });
    assert_eq!(acts.len(), 1);
    assert!(matches!(
        acts[0],
        Action::Schedule { delay_ms: 50, token: TimerToken::Drain }
    ));

    let acts = h.step(ConnEvent::Drain {
        drain: DrainResult::Message(vec![7, 8]),
    });
    assert_eq!(acts.len(), 2);
    match &acts[0] {
        Action::Send(m) => assert_eq!(m, &vec![7, 8]),
        _ => panic!("expected the pulled message to be sent"),
    }
    assert!(matches!(
        acts[1],
        Action::Schedule { delay_ms: 100, token: TimerToken::Drain }
    ));

    let acts = h.step(ConnEvent::Drain { drain: DrainResult::Disconnected });
    assert_eq!(acts.len(), 1);
    assert!(matches!(
        acts[0],
        Action::Schedule { delay_ms: 300, token: TimerToken::Drain }
    ));
}

#[test]
fn disconnected_producer_backs_off_and_never_busy_loops() {
    let mut h = open_handler(TimerMode::Split);
    for _ in 0..10 {
        let acts = h.step(ConnEvent::Drain { drain: DrainResult::Disconnected });
        assert_eq!(h.state, ConnState::Open);
        assert_eq!(acts.len(), 1);
        assert!(matches!(
            acts[0],
            Action::Schedule { delay_ms: 300, token: TimerToken::Drain }
        ));
    }
}

#[test]
fn nothing_happens_before_open() {
    let mut h = ConnHandler::new(TimerMode::Split, SessionMode::Shared);
    assert_eq!(h.state, ConnState::Opening);
    let acts = h.step(ConnEvent::Frame { reply: Some(vec![1]) });
    assert!(acts.is_empty());
    assert_eq!(h.state, ConnState::Opening);
    let acts = h.step(ConnEvent::ExitCheck { exit: true });
    assert!(acts.is_empty());
    assert_eq!(h.state, ConnState::Opening);
    let acts = h.step(ConnEvent::Drain { drain: DrainResult::Empty });
    assert!(acts.is_empty());
    assert_eq!(h.state, ConnState::Opening);
}

#[test]
fn open_schedules_first_timers_once() {
    let mut h = ConnHandler::new(TimerMode::Split, SessionMode::Shared);
    let acts = h.step(ConnEvent::Opened);
    assert_eq!(h.state, ConnState::Open);
    assert_eq!(acts.len(), 2);
    assert!(matches!(
        acts[0],
        Action::Schedule { delay_ms: 50, token: TimerToken::ExitCheck }
    ));
    assert!(matches!(
        acts[1],
        Action::Schedule { delay_ms: 50, token: TimerToken::Drain }
    ));
    // A second open callback changes nothing.
    let acts = h.step(ConnEvent::Opened);
    assert!(acts.is_empty());
    assert_eq!(h.state, ConnState::Open);
}

#[test]
fn combined_open_schedules_single_tick() {
    let mut h = ConnHandler::new(TimerMode::Combined, SessionMode::Shared);
    let acts = h.step(ConnEvent::Opened);
    assert_eq!(acts.len(), 1);
    assert!(matches!(
        acts[0],
        Action::Schedule { delay_ms: 50, token: TimerToken::Tick }
    ));
}

#[test]
fn frame_reply_is_sent_synchronously_without_queue() {
    let mut h = open_handler(TimerMode::Combined);
    let reply = vec![0xCA, 0xFE, 0x42];
    let acts = h.step(ConnEvent::Frame { reply: Some(reply.clone()) });
    assert_eq!(acts.len(), 1);
    match &acts[0] {
        Action::Send(m) => assert_eq!(m, &reply),
        _ => panic!("expected exactly the reply to be sent"),
    }
    assert!(!acts.iter().any(|a| matches!(a, Action::Schedule { .. })));
    assert_eq!(h.state, ConnState::Open);
}

#[test]
fn frame_without_reply_does_nothing_and_stays_open() {
    let mut h = open_handler(TimerMode::Split);
    let acts = h.step(ConnEvent::Frame { reply: None });
    assert!(acts.is_empty());
    assert_eq!(h.state, ConnState::Open);
}

#[test]
fn combined_tick_checks_exit_first_then_drains_and_reschedules() {
    let mut h = open_handler(TimerMode::Combined);

    let acts = h.step(ConnEvent::Tick {
        exit: false,
        drain: DrainResult::Message(vec![9]),
    });
    assert_eq!(acts.len(), 2);
    match &acts[0] {
        Action::Send(m) => assert_eq!(m, &vec![9]),
        _ => panic!("expected the drained message to be sent"),
    }
    assert!(matches!(
        acts[1],
        Action::Schedule { delay_ms: 50, token: TimerToken::Tick }
    ));

    let acts = h.step(ConnEvent::Tick { exit: false, drain: DrainResult::Empty });
    assert_eq!(acts.len(), 1);
    assert!(matches!(
        acts[0],
        Action::Schedule { delay_ms: 50, token: TimerToken::Tick }
    ));

    let acts = h.step(ConnEvent::Tick { exit: true, drain: DrainResult::Empty });
    assert_eq!(acts.len(), 1);
    assert!(matches!(acts[0], Action::CloseSocket));
    assert_eq!(h.state, ConnState::Closing);
}

#[test]
fn exit_check_observing_exit_closes_within_one_firing() {
    let mut h = open_handler(TimerMode::Split);
    let acts = h.step(ConnEvent::ExitCheck { exit: false });
    assert_eq!(acts.len(), 1);
    assert!(matches!(
        acts[0],
        Action::Schedule { delay_ms: 500, token: TimerToken::ExitCheck }
    ));
    // The engine marks exit; the very next exit-check firing closes.
    let acts = h.step(ConnEvent::ExitCheck { exit: true });
    assert_eq!(acts.len(), 1);
    assert!(matches!(acts[0], Action::CloseSocket));
    assert_eq!(h.state, ConnState::Closing);
    let acts = h.step(ConnEvent::SocketClosed);
    assert!(acts.is_empty());
    assert_eq!(h.state, ConnState::Closed);
}

#[test]
fn foreign_tokens_are_ignored() {
    let mut h = open_handler(TimerMode::Split);
    let acts = h.step(ConnEvent::Tick { exit: true, drain: DrainResult::Empty });
    assert!(acts.is_empty());
    assert_eq!(h.state, ConnState::Open);

    let mut h = open_handler(TimerMode::Combined);
    let acts = h.step(ConnEvent::ExitCheck { exit: true });
    assert!(acts.is_empty());
    let acts = h.step(ConnEvent::Drain { drain: DrainResult::Empty });
    assert!(acts.is_empty());
    assert_eq!(h.state, ConnState::Open);
}

#[test]
fn pre_handshake_abort_is_terminal() {
    // A socket that goes away before the handshake (e.g., a failed
    // encryption upgrade) takes the handler straight to Closed.
    let mut h = ConnHandler::new(TimerMode::Split, SessionMode::Shared);
    let acts = h.step(ConnEvent::SocketClosed);
    assert!(acts.is_empty());
    assert_eq!(h.state, ConnState::Closed);
    let acts = h.step(ConnEvent::Opened);
    assert!(acts.is_empty());
    assert_eq!(h.state, ConnState::Closed);
}

#[test]
fn send_failure_aborts_connection() {
    let mut h = open_handler(TimerMode::Split);
    let acts = h.step(ConnEvent::SendFailed);
    assert!(acts.is_empty());
    assert_eq!(h.state, ConnState::Closing);
    // Once closing, further timer firings are ignored.
    let acts = h.step(ConnEvent::Drain { drain: DrainResult::Empty });
    assert!(acts.is_empty());
    assert_eq!(h.state, ConnState::Closing);
    h.step(ConnEvent::SocketClosed);
    assert_eq!(h.state, ConnState::Closed);
    // Closed is terminal.
    let acts = h.step(ConnEvent::Opened);
    assert!(acts.is_empty());
    assert_eq!(h.state, ConnState::Closed);
}
