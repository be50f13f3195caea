//! Per-connection handler state machine.
//!
//! One handler exists per accepted socket.  The surrounding event loop
//! delivers connection events — the open callback, inbound frames (already
//! handed to the engine, whose optional reply is carried in the event), and
//! timer firings (carrying the observation the fired token asked for) — and
//! performs the actions the handler decides on: scheduling timers, writing
//! frames, or closing the socket.
//!
//! Two timer deployments are supported as construction-time options: a
//! single combined tick that checks the exit condition and drains at most
//! one outbound message per firing, and split timers that decouple exit
//! checking from outbound draining so that a slow or disconnected outbound
//! producer never delays exit detection.

use vstd::prelude::*;

use crate::timer::{
    TimerToken, DrainResult, spec_drain_interval, drain_interval, OPEN_DELAY_MS,
    COMBINED_TICK_MS, EXIT_CHECK_MS,
};

verus! {

/// Lifecycle of one connection.  `Opening` is entered on socket accept,
/// `Open` on handshake completion, `Closing` when the exit flag is observed
/// or a send fails, `Closed` when the socket is gone.  `Closed` is
/// terminal, and a socket that goes away before the handshake completes
/// (a pre-handshake abort, such as a failed encryption upgrade) moves
/// `Opening` straight to `Closed`: a handler never outlives its socket.
#[derive(Clone, Copy, Debug, PartialEq, Eq, Structural)]
pub enum ConnState {
    Opening,
    Open,
    Closing,
    Closed,
}

/// Timer deployment chosen at construction time.
#[derive(Clone, Copy, Debug, PartialEq, Eq, Structural)]
pub enum TimerMode {
    /// One token; each firing checks exit, drains at most one message, and
    /// reschedules itself at a fixed interval.
    Combined,
    /// An exit-check token on a coarse fixed interval and a drain token on
    /// an adaptive interval.
    Split,
}

/// Whether each connection gets a freshly allocated engine session or all
/// connections share one service-wide session.
#[derive(Clone, Copy, Debug, PartialEq, Eq, Structural)]
pub enum SessionMode {
    Shared,
    PerConnection,
}

/// What the handler asks the event loop to do, in order.
#[derive(Debug)]
pub enum Action {
    /// Register a one-shot timer for this connection.
    Schedule { delay_ms: u64, token: TimerToken },
    /// Write one serialized frame to the socket.
    Send(Vec<u8>),
    /// Close this connection's socket.
    CloseSocket,
}

/// One observation delivered to the handler.  Timer events carry exactly
/// the observation their token polls for; the frame event carries the
/// engine's optional reply to the inbound frame (a frame that failed to
/// decode is delivered as no reply).
#[derive(Debug)]
pub enum ConnEvent {
    /// The transport handshake completed.
    Opened,
    /// An inbound frame arrived and was handed to the engine session, which
    /// returned `reply`.
    Frame { reply: Option<Vec<u8>> },
    /// The combined tick fired; it observed the exit flag and one
    /// non-blocking pull of the outbound channel.
    Tick { exit: bool, drain: DrainResult },
    /// The split exit-check timer fired; it observed the exit flag.
    ExitCheck { exit: bool },
    /// The split drain timer fired; it observed one non-blocking pull of
    /// the outbound channel.
    Drain { drain: DrainResult },
    /// A socket write failed.
    SendFailed,
    /// The socket is gone.
    SocketClosed,
}

/// Timers registered when the connection becomes open: the combined
/// deployment registers its single tick, the split deployment both of its
/// tokens, each with the same fixed short first delay.
pub open spec fn spec_open_actions(mode: TimerMode) -> Seq<Action> {
    match mode {
        TimerMode::Combined => seq![
            Action::Schedule { delay_ms: OPEN_DELAY_MS, token: TimerToken::Tick },
        ],
        TimerMode::Split => seq![
            Action::Schedule { delay_ms: OPEN_DELAY_MS, token: TimerToken::ExitCheck },
            Action::Schedule { delay_ms: OPEN_DELAY_MS, token: TimerToken::Drain },
        ],
    }
}

/// The state after handling `e` in state `s` under timer deployment
/// `mode`.  A token that does not belong to the deployment is ignored, as
/// is any event other than `Opened` before the handshake completes and any
/// event other than `SocketClosed` once the connection is closing.
pub open spec fn spec_next(mode: TimerMode, s: ConnState, e: ConnEvent) -> ConnState {
    match s {
        ConnState::Opening => match e {
            ConnEvent::Opened => ConnState::Open,
            ConnEvent::SocketClosed => ConnState::Closed,
            _ => ConnState::Opening,
        },
        ConnState::Open => match e {
            ConnEvent::Tick { exit, .. } => {
                if mode is Combined && exit {
                    ConnState::Closing
                } else {
                    ConnState::Open
                }
            },
            ConnEvent::ExitCheck { exit } => {
                if mode is Split && exit {
                    ConnState::Closing
                } else {
                    ConnState::Open
                }
            },
            ConnEvent::SendFailed => ConnState::Closing,
            ConnEvent::SocketClosed => ConnState::Closed,
            _ => ConnState::Open,
        },
        ConnState::Closing => match e {
            ConnEvent::SocketClosed => ConnState::Closed,
            _ => ConnState::Closing,
        },
        ConnState::Closed => ConnState::Closed,
    }
}

/// The actions emitted while handling `e` in state `s` under `mode`.
pub open spec fn spec_actions(mode: TimerMode, s: ConnState, e: ConnEvent) -> Seq<Action> {
    match s {
        ConnState::Opening => match e {
            ConnEvent::Opened => spec_open_actions(mode),
            _ => Seq::empty(),
        },
        ConnState::Open => match e {
            ConnEvent::Frame { reply } => match reply {
                Some(m) => seq![Action::Send(m)],
                None => Seq::empty(),
            },
            ConnEvent::Tick { exit, drain } => {
                if mode is Combined {
                    if exit {
                        seq![Action::CloseSocket]
                    } else {
                        let resched = Action::Schedule {
                            delay_ms: COMBINED_TICK_MS,
                            token: TimerToken::Tick,
                        };
                        match drain {
                            DrainResult::Message(m) => seq![Action::Send(m), resched],
                            _ => seq![resched],
                        }
                    }
                } else {
                    Seq::empty()
                }
            },
            ConnEvent::ExitCheck { exit } => {
                if mode is Split {
                    if exit {
                        seq![Action::CloseSocket]
                    } else {
                        seq![
                            Action::Schedule {
                                delay_ms: EXIT_CHECK_MS,
                                token: TimerToken::ExitCheck,
                            },
                        ]
                    }
                } else {
                    Seq::empty()
                }
            },
            ConnEvent::Drain { drain } => {
                if mode is Split {
                    let resched = Action::Schedule {
                        delay_ms: spec_drain_interval(&drain),
                        token: TimerToken::Drain,
                    };
                    match drain {
                        DrainResult::Message(m) => seq![Action::Send(m), resched],
                        _ => seq![resched],
                    }
                } else {
                    Seq::empty()
                }
            },
            _ => Seq::empty(),
        },
        _ => Seq::empty(),
    }
}

/// Per-connection state machine.  Created on socket accept; the event loop
/// feeds it one event at a time and performs the returned actions in
/// order.
pub struct ConnHandler {
    /// Timer deployment chosen when the service was configured.
    pub mode: TimerMode,
    /// Session allocation mode chosen when the service was configured.
    pub session: SessionMode,
    /// Current lifecycle state.
    pub state: ConnState,
}

impl ConnHandler {
    /// A handler for a freshly accepted socket, before its handshake has
    /// completed.
    pub fn new(mode: TimerMode, session: SessionMode) -> (h: ConnHandler)
        ensures
            h.mode == mode,
            h.session == session,
            h.state == ConnState::Opening,
    {
        ConnHandler { mode, session, state: ConnState::Opening }
    }

    /// Handle one connection event: move to the successor state and return
    /// the actions the event loop must perform, in order.
    pub fn step(&mut self, e: ConnEvent) -> (acts: Vec<Action>)
        ensures
            final(self).mode == old(self).mode,
            final(self).session == old(self).session,
            final(self).state == spec_next(old(self).mode, old(self).state, e),
            acts@ == spec_actions(old(self).mode, old(self).state, e),
    {
        let ghost m0 = self.mode;
        let ghost s0 = self.state;
        let ghost e0 = e;
        let mut acts: Vec<Action> = Vec::new();
        match self.state {
            ConnState::Opening => {
                if let ConnEvent::SocketClosed = e {
                    self.state = ConnState::Closed;
                } else if let ConnEvent::Opened = e {
                    self.state = ConnState::Open;
                    match self.mode {
                        TimerMode::Combined => {
                            acts.push(Action::Schedule {
                                delay_ms: OPEN_DELAY_MS,
                                token: TimerToken::Tick,
                            });
                        },
                        TimerMode::Split => {
                            acts.push(Action::Schedule {
                                delay_ms: OPEN_DELAY_MS,
                                token: TimerToken::ExitCheck,
                            });
                            acts.push(Action::Schedule {
                                delay_ms: OPEN_DELAY_MS,
                                token: TimerToken::Drain,
                            });
                        },
                    }
                }
            },
            ConnState::Open => {
                match e {
                    ConnEvent::Opened => {},
                    ConnEvent::Frame { reply } => {
                        if let Some(m) = reply {
                            acts.push(Action::Send(m));
                        }
                    },
                    ConnEvent::Tick { exit, drain } => {
                        if let TimerMode::Combined = self.mode {
                            if exit {
                                self.state = ConnState::Closing;
                                acts.push(Action::CloseSocket);
                            } else {
                                if let DrainResult::Message(m) = drain {
                                    acts.push(Action::Send(m));
                                }
                                acts.push(Action::Schedule {
                                    delay_ms: COMBINED_TICK_MS,
                                    token: TimerToken::Tick,
                                });
                            }
                        }
                    },
                    ConnEvent::ExitCheck { exit } => {
                        if let TimerMode::Split = self.mode {
                            if exit {
                                self.state = ConnState::Closing;
                                acts.push(Action::CloseSocket);
                            } else {
                                acts.push(Action::Schedule {
                                    delay_ms: EXIT_CHECK_MS,
                                    token: TimerToken::ExitCheck,
                                });
                            }
                        }
                    },
                    ConnEvent::Drain { drain } => {
                        if let TimerMode::Split = self.mode {
                            let ms = drain_interval(&drain);
                            if let DrainResult::Message(m) = drain {
                                acts.push(Action::Send(m));
                            }
                            acts.push(Action::Schedule {
                                delay_ms: ms,
                                token: TimerToken::Drain,
                            });
                        }
                    },
                    ConnEvent::SendFailed => {
                        self.state = ConnState::Closing;
                    },
                    ConnEvent::SocketClosed => {
                        self.state = ConnState::Closed;
                    },
                }
            },
            ConnState::Closing => {
                if let ConnEvent::SocketClosed = e {
                    self.state = ConnState::Closed;
                }
            },
            ConnState::Closed => {},
        }
        proof {
            assert(acts@ =~= spec_actions(m0, s0, e0));
        }
        acts
    }
}

} // verus!
