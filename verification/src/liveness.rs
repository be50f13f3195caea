//! Timed model of the exit-relevant timer of one live connection.
//!
//! The exit flag is monotone: once true it stays true.  The handler polls
//! it from a periodic timer — the combined tick, or the split exit-check
//! token — and closes when it observes true.  This module models that
//! timer against a clock: while the connection is open exactly one firing
//! of the exit-relevant token is pending, due no later than one full
//! interval from now, and time cannot pass a due firing.  From that the
//! central liveness bound follows: once the exit flag is true, a live
//! connection leaves `Open` for `Closing` within at most one full interval
//! of its exit-relevant timer.

use vstd::prelude::*;

use crate::timer::{
    TimerToken, DrainResult, OPEN_DELAY_MS, COMBINED_TICK_MS, EXIT_CHECK_MS,
};
use crate::handler::{ConnState, TimerMode, Action, ConnEvent, spec_next, spec_actions};

verus! {

/// Interval, in milliseconds, of the timer token that polls the exit flag
/// under the given deployment.
pub open spec fn spec_exit_interval(mode: TimerMode) -> u64 {
    match mode {
        TimerMode::Combined => COMBINED_TICK_MS,
        TimerMode::Split => EXIT_CHECK_MS,
    }
}

/// Timed view of one connection's exit-relevant timer: the connection
/// state, the clock, and the instant the pending exit-relevant firing is
/// due, all in milliseconds.
pub struct TimedConn {
    pub state: ConnState,
    pub now: int,
    pub deadline: int,
}

/// One step of the timed model: time passes, or the pending exit-relevant
/// timer fires and observes the exit flag.
pub enum TimedStep {
    Pass { dt: int },
    Fire { exit: bool },
}

/// When a step may happen.  Time never runs backwards and, while the
/// connection is open, never passes the pending firing; a firing happens
/// exactly when due, and only while the connection is open (a token that
/// fires later is ignored by the handler and is not modelled).
pub open spec fn timed_enabled(c: TimedConn, s: TimedStep) -> bool {
    match s {
        TimedStep::Pass { dt } => 0 <= dt && (c.state is Open ==> c.now + dt <= c.deadline),
        TimedStep::Fire { exit } => c.state is Open && c.now == c.deadline,
    }
}

/// Effect of one step: a firing that observes the exit flag closes the
/// connection; one that does not reschedules the token one full interval
/// ahead, exactly as the handler does.
pub open spec fn timed_next(mode: TimerMode, c: TimedConn, s: TimedStep) -> TimedConn {
    match s {
        TimedStep::Pass { dt } => TimedConn { now: c.now + dt, ..c },
        TimedStep::Fire { exit } => {
            if exit {
                TimedConn { state: ConnState::Closing, ..c }
            } else {
                TimedConn { deadline: c.now + spec_exit_interval(mode), ..c }
            }
        },
    }
}

/// The configuration reached after a whole sequence of steps.
pub open spec fn timed_run(mode: TimerMode, c: TimedConn, ss: Seq<TimedStep>) -> TimedConn
    decreases ss.len(),
{
    if ss.len() == 0 {
        c
    } else {
        timed_run(mode, timed_next(mode, c, ss[0]), ss.drop_first())
    }
}

/// Every step of the sequence is enabled where it happens.
pub open spec fn timed_valid(mode: TimerMode, c: TimedConn, ss: Seq<TimedStep>) -> bool
    decreases ss.len(),
{
    ss.len() == 0 || (timed_enabled(c, ss[0]) && timed_valid(
        mode,
        timed_next(mode, c, ss[0]),
        ss.drop_first(),
    ))
}

/// The exit flag is already true and stays true: every firing observes it.
pub open spec fn all_fires_observe_exit(ss: Seq<TimedStep>) -> bool {
    forall|i: int| 0 <= i < ss.len() ==> (#[trigger] ss[i] matches TimedStep::Fire { exit } ==> exit)
}

/// While the connection is open, the pending exit-relevant firing is due
/// no later than one full interval from now.
pub open spec fn timed_inv(mode: TimerMode, c: TimedConn) -> bool {
    c.state is Open ==> c.now <= c.deadline <= c.now + spec_exit_interval(mode)
}

/// The configuration entered when the connection becomes open at time
/// `t`: the first firing is registered with the fixed short open delay.
pub open spec fn timed_on_open(t: int) -> TimedConn {
    TimedConn { state: ConnState::Open, now: t, deadline: t + OPEN_DELAY_MS }
}

/// Opening establishes the timer invariant, under either deployment.
pub proof fn lemma_open_establishes_inv(mode: TimerMode, t: int)
    ensures
        timed_inv(mode, timed_on_open(t)),
{
}

/// Every enabled step preserves the timer invariant.
pub proof fn lemma_inv_preserved(mode: TimerMode, c: TimedConn, s: TimedStep)
    requires
        timed_inv(mode, c),
        timed_enabled(c, s),
    ensures
        timed_inv(mode, timed_next(mode, c, s)),
{
}

/// A closing connection never reopens in the timed model.
proof fn lemma_timed_closing_stays(mode: TimerMode, c: TimedConn, ss: Seq<TimedStep>)
    requires
        timed_valid(mode, c, ss),
        c.state is Closing,
    ensures
        timed_run(mode, c, ss).state is Closing,
    decreases ss.len(),
{
    if ss.len() > 0 {
        lemma_timed_closing_stays(mode, timed_next(mode, c, ss[0]), ss.drop_first());
    }
}

/// Helper bound phrased on the due instant itself: once every firing
/// observes the exit flag, the connection cannot still be open past the
/// pending deadline.
proof fn lemma_closed_past_deadline(mode: TimerMode, c: TimedConn, ss: Seq<TimedStep>)
    requires
        c.state is Open,
        c.now <= c.deadline,
        timed_valid(mode, c, ss),
        all_fires_observe_exit(ss),
        timed_run(mode, c, ss).now > c.deadline,
    ensures
        timed_run(mode, c, ss).state is Closing,
    decreases ss.len(),
{
    assert(ss.len() > 0);
    let c1 = timed_next(mode, c, ss[0]);
    let rest = ss.drop_first();
    assert(forall|i: int|
        0 <= i < rest.len() ==> (#[trigger] rest[i] matches TimedStep::Fire { exit } ==> exit));
    match ss[0] {
        TimedStep::Pass { dt } => {
            assert(c1.now + 0 <= c1.deadline);
            lemma_closed_past_deadline(mode, c1, rest);
        },
        TimedStep::Fire { exit } => {
            assert(exit);
            assert(c1.state is Closing);
            lemma_timed_closing_stays(mode, c1, rest);
        },
    }
}

/// The liveness bound: from any open configuration satisfying the timer
/// invariant, once the exit flag is true (so every firing observes it),
/// the connection is in `Closing` as soon as more than one full interval
/// of the exit-relevant timer has elapsed.
pub proof fn lemma_exit_within_one_interval(mode: TimerMode, c: TimedConn, ss: Seq<TimedStep>)
    requires
        timed_inv(mode, c),
        c.state is Open,
        timed_valid(mode, c, ss),
        all_fires_observe_exit(ss),
        timed_run(mode, c, ss).now > c.now + spec_exit_interval(mode),
    ensures
        timed_run(mode, c, ss).state is Closing,
{
    lemma_closed_past_deadline(mode, c, ss);
}

/// The timed model fires exactly as the handler decides: an exit-relevant
/// firing that observes the exit flag moves an open handler to `Closing`,
/// and one that does not leaves it open and reschedules the same token at
/// exactly one full interval.
pub proof fn lemma_model_matches_handler(mode: TimerMode, exit: bool, drain: DrainResult)
    ensures
        mode is Combined ==> spec_next(
            mode,
            ConnState::Open,
            ConnEvent::Tick { exit, drain },
        ) == (if exit {
            ConnState::Closing
        } else {
            ConnState::Open
        }),
        mode is Combined && !exit ==> spec_actions(
            mode,
            ConnState::Open,
            ConnEvent::Tick { exit, drain },
        ).last() == (Action::Schedule {
            delay_ms: spec_exit_interval(mode),
            token: TimerToken::Tick,
        }),
        mode is Split ==> spec_next(
            mode,
            ConnState::Open,
            ConnEvent::ExitCheck { exit },
        ) == (if exit {
            ConnState::Closing
        } else {
            ConnState::Open
        }),
        mode is Split && !exit ==> spec_actions(
            mode,
            ConnState::Open,
            ConnEvent::ExitCheck { exit },
        ) =~= seq![
            (Action::Schedule { delay_ms: spec_exit_interval(mode), token: TimerToken::ExitCheck }),
        ],
{
}

} // verus!
