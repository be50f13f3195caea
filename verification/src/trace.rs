//! Traces of connection events, and the laws the handler obeys over them.

use vstd::prelude::*;

use crate::timer::{
    TimerToken, DrainResult, spec_drain_interval, DRAIN_MESSAGE_MS, DRAIN_EMPTY_MS,
    DRAIN_DISCONNECTED_MS,
};
use crate::handler::{ConnState, TimerMode, Action, ConnEvent, spec_next, spec_actions};

verus! {

/// The handler state after a whole sequence of events, starting from `s`.
pub open spec fn run_state(mode: TimerMode, s: ConnState, es: Seq<ConnEvent>) -> ConnState
    decreases es.len(),
{
    if es.len() == 0 {
        s
    } else {
        run_state(mode, spec_next(mode, s, es[0]), es.drop_first())
    }
}

/// All actions emitted over a whole sequence of events, in order.
pub open spec fn run_actions(mode: TimerMode, s: ConnState, es: Seq<ConnEvent>) -> Seq<Action>
    decreases es.len(),
{
    if es.len() == 0 {
        Seq::empty()
    } else {
        spec_actions(mode, s, es[0]) + run_actions(mode, spec_next(mode, s, es[0]), es.drop_first())
    }
}

/// A single event never moves the handler back into `Opening`: the
/// pre-handshake state is left exactly once, through `Opened`.
pub proof fn lemma_no_reopen(mode: TimerMode, s: ConnState, e: ConnEvent)
    ensures
        s != ConnState::Opening ==> spec_next(mode, s, e) != ConnState::Opening,
{
}

/// A handler that has left `Opening` never returns to it, whatever events
/// follow.
pub proof fn lemma_stays_opened(mode: TimerMode, s: ConnState, es: Seq<ConnEvent>)
    requires
        s != ConnState::Opening,
    ensures
        run_state(mode, s, es) != ConnState::Opening,
    decreases es.len(),
{
    if es.len() > 0 {
        lemma_no_reopen(mode, s, es[0]);
        lemma_stays_opened(mode, spec_next(mode, s, es[0]), es.drop_first());
    }
}

/// `Closed` is terminal: whatever events follow, the state stays `Closed`
/// and nothing is emitted.
pub proof fn lemma_closed_terminal(mode: TimerMode, es: Seq<ConnEvent>)
    ensures
        run_state(mode, ConnState::Closed, es) == ConnState::Closed,
        run_actions(mode, ConnState::Closed, es) == Seq::<Action>::empty(),
    decreases es.len(),
{
    if es.len() > 0 {
        lemma_closed_terminal(mode, es.drop_first());
        assert(run_actions(mode, ConnState::Closed, es) =~= Seq::<Action>::empty());
    }
}

/// Before the open callback the handler does nothing: over a trace without
/// an `Opened` event, a freshly constructed handler emits no action at
/// all, and is still in `Opening` — unless the socket itself went away (a
/// pre-handshake abort), which is terminal.
pub proof fn lemma_nothing_before_open(mode: TimerMode, es: Seq<ConnEvent>)
    requires
        forall|i: int| 0 <= i < es.len() ==> !(#[trigger] es[i] is Opened),
    ensures
        run_state(mode, ConnState::Opening, es) == ConnState::Opening || run_state(
            mode,
            ConnState::Opening,
            es,
        ) == ConnState::Closed,
        run_actions(mode, ConnState::Opening, es) == Seq::<Action>::empty(),
    decreases es.len(),
{
    if es.len() > 0 {
        assert(!(es[0] is Opened));
        let s1 = spec_next(mode, ConnState::Opening, es[0]);
        assert(spec_actions(mode, ConnState::Opening, es[0]) == Seq::<Action>::empty());
        assert(forall|i: int|
            0 <= i < es.drop_first().len() ==> !(#[trigger] es.drop_first()[i] is Opened));
        if s1 == ConnState::Opening {
            lemma_nothing_before_open(mode, es.drop_first());
        } else {
            assert(s1 == ConnState::Closed);
            lemma_closed_terminal(mode, es.drop_first());
        }
        assert(run_actions(mode, ConnState::Opening, es) =~= Seq::<Action>::empty());
    }
}

/// A second `Opened` is ignored: once the handler has left `Opening`, the
/// open callback changes nothing and emits nothing.
pub proof fn lemma_open_at_most_once(mode: TimerMode, s: ConnState)
    requires
        s != ConnState::Opening,
    ensures
        spec_next(mode, s, ConnEvent::Opened) == s,
        spec_actions(mode, s, ConnEvent::Opened) == Seq::<Action>::empty(),
{
}

/// The open callback comes first: in any trace that begins with `Opened`,
/// every later event is handled in a state other than `Opening` — the
/// handler sees its open callback exactly once, before any frame or timer.
pub proof fn lemma_open_precedes_all(mode: TimerMode, es: Seq<ConnEvent>)
    requires
        es.len() > 0,
        es[0] is Opened,
    ensures
        forall|i: int|
            1 <= i <= es.len() ==> run_state(mode, ConnState::Opening, #[trigger] es.take(i))
                != ConnState::Opening,
{
    assert forall|i: int|
        1 <= i <= es.len() implies run_state(mode, ConnState::Opening, #[trigger] es.take(i))
        != ConnState::Opening by {
        let t = es.take(i);
        assert(t.len() == i);
        assert(t[0] == es[0]);
        assert(spec_next(mode, ConnState::Opening, t[0]) == ConnState::Open);
        lemma_stays_opened(mode, ConnState::Open, t.drop_first());
    }
}

/// The drain back-off law: in the split-timer deployment, each drain
/// firing emits exactly the pulled message (if any) followed by one
/// reschedule of the drain token, whose interval strictly follows the
/// table — a pulled message reschedules at `DRAIN_MESSAGE_MS`, an empty
/// channel at `DRAIN_EMPTY_MS`, a disconnected producer at
/// `DRAIN_DISCONNECTED_MS`.
pub proof fn lemma_drain_backoff(drain: DrainResult)
    ensures
        ({
            let acts = spec_actions(
                TimerMode::Split,
                ConnState::Open,
                ConnEvent::Drain { drain: drain },
            );
            let resched = (Action::Schedule {
                delay_ms: spec_drain_interval(&drain),
                token: TimerToken::Drain,
            });
            &&& drain matches DrainResult::Message(m) ==> acts =~= seq![Action::Send(m), resched]
            &&& drain is Empty ==> acts =~= seq![resched]
            &&& drain is Disconnected ==> acts =~= seq![resched]
        }),
        drain is Message ==> spec_drain_interval(&drain) == DRAIN_MESSAGE_MS,
        drain is Empty ==> spec_drain_interval(&drain) == DRAIN_EMPTY_MS,
        drain is Disconnected ==> spec_drain_interval(&drain) == DRAIN_DISCONNECTED_MS,
{
}

/// A connection's lifecycle only moves forward: no event leads from a
/// later state back to an earlier one.
pub open spec fn lifecycle_rank(s: ConnState) -> int {
    match s {
        ConnState::Opening => 0,
        ConnState::Open => 1,
        ConnState::Closing => 2,
        ConnState::Closed => 3,
    }
}

/// Lifecycle monotonicity: `Opening`, `Open`, `Closing`, `Closed` are
/// traversed in order, never backwards.
pub proof fn lemma_lifecycle_monotone(mode: TimerMode, s: ConnState, e: ConnEvent)
    ensures
        lifecycle_rank(spec_next(mode, s, e)) >= lifecycle_rank(s),
{
}

/// No timer storms: one step never emits two schedules of the same token,
/// so — the transport's timers being one-shot — at most one timer per
/// token is outstanding per connection at any time.  Moreover a timer
/// firing only ever reschedules its own token.
pub proof fn lemma_at_most_one_schedule_per_token(mode: TimerMode, s: ConnState, e: ConnEvent)
    ensures
        ({
            let acts = spec_actions(mode, s, e);
            &&& forall|i: int, j: int|
                0 <= i < j < acts.len() && #[trigger] acts[i] is Schedule
                    && #[trigger] acts[j] is Schedule ==> acts[i]->token != acts[j]->token
            &&& e is Tick ==> forall|i: int|
                0 <= i < acts.len() && #[trigger] acts[i] is Schedule ==> acts[i]->token
                    == TimerToken::Tick
            &&& e is ExitCheck ==> forall|i: int|
                0 <= i < acts.len() && #[trigger] acts[i] is Schedule ==> acts[i]->token
                    == TimerToken::ExitCheck
            &&& e is Drain ==> forall|i: int|
                0 <= i < acts.len() && #[trigger] acts[i] is Schedule ==> acts[i]->token
                    == TimerToken::Drain
        }),
{
}

/// Direct request/response exchanges bypass the outbound queue: handling
/// an inbound frame on an open connection emits exactly one synchronous
/// `Send` of the engine's reply — or nothing when there is no reply — and
/// never schedules or touches a timer.
pub proof fn lemma_frame_reply_synchronous(mode: TimerMode, reply: Option<Vec<u8>>)
    ensures
        ({
            let acts = spec_actions(mode, ConnState::Open, ConnEvent::Frame { reply: reply });
            &&& reply matches Some(m) ==> acts =~= seq![Action::Send(m)]
            &&& reply is None ==> acts =~= Seq::<Action>::empty()
            &&& forall|i: int| 0 <= i < acts.len() ==> !(#[trigger] acts[i] is Schedule)
            &&& spec_next(mode, ConnState::Open, ConnEvent::Frame { reply: reply })
                == ConnState::Open
        }),
{
    let acts = spec_actions(mode, ConnState::Open, ConnEvent::Frame { reply: reply });
    match reply {
        Some(m) => {
            assert(acts =~= seq![Action::Send(m)]);
        },
        None => {
            assert(acts =~= Seq::<Action>::empty());
        },
    }
}

} // verus!
