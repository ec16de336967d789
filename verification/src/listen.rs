//! The listening loop of a session, as a function from state and event to
//! state and action.
//!
//! While it runs, the loop waits for whichever comes first: the idle timer,
//! the close signal, or a datagram on one of the session's sockets. The timer
//! is armed anew for every wait, so any event puts off the idle timeout. The
//! caller waits and reports the event; the session says what to do about it.

use vstd::prelude::*;
use bytes::Bytes;
use core::time::Duration;
use crate::address::SocketAddress;
use crate::session::UdpSession;

verus! {

/// The states of the listening loop. `Closed` is final.
#[derive(Clone, Copy, Debug, PartialEq, Eq, Structural)]
pub enum LoopState {
    Running,
    Closed,
}

/// What the loop waits for in one iteration.
#[derive(Clone, Copy, Debug)]
pub struct Wait {
    /// The time after which the idle timer fires, counted from the start of
    /// this wait.
    pub idle: Duration,
    /// Whether a datagram on the IPv6 socket ends the wait. One on the IPv4
    /// socket always does, and so does the close signal.
    pub recv_v6: bool,
}

/// What ended a wait.
#[derive(Debug)]
pub enum LoopEvent {
    /// The idle timer fired.
    IdleTimeout,
    /// The close signal was given.
    CloseSignal,
    /// A receive completed: with a datagram and the address it came from, or
    /// with a failure.
    Received(Result<(Bytes, SocketAddress), std::io::Error>),
}

/// What the caller does about an event before it waits again.
#[derive(Debug)]
pub enum LoopAction {
    /// Close the connection that the session belongs to, then go on.
    CloseConnection,
    /// Leave the loop. The connection stays as it is.
    Exit,
    /// Hand the datagram to the connection, as a task of its own, to be
    /// relayed for the association; then go on. Whether that task succeeds
    /// is of no concern to the loop.
    Relay { payload: Bytes, origin: SocketAddress, assoc_id: u16 },
    /// Report the failure of the receive, then go on.
    ReportRecvError(std::io::Error),
}

/// The state after `event` in `state`. Only the close signal ends a running
/// loop; a loop that has ended stays so.
pub open spec fn next_state(state: LoopState, event: LoopEvent) -> LoopState {
    match state {
        LoopState::Closed => LoopState::Closed,
        LoopState::Running => match event {
            LoopEvent::CloseSignal => LoopState::Closed,
            _ => LoopState::Running,
        },
    }
}

/// The action on `event` in `state`, for the association `assoc_id`.
pub open spec fn action_on(assoc_id: u16, state: LoopState, event: LoopEvent) -> LoopAction {
    match state {
        LoopState::Closed => LoopAction::Exit,
        LoopState::Running => match event {
            LoopEvent::IdleTimeout => LoopAction::CloseConnection,
            LoopEvent::CloseSignal => LoopAction::Exit,
            LoopEvent::Received(Ok((payload, origin))) => LoopAction::Relay {
                payload,
                origin,
                assoc_id,
            },
            LoopEvent::Received(Err(cause)) => LoopAction::ReportRecvError(cause),
        },
    }
}

impl UdpSession {
    /// What the loop waits for next: nothing once it has ended; else the full
    /// idle time, whatever came before, and the sockets the session has.
    pub fn next_wait(&self, state: LoopState) -> (wait: Option<Wait>)
        ensures
            state == LoopState::Closed ==> wait is None,
            state == LoopState::Running ==> (wait matches Some(w) && w.idle
                == self.spec_max_idle_time() && w.recv_v6 == self.spec_has_v6()),
    {
        match state {
            LoopState::Closed => None,
            LoopState::Running => Some(Wait { idle: self.max_idle_time(), recv_v6: self.has_v6() }),
        }
    }

    /// Answers one event of the listening loop with the state to go on in and
    /// the action to take.
    pub fn on_event(&self, state: LoopState, event: LoopEvent) -> (step: (LoopState, LoopAction))
        ensures
            step.0 == next_state(state, event),
            step.1 == action_on(self.spec_assoc_id(), state, event),
    {
        match state {
            LoopState::Closed => (LoopState::Closed, LoopAction::Exit),
            LoopState::Running => match event {
                LoopEvent::IdleTimeout => (LoopState::Running, LoopAction::CloseConnection),
                LoopEvent::CloseSignal => (LoopState::Closed, LoopAction::Exit),
                LoopEvent::Received(Ok((payload, origin))) => (
                    LoopState::Running,
                    LoopAction::Relay { payload, origin, assoc_id: self.assoc_id() },
                ),
                LoopEvent::Received(Err(cause)) => (
                    LoopState::Running,
                    LoopAction::ReportRecvError(cause),
                ),
            },
        }
    }
}

/// The state of a loop that began in `state` and has answered `events`, the
/// first of them first.
pub open spec fn state_after(state: LoopState, events: Seq<LoopEvent>) -> LoopState
    decreases events.len(),
{
    if events.len() == 0 {
        state
    } else {
        next_state(state_after(state, events.drop_last()), events.last())
    }
}

/// The action that a loop which began running takes on the event at index `i`
/// of `events`, for the association `assoc_id`.
pub open spec fn action_at(assoc_id: u16, events: Seq<LoopEvent>, i: int) -> LoopAction {
    action_on(assoc_id, state_after(LoopState::Running, events.take(i)), events[i])
}

/// Whether the close signal is among the first `n` of `events`.
pub open spec fn closed_within(events: Seq<LoopEvent>, n: int) -> bool {
    exists|k: int| 0 <= k < n && #[trigger] events[k] is CloseSignal
}

/// A loop runs for as long as no close signal has come: after the first `n`
/// of `events` it is still running exactly if none of them is the close
/// signal.
pub proof fn lemma_runs_until_close_signal(events: Seq<LoopEvent>, n: int)
    requires
        0 <= n <= events.len(),
    ensures
        state_after(LoopState::Running, events.take(n)) == LoopState::Running <==> !closed_within(
            events,
            n,
        ),
    decreases n,
{
    let prefix = events.take(n);
    if n > 0 {
        lemma_runs_until_close_signal(events, n - 1);
        assert(prefix.drop_last() == events.take(n - 1));
        assert(prefix.last() == events[n - 1]);
        if closed_within(events, n - 1) {
            let k = choose|k: int| 0 <= k < n - 1 && #[trigger] events[k] is CloseSignal;
            assert(0 <= k < n && events[k] is CloseSignal);
        }
        if closed_within(events, n) && !closed_within(events, n - 1) {
            let k = choose|k: int| 0 <= k < n && #[trigger] events[k] is CloseSignal;
            assert(k == n - 1);
        }
    }
}

/// A failed receive does not end the loop: the failure is reported, the loop
/// runs on, and a datagram received later, on whichever socket, is still
/// relayed for the association, as long as no close signal came before it.
pub proof fn lemma_recv_failure_is_not_fatal(
    assoc_id: u16,
    events: Seq<LoopEvent>,
    i: int,
    j: int,
)
    requires
        0 <= i < j < events.len(),
        !closed_within(events, j),
        events[i] matches LoopEvent::Received(Err(_)),
        events[j] matches LoopEvent::Received(Ok(_)),
    ensures
        action_at(assoc_id, events, i) matches LoopAction::ReportRecvError(cause)
            && events[i] == LoopEvent::Received(Err(cause)),
        state_after(LoopState::Running, events.take(i + 1)) == LoopState::Running,
        action_at(assoc_id, events, j) matches LoopAction::Relay { payload, origin, assoc_id: id }
            && id == assoc_id && events[j] == LoopEvent::Received(Ok((payload, origin))),
{
    assert(!closed_within(events, i)) by {
        if closed_within(events, i) {
            let k = choose|k: int| 0 <= k < i && #[trigger] events[k] is CloseSignal;
            assert(0 <= k < j && events[k] is CloseSignal);
        }
    }
    assert(!closed_within(events, i + 1)) by {
        if closed_within(events, i + 1) {
            let k = choose|k: int| 0 <= k < i + 1 && #[trigger] events[k] is CloseSignal;
            assert(0 <= k < j && events[k] is CloseSignal);
        }
    }
    lemma_runs_until_close_signal(events, i);
    lemma_runs_until_close_signal(events, i + 1);
    lemma_runs_until_close_signal(events, j);
}

/// The close signal is final: the loop answers it by leaving, and from then
/// on it is closed, relays nothing and does not close the connection,
/// whatever is reported to it.
pub proof fn lemma_nothing_after_close_signal(
    assoc_id: u16,
    events: Seq<LoopEvent>,
    k: int,
    i: int,
)
    requires
        0 <= k <= i < events.len(),
        events[k] is CloseSignal,
    ensures
        action_at(assoc_id, events, i) == LoopAction::Exit,
        state_after(LoopState::Running, events.take(i + 1)) == LoopState::Closed,
{
    assert(closed_within(events, i + 1));
    lemma_runs_until_close_signal(events, i + 1);
    lemma_runs_until_close_signal(events, i);
    if k < i {
        assert(closed_within(events, i));
    }
}

/// The connection is closed once for each time the idle timer fires in a
/// running loop, and for nothing else: the action on an event is to close the
/// connection exactly if the event is an idle timeout and no close signal
/// came before it. The loop runs on after it.
pub proof fn lemma_connection_closed_once_per_idle_timeout(
    assoc_id: u16,
    events: Seq<LoopEvent>,
    i: int,
)
    requires
        0 <= i < events.len(),
    ensures
        action_at(assoc_id, events, i) is CloseConnection <==> (events[i] is IdleTimeout
            && !closed_within(events, i)),
        events[i] is IdleTimeout && !closed_within(events, i) ==> state_after(
            LoopState::Running,
            events.take(i + 1),
        ) == LoopState::Running,
{
    lemma_runs_until_close_signal(events, i);
    lemma_runs_until_close_signal(events, i + 1);
    if events[i] is IdleTimeout && !closed_within(events, i) {
        assert(!closed_within(events, i + 1)) by {
            if closed_within(events, i + 1) {
                let k = choose|k: int| 0 <= k < i + 1 && #[trigger] events[k] is CloseSignal;
                assert(k < i);
            }
        }
    }
}

/// A datagram is relayed exactly while the loop runs: the action on an event
/// is a relay exactly if the event is a received datagram and no close signal
/// came before it, and the relay carries that datagram's payload and origin
/// under the session's association identifier.
pub proof fn lemma_relay_per_datagram(assoc_id: u16, events: Seq<LoopEvent>, i: int)
    requires
        0 <= i < events.len(),
    ensures
        action_at(assoc_id, events, i) is Relay <==> (events[i] matches LoopEvent::Received(Ok(_))
            && !closed_within(events, i)),
        action_at(assoc_id, events, i) matches LoopAction::Relay { payload, origin, assoc_id: id }
            ==> (id == assoc_id && events[i] == LoopEvent::Received(Ok((payload, origin)))),
{
    lemma_runs_until_close_signal(events, i);
}

} // verus!
