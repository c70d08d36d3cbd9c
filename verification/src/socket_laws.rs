//! What holds of the hooks of one connection, whatever arrives on it.

use vstd::prelude::*;
use crate::web_socket_connection::{socket_step, ConnectionState, Hook, SocketEvent};

verus! {

/// The hooks that a run of events calls, in the order of the calls.
pub open spec fn hook_trace(state: ConnectionState, probe_on_ping: bool, events: Seq<SocketEvent>) -> Seq<
    Hook,
>
    decreases events.len(),
{
    if events.len() == 0 {
        Seq::empty()
    } else {
        let (next, action) = socket_step(state, probe_on_ping, events[0]);
        (match action.invoke {
            Some(hook) => seq![hook],
            None => Seq::empty(),
        }) + hook_trace(next, probe_on_ping, events.drop_first())
    }
}

/// The state that a run of events leaves a connection in.
pub open spec fn state_after(state: ConnectionState, probe_on_ping: bool, events: Seq<SocketEvent>) -> ConnectionState
    decreases events.len(),
{
    if events.len() == 0 {
        state
    } else {
        state_after(
            socket_step(state, probe_on_ping, events[0]).0,
            probe_on_ping,
            events.drop_first(),
        )
    }
}

/// The number of text frames among the events that arrive while the
/// connection is open.
pub open spec fn texts_while_open(state: ConnectionState, probe_on_ping: bool, events: Seq<SocketEvent>) -> nat
    decreases events.len(),
{
    if events.len() == 0 {
        0
    } else {
        let next = socket_step(state, probe_on_ping, events[0]).0;
        let here: nat = if state == ConnectionState::Open && events[0] == SocketEvent::Text {
            1
        } else {
            0
        };
        here + texts_while_open(next, probe_on_ping, events.drop_first())
    }
}

/// Calls of `message`, then at most one call of `close`, which is the last.
pub open spec fn messages_then_close(trace: Seq<Hook>) -> bool {
    forall|i: int|
        0 <= i < trace.len() ==> (#[trigger] trace[i]) != Hook::Connect && (trace[i] == Hook::Close
            ==> i == trace.len() - 1)
}

/// One call of `connect`, then calls of `message`, then at most one call of
/// `close`; or no call at all.
pub open spec fn connect_messages_close(trace: Seq<Hook>) -> bool {
    trace.len() == 0 || (trace[0] == Hook::Connect && messages_then_close(trace.drop_first()))
}

/// The number of calls of `message` in a trace.
pub open spec fn message_calls(trace: Seq<Hook>) -> nat
    decreases trace.len(),
{
    if trace.len() == 0 {
        0
    } else {
        (if trace[0] == Hook::Message {
            1nat
        } else {
            0nat
        }) + message_calls(trace.drop_first())
    }
}

/// No ping arrives, or pings do not probe.
pub open spec fn no_probe(probe_on_ping: bool, events: Seq<SocketEvent>) -> bool {
    !probe_on_ping || forall|i: int| 0 <= i < events.len() ==> events[i] != SocketEvent::Ping
}

/// A connection that has closed stays closed and calls no hook.
pub proof fn lemma_closed_is_silent(probe_on_ping: bool, events: Seq<SocketEvent>)
    ensures
        hook_trace(ConnectionState::Closed, probe_on_ping, events) == Seq::<Hook>::empty(),
        state_after(ConnectionState::Closed, probe_on_ping, events) == ConnectionState::Closed,
    decreases events.len(),
{
    if events.len() > 0 {
        lemma_closed_is_silent(probe_on_ping, events.drop_first());
    }
}

proof fn lemma_message_calls_prepend(hook: Hook, rest: Seq<Hook>)
    ensures
        message_calls(seq![hook] + rest) == (if hook == Hook::Message {
            1nat
        } else {
            0nat
        }) + message_calls(rest),
{
    assert((seq![hook] + rest).drop_first() == rest);
}

proof fn lemma_open_trace(probe_on_ping: bool, events: Seq<SocketEvent>)
    requires
        no_probe(probe_on_ping, events),
    ensures
        messages_then_close(hook_trace(ConnectionState::Open, probe_on_ping, events)),
        message_calls(hook_trace(ConnectionState::Open, probe_on_ping, events))
            == texts_while_open(ConnectionState::Open, probe_on_ping, events),
        state_after(ConnectionState::Open, probe_on_ping, events) != ConnectionState::Connecting,
        (state_after(ConnectionState::Open, probe_on_ping, events) == ConnectionState::Closed)
            == (hook_trace(ConnectionState::Open, probe_on_ping, events).len() > 0 && hook_trace(
            ConnectionState::Open,
            probe_on_ping,
            events,
        ).last() == Hook::Close),
    decreases events.len(),
{
    if events.len() > 0 {
        let rest = events.drop_first();
        let (next, action) = socket_step(ConnectionState::Open, probe_on_ping, events[0]);
        let tail = hook_trace(next, probe_on_ping, rest);
        assert(no_probe(probe_on_ping, rest));
        if next == ConnectionState::Closed {
            lemma_closed_is_silent(probe_on_ping, rest);
            lemma_texts_closed(probe_on_ping, rest);
            lemma_message_calls_prepend(Hook::Close, Seq::empty());
        } else {
            lemma_open_trace(probe_on_ping, rest);
            if let Some(hook) = action.invoke {
                lemma_message_calls_prepend(hook, tail);
            }
        }
    }
}

proof fn lemma_texts_closed(probe_on_ping: bool, events: Seq<SocketEvent>)
    ensures
        texts_while_open(ConnectionState::Closed, probe_on_ping, events) == 0,
    decreases events.len(),
{
    if events.len() > 0 {
        lemma_texts_closed(probe_on_ping, events.drop_first());
    }
}

/// On one connection the hooks are called in the order of its life:
/// `connect` once and first, then `message` once for each text frame that
/// arrives while the connection is open, in the order of arrival, then
/// `close` once and last, after which no hook is called. This holds of
/// every run of events on a connection that pings do not probe.
pub proof fn lemma_hooks_follow_the_lifecycle(probe_on_ping: bool, events: Seq<SocketEvent>)
    requires
        no_probe(probe_on_ping, events),
    ensures
        connect_messages_close(hook_trace(ConnectionState::Connecting, probe_on_ping, events)),
        message_calls(hook_trace(ConnectionState::Connecting, probe_on_ping, events))
            == texts_while_open(ConnectionState::Connecting, probe_on_ping, events),
    decreases events.len(),
{
    if events.len() > 0 {
        let rest = events.drop_first();
        let (next, action) = socket_step(ConnectionState::Connecting, probe_on_ping, events[0]);
        let tail = hook_trace(next, probe_on_ping, rest);
        assert(no_probe(probe_on_ping, rest));
        match next {
            ConnectionState::Connecting => {
                lemma_hooks_follow_the_lifecycle(probe_on_ping, rest);
            },
            ConnectionState::Closed => {
                lemma_closed_is_silent(probe_on_ping, rest);
                lemma_texts_closed(probe_on_ping, rest);
            },
            ConnectionState::Open => {
                lemma_open_trace(probe_on_ping, rest);
                lemma_message_calls_prepend(Hook::Connect, tail);
            },
        }
    }
}

/// Each text frame on an open connection calls `message` at the moment it
/// arrives, and nothing else calls it: calls come in the order of arrival.
pub proof fn lemma_message_called_per_text(state: ConnectionState, probe_on_ping: bool, event: SocketEvent)
    ensures
        (socket_step(state, probe_on_ping, event).1.invoke == Some(Hook::Message)) == (state
            == ConnectionState::Open && event == SocketEvent::Text),
{
}

} // verus!
