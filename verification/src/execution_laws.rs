//! What holds of every execution, whatever the caller reports.

use vstd::prelude::*;
use crate::assoc::Pairs;
use crate::error::ServerError;
use crate::executors::{
    begun, step, ActionView, EventView, ExecutionView, PipelineKind, ReplyView,
};
use crate::method::Method;
use crate::response::interpreted;

verus! {

/// The actions that a run of events draws from an execution, one for each
/// event.
pub open spec fn run(state: ExecutionView, events: Seq<EventView>) -> Seq<ActionView>
    decreases events.len(),
{
    if events.len() == 0 {
        Seq::empty()
    } else {
        seq![step(state, events[0]).1] + run(step(state, events[0]).0, events.drop_first())
    }
}

/// The bytes that the chunks among the first `n` events hold together.
pub open spec fn bytes_in(events: Seq<EventView>, n: int) -> int
    decreases n,
{
    if n <= 0 || events.len() == 0 {
        0
    } else {
        (match events[0] {
            EventView::Chunk(bytes) => bytes.len() as int,
            _ => 0,
        }) + bytes_in(events.drop_first(), n - 1)
    }
}

/// The chunks among the first `n` events, end to end.
pub open spec fn chunks_in(events: Seq<EventView>, n: int) -> Seq<u8>
    decreases n,
{
    if n <= 0 || events.len() == 0 {
        Seq::empty()
    } else {
        (match events[0] {
            EventView::Chunk(bytes) => bytes,
            _ => Seq::empty(),
        }) + chunks_in(events.drop_first(), n - 1)
    }
}

/// A run draws one action for each event.
pub proof fn lemma_run_len(state: ExecutionView, events: Seq<EventView>)
    ensures
        run(state, events).len() == events.len(),
    decreases events.len(),
{
    if events.len() > 0 {
        lemma_run_len(step(state, events[0]).0, events.drop_first());
    }
}

/// A finished execution asks for nothing, whatever is reported to it.
pub proof fn lemma_finished_stays(events: Seq<EventView>)
    ensures
        run(ExecutionView::Finished, events).len() == events.len(),
        forall|i: int|
            0 <= i < events.len() ==> run(ExecutionView::Finished, events)[i] == ActionView::Nothing,
    decreases events.len(),
{
    if events.len() > 0 {
        lemma_finished_stays(events.drop_first());
    }
}

proof fn lemma_overflow_from(
    kind: PipelineKind,
    body: Seq<u8>,
    ceiling: usize,
    events: Seq<EventView>,
    k: int,
)
    requires
        body.len() <= ceiling,
        0 <= k < events.len(),
        forall|i: int| 0 <= i <= k ==> events[i] is Chunk,
        body.len() + bytes_in(events, k + 1) > ceiling,
    ensures
        ({
            let actions = run(ExecutionView::Admitting { kind, body, ceiling }, events);
            &&& actions.len() == events.len()
            &&& forall|i: int| 0 <= i < actions.len() ==> !(actions[i] is Invoke)
            &&& forall|i: int| k <= i < actions.len() ==> !(actions[i] is ReadChunk)
            &&& exists|j: int|
                0 <= j <= k && actions[j] == ActionView::Finish(Err(ServerError::BodyOverflow))
        }),
    decreases events.len(),
{
    let state = ExecutionView::Admitting { kind, body, ceiling };
    let actions = run(state, events);
    let rest = events.drop_first();
    lemma_run_len(state, events);
    let bytes = events[0]->Chunk_0;
    if body.len() + bytes.len() > ceiling {
        lemma_finished_stays(rest);
        assert(actions[0] == ActionView::Finish(Err(ServerError::BodyOverflow)));
    } else {
        assert(k >= 1) by {
            if k == 0 {
                assert(bytes_in(rest, 0) == 0);
            }
        }
        let grown = body + bytes;
        lemma_overflow_from(kind, grown, ceiling, rest, k - 1);
        let tail = run(ExecutionView::Admitting { kind, body: grown, ceiling }, rest);
        let j = choose|j: int|
            0 <= j <= k - 1 && tail[j] == ActionView::Finish(Err(ServerError::BodyOverflow));
        assert(actions[j + 1] == tail[j]);
    }
}

/// A body that grows past the ceiling is never handed to the handler. Where
/// the method carries a body and the chunks up to the `k`-th hold more bytes
/// than the ceiling, the execution ends with `BodyOverflow` at one of them,
/// asks for no chunk from the `k`-th on, and at no point asks for the handler
/// to be called, whatever is reported afterwards.
pub proof fn lemma_overflow_never_invokes(
    kind: PipelineKind,
    method: Method,
    ceiling: usize,
    events: Seq<EventView>,
    k: int,
)
    requires
        method.spec_carries_body(),
        0 <= k < events.len(),
        forall|i: int| 0 <= i <= k ==> events[i] is Chunk,
        bytes_in(events, k + 1) > ceiling,
    ensures
        !(begun(kind, method, ceiling).1 is Invoke),
        ({
            let actions = run(begun(kind, method, ceiling).0, events);
            &&& actions.len() == events.len()
            &&& forall|i: int| 0 <= i < actions.len() ==> !(actions[i] is Invoke)
            &&& forall|i: int| k <= i < actions.len() ==> !(actions[i] is ReadChunk)
            &&& exists|j: int|
                0 <= j <= k && actions[j] == ActionView::Finish(Err(ServerError::BodyOverflow))
        }),
{
    lemma_overflow_from(kind, Seq::empty(), ceiling, events, k);
}

proof fn lemma_admitted_from(
    kind: PipelineKind,
    body: Seq<u8>,
    ceiling: usize,
    events: Seq<EventView>,
    k: int,
)
    requires
        0 <= k < events.len(),
        forall|i: int| 0 <= i < k ==> events[i] is Chunk,
        events[k] is EndOfBody,
        body.len() + bytes_in(events, k) <= ceiling,
    ensures
        ({
            let actions = run(ExecutionView::Admitting { kind, body, ceiling }, events);
            &&& actions.len() == events.len()
            &&& forall|i: int| 0 <= i < k ==> actions[i] == ActionView::ReadChunk
            &&& actions[k] == ActionView::Invoke { body: Some(body + chunks_in(events, k)) }
        }),
    decreases events.len(),
{
    let state = ExecutionView::Admitting { kind, body, ceiling };
    let rest = events.drop_first();
    lemma_run_len(state, events);
    if k > 0 {
        let grown = body + events[0]->Chunk_0;
        lemma_bytes_in_nonnegative(rest, k - 1);
        lemma_admitted_from(kind, grown, ceiling, rest, k - 1);
        let tail = run(ExecutionView::Admitting { kind, body: grown, ceiling }, rest);
        assert(run(state, events) == seq![ActionView::ReadChunk] + tail);
        assert(grown + chunks_in(rest, k - 1) == body + chunks_in(events, k));
    }
}

proof fn lemma_bytes_in_nonnegative(events: Seq<EventView>, n: int)
    ensures
        bytes_in(events, n) >= 0,
    decreases n,
{
    if n > 0 && events.len() > 0 {
        lemma_bytes_in_nonnegative(events.drop_first(), n - 1);
    }
}

/// A body within the ceiling reaches the handler whole and in order. Where
/// the method carries a body, `k` chunks that hold no more bytes than the
/// ceiling are each answered by the request for the next, and the end of the
/// body by the call of the handler with the chunks end to end.
pub proof fn lemma_admitted_body_is_chunks(
    kind: PipelineKind,
    method: Method,
    ceiling: usize,
    events: Seq<EventView>,
    k: int,
)
    requires
        method.spec_carries_body(),
        0 <= k < events.len(),
        forall|i: int| 0 <= i < k ==> events[i] is Chunk,
        events[k] is EndOfBody,
        bytes_in(events, k) <= ceiling,
    ensures
        begun(kind, method, ceiling).1 == ActionView::ReadChunk,
        ({
            let actions = run(begun(kind, method, ceiling).0, events);
            &&& actions.len() == events.len()
            &&& forall|i: int| 0 <= i < k ==> actions[i] == ActionView::ReadChunk
            &&& actions[k] == ActionView::Invoke { body: Some(chunks_in(events, k)) }
        }),
{
    lemma_admitted_from(kind, Seq::empty(), ceiling, events, k);
}

/// A request whose method carries no body goes to the handler at once and
/// without a body.
pub proof fn lemma_bodiless_invokes_at_once(kind: PipelineKind, method: Method, ceiling: usize)
    requires
        !method.spec_carries_body(),
    ensures
        begun(kind, method, ceiling) == (
            ExecutionView::Invoking { kind },
            ActionView::Invoke { body: None },
        ),
{
}

/// A file is read only in answer to the handler's return, never before the
/// handler was called.
pub proof fn lemma_file_read_follows_return(state: ExecutionView, event: EventView)
    requires
        step(state, event).1 is ReadFile,
    ensures
        state == (ExecutionView::Invoking { kind: PipelineKind::Handler }),
        event is Returned,
{
}

/// The body of a file response is the file as it is when it is read: where
/// the handler names a file, the execution asks for that file, and whatever
/// bytes are then reported become the body, under the status code that the
/// handler gave.
pub proof fn lemma_static_file_body_is_file_contents(fields: Pairs, contents: Seq<u8>)
    requires
        interpreted(fields) is Ok,
        interpreted(fields)->Ok_0.body is StaticFile,
    ensures
        ({
            let returned = step(
                ExecutionView::Invoking { kind: PipelineKind::Handler },
                EventView::Returned(fields),
            );
            let read = step(returned.0, EventView::FileRead(contents));
            &&& returned.1 == ActionView::ReadFile {
                path: interpreted(fields)->Ok_0.body->StaticFile_0,
            }
            &&& read == (
                ExecutionView::Finished,
                ActionView::Finish(
                    Ok(
                        ReplyView::Response {
                            status_code: interpreted(fields)->Ok_0.status_code,
                            body: contents,
                        },
                    ),
                ),
            )
        }),
{
}

proof fn lemma_no_call_after_admission(state: ExecutionView, events: Seq<EventView>)
    requires
        !(state is Admitting),
    ensures
        forall|i: int| 0 <= i < events.len() ==> !(run(state, events)[i] is Invoke),
        forall|i: int| 0 <= i < events.len() ==> !(run(state, events)[i] is ReadChunk),
    decreases events.len(),
{
    if events.len() > 0 {
        let next = step(state, events[0]).0;
        lemma_run_len(next, events.drop_first());
        lemma_no_call_after_admission(next, events.drop_first());
    }
}

proof fn lemma_one_call_from(state: ExecutionView, events: Seq<EventView>)
    ensures
        forall|i: int, j: int|
            0 <= i < j < events.len() ==> !(run(state, events)[i] is Invoke && run(
                state,
                events,
            )[j] is Invoke),
        forall|i: int, j: int|
            0 <= i < j < events.len() && run(state, events)[i] is Finish ==> run(state, events)[j]
                == ActionView::Nothing,
    decreases events.len(),
{
    if events.len() > 0 {
        let (next, action) = step(state, events[0]);
        let rest = events.drop_first();
        lemma_run_len(next, rest);
        lemma_one_call_from(next, rest);
        if action is Invoke {
            lemma_no_call_after_admission(next, rest);
        }
        if action is Finish {
            lemma_finished_stays(rest);
        }
    }
}

/// The handler is called at most once for a request, and an execution ends
/// at most once: after its end nothing more is asked for, whatever is
/// reported.
pub proof fn lemma_one_call_one_end(
    kind: PipelineKind,
    method: Method,
    ceiling: usize,
    events: Seq<EventView>,
)
    ensures
        ({
            let start = begun(kind, method, ceiling);
            let actions = seq![start.1] + run(start.0, events);
            &&& actions.len() == events.len() + 1
            &&& forall|i: int, j: int|
                0 <= i < j < actions.len() ==> !(actions[i] is Invoke && actions[j] is Invoke)
            &&& forall|i: int, j: int|
                0 <= i < j < actions.len() && actions[i] is Finish ==> actions[j]
                    == ActionView::Nothing
        }),
{
    let start = begun(kind, method, ceiling);
    lemma_run_len(start.0, events);
    lemma_one_call_from(start.0, events);
    if start.1 is Invoke {
        lemma_no_call_after_admission(start.0, events);
    }
}

/// The body read so far is within the ceiling.
pub open spec fn within_ceiling(state: ExecutionView) -> bool {
    state matches ExecutionView::Admitting { body, ceiling, .. } ==> body.len() <= ceiling
}

/// The body never grows past the ceiling: an execution starts within it,
/// every step keeps it there, and a body that is handed to the handler is
/// no longer than the ceiling under which it was read.
pub proof fn lemma_body_stays_within_ceiling(
    kind: PipelineKind,
    method: Method,
    ceiling: usize,
    state: ExecutionView,
    event: EventView,
)
    requires
        within_ceiling(state),
    ensures
        within_ceiling(begun(kind, method, ceiling).0),
        within_ceiling(step(state, event).0),
        state matches ExecutionView::Admitting { ceiling: limit, .. } ==> (step(
            state,
            event,
        ).1 matches ActionView::Invoke { body: Some(bytes) } ==> bytes.len() <= limit),
{
}

} // verus!
