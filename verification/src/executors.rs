//! The life of one request as a state machine. The caller reads from the
//! transport, calls the handler and reads files; after each of these it
//! reports what happened, and is told what to do next.

use vstd::prelude::*;
use crate::assoc::Pairs;
use crate::body::{overflows, BodyBuffer};
use crate::error::ServerError;
use crate::method::Method;
use crate::response::{interpret_result, interpreted, BodyKind, BodyKindView};

verus! {

/// Which kind of user logic a request is being run through.
#[derive(Clone, Copy, Debug, PartialEq, Eq, Structural)]
pub enum PipelineKind {
    /// A route handler, which returns the fields of one response.
    Handler,
    /// A pre-dispatch hook, which returns a list of response fragments.
    Middleware,
}

/// What a finished execution hands over.
#[derive(Debug, PartialEq, Eq)]
pub enum Reply {
    /// A response ready to be put together.
    Response { status_code: String, body: Vec<u8> },
    /// The fragments a pre-dispatch hook returned.
    Fragments(Vec<Vec<(String, String)>>),
}

/// Where an execution stands.
#[derive(Debug, PartialEq, Eq)]
pub enum Execution {
    /// The body is being read; `body` is what has arrived.
    Admitting { kind: PipelineKind, body: BodyBuffer, ceiling: usize },
    /// The handler has been called and has not returned.
    Invoking { kind: PipelineKind },
    /// The handler named a file, which is being read.
    Resolving { status_code: String },
    /// Nothing more happens.
    Finished,
}

/// What the caller reports.
#[derive(Debug, PartialEq, Eq)]
pub enum ExecutionEvent {
    /// The transport delivered the next chunk of the body.
    Chunk(Vec<u8>),
    /// The transport delivered the end of the body.
    EndOfBody,
    /// The transport failed.
    PayloadFailed,
    /// The handler returned these fields.
    Returned(Vec<(String, String)>),
    /// The pre-dispatch hook returned these fragments.
    ReturnedFragments(Vec<Vec<(String, String)>>),
    /// The handler raised, or its coroutine failed.
    Raised,
    /// The handler returned something that is neither fields nor fragments.
    Unreadable,
    /// The file was read and held these bytes.
    FileRead(Vec<u8>),
    /// The file could not be read.
    FileFailed,
}

/// What the caller is to do next.
#[derive(Debug, PartialEq, Eq)]
pub enum ExecutionAction {
    /// Read the next chunk of the body and report it.
    ReadChunk,
    /// Call the handler with the request, whose body is `body`, and report
    /// what it returns.
    Invoke { body: Option<Vec<u8>> },
    /// Read the file at `path` and report its bytes.
    ReadFile { path: String },
    /// The execution is over, with this outcome.
    Finish(Result<Reply, ServerError>),
    /// The execution was over already.
    Nothing,
}

pub enum ReplyView {
    Response { status_code: Seq<char>, body: Seq<u8> },
    Fragments(Seq<Pairs>),
}

pub enum ExecutionView {
    Admitting { kind: PipelineKind, body: Seq<u8>, ceiling: usize },
    Invoking { kind: PipelineKind },
    Resolving { status_code: Seq<char> },
    Finished,
}

pub enum EventView {
    Chunk(Seq<u8>),
    EndOfBody,
    PayloadFailed,
    Returned(Pairs),
    ReturnedFragments(Seq<Pairs>),
    Raised,
    Unreadable,
    FileRead(Seq<u8>),
    FileFailed,
}

pub enum ActionView {
    ReadChunk,
    Invoke { body: Option<Seq<u8>> },
    ReadFile { path: Seq<char> },
    Finish(Result<ReplyView, ServerError>),
    Nothing,
}

impl View for Reply {
    type V = ReplyView;

    open spec fn view(&self) -> ReplyView {
        match self {
            Reply::Response { status_code, body } => ReplyView::Response {
                status_code: status_code@,
                body: body@,
            },
            Reply::Fragments(fragments) => ReplyView::Fragments(fragments.deep_view()),
        }
    }
}

impl View for Execution {
    type V = ExecutionView;

    open spec fn view(&self) -> ExecutionView {
        match self {
            Execution::Admitting { kind, body, ceiling } => ExecutionView::Admitting {
                kind: *kind,
                body: body@,
                ceiling: *ceiling,
            },
            Execution::Invoking { kind } => ExecutionView::Invoking { kind: *kind },
            Execution::Resolving { status_code } => ExecutionView::Resolving {
                status_code: status_code@,
            },
            Execution::Finished => ExecutionView::Finished,
        }
    }
}

impl View for ExecutionEvent {
    type V = EventView;

    open spec fn view(&self) -> EventView {
        match self {
            ExecutionEvent::Chunk(bytes) => EventView::Chunk(bytes@),
            ExecutionEvent::EndOfBody => EventView::EndOfBody,
            ExecutionEvent::PayloadFailed => EventView::PayloadFailed,
            ExecutionEvent::Returned(fields) => EventView::Returned(fields.deep_view()),
            ExecutionEvent::ReturnedFragments(fragments) => EventView::ReturnedFragments(
                fragments.deep_view(),
            ),
            ExecutionEvent::Raised => EventView::Raised,
            ExecutionEvent::Unreadable => EventView::Unreadable,
            ExecutionEvent::FileRead(bytes) => EventView::FileRead(bytes@),
            ExecutionEvent::FileFailed => EventView::FileFailed,
        }
    }
}

impl View for ExecutionAction {
    type V = ActionView;

    open spec fn view(&self) -> ActionView {
        match self {
            ExecutionAction::ReadChunk => ActionView::ReadChunk,
            ExecutionAction::Invoke { body } => ActionView::Invoke {
                body: match body {
                    Some(bytes) => Some(bytes@),
                    None => None,
                },
            },
            ExecutionAction::ReadFile { path } => ActionView::ReadFile { path: path@ },
            ExecutionAction::Finish(outcome) => ActionView::Finish(
                match outcome {
                    Ok(reply) => Ok(reply@),
                    Err(e) => Err(*e),
                },
            ),
            ExecutionAction::Nothing => ActionView::Nothing,
        }
    }
}

/// The end of an execution in failure.
pub open spec fn failed(e: ServerError) -> (ExecutionView, ActionView) {
    (ExecutionView::Finished, ActionView::Finish(Err(e)))
}

/// How an execution starts: with the reading of the body where the method
/// carries one, with the call of the handler where it does not.
pub open spec fn begun(kind: PipelineKind, method: Method, ceiling: usize) -> (
    ExecutionView,
    ActionView,
) {
    if method.spec_carries_body() {
        (ExecutionView::Admitting { kind, body: Seq::empty(), ceiling }, ActionView::ReadChunk)
    } else {
        (ExecutionView::Invoking { kind }, ActionView::Invoke { body: None })
    }
}

/// What follows the return of a route handler: the end, where the fields
/// describe no response or describe one with its body; the reading of a
/// file, where they name one.
pub open spec fn after_return(fields: Pairs) -> (ExecutionView, ActionView) {
    match interpreted(fields) {
        Err(e) => failed(e),
        Ok(d) => match d.body {
            BodyKindView::Inline(bytes) => (
                ExecutionView::Finished,
                ActionView::Finish(
                    Ok(ReplyView::Response { status_code: d.status_code, body: bytes }),
                ),
            ),
            BodyKindView::StaticFile(path) => (
                ExecutionView::Resolving { status_code: d.status_code },
                ActionView::ReadFile { path },
            ),
        },
    }
}

/// One step of an execution.
///
/// While the body is read, a chunk that fits is added and the next one
/// asked for; a chunk that would take the body past the ceiling ends the
/// execution with `BodyOverflow`. The end of the body leads to the call of
/// the handler. What the handler returns ends the execution, in failure
/// where it has not the shape asked for, or leads to the reading of the file
/// it names, whose bytes become the body as they are.
/// Every failure ends the execution, and so does an event that cannot
/// happen in the state it is reported in. A finished execution stays
/// finished.
pub open spec fn step(state: ExecutionView, event: EventView) -> (ExecutionView, ActionView) {
    match state {
        ExecutionView::Finished => (ExecutionView::Finished, ActionView::Nothing),
        ExecutionView::Admitting { kind, body, ceiling } => match event {
            EventView::Chunk(bytes) => if overflows(body.len(), bytes.len(), ceiling as nat) {
                failed(ServerError::BodyOverflow)
            } else {
                (
                    ExecutionView::Admitting { kind, body: body + bytes, ceiling },
                    ActionView::ReadChunk,
                )
            },
            EventView::EndOfBody => (
                ExecutionView::Invoking { kind },
                ActionView::Invoke { body: Some(body) },
            ),
            EventView::PayloadFailed => failed(ServerError::PayloadError),
            _ => failed(ServerError::UnexpectedEvent),
        },
        ExecutionView::Invoking { kind } => match event {
            EventView::Raised => failed(ServerError::HandlerInvocationError),
            EventView::Unreadable => failed(ServerError::MalformedResponseShape),
            EventView::Returned(fields) => match kind {
                PipelineKind::Handler => after_return(fields),
                PipelineKind::Middleware => failed(ServerError::MalformedResponseShape),
            },
            EventView::ReturnedFragments(fragments) => match kind {
                PipelineKind::Handler => failed(ServerError::MalformedResponseShape),
                PipelineKind::Middleware => (
                    ExecutionView::Finished,
                    ActionView::Finish(Ok(ReplyView::Fragments(fragments))),
                ),
            },
            _ => failed(ServerError::UnexpectedEvent),
        },
        ExecutionView::Resolving { status_code } => match event {
            EventView::FileRead(bytes) => (
                ExecutionView::Finished,
                ActionView::Finish(Ok(ReplyView::Response { status_code, body: bytes })),
            ),
            EventView::FileFailed => failed(ServerError::StaticFileReadError),
            _ => failed(ServerError::UnexpectedEvent),
        },
    }
}

fn fail(e: ServerError) -> (end: (Execution, ExecutionAction))
    ensures
        (end.0@, end.1@) == failed(e),
{
    (Execution::Finished, ExecutionAction::Finish(Err(e)))
}

fn begin(kind: PipelineKind, method: Method, ceiling: usize) -> (start: (
    Execution,
    ExecutionAction,
))
    ensures
        (start.0@, start.1@) == begun(kind, method, ceiling),
{
    if method.carries_body() {
        (Execution::Admitting { kind, body: BodyBuffer::new(), ceiling }, ExecutionAction::ReadChunk)
    } else {
        (Execution::Invoking { kind }, ExecutionAction::Invoke { body: None })
    }
}

/// Starts the execution of a route handler for a request with this method,
/// with `ceiling` as the most bytes its body may have.
pub fn execute_http_function(method: Method, ceiling: usize) -> (start: (
    Execution,
    ExecutionAction,
))
    ensures
        (start.0@, start.1@) == begun(PipelineKind::Handler, method, ceiling),
{
    begin(PipelineKind::Handler, method, ceiling)
}

/// Starts the execution of a pre-dispatch hook for a request with this
/// method, with `ceiling` as the most bytes its body may have.
pub fn execute_middleware_function(method: Method, ceiling: usize) -> (start: (
    Execution,
    ExecutionAction,
))
    ensures
        (start.0@, start.1@) == begun(PipelineKind::Middleware, method, ceiling),
{
    begin(PipelineKind::Middleware, method, ceiling)
}

fn handler_returned(fields: &Vec<(String, String)>) -> (next: (Execution, ExecutionAction))
    ensures
        (next.0@, next.1@) == after_return(fields.deep_view()),
{
    match interpret_result(fields) {
        Err(e) => fail(e),
        Ok(descriptor) => {
            let status_code = descriptor.status_code;
            match descriptor.body {
                BodyKind::Inline(body) => (
                    Execution::Finished,
                    ExecutionAction::Finish(Ok(Reply::Response { status_code, body })),
                ),
                BodyKind::StaticFile(path) => (
                    Execution::Resolving { status_code },
                    ExecutionAction::ReadFile { path },
                ),
            }
        },
    }
}

impl Execution {
    /// Takes what the caller reports and says what to do next.
    pub fn advance(self, event: ExecutionEvent) -> (next: (Execution, ExecutionAction))
        ensures
            (next.0@, next.1@) == step(self@, event@),
    {
        match self {
            Execution::Finished => (Execution::Finished, ExecutionAction::Nothing),
            Execution::Admitting { kind, body, ceiling } => match event {
                ExecutionEvent::Chunk(bytes) => {
                    let mut body = body;
                    match body.accumulate(bytes.as_slice(), ceiling) {
                        Err(_) => fail(ServerError::BodyOverflow),
                        Ok(()) => (
                            Execution::Admitting { kind, body, ceiling },
                            ExecutionAction::ReadChunk,
                        ),
                    }
                },
                ExecutionEvent::EndOfBody => (
                    Execution::Invoking { kind },
                    ExecutionAction::Invoke { body: Some(body.to_vec()) },
                ),
                ExecutionEvent::PayloadFailed => fail(ServerError::PayloadError),
                _ => fail(ServerError::UnexpectedEvent),
            },
            Execution::Invoking { kind } => match event {
                ExecutionEvent::Raised => fail(ServerError::HandlerInvocationError),
                ExecutionEvent::Unreadable => fail(ServerError::MalformedResponseShape),
                ExecutionEvent::Returned(fields) => match kind {
                    PipelineKind::Handler => handler_returned(&fields),
                    PipelineKind::Middleware => fail(ServerError::MalformedResponseShape),
                },
                ExecutionEvent::ReturnedFragments(fragments) => match kind {
                    PipelineKind::Handler => fail(ServerError::MalformedResponseShape),
                    PipelineKind::Middleware => (
                        Execution::Finished,
                        ExecutionAction::Finish(Ok(Reply::Fragments(fragments))),
                    ),
                },
                _ => fail(ServerError::UnexpectedEvent),
            },
            Execution::Resolving { status_code } => match event {
                ExecutionEvent::FileRead(body) => (
                    Execution::Finished,
                    ExecutionAction::Finish(Ok(Reply::Response { status_code, body })),
                ),
                ExecutionEvent::FileFailed => fail(ServerError::StaticFileReadError),
                _ => fail(ServerError::UnexpectedEvent),
            },
        }
    }

    /// The number of bytes of the body read so far, while it is read.
    pub fn bytes_read(&self) -> (n: Option<usize>)
        ensures
            match self@ {
                ExecutionView::Admitting { body, .. } => n == Some(body.len() as usize),
                _ => n is None,
            },
    {
        match self {
            Execution::Admitting { body, .. } => Some(body.len()),
            _ => None,
        }
    }

    /// Whether the handler has been called and has not returned.
    pub fn is_invoking(&self) -> (yes: bool)
        ensures
            yes == (self@ is Invoking),
    {
        match self {
            Execution::Invoking { .. } => true,
            _ => false,
        }
    }

    /// The status code that waits for the file to be read.
    pub fn pending_status(&self) -> (code: Option<&str>)
        ensures
            match self@ {
                ExecutionView::Resolving { status_code } => code is Some && code->0@
                    == status_code,
                _ => code is None,
            },
    {
        match self {
            Execution::Resolving { status_code } => Some(status_code.as_str()),
            _ => None,
        }
    }

    /// Whether nothing more happens.
    pub fn is_finished(&self) -> (done: bool)
        ensures
            done == (self@ is Finished),
    {
        match self {
            Execution::Finished => true,
            _ => false,
        }
    }
}

} // verus!
