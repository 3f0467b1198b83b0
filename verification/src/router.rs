//! The request router: one request in, one response out, with every call to
//! a collaborator sequenced in between.
//!
//! The router is a state machine that holds no value between requests. It
//! never decodes, accepts, forwards or executes by itself: each step names
//! the call it wants made and the next step takes what the call gave back.
//! The type parameters stand for the values that only the collaborators
//! understand: `T` a decoded transaction, `A` an accepted transaction, `Q` a
//! query, `M` a peer message.

use crate::outbox::ChannelClosed;
use crate::wire::{
    classify, error_response, error_status, ok_response, ok_response_with, ok_status, ok_with,
    route_of, Route,
};
use vstd::prelude::*;

verus! {

/// An inbound request: the route it asks for and the bytes it carries.
#[derive(Debug, PartialEq, Eq)]
pub struct Request {
    pub path: String,
    pub payload: Vec<u8>,
}

/// A payload after its decoder has understood it.
#[derive(Debug, PartialEq, Eq)]
pub enum Decoded<T, Q, M> {
    Transaction(T),
    Query(Q),
    Message(M),
}

/// A value on its way to an outbox.
#[derive(Debug, PartialEq, Eq)]
pub enum Parcel<A, M> {
    Transaction(A),
    Message(M),
}

/// The two outboxes.
#[derive(Clone, Copy, Debug, PartialEq, Eq, Structural)]
pub enum Channel {
    Transactions,
    Messages,
}

/// A call the router wants made on its behalf.
#[derive(Debug, PartialEq, Eq)]
pub enum Call<T, A, Q, M> {
    /// Decode these bytes as the value that the route carries.
    Decode(Route, Vec<u8>),
    /// Run the acceptance check on a decoded transaction.
    Accept(T),
    /// Push the parcel onto the outbox of its kind.
    Forward(Parcel<A, M>),
    /// Execute the query against the state view, holding its lock for the
    /// length of this call and no longer.
    Execute(Q),
}

/// What came back from the outside: a request, or the result of a call.
/// A failure carries the collaborator's own account of it.
#[derive(Debug, PartialEq, Eq)]
pub enum Event<T, A, Q, M> {
    Arrived(Request),
    Decoded(Result<Decoded<T, Q, M>, String>),
    Accepted(Result<A, String>),
    Forwarded(Result<(), ChannelClosed>),
    Executed(Result<Vec<u8>, String>),
}

/// Why a request was answered with the error status.
#[derive(Clone, Copy, Debug, PartialEq, Eq, Structural)]
pub enum FailureKind {
    /// The payload did not decode as the value of its route.
    Decode(Route),
    /// The transaction decoded and then failed the acceptance check.
    Acceptance,
    /// The query decoded and then failed to execute.
    Execution,
}

/// The record of a failed request, for the operator and never for the client.
#[derive(Debug, PartialEq, Eq)]
pub struct Failure {
    pub kind: FailureKind,
    pub cause: String,
}

/// The end of a request that is answered.
#[derive(Debug, PartialEq, Eq)]
pub struct Reply {
    /// The bytes to write back to the client.
    pub response: Vec<u8>,
    /// What went wrong, if anything did.
    pub failure: Option<Failure>,
}

/// A condition that ends the connection without any response.
#[derive(Debug, PartialEq, Eq)]
pub enum Fault {
    /// The request names a path outside the routing table.
    UnsupportedRoute(String),
    /// The consumer of an outbox is gone.
    ChannelClosed(Channel),
}

/// What the router wants done next.
#[derive(Debug, PartialEq, Eq)]
pub enum Action<T, A, Q, M> {
    Call(Call<T, A, Q, M>),
    Respond(Reply),
    Abort(Fault),
}

/// Where the router stands with the current request.
#[derive(Clone, Copy, Debug, PartialEq, Eq, Structural)]
pub enum Stage {
    /// Nothing has been looked at yet.
    Received,
    /// The payload is with the decoder of the route.
    Decoding(Route),
    /// The decoded transaction is with the acceptance check.
    Accepting,
    /// A parcel is on its way to an outbox.
    Forwarding(Channel),
    /// The query is with the engine.
    Querying,
    /// A response was produced.
    Responded,
    /// The request ended in a fault.
    Aborted,
}

/// A [`Request`] as contracts see it: bytes and text by their contents.
pub struct RequestView {
    pub path: Seq<char>,
    pub payload: Seq<u8>,
}

/// A [`Call`] as contracts see it: bytes and text by their contents.
pub enum CallView<T, A, Q, M> {
    Decode(Route, Seq<u8>),
    Accept(T),
    Forward(Parcel<A, M>),
    Execute(Q),
}

/// An [`Event`] as contracts see it: bytes and text by their contents.
pub enum EventView<T, A, Q, M> {
    Arrived(RequestView),
    Decoded(Result<Decoded<T, Q, M>, Seq<char>>),
    Accepted(Result<A, Seq<char>>),
    Forwarded(Result<(), ChannelClosed>),
    Executed(Result<Seq<u8>, Seq<char>>),
}

/// A [`Failure`] as contracts see it: bytes and text by their contents.
pub struct FailureView {
    pub kind: FailureKind,
    pub cause: Seq<char>,
}

/// A [`Reply`] as contracts see it: bytes and text by their contents.
pub struct ReplyView {
    pub response: Seq<u8>,
    pub failure: Option<FailureView>,
}

/// A [`Fault`] as contracts see it: bytes and text by their contents.
pub enum FaultView {
    UnsupportedRoute(Seq<char>),
    ChannelClosed(Channel),
}

/// An [`Action`] as contracts see it: bytes and text by their contents.
pub enum ActionView<T, A, Q, M> {
    Call(CallView<T, A, Q, M>),
    Respond(ReplyView),
    Abort(FaultView),
}

impl View for Request {
    type V = RequestView;

    open spec fn view(&self) -> RequestView {
        RequestView { path: self.path@, payload: self.payload@ }
    }
}

impl<T, A, Q, M> View for Call<T, A, Q, M> {
    type V = CallView<T, A, Q, M>;

    open spec fn view(&self) -> CallView<T, A, Q, M> {
        match *self {
            Call::Decode(route, payload) => CallView::Decode(route, payload@),
            Call::Accept(transaction) => CallView::Accept(transaction),
            Call::Forward(parcel) => CallView::Forward(parcel),
            Call::Execute(query) => CallView::Execute(query),
        }
    }
}

impl<T, A, Q, M> View for Event<T, A, Q, M> {
    type V = EventView<T, A, Q, M>;

    open spec fn view(&self) -> EventView<T, A, Q, M> {
        match *self {
            Event::Arrived(request) => EventView::Arrived(request@),
            Event::Decoded(Ok(decoded)) => EventView::Decoded(Ok(decoded)),
            Event::Decoded(Err(cause)) => EventView::Decoded(Err(cause@)),
            Event::Accepted(Ok(accepted)) => EventView::Accepted(Ok(accepted)),
            Event::Accepted(Err(cause)) => EventView::Accepted(Err(cause@)),
            Event::Forwarded(outcome) => EventView::Forwarded(outcome),
            Event::Executed(Ok(result)) => EventView::Executed(Ok(result@)),
            Event::Executed(Err(cause)) => EventView::Executed(Err(cause@)),
        }
    }
}

impl View for Failure {
    type V = FailureView;

    open spec fn view(&self) -> FailureView {
        FailureView { kind: self.kind, cause: self.cause@ }
    }
}

impl View for Reply {
    type V = ReplyView;

    open spec fn view(&self) -> ReplyView {
        ReplyView {
            response: self.response@,
            failure: match self.failure {
                Some(failure) => Some(failure@),
                None => None,
            },
        }
    }
}

impl View for Fault {
    type V = FaultView;

    open spec fn view(&self) -> FaultView {
        match *self {
            Fault::UnsupportedRoute(path) => FaultView::UnsupportedRoute(path@),
            Fault::ChannelClosed(channel) => FaultView::ChannelClosed(channel),
        }
    }
}

impl<T, A, Q, M> View for Action<T, A, Q, M> {
    type V = ActionView<T, A, Q, M>;

    open spec fn view(&self) -> ActionView<T, A, Q, M> {
        match *self {
            Action::Call(call) => ActionView::Call(call@),
            Action::Respond(reply) => ActionView::Respond(reply@),
            Action::Abort(fault) => ActionView::Abort(fault@),
        }
    }
}

/// The reply to a request that was carried out and has nothing to report.
pub open spec fn done() -> ReplyView {
    ReplyView { response: ok_status(), failure: None }
}

/// The reply to a query that was answered with `result`.
pub open spec fn answered(result: Seq<u8>) -> ReplyView {
    ReplyView { response: ok_with(result), failure: None }
}

/// The reply to a request that failed: the error status and nothing else on
/// the wire, the kind and the cause on the record.
pub open spec fn failed(kind: FailureKind, cause: Seq<char>) -> ReplyView {
    ReplyView { response: error_status(), failure: Some(FailureView { kind, cause }) }
}

/// The routing table. In `stage`, on `event`, the router moves to the stage
/// and wants the action given here; an event that the stage does not wait
/// for gives `None`.
pub open spec fn next<T, A, Q, M>(stage: Stage, event: EventView<T, A, Q, M>) -> Option<
    (Stage, ActionView<T, A, Q, M>),
> {
    match (stage, event) {
        (Stage::Received, EventView::Arrived(request)) => Some(
            match route_of(request.path) {
                Some(route) => (
                    Stage::Decoding(route),
                    ActionView::Call(CallView::Decode(route, request.payload)),
                ),
                None => (
                    Stage::Aborted,
                    ActionView::Abort(FaultView::UnsupportedRoute(request.path)),
                ),
            },
        ),
        (Stage::Decoding(route), EventView::Decoded(Err(cause))) => Some(
            (Stage::Responded, ActionView::Respond(failed(FailureKind::Decode(route), cause))),
        ),
        (
            Stage::Decoding(Route::Instruction),
            EventView::Decoded(Ok(Decoded::Transaction(transaction))),
        ) => Some((Stage::Accepting, ActionView::Call(CallView::Accept(transaction)))),
        (Stage::Decoding(Route::Query), EventView::Decoded(Ok(Decoded::Query(query)))) => Some(
            (Stage::Querying, ActionView::Call(CallView::Execute(query))),
        ),
        (Stage::Decoding(Route::Block), EventView::Decoded(Ok(Decoded::Message(message)))) => Some(
            (
                Stage::Forwarding(Channel::Messages),
                ActionView::Call(CallView::Forward(Parcel::Message(message))),
            ),
        ),
        (Stage::Accepting, EventView::Accepted(Ok(accepted))) => Some(
            (
                Stage::Forwarding(Channel::Transactions),
                ActionView::Call(CallView::Forward(Parcel::Transaction(accepted))),
            ),
        ),
        (Stage::Accepting, EventView::Accepted(Err(cause))) => Some(
            (Stage::Responded, ActionView::Respond(failed(FailureKind::Acceptance, cause))),
        ),
        (Stage::Forwarding(_), EventView::Forwarded(Ok(()))) => Some(
            (Stage::Responded, ActionView::Respond(done())),
        ),
        (Stage::Forwarding(channel), EventView::Forwarded(Err(_))) => Some(
            (Stage::Aborted, ActionView::Abort(FaultView::ChannelClosed(channel))),
        ),
        (Stage::Querying, EventView::Executed(Ok(result))) => Some(
            (Stage::Responded, ActionView::Respond(answered(result))),
        ),
        (Stage::Querying, EventView::Executed(Err(cause))) => Some(
            (Stage::Responded, ActionView::Respond(failed(FailureKind::Execution, cause))),
        ),
        _ => None,
    }
}

/// Whether `taken` is the step that the routing table gives.
pub open spec fn follows<T, A, Q, M>(
    taken: Option<(Stage, Action<T, A, Q, M>)>,
    stage: Stage,
    event: EventView<T, A, Q, M>,
) -> bool {
    match taken {
        Some((then, action)) => next(stage, event) == Some((then, action@)),
        None => next(stage, event) is None,
    }
}

fn fail(kind: FailureKind, cause: String) -> (reply: Reply)
    ensures
        reply@ == failed(kind, cause@),
{
    Reply { response: error_response(), failure: Some(Failure { kind, cause }) }
}

fn receive<T, A, Q, M>(request: Request) -> (taken: (Stage, Action<T, A, Q, M>))
    ensures
        next::<T, A, Q, M>(Stage::Received, EventView::Arrived(request@)) == Some(
            (taken.0, taken.1@),
        ),
{
    let Request { path, payload } = request;
    match classify(path.as_str()) {
        Some(route) => (Stage::Decoding(route), Action::Call(Call::Decode(route, payload))),
        None => (Stage::Aborted, Action::Abort(Fault::UnsupportedRoute(path))),
    }
}

fn decoded<T, A, Q, M>(route: Route, value: Decoded<T, Q, M>) -> (taken: Option<
    (Stage, Action<T, A, Q, M>),
>)
    ensures
        follows(taken, Stage::Decoding(route), EventView::Decoded(Ok(value))),
{
    match (route, value) {
        (Route::Instruction, Decoded::Transaction(transaction)) => Some(
            (Stage::Accepting, Action::Call(Call::Accept(transaction))),
        ),
        (Route::Query, Decoded::Query(query)) => Some(
            (Stage::Querying, Action::Call(Call::Execute(query))),
        ),
        (Route::Block, Decoded::Message(message)) => Some(
            (
                Stage::Forwarding(Channel::Messages),
                Action::Call(Call::Forward(Parcel::Message(message))),
            ),
        ),
        _ => None,
    }
}

/// Takes one step of the router: from `stage`, on `event`, to the stage and
/// the action that the routing table gives. An event that `stage` does not
/// wait for is refused with `None`.
pub fn step<T, A, Q, M>(stage: Stage, event: Event<T, A, Q, M>) -> (taken: Option<
    (Stage, Action<T, A, Q, M>),
>)
    ensures
        follows(taken, stage, event@),
{
    match stage {
        Stage::Received => match event {
            Event::Arrived(request) => Some(receive(request)),
            _ => None,
        },
        Stage::Decoding(route) => match event {
            Event::Decoded(Ok(value)) => decoded(route, value),
            Event::Decoded(Err(cause)) => Some(
                (Stage::Responded, Action::Respond(fail(FailureKind::Decode(route), cause))),
            ),
            _ => None,
        },
        Stage::Accepting => match event {
            Event::Accepted(Ok(accepted)) => Some(
                (
                    Stage::Forwarding(Channel::Transactions),
                    Action::Call(Call::Forward(Parcel::Transaction(accepted))),
                ),
            ),
            Event::Accepted(Err(cause)) => Some(
                (Stage::Responded, Action::Respond(fail(FailureKind::Acceptance, cause))),
            ),
            _ => None,
        },
        Stage::Forwarding(channel) => match event {
            Event::Forwarded(Ok(())) => Some(
                (
                    Stage::Responded,
                    Action::Respond(Reply { response: ok_response(), failure: None }),
                ),
            ),
            Event::Forwarded(Err(_)) => Some(
                (Stage::Aborted, Action::Abort(Fault::ChannelClosed(channel))),
            ),
            _ => None,
        },
        Stage::Querying => match event {
            Event::Executed(Ok(result)) => Some(
                (
                    Stage::Responded,
                    Action::Respond(Reply { response: ok_response_with(result), failure: None }),
                ),
            ),
            Event::Executed(Err(cause)) => Some(
                (Stage::Responded, Action::Respond(fail(FailureKind::Execution, cause))),
            ),
            _ => None,
        },
        Stage::Responded => None,
        Stage::Aborted => None,
    }
}

} // verus!
