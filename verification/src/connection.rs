//! The life of one connection: read a request, route it, write the response,
//! and again, until the stream ends or a fault ends it.
//!
//! Like the router it drives, a connection is a state machine that performs
//! nothing by itself. Each connection has a state of its own, so what
//! happens on one connection cannot move another.

use crate::exchange::{lemma_message_path, lemma_query_path, lemma_transaction_path, Peers};
use crate::router::{
    failed, Action, ActionView, Call, CallView, Decoded, Event, EventView, FailureKind, Fault,
    FaultView, Reply, ReplyView, Request, RequestView, Stage,
};
use crate::wire::{route_of, Route};
use vstd::prelude::*;

verus! {

/// Where a connection stands.
#[derive(Clone, Copy, Debug, PartialEq, Eq, Structural)]
pub enum Link {
    /// Waiting for the next request on the stream.
    Reading,
    /// A request is with the router, which waits for the result of a call.
    Routing(Stage),
    /// A response is being written back.
    Writing,
    /// The connection is over.
    Closed,
}

/// Why a connection ended.
#[derive(Debug, PartialEq, Eq)]
pub enum Closure {
    /// The stream was closed, or reading from it or writing to it failed.
    Transport,
    /// The router gave up on a request.
    Fault(Fault),
}

/// What the stream or a collaborator reported.
#[derive(Debug, PartialEq, Eq)]
pub enum Signal<T, A, Q, M> {
    /// A request was read from the stream.
    Request(Request),
    /// The stream gave no further request.
    ReadFailed,
    /// The call that the router asked for has come back.
    Answer(Event<T, A, Q, M>),
    /// The response was written.
    Written,
    /// The response could not be written.
    WriteFailed,
}

/// What is to be done next on the connection.
#[derive(Debug, PartialEq, Eq)]
pub enum Directive<T, A, Q, M> {
    /// Read the next request from the stream.
    Read,
    /// Make this call for the router.
    Call(Call<T, A, Q, M>),
    /// Write the reply's response to the stream and keep its failure, if it
    /// has one, for the operator.
    Write(Reply),
    /// Stop serving this connection.
    Close(Closure),
}

/// A [`Closure`] as contracts see it: bytes and text by their contents.
pub enum ClosureView {
    Transport,
    Fault(FaultView),
}

/// A [`Signal`] as contracts see it: bytes and text by their contents.
pub enum SignalView<T, A, Q, M> {
    Request(RequestView),
    ReadFailed,
    Answer(EventView<T, A, Q, M>),
    Written,
    WriteFailed,
}

/// A [`Directive`] as contracts see it: bytes and text by their contents.
pub enum DirectiveView<T, A, Q, M> {
    Read,
    Call(CallView<T, A, Q, M>),
    Write(ReplyView),
    Close(ClosureView),
}

impl View for Closure {
    type V = ClosureView;

    open spec fn view(&self) -> ClosureView {
        match *self {
            Closure::Transport => ClosureView::Transport,
            Closure::Fault(fault) => ClosureView::Fault(fault@),
        }
    }
}

impl<T, A, Q, M> View for Signal<T, A, Q, M> {
    type V = SignalView<T, A, Q, M>;

    open spec fn view(&self) -> SignalView<T, A, Q, M> {
        match *self {
            Signal::Request(request) => SignalView::Request(request@),
            Signal::ReadFailed => SignalView::ReadFailed,
            Signal::Answer(event) => SignalView::Answer(event@),
            Signal::Written => SignalView::Written,
            Signal::WriteFailed => SignalView::WriteFailed,
        }
    }
}

impl<T, A, Q, M> View for Directive<T, A, Q, M> {
    type V = DirectiveView<T, A, Q, M>;

    open spec fn view(&self) -> DirectiveView<T, A, Q, M> {
        match *self {
            Directive::Read => DirectiveView::Read,
            Directive::Call(call) => DirectiveView::Call(call@),
            Directive::Write(reply) => DirectiveView::Write(reply@),
            Directive::Close(closure) => DirectiveView::Close(closure@),
        }
    }
}

/// How loudly the operator is to be told of something.
#[derive(Clone, Copy, Debug, PartialEq, Eq, Structural)]
pub enum Severity {
    /// The stream of a connection ended.
    Notice,
    /// A request was answered with the error status.
    Error,
    /// The router gave up on a request: the routing table does not cover
    /// what the listener let in, or a pipeline behind the gateway is gone.
    Critical,
}

impl Link {
    /// The links a connection can be in: while a request is with the router,
    /// the router waits for the result of a call.
    pub open spec fn wf(self) -> bool {
        match self {
            Link::Routing(stage) => stage is Decoding || stage is Accepting || stage is Forwarding
                || stage is Querying,
            _ => true,
        }
    }
}

/// What a step of the router means for the connection: a call is passed on,
/// a reply is written, a fault closes the connection.
pub open spec fn relay<T, A, Q, M>(stage: Stage, action: ActionView<T, A, Q, M>) -> (
    Link,
    DirectiveView<T, A, Q, M>,
) {
    match action {
        ActionView::Call(call) => (Link::Routing(stage), DirectiveView::Call(call)),
        ActionView::Respond(reply) => (Link::Writing, DirectiveView::Write(reply)),
        ActionView::Abort(fault) => (Link::Closed, DirectiveView::Close(ClosureView::Fault(fault))),
    }
}

/// The transitions of a connection. A signal that the link does not wait
/// for gives `None`.
pub open spec fn next<T, A, Q, M>(link: Link, signal: SignalView<T, A, Q, M>) -> Option<
    (Link, DirectiveView<T, A, Q, M>),
> {
    match (link, signal) {
        (Link::Reading, SignalView::Request(request)) => match crate::router::next::<T, A, Q, M>(
            Stage::Received,
            EventView::Arrived(request),
        ) {
            Some((stage, action)) => Some(relay(stage, action)),
            None => None,
        },
        (Link::Reading, SignalView::ReadFailed) => Some(
            (Link::Closed, DirectiveView::Close(ClosureView::Transport)),
        ),
        (Link::Routing(stage), SignalView::Answer(event)) => match crate::router::next(
            stage,
            event,
        ) {
            Some((stage, action)) => Some(relay(stage, action)),
            None => None,
        },
        (Link::Writing, SignalView::Written) => Some((Link::Reading, DirectiveView::Read)),
        (Link::Writing, SignalView::WriteFailed) => Some(
            (Link::Closed, DirectiveView::Close(ClosureView::Transport)),
        ),
        _ => None,
    }
}

/// What the operator is to be told of `directive`, if anything: a failed
/// request is an error, the end of a stream a notice, and a fault of the
/// router is reported at the highest severity there is.
pub open spec fn severity_of<T, A, Q, M>(directive: DirectiveView<T, A, Q, M>) -> Option<
    Severity,
> {
    match directive {
        DirectiveView::Write(reply) => if reply.failure is Some {
            Some(Severity::Error)
        } else {
            None
        },
        DirectiveView::Close(ClosureView::Transport) => Some(Severity::Notice),
        DirectiveView::Close(ClosureView::Fault(_)) => Some(Severity::Critical),
        _ => None,
    }
}

/// Whether `signal` is what can come back once `directive` is carried out:
/// a request or the end of the stream for a read, the result of the call
/// for a call (with a decoded value of the route's own kind), the fate of
/// the write for a write.
pub open spec fn answers<T, A, Q, M>(
    directive: DirectiveView<T, A, Q, M>,
    signal: SignalView<T, A, Q, M>,
) -> bool {
    match directive {
        DirectiveView::Read => signal is Request || signal is ReadFailed,
        DirectiveView::Write(_) => signal is Written || signal is WriteFailed,
        DirectiveView::Close(_) => false,
        DirectiveView::Call(call) => match signal {
            SignalView::Answer(event) => match (call, event) {
                (CallView::Decode(_, _), EventView::Decoded(Err(_))) => true,
                (CallView::Decode(route, _), EventView::Decoded(Ok(value))) => match route {
                    Route::Instruction => value is Transaction,
                    Route::Query => value is Query,
                    Route::Block => value is Message,
                },
                (CallView::Accept(_), EventView::Accepted(_)) => true,
                (CallView::Forward(_), EventView::Forwarded(_)) => true,
                (CallView::Execute(_), EventView::Executed(_)) => true,
                _ => false,
            },
            _ => false,
        },
    }
}

/// Whether `taken` is the transition that `next` gives.
pub open spec fn follows<T, A, Q, M>(
    taken: Option<(Link, Directive<T, A, Q, M>)>,
    link: Link,
    signal: SignalView<T, A, Q, M>,
) -> bool {
    match taken {
        Some((then, directive)) => next(link, signal) == Some((then, directive@)),
        None => next(link, signal) is None,
    }
}

fn pass<T, A, Q, M>(stage: Stage, action: Action<T, A, Q, M>) -> (taken: (
    Link,
    Directive<T, A, Q, M>,
))
    ensures
        (taken.0, taken.1@) == relay(stage, action@),
{
    match action {
        Action::Call(call) => (Link::Routing(stage), Directive::Call(call)),
        Action::Respond(reply) => (Link::Writing, Directive::Write(reply)),
        Action::Abort(fault) => (Link::Closed, Directive::Close(Closure::Fault(fault))),
    }
}

fn route<T, A, Q, M>(stage: Stage, event: Event<T, A, Q, M>) -> (taken: Option<
    (Link, Directive<T, A, Q, M>),
>)
    ensures
        match taken {
            Some((then, directive)) => match crate::router::next(stage, event@) {
                Some((stage, action)) => (then, directive@) == relay(stage, action),
                None => false,
            },
            None => crate::router::next(stage, event@) is None,
        },
{
    match crate::router::step(stage, event) {
        Some((stage, action)) => Some(pass(stage, action)),
        None => None,
    }
}

/// What the operator is to be told of `directive`, if anything.
pub fn severity<T, A, Q, M>(directive: &Directive<T, A, Q, M>) -> (level: Option<Severity>)
    ensures
        level == severity_of(directive@),
{
    match directive {
        Directive::Write(reply) => match &reply.failure {
            Some(_) => Some(Severity::Error),
            None => None,
        },
        Directive::Close(Closure::Transport) => Some(Severity::Notice),
        Directive::Close(Closure::Fault(_)) => Some(Severity::Critical),
        _ => None,
    }
}

/// A connection that has just been accepted: it waits for its first request.
pub fn open<T, A, Q, M>() -> (start: (Link, Directive<T, A, Q, M>))
    ensures
        start.0 == Link::Reading,
        start.1@ == DirectiveView::<T, A, Q, M>::Read,
        start.0.wf(),
{
    (Link::Reading, Directive::Read)
}

/// Takes one step of the connection: from `link`, on `signal`, to the link
/// and the directive that `next` gives. A signal that `link` does not wait
/// for is refused with `None`.
pub fn advance<T, A, Q, M>(link: Link, signal: Signal<T, A, Q, M>) -> (taken: Option<
    (Link, Directive<T, A, Q, M>),
>)
    ensures
        follows(taken, link, signal@),
        taken matches Some((then, _)) ==> then.wf(),
{
    match link {
        Link::Reading => match signal {
            Signal::Request(request) => route(Stage::Received, Event::Arrived(request)),
            Signal::ReadFailed => Some((Link::Closed, Directive::Close(Closure::Transport))),
            _ => None,
        },
        Link::Routing(stage) => match signal {
            Signal::Answer(event) => route(stage, event),
            _ => None,
        },
        Link::Writing => match signal {
            Signal::Written => Some((Link::Reading, Directive::Read)),
            Signal::WriteFailed => Some((Link::Closed, Directive::Close(Closure::Transport))),
            _ => None,
        },
        Link::Closed => None,
    }
}

/// Where a connection stands, and what it wants, once the calls that
/// `directive` starts have all come back with the answers of `peers`.
pub open spec fn settle<T, A, Q, M>(
    peers: Peers<T, A, Q, M>,
    link: Link,
    directive: DirectiveView<T, A, Q, M>,
    budget: nat,
) -> (Link, DirectiveView<T, A, Q, M>)
    decreases budget,
{
    match directive {
        DirectiveView::Call(call) if budget > 0 => match next(
            link,
            SignalView::Answer(peers.answer(call)),
        ) {
            Some((then, wanted)) => settle(peers, then, wanted, (budget - 1) as nat),
            None => (link, directive),
        },
        _ => (link, directive),
    }
}

/// Where a connection that was reading stands once `request` has been read
/// and routed.
pub open spec fn routed<T, A, Q, M>(peers: Peers<T, A, Q, M>, request: RequestView) -> (
    Link,
    DirectiveView<T, A, Q, M>,
) {
    let (link, directive) = next::<T, A, Q, M>(Link::Reading, SignalView::Request(request))->Some_0;
    settle(peers, link, directive, 3)
}

/// A connection does with a request what the router makes of it. Every
/// request that the router answers, with success or with the error status,
/// has its reply written back and leaves the connection open: after the
/// write it reads again. Only a fault of the router closes the connection,
/// and then nothing is written.
pub proof fn lemma_connection_follows_router<T, A, Q, M>(
    peers: Peers<T, A, Q, M>,
    request: RequestView,
)
    ensures
        match peers.exchange(request).end {
            ActionView::Respond(reply) => routed(peers, request) == (
                Link::Writing,
                DirectiveView::<T, A, Q, M>::Write(reply),
            ),
            ActionView::Abort(fault) => routed(peers, request) == (
                Link::Closed,
                DirectiveView::<T, A, Q, M>::Close(ClosureView::Fault(fault)),
            ),
            ActionView::Call(_) => false,
        },
        next::<T, A, Q, M>(Link::Writing, SignalView::Written) == Some(
            (Link::Reading, DirectiveView::<T, A, Q, M>::Read),
        ),
{
    reveal_with_fuel(Peers::course, 4);
    reveal_with_fuel(settle, 4);
}

/// An error on one request does not end the connection. A request whose
/// payload does not decode is answered with the error status line, and once
/// that response is written the connection reads its next request, as a
/// connection does that has served nothing yet.
pub proof fn lemma_connection_outlives_decode_error<T, A, Q, M>(
    peers: Peers<T, A, Q, M>,
    request: RequestView,
    route: Route,
    cause: Seq<char>,
)
    requires
        route_of(request.path) == Some(route),
        peers.decode(route, request.payload) == Err::<Decoded<T, Q, M>, _>(cause),
    ensures
        routed(peers, request) == (
            Link::Writing,
            DirectiveView::<T, A, Q, M>::Write(failed(FailureKind::Decode(route), cause)),
        ),
        next::<T, A, Q, M>(Link::Writing, SignalView::Written) == Some(
            (Link::Reading, DirectiveView::<T, A, Q, M>::Read),
        ),
{
    lemma_connection_follows_router(peers, request);
    match route {
        Route::Instruction => lemma_transaction_path(peers, request),
        Route::Query => lemma_query_path(peers, request),
        Route::Block => lemma_message_path(peers, request),
    }
}

/// What ends a connection: the stream, which fails to give a request or to
/// take a response, or a fault of the router. Nothing else does, and a
/// closed connection takes no further signal.
pub proof fn lemma_connection_closes_on<T, A, Q, M>(link: Link, signal: SignalView<T, A, Q, M>)
    ensures
        next(link, signal) matches Some((Link::Closed, directive)) ==> {
            ||| directive == DirectiveView::<T, A, Q, M>::Close(ClosureView::Transport) && (signal
                is ReadFailed || signal is WriteFailed)
            ||| directive matches DirectiveView::Close(ClosureView::Fault(_)) && (signal
                is Request || signal is Answer)
        },
        next(Link::Closed, signal) is None,
{
}

/// A connection never refuses the answer to what it asked for. Whatever
/// directive a transition gives, and the directive of a connection that
/// has just been opened, every signal that answers it is taken. Only a
/// signal out of turn is refused, and after a close nothing answers.
pub proof fn lemma_answer_is_taken<T, A, Q, M>(
    before: Link,
    earlier: SignalView<T, A, Q, M>,
    link: Link,
    directive: DirectiveView<T, A, Q, M>,
    signal: SignalView<T, A, Q, M>,
)
    requires
        next(before, earlier) == Some((link, directive)) || (link == Link::Reading && directive
            == DirectiveView::<T, A, Q, M>::Read),
        answers(directive, signal),
    ensures
        next(link, signal) is Some,
{
}

/// Unsupported routes and closed outboxes are reported at the highest
/// severity, and a failed request is reported on every path on which the
/// client gets the error status.
pub proof fn lemma_faults_are_critical<T, A, Q, M>(link: Link, signal: SignalView<T, A, Q, M>)
    ensures
        next(link, signal) matches Some((_, directive)) ==> {
            &&& directive matches DirectiveView::Close(ClosureView::Fault(_)) ==> severity_of(
                directive,
            ) == Some(Severity::Critical)
            &&& directive matches DirectiveView::Write(reply) ==> (severity_of(directive)
                == Some(Severity::Error) <==> reply.response == crate::wire::error_status())
        },
{
    crate::wire::lemma_status_classes_disjoint(Seq::empty());
    if next(link, signal) matches Some((_, DirectiveView::Write(reply))) {
        if let SignalView::Answer(EventView::Executed(Ok(result))) = signal {
            crate::wire::lemma_status_classes_disjoint(result);
        }
    }
}

} // verus!
