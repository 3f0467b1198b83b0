//! What the router's steps add up to: the course of a whole request, given
//! how the collaborators answer, and the laws that hold of every course.
//!
//! Nothing here runs. The collaborators are described by what they would
//! answer, and a course is the router's own table followed from the arrival
//! of a request to its end.

use crate::outbox::ChannelClosed;
use crate::router::{
    answered, done, failed, next, ActionView, CallView, Channel, Decoded, EventView, FailureKind,
    FaultView, Parcel, RequestView, Stage,
};
use crate::wire::{
    error_status, is_ok, lemma_body_recoverable, lemma_status_classes_disjoint, route_of, Route,
};
use vstd::prelude::*;

verus! {

/// The collaborators, as the answers they give. The query engine is taken
/// against one unmodified state view.
#[verifier::reject_recursive_types(T)]
#[verifier::reject_recursive_types(A)]
#[verifier::reject_recursive_types(Q)]
#[verifier::reject_recursive_types(M)]
pub struct Peers<T, A, Q, M> {
    pub decode_transaction: spec_fn(Seq<u8>) -> Result<T, Seq<char>>,
    pub accept: spec_fn(T) -> Result<A, Seq<char>>,
    pub decode_query: spec_fn(Seq<u8>) -> Result<Q, Seq<char>>,
    pub execute: spec_fn(Q) -> Result<Seq<u8>, Seq<char>>,
    pub decode_message: spec_fn(Seq<u8>) -> Result<M, Seq<char>>,
    pub transactions_open: bool,
    pub messages_open: bool,
}

/// All that a request came to.
pub struct Course<T, A, Q, M> {
    /// The calls that were made, first to last.
    pub calls: Seq<CallView<T, A, Q, M>>,
    /// The parcels that an outbox took.
    pub parcels: Seq<Parcel<A, M>>,
    /// The action on which the request ended.
    pub end: ActionView<T, A, Q, M>,
}

impl<T, A, Q, M> Peers<T, A, Q, M> {
    /// What the decoder of `route` makes of `payload`.
    pub open spec fn decode(self, route: Route, payload: Seq<u8>) -> Result<
        Decoded<T, Q, M>,
        Seq<char>,
    > {
        match route {
            Route::Instruction => match (self.decode_transaction)(payload) {
                Ok(transaction) => Ok(Decoded::Transaction(transaction)),
                Err(cause) => Err(cause),
            },
            Route::Query => match (self.decode_query)(payload) {
                Ok(query) => Ok(Decoded::Query(query)),
                Err(cause) => Err(cause),
            },
            Route::Block => match (self.decode_message)(payload) {
                Ok(message) => Ok(Decoded::Message(message)),
                Err(cause) => Err(cause),
            },
        }
    }

    /// Whether the outbox that `parcel` is bound for still has its consumer.
    pub open spec fn takes(self, parcel: Parcel<A, M>) -> bool {
        match parcel {
            Parcel::Transaction(_) => self.transactions_open,
            Parcel::Message(_) => self.messages_open,
        }
    }

    /// The event with which `call` comes back.
    pub open spec fn answer(self, call: CallView<T, A, Q, M>) -> EventView<T, A, Q, M> {
        match call {
            CallView::Decode(route, payload) => EventView::Decoded(self.decode(route, payload)),
            CallView::Accept(transaction) => EventView::Accepted((self.accept)(transaction)),
            CallView::Forward(parcel) => EventView::Forwarded(
                if self.takes(parcel) {
                    Ok(())
                } else {
                    Err(ChannelClosed)
                },
            ),
            CallView::Execute(query) => EventView::Executed((self.execute)(query)),
        }
    }

    /// The parcels that `call` leaves on an outbox.
    pub open spec fn leaves(self, call: CallView<T, A, Q, M>) -> Seq<Parcel<A, M>> {
        match call {
            CallView::Forward(parcel) if self.takes(parcel) => seq![parcel],
            _ => Seq::empty(),
        }
    }

    /// The course from `action`, wanted in `stage`, to the end of the
    /// request or through `budget` calls, whichever comes first.
    pub open spec fn course(
        self,
        stage: Stage,
        action: ActionView<T, A, Q, M>,
        budget: nat,
    ) -> Course<T, A, Q, M>
        decreases budget,
    {
        match action {
            ActionView::Call(call) if budget > 0 => match next(stage, self.answer(call)) {
                Some((then, wanted)) => {
                    let rest = self.course(then, wanted, (budget - 1) as nat);
                    Course {
                        calls: seq![call] + rest.calls,
                        parcels: self.leaves(call) + rest.parcels,
                        end: rest.end,
                    }
                },
                None => Course { calls: seq![call], parcels: self.leaves(call), end: action },
            },
            _ => Course { calls: Seq::empty(), parcels: Seq::empty(), end: action },
        }
    }

    /// The course of `request` from its arrival. No request takes more
    /// than three calls.
    pub open spec fn exchange(self, request: RequestView) -> Course<T, A, Q, M> {
        let (stage, action) = next::<T, A, Q, M>(
            Stage::Received,
            EventView::Arrived(request),
        )->Some_0;
        self.course(stage, action, 3)
    }

    /// The accepted transaction that `payload` stands for, if it decodes
    /// and passes the acceptance check.
    pub open spec fn admits(self, payload: Seq<u8>) -> Option<A> {
        match (self.decode_transaction)(payload) {
            Ok(transaction) => match (self.accept)(transaction) {
                Ok(accepted) => Some(accepted),
                Err(_) => None,
            },
            Err(_) => None,
        }
    }

    /// The parcels that the outboxes have taken once every request of
    /// `served` has run its course, in the order in which they were served.
    pub open spec fn forwarded(self, served: Seq<RequestView>) -> Seq<Parcel<A, M>>
        decreases served.len(),
    {
        if served.len() == 0 {
            Seq::empty()
        } else {
            self.forwarded(served.drop_last()) + self.exchange(served.last()).parcels
        }
    }
}

/// Whether `action` ends a request.
pub open spec fn ends<T, A, Q, M>(action: ActionView<T, A, Q, M>) -> bool {
    action is Respond || action is Abort
}

/// Every request comes to an end: whatever the path, the payload and the
/// collaborators' answers, the course of a request closes with a response or
/// with a fault, after at most three calls.
pub proof fn lemma_exchange_ends<T, A, Q, M>(peers: Peers<T, A, Q, M>, request: RequestView)
    ensures
        ends(peers.exchange(request).end),
        peers.exchange(request).calls.len() <= 3,
        peers.exchange(request).parcels.len() <= 1,
{
    reveal_with_fuel(Peers::course, 4);
}

/// The transaction path. A payload that decodes and passes the acceptance
/// check puts exactly one parcel on an outbox, the accepted transaction
/// itself, and only after both steps have succeeded; the response is the
/// success status line. A payload that does not decode, or a transaction
/// that is not accepted, puts nothing on any outbox and is answered with the
/// error status line. With the consumer of the outbox gone there is no
/// response at all: the request ends in a fault.
pub proof fn lemma_transaction_path<T, A, Q, M>(peers: Peers<T, A, Q, M>, request: RequestView)
    requires
        route_of(request.path) == Some(Route::Instruction),
    ensures
        match (peers.decode_transaction)(request.payload) {
            Ok(transaction) => match (peers.accept)(transaction) {
                Ok(accepted) => peers.exchange(request) == if peers.transactions_open {
                    Course {
                        calls: seq![
                            CallView::<T, A, Q, M>::Decode(Route::Instruction, request.payload),
                            CallView::Accept(transaction),
                            CallView::Forward(Parcel::Transaction(accepted)),
                        ],
                        parcels: seq![Parcel::Transaction(accepted)],
                        end: ActionView::Respond(done()),
                    }
                } else {
                    Course {
                        calls: seq![
                            CallView::<T, A, Q, M>::Decode(Route::Instruction, request.payload),
                            CallView::Accept(transaction),
                            CallView::Forward(Parcel::Transaction(accepted)),
                        ],
                        parcels: Seq::empty(),
                        end: ActionView::Abort(FaultView::ChannelClosed(Channel::Transactions)),
                    }
                },
                Err(cause) => peers.exchange(request) == Course {
                    calls: seq![
                        CallView::<T, A, Q, M>::Decode(Route::Instruction, request.payload),
                        CallView::Accept(transaction),
                    ],
                    parcels: Seq::empty(),
                    end: ActionView::Respond(failed(FailureKind::Acceptance, cause)),
                },
            },
            Err(cause) => peers.exchange(request) == Course {
                calls: seq![CallView::<T, A, Q, M>::Decode(Route::Instruction, request.payload)],
                parcels: Seq::empty(),
                end: ActionView::Respond(failed(FailureKind::Decode(Route::Instruction), cause)),
            },
        },
{
    reveal_with_fuel(Peers::course, 4);
    let course = peers.exchange(request);
    match (peers.decode_transaction)(request.payload) {
        Ok(transaction) => match (peers.accept)(transaction) {
            Ok(accepted) => {
                assert(course.calls =~= seq![
                    CallView::<T, A, Q, M>::Decode(Route::Instruction, request.payload),
                    CallView::Accept(transaction),
                    CallView::Forward(Parcel::Transaction(accepted)),
                ]);
                if peers.transactions_open {
                    assert(course.parcels =~= seq![Parcel::Transaction(accepted)]);
                } else {
                    assert(course.parcels =~= Seq::empty());
                }
            },
            Err(_) => {
                assert(course.calls =~= seq![
                    CallView::<T, A, Q, M>::Decode(Route::Instruction, request.payload),
                    CallView::Accept(transaction),
                ]);
                assert(course.parcels =~= Seq::empty());
            },
        },
        Err(_) => {
            assert(course.calls =~= seq![CallView::<T, A, Q, M>::Decode(Route::Instruction, request.payload)]);
            assert(course.parcels =~= Seq::empty());
        },
    }
}

/// The peer-message path. A payload that decodes puts exactly one parcel
/// on an outbox, the message itself, and is answered with the success
/// status line. A payload that does not decode puts nothing on any outbox
/// and is answered with the error status line. With the consumer of the
/// outbox gone the request ends in a fault.
pub proof fn lemma_message_path<T, A, Q, M>(peers: Peers<T, A, Q, M>, request: RequestView)
    requires
        route_of(request.path) == Some(Route::Block),
    ensures
        match (peers.decode_message)(request.payload) {
            Ok(message) => peers.exchange(request) == if peers.messages_open {
                Course {
                    calls: seq![
                        CallView::<T, A, Q, M>::Decode(Route::Block, request.payload),
                        CallView::Forward(Parcel::Message(message)),
                    ],
                    parcels: seq![Parcel::Message(message)],
                    end: ActionView::Respond(done()),
                }
            } else {
                Course {
                    calls: seq![
                        CallView::<T, A, Q, M>::Decode(Route::Block, request.payload),
                        CallView::Forward(Parcel::Message(message)),
                    ],
                    parcels: Seq::empty(),
                    end: ActionView::Abort(FaultView::ChannelClosed(Channel::Messages)),
                }
            },
            Err(cause) => peers.exchange(request) == Course {
                calls: seq![CallView::<T, A, Q, M>::Decode(Route::Block, request.payload)],
                parcels: Seq::empty(),
                end: ActionView::Respond(failed(FailureKind::Decode(Route::Block), cause)),
            },
        },
{
    reveal_with_fuel(Peers::course, 4);
    let course = peers.exchange(request);
    match (peers.decode_message)(request.payload) {
        Ok(message) => {
            assert(course.calls =~= seq![
                CallView::<T, A, Q, M>::Decode(Route::Block, request.payload),
                CallView::Forward(Parcel::Message(message)),
            ]);
            if peers.messages_open {
                assert(course.parcels =~= seq![Parcel::Message(message)]);
            } else {
                assert(course.parcels =~= Seq::empty());
            }
        },
        Err(_) => {
            assert(course.calls =~= seq![CallView::<T, A, Q, M>::Decode(Route::Block, request.payload)]);
            assert(course.parcels =~= Seq::empty());
        },
    }
}

/// The query path. A query is decoded and executed, in that order, and
/// nothing is ever put on an outbox. A result is answered with the success
/// status line and the result right behind it; a payload that does not
/// decode and a query that fails are both answered with the error status
/// line, under different kinds on the record.
pub proof fn lemma_query_path<T, A, Q, M>(peers: Peers<T, A, Q, M>, request: RequestView)
    requires
        route_of(request.path) == Some(Route::Query),
    ensures
        match (peers.decode_query)(request.payload) {
            Ok(query) => peers.exchange(request) == Course {
                calls: seq![
                    CallView::<T, A, Q, M>::Decode(Route::Query, request.payload),
                    CallView::Execute(query),
                ],
                parcels: Seq::empty(),
                end: ActionView::Respond(
                    match (peers.execute)(query) {
                        Ok(result) => answered(result),
                        Err(cause) => failed(FailureKind::Execution, cause),
                    },
                ),
            },
            Err(cause) => peers.exchange(request) == Course {
                calls: seq![CallView::<T, A, Q, M>::Decode(Route::Query, request.payload)],
                parcels: Seq::empty(),
                end: ActionView::Respond(failed(FailureKind::Decode(Route::Query), cause)),
            },
        },
{
    reveal_with_fuel(Peers::course, 4);
    let course = peers.exchange(request);
    match (peers.decode_query)(request.payload) {
        Ok(query) => {
            assert(course.calls =~= seq![
                CallView::<T, A, Q, M>::Decode(Route::Query, request.payload),
                CallView::Execute(query),
            ]);
            assert(course.parcels =~= Seq::empty());
        },
        Err(_) => {
            assert(course.calls =~= seq![CallView::<T, A, Q, M>::Decode(Route::Query, request.payload)]);
            assert(course.parcels =~= Seq::empty());
        },
    }
}

/// A path outside the routing table is a fault, never a response: no call
/// is made and nothing is put on any outbox.
pub proof fn lemma_unsupported_path<T, A, Q, M>(peers: Peers<T, A, Q, M>, request: RequestView)
    requires
        route_of(request.path) is None,
    ensures
        peers.exchange(request) == (Course {
            calls: Seq::empty(),
            parcels: Seq::empty(),
            end: ActionView::<T, A, Q, M>::Abort(FaultView::UnsupportedRoute(request.path)),
        }),
{
    reveal_with_fuel(Peers::course, 4);
}

/// The router adds nothing of its own to a query's answer. Two sets of
/// collaborators that decode a payload to the same query and execute that
/// query to the same result give the same course, response included,
/// whatever else differs between them.
pub proof fn lemma_query_answer_determined<T, A, Q, M>(
    first: Peers<T, A, Q, M>,
    second: Peers<T, A, Q, M>,
    request: RequestView,
)
    requires
        route_of(request.path) == Some(Route::Query),
        (first.decode_query)(request.payload) == (second.decode_query)(request.payload),
        (first.decode_query)(request.payload) matches Ok(query) ==> (first.execute)(query) == (
        second.execute)(query),
    ensures
        first.exchange(request) == second.exchange(request),
{
    lemma_query_path(first, request);
    lemma_query_path(second, request);
}

/// A query's response gives its result away whole: where two executions of
/// a query come to different results, the responses differ too.
pub proof fn lemma_query_answers_differ<T, A, Q, M>(
    first: Peers<T, A, Q, M>,
    second: Peers<T, A, Q, M>,
    request: RequestView,
    query: Q,
    one: Seq<u8>,
    other: Seq<u8>,
)
    requires
        route_of(request.path) == Some(Route::Query),
        (first.decode_query)(request.payload) == Ok::<Q, Seq<char>>(query),
        (second.decode_query)(request.payload) == Ok::<Q, Seq<char>>(query),
        (first.execute)(query) == Ok::<Seq<u8>, Seq<char>>(one),
        (second.execute)(query) == Ok::<Seq<u8>, Seq<char>>(other),
        one != other,
    ensures
        first.exchange(request).end == ActionView::<T, A, Q, M>::Respond(answered(one)),
        second.exchange(request).end == ActionView::<T, A, Q, M>::Respond(answered(other)),
        answered(one).response != answered(other).response,
{
    lemma_query_path(first, request);
    lemma_query_path(second, request);
    if answered(one).response == answered(other).response {
        lemma_body_recoverable(one, other);
    }
}

/// The state view is never locked while a parcel waits on an outbox: a
/// request that has a query executed has nothing forwarded, and the
/// execution is the last call made for it.
pub proof fn lemma_execute_excludes_forward<T, A, Q, M>(
    peers: Peers<T, A, Q, M>,
    request: RequestView,
)
    ensures
        forall|i: int, j: int|
            0 <= i < peers.exchange(request).calls.len() && 0 <= j < peers.exchange(
                request,
            ).calls.len() ==> !(#[trigger] peers.exchange(request).calls[i] is Execute
                && #[trigger] peers.exchange(request).calls[j] is Forward),
        forall|i: int|
            0 <= i < peers.exchange(request).calls.len() && #[trigger] peers.exchange(
                request,
            ).calls[i] is Execute ==> i == peers.exchange(request).calls.len() - 1,
{
    match route_of(request.path) {
        Some(Route::Instruction) => lemma_transaction_path(peers, request),
        Some(Route::Block) => lemma_message_path(peers, request),
        Some(Route::Query) => lemma_query_path(peers, request),
        None => lemma_unsupported_path(peers, request),
    }
}

/// What a client can see. Every response is the error status line alone or
/// opens with the success status line. It is the error status line exactly
/// when a failure is on the record, and then the client sees the same bytes
/// whatever the kind and the cause of the failure.
pub proof fn lemma_response_classes<T, A, Q, M>(peers: Peers<T, A, Q, M>, request: RequestView)
    ensures
        peers.exchange(request).end matches ActionView::Respond(reply) ==> {
            &&& reply.failure is Some <==> reply.response == error_status()
            &&& reply.failure is None <==> is_ok(reply.response)
        },
{
    reveal_with_fuel(Peers::course, 4);
    if peers.exchange(request).end matches ActionView::Respond(reply) {
        match route_of(request.path) {
            Some(Route::Instruction) => {
                lemma_transaction_path(peers, request);
                lemma_status_classes_disjoint(Seq::empty());
            },
            Some(Route::Block) => {
                lemma_message_path(peers, request);
                lemma_status_classes_disjoint(Seq::empty());
            },
            Some(Route::Query) => {
                lemma_query_path(peers, request);
                match (peers.decode_query)(request.payload) {
                    Ok(query) => match (peers.execute)(query) {
                        Ok(result) => {
                            lemma_status_classes_disjoint(result);
                        },
                        Err(_) => {
                            lemma_status_classes_disjoint(Seq::empty());
                        },
                    },
                    Err(_) => {
                        lemma_status_classes_disjoint(Seq::empty());
                    },
                }
            },
            None => {
                lemma_unsupported_path(peers, request);
            },
        }
    }
}

/// Whether `request` is a transaction that the node takes in: it is on the
/// transaction path, decodes and passes the acceptance check.
pub open spec fn valid_transaction<T, A, Q, M>(
    peers: Peers<T, A, Q, M>,
    request: RequestView,
) -> bool {
    route_of(request.path) == Some(Route::Instruction) && peers.admits(request.payload) is Some
}

/// No loss and no duplication. While the transaction outbox has its
/// consumer, requests that are all valid transactions leave on the outboxes
/// exactly one parcel each, its own accepted transaction, in the order in
/// which the requests were served.
pub proof fn lemma_each_transaction_forwarded_once<T, A, Q, M>(
    peers: Peers<T, A, Q, M>,
    served: Seq<RequestView>,
)
    requires
        peers.transactions_open,
        forall|k: int| 0 <= k < served.len() ==> valid_transaction(peers, #[trigger] served[k]),
    ensures
        peers.forwarded(served).len() == served.len(),
        forall|k: int|
            0 <= k < served.len() ==> #[trigger] peers.forwarded(served)[k] == Parcel::<
                A,
                M,
            >::Transaction(peers.admits(served[k].payload)->Some_0),
    decreases served.len(),
{
    if served.len() > 0 {
        let before = served.drop_last();
        assert forall|k: int| 0 <= k < before.len() implies valid_transaction(
            peers,
            #[trigger] before[k],
        ) by {
            assert(before[k] == served[k]);
        }
        lemma_each_transaction_forwarded_once(peers, before);
        assert(valid_transaction(peers, served.last()));
        lemma_transaction_path(peers, served.last());
    }
}

/// The requests of all connections, one connection after the other.
pub open spec fn all_requests(connections: Seq<Seq<RequestView>>) -> Seq<RequestView>
    decreases connections.len(),
{
    if connections.len() == 0 {
        Seq::empty()
    } else {
        all_requests(connections.drop_last()) + connections.last()
    }
}

/// Connections that submit `each` requests apiece submit that many times
/// their number in all.
pub proof fn lemma_all_requests_counted(connections: Seq<Seq<RequestView>>, each: nat)
    requires
        forall|c: int| 0 <= c < connections.len() ==> (#[trigger] connections[c]).len() == each,
    ensures
        all_requests(connections).len() == connections.len() * each,
    decreases connections.len(),
{
    if connections.len() > 0 {
        let before = connections.drop_last();
        assert forall|c: int| 0 <= c < before.len() implies (#[trigger] before[c]).len()
            == each by {
            assert(before[c] == connections[c]);
        }
        lemma_all_requests_counted(before, each);
        assert(connections.len() * each == (connections.len() - 1) * each + each)
            by (nonlinear_arith);
    }
}

/// Whatever is among the requests of all connections is the request of one
/// connection at one place.
pub proof fn lemma_all_requests_member(
    connections: Seq<Seq<RequestView>>,
    request: RequestView,
)
    requires
        all_requests(connections).contains(request),
    ensures
        exists|c: int, k: int|
            0 <= c < connections.len() && 0 <= k < connections[c].len() && connections[c][k]
                == request,
    decreases connections.len(),
{
    if connections.len() > 0 {
        let before = connections.drop_last();
        let j = choose|j: int|
            0 <= j < all_requests(connections).len() && all_requests(connections)[j] == request;
        if j < all_requests(before).len() {
            assert(all_requests(before)[j] == request);
            lemma_all_requests_member(before, request);
            let (c, k) = choose|c: int, k: int|
                0 <= c < before.len() && 0 <= k < before[c].len() && before[c][k] == request;
            assert(connections[c][k] == request);
        } else {
            let c = connections.len() - 1;
            let k = j - all_requests(before).len();
            assert(connections[c][k] == request);
        }
    }
}

/// Concurrent connections. Let any number of connections each submit the
/// same number of valid transactions, and let the node serve these requests
/// in any order at all. Then, while the transaction outbox has its
/// consumer, the outboxes take exactly as many parcels as there are
/// connections times requests on each, and the parcel at each place is the
/// accepted transaction of the request served at that place: every request
/// counts once, none twice, none is lost.
pub proof fn lemma_concurrent_transactions_counted<T, A, Q, M>(
    peers: Peers<T, A, Q, M>,
    connections: Seq<Seq<RequestView>>,
    each: nat,
    served: Seq<RequestView>,
)
    requires
        peers.transactions_open,
        forall|c: int| 0 <= c < connections.len() ==> (#[trigger] connections[c]).len() == each,
        forall|c: int, k: int|
            0 <= c < connections.len() && 0 <= k < connections[c].len() ==> valid_transaction(
                peers,
                #[trigger] connections[c][k],
            ),
        served.to_multiset() == all_requests(connections).to_multiset(),
    ensures
        served.len() == connections.len() * each,
        peers.forwarded(served).len() == connections.len() * each,
        forall|k: int| 0 <= k < served.len() ==> valid_transaction(peers, #[trigger] served[k]),
        forall|k: int|
            0 <= k < served.len() ==> #[trigger] peers.forwarded(served)[k] == Parcel::<
                A,
                M,
            >::Transaction(peers.admits(served[k].payload)->Some_0),
{
    broadcast use vstd::seq_lib::group_to_multiset_ensures;

    let all = all_requests(connections);
    served.to_multiset_ensures();
    all.to_multiset_ensures();
    assert forall|k: int| 0 <= k < served.len() implies valid_transaction(
        peers,
        #[trigger] served[k],
    ) by {
        assert(served.contains(served[k]));
        assert(served.to_multiset().count(served[k]) > 0);
        assert(all.contains(served[k]));
        lemma_all_requests_member(connections, served[k]);
    }
    lemma_each_transaction_forwarded_once(peers, served);
    lemma_all_requests_counted(connections, each);
}

} // verus!
