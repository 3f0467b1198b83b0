use torii::connection::{advance, open, severity, Closure, Directive, Link, Severity, Signal};
use torii::outbox::ChannelClosed;
use torii::router::{
    Call, Channel, Decoded, Event, Failure, FailureKind, Fault, Parcel, Reply, Request, Stage,
};
use torii::wire::Route;

type Order = Directive<u32, u64, String, Vec<u8>>;
type Input = Signal<u32, u64, String, Vec<u8>>;

const OK: &[u8] = b"HTTP/1.1 200 OK\r\n\r\n";
const INTERNAL_ERROR: &[u8] = b"HTTP/1.1 500 Internal Server Error\r\n\r\n";

fn request(path: &str, payload: &[u8]) -> Input {
    Signal::Request(Request { path: path.to_string(), payload: payload.to_vec() })
}

fn go(link: Link, signal: Input) -> Option<(Link, Order)> {
    advance(link, signal)
}

/// Collaborators of a toy node: a transaction is one byte below 0x80, the
/// acceptance check refuses zero, a query is UTF-8 text and finds only
/// "alice", a message is any non-empty payload.
fn answer(call: Call<u32, u64, String, Vec<u8>>, open_outboxes: bool) -> Event<u32, u64, String, Vec<u8>> {
    match call {
        Call::Decode(Route::Instruction, payload) => Event::Decoded(match payload.as_slice() {
            [byte] if *byte < 0x80 => Ok(Decoded::Transaction(u32::from(*byte))),
            _ => Err("not a transaction".to_string()),
        }),
        Call::Decode(Route::Query, payload) => Event::Decoded(match String::from_utf8(payload) {
            Ok(text) => Ok(Decoded::Query(text)),
            Err(_) => Err("not a query".to_string()),
        }),
        Call::Decode(Route::Block, payload) => Event::Decoded(if payload.is_empty() {
            Err("not a message".to_string())
        } else {
            Ok(Decoded::Message(payload))
        }),
        Call::Accept(0) => Event::Accepted(Err("zero".to_string())),
        Call::Accept(transaction) => Event::Accepted(Ok(u64::from(transaction) * 10)),
        Call::Forward(_) => Event::Forwarded(if open_outboxes { Ok(()) } else { Err(ChannelClosed) }),
        Call::Execute(query) => Event::Executed(if query == "alice" {
            Ok(b"42".to_vec())
        } else {
            Err("no such account".to_string())
        }),
    }
}

/// Serves one request on a connection that is reading, with a stream that
/// takes every response. Gives the link afterwards, what was written, and
/// what was forwarded.
fn serve(path: &str, payload: &[u8], open_outboxes: bool) -> (Link, Option<Reply>, Vec<Parcel<u64, Vec<u8>>>, Option<Closure>) {
    let mut forwarded = Vec::new();
    let mut written = None;
    let (mut link, mut directive) = go(Link::Reading, request(path, payload)).unwrap();
    loop {
        let signal = match directive {
            Directive::Read => return (link, written, forwarded, None),
            Directive::Close(closure) => return (link, written, forwarded, Some(closure)),
            Directive::Write(reply) => {
                written = Some(reply);
                Signal::Written
            }
            Directive::Call(Call::Forward(parcel)) if open_outboxes => {
                forwarded.push(parcel);
                Signal::Answer(Event::Forwarded(Ok(())))
            }
            Directive::Call(call) => Signal::Answer(answer(call, open_outboxes)),
        };
        let (then, wanted) = go(link, signal).unwrap();
        link = then;
        directive = wanted;
    }
}

#[test]
fn a_new_connection_reads() {
    let (link, directive): (Link, Order) = open();
    assert_eq!(link, Link::Reading);
    assert_eq!(directive, Directive::Read);
}

#[test]
fn a_request_goes_to_the_decoder_of_its_route() {
    assert_eq!(
        go(Link::Reading, request("/instruction", &[5])),
        Some((
            Link::Routing(Stage::Decoding(Route::Instruction)),
            Directive::Call(Call::Decode(Route::Instruction, vec![5]))
        ))
    );
}

#[test]
fn valid_transaction_round_trip() {
    let (link, written, forwarded, closure) = serve("/instruction", &[5], true);
    assert_eq!(link, Link::Reading);
    assert_eq!(written, Some(Reply { response: OK.to_vec(), failure: None }));
    assert_eq!(forwarded, vec![Parcel::Transaction(50)]);
    assert_eq!(closure, None);
}

#[test]
fn garbage_transaction_round_trip() {
    let (link, written, forwarded, closure) = serve("/instruction", &[0xff, 0xff], true);
    assert_eq!(link, Link::Reading);
    assert_eq!(
        written,
        Some(Reply {
            response: INTERNAL_ERROR.to_vec(),
            failure: Some(Failure {
                kind: FailureKind::Decode(Route::Instruction),
                cause: "not a transaction".to_string()
            })
        })
    );
    assert!(forwarded.is_empty());
    assert_eq!(closure, None);
}

#[test]
fn rejected_transaction_round_trip() {
    let (link, written, forwarded, closure) = serve("/instruction", &[0], true);
    assert_eq!(link, Link::Reading);
    assert_eq!(
        written,
        Some(Reply {
            response: INTERNAL_ERROR.to_vec(),
            failure: Some(Failure { kind: FailureKind::Acceptance, cause: "zero".to_string() })
        })
    );
    assert!(forwarded.is_empty());
    assert_eq!(closure, None);
}

#[test]
fn query_round_trips() {
    let (link, written, forwarded, _) = serve("/query", b"alice", true);
    assert_eq!(link, Link::Reading);
    assert_eq!(written, Some(Reply { response: b"HTTP/1.1 200 OK\r\n\r\n42".to_vec(), failure: None }));
    assert!(forwarded.is_empty());

    let (link, written, forwarded, _) = serve("/query", b"bob", true);
    assert_eq!(link, Link::Reading);
    assert_eq!(
        written,
        Some(Reply {
            response: INTERNAL_ERROR.to_vec(),
            failure: Some(Failure { kind: FailureKind::Execution, cause: "no such account".to_string() })
        })
    );
    assert!(forwarded.is_empty());

    let (link, written, _, _) = serve("/query", &[0xc0], true);
    assert_eq!(link, Link::Reading);
    assert_eq!(
        written,
        Some(Reply {
            response: INTERNAL_ERROR.to_vec(),
            failure: Some(Failure { kind: FailureKind::Decode(Route::Query), cause: "not a query".to_string() })
        })
    );
}

#[test]
fn a_query_needs_no_outbox() {
    let (link, written, forwarded, closure) = serve("/query", b"alice", false);
    assert_eq!(link, Link::Reading);
    assert_eq!(written, Some(Reply { response: b"HTTP/1.1 200 OK\r\n\r\n42".to_vec(), failure: None }));
    assert!(forwarded.is_empty());
    assert_eq!(closure, None);
}

#[test]
fn peer_message_round_trips() {
    let (link, written, forwarded, _) = serve("/block", &[1, 2], true);
    assert_eq!(link, Link::Reading);
    assert_eq!(written, Some(Reply { response: OK.to_vec(), failure: None }));
    assert_eq!(forwarded, vec![Parcel::Message(vec![1, 2])]);

    let (link, written, forwarded, _) = serve("/block", &[], true);
    assert_eq!(link, Link::Reading);
    assert_eq!(
        written,
        Some(Reply {
            response: INTERNAL_ERROR.to_vec(),
            failure: Some(Failure { kind: FailureKind::Decode(Route::Block), cause: "not a message".to_string() })
        })
    );
    assert!(forwarded.is_empty());
}

#[test]
fn unrecognized_path_closes_the_connection_without_a_response() {
    let (link, written, forwarded, closure) = serve("/status", &[1], true);
    assert_eq!(link, Link::Closed);
    assert_eq!(written, None);
    assert!(forwarded.is_empty());
    assert_eq!(closure, Some(Closure::Fault(Fault::UnsupportedRoute("/status".to_string()))));
}

#[test]
fn closed_outbox_closes_the_connection_without_a_response() {
    let (link, written, forwarded, closure) = serve("/instruction", &[5], false);
    assert_eq!(link, Link::Closed);
    assert_eq!(written, None);
    assert!(forwarded.is_empty());
    assert_eq!(closure, Some(Closure::Fault(Fault::ChannelClosed(Channel::Transactions))));

    let (link, written, _, closure) = serve("/block", &[5], false);
    assert_eq!(link, Link::Closed);
    assert_eq!(written, None);
    assert_eq!(closure, Some(Closure::Fault(Fault::ChannelClosed(Channel::Messages))));
}

#[test]
fn decode_error_on_one_request_does_not_end_the_connection() {
    let (link, written, _, _) = serve("/instruction", &[0xff], true);
    assert_eq!(link, Link::Reading);
    assert_eq!(written.unwrap().response, INTERNAL_ERROR.to_vec());
    // The same connection now serves the next request as a new one would.
    assert_eq!(
        go(link, request("/instruction", &[6])),
        Some((
            Link::Routing(Stage::Decoding(Route::Instruction)),
            Directive::Call(Call::Decode(Route::Instruction, vec![6]))
        ))
    );
    let (link, written, forwarded, _) = serve("/instruction", &[6], true);
    assert_eq!(link, Link::Reading);
    assert_eq!(written.unwrap().response, OK.to_vec());
    assert_eq!(forwarded, vec![Parcel::Transaction(60)]);
}

#[test]
fn the_end_of_the_stream_closes_the_connection() {
    assert_eq!(go(Link::Reading, Signal::ReadFailed), Some((Link::Closed, Directive::Close(Closure::Transport))));
    assert_eq!(go(Link::Writing, Signal::WriteFailed), Some((Link::Closed, Directive::Close(Closure::Transport))));
}

#[test]
fn after_a_write_the_connection_reads_again() {
    assert_eq!(go(Link::Writing, Signal::Written), Some((Link::Reading, Directive::Read)));
}

fn every_signal() -> Vec<Input> {
    vec![
        request("/query", &[1]),
        Signal::ReadFailed,
        Signal::Answer(Event::Decoded(Err("e".to_string()))),
        Signal::Answer(Event::Accepted(Ok(1))),
        Signal::Answer(Event::Forwarded(Ok(()))),
        Signal::Answer(Event::Executed(Ok(vec![1]))),
        Signal::Written,
        Signal::WriteFailed,
    ]
}

#[test]
fn a_closed_connection_takes_no_signal() {
    for signal in every_signal() {
        assert_eq!(go(Link::Closed, signal), None);
    }
}

#[test]
fn each_link_takes_only_the_signal_it_waits_for() {
    let taken: Vec<bool> = every_signal().into_iter().map(|s| go(Link::Reading, s).is_some()).collect();
    assert_eq!(taken, vec![true, true, false, false, false, false, false, false]);
    let taken: Vec<bool> = every_signal().into_iter().map(|s| go(Link::Writing, s).is_some()).collect();
    assert_eq!(taken, vec![false, false, false, false, false, false, true, true]);
    let taken: Vec<bool> =
        every_signal().into_iter().map(|s| go(Link::Routing(Stage::Accepting), s).is_some()).collect();
    assert_eq!(taken, vec![false, false, false, true, false, false, false, false]);
    let taken: Vec<bool> =
        every_signal().into_iter().map(|s| go(Link::Routing(Stage::Querying), s).is_some()).collect();
    assert_eq!(taken, vec![false, false, false, false, false, true, false, false]);
}

#[test]
fn requests_are_not_pipelined() {
    // While a request is with the router or its response is being written,
    // a further request is refused.
    assert_eq!(go(Link::Routing(Stage::Decoding(Route::Query)), request("/query", &[1])), None);
    assert_eq!(go(Link::Writing, request("/query", &[1])), None);
}

#[test]
fn interleaved_connections_forward_every_transaction_once() {
    // Four connections, three valid transactions each, served in turn one
    // step at a time.
    let connections = 4usize;
    let each = 3usize;
    let mut links = vec![Link::Reading; connections];
    let mut directives: Vec<Order> = (0..connections).map(|_| Directive::Read).collect();
    let mut sent = vec![0usize; connections];
    let mut forwarded: Vec<u64> = Vec::new();
    let mut responses = 0usize;
    let mut pending = true;
    while pending {
        pending = false;
        for c in 0..connections {
            let directive = std::mem::replace(&mut directives[c], Directive::Read);
            let signal = match directive {
                Directive::Read => {
                    if sent[c] == each {
                        continue;
                    }
                    sent[c] += 1;
                    request("/instruction", &[(c * each + sent[c]) as u8])
                }
                Directive::Call(Call::Forward(Parcel::Transaction(accepted))) => {
                    forwarded.push(accepted);
                    Signal::Answer(Event::Forwarded(Ok(())))
                }
                Directive::Call(call) => Signal::Answer(answer(call, true)),
                Directive::Write(reply) => {
                    assert_eq!(reply.response, OK.to_vec());
                    responses += 1;
                    Signal::Written
                }
                Directive::Close(_) => panic!("no connection closes"),
            };
            let (then, wanted) = go(links[c], signal).unwrap();
            links[c] = then;
            directives[c] = wanted;
            pending = true;
        }
    }
    assert_eq!(forwarded.len(), connections * each);
    assert_eq!(responses, connections * each);
    let mut sorted = forwarded.clone();
    sorted.sort();
    sorted.dedup();
    assert_eq!(sorted, (1..=12u64).map(|n| n * 10).collect::<Vec<u64>>());
    assert_eq!(links, vec![Link::Reading; connections]);
}

#[test]
fn faults_are_reported_at_the_highest_severity() {
    let unsupported: Order = Directive::Close(Closure::Fault(Fault::UnsupportedRoute("/x".to_string())));
    assert_eq!(severity(&unsupported), Some(Severity::Critical));
    let closed: Order = Directive::Close(Closure::Fault(Fault::ChannelClosed(Channel::Messages)));
    assert_eq!(severity(&closed), Some(Severity::Critical));
    let (_, directive) = go(Link::Reading, request("/nowhere", &[])).unwrap();
    assert_eq!(severity(&directive), Some(Severity::Critical));
}

#[test]
fn failed_requests_are_errors_and_successes_are_silent() {
    let failed: Order = Directive::Write(Reply {
        response: INTERNAL_ERROR.to_vec(),
        failure: Some(Failure { kind: FailureKind::Execution, cause: "no".to_string() }),
    });
    assert_eq!(severity(&failed), Some(Severity::Error));
    let done: Order = Directive::Write(Reply { response: OK.to_vec(), failure: None });
    assert_eq!(severity(&done), None);
    let (_, directive) =
        go(Link::Routing(Stage::Accepting), Signal::Answer(Event::Accepted(Err("bad".to_string())))).unwrap();
    assert_eq!(severity(&directive), Some(Severity::Error));
}

#[test]
fn the_end_of_a_stream_is_a_notice_and_work_in_progress_is_silent() {
    let ended: Order = Directive::Close(Closure::Transport);
    assert_eq!(severity(&ended), Some(Severity::Notice));
    let read: Order = Directive::Read;
    assert_eq!(severity(&read), None);
    let call: Order = Directive::Call(Call::Accept(1));
    assert_eq!(severity(&call), None);
}

#[test]
fn every_answer_to_a_directive_is_taken() {
    // Each directive, in the link it was given in, with each signal that
    // can come back for it.
    let cases: Vec<(Link, Input)> = vec![
        (Link::Reading, request("/block", &[1])),
        (Link::Reading, request("/elsewhere", &[1])),
        (Link::Reading, Signal::ReadFailed),
        (Link::Routing(Stage::Decoding(Route::Instruction)), Signal::Answer(Event::Decoded(Ok(Decoded::Transaction(1))))),
        (Link::Routing(Stage::Decoding(Route::Instruction)), Signal::Answer(Event::Decoded(Err("e".to_string())))),
        (Link::Routing(Stage::Decoding(Route::Query)), Signal::Answer(Event::Decoded(Ok(Decoded::Query("q".to_string()))))),
        (Link::Routing(Stage::Decoding(Route::Query)), Signal::Answer(Event::Decoded(Err("e".to_string())))),
        (Link::Routing(Stage::Decoding(Route::Block)), Signal::Answer(Event::Decoded(Ok(Decoded::Message(vec![1]))))),
        (Link::Routing(Stage::Decoding(Route::Block)), Signal::Answer(Event::Decoded(Err("e".to_string())))),
        (Link::Routing(Stage::Accepting), Signal::Answer(Event::Accepted(Ok(1)))),
        (Link::Routing(Stage::Accepting), Signal::Answer(Event::Accepted(Err("e".to_string())))),
        (Link::Routing(Stage::Forwarding(Channel::Transactions)), Signal::Answer(Event::Forwarded(Ok(())))),
        (Link::Routing(Stage::Forwarding(Channel::Messages)), Signal::Answer(Event::Forwarded(Err(ChannelClosed)))),
        (Link::Routing(Stage::Querying), Signal::Answer(Event::Executed(Ok(vec![])))),
        (Link::Routing(Stage::Querying), Signal::Answer(Event::Executed(Err("e".to_string())))),
        (Link::Writing, Signal::Written),
        (Link::Writing, Signal::WriteFailed),
    ];
    for (link, signal) in cases {
        assert!(go(link, signal).is_some());
    }
}
