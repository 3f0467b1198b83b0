//! Route identifiers and status lines of the gateway's wire protocol.

use vstd::prelude::*;
use vstd::string::*;
use vstd::utf8::*;

verus! {

/// Route of the transaction intake.
pub const INSTRUCTIONS_URI: &'static str = "/instruction";

/// Route of read-only queries.
pub const QUERY_URI: &'static str = "/query";

/// Route of peer-to-peer messages.
pub const BLOCKS_URI: &'static str = "/block";

/// Status line of a successful exchange.
pub const OK: &'static str = "HTTP/1.1 200 OK\r\n\r\n";

/// Status line of every failed exchange, whatever its cause.
pub const INTERNAL_ERROR: &'static str = "HTTP/1.1 500 Internal Server Error\r\n\r\n";

/// The three kinds of traffic the gateway routes.
#[derive(Clone, Copy, Debug, PartialEq, Eq, Structural)]
pub enum Route {
    Instruction,
    Query,
    Block,
}

/// The route a path names, if any. Paths are compared for exact equality.
pub open spec fn route_of(path: Seq<char>) -> Option<Route> {
    if path == INSTRUCTIONS_URI@ {
        Some(Route::Instruction)
    } else if path == QUERY_URI@ {
        Some(Route::Query)
    } else if path == BLOCKS_URI@ {
        Some(Route::Block)
    } else {
        None
    }
}

/// The bytes of the success status line.
pub open spec fn ok_status() -> Seq<u8> {
    OK.spec_bytes()
}

/// The bytes of the failure status line.
pub open spec fn error_status() -> Seq<u8> {
    INTERNAL_ERROR.spec_bytes()
}

/// A success response that carries `body` right after the status line.
pub open spec fn ok_with(body: Seq<u8>) -> Seq<u8> {
    ok_status() + body
}

/// Whether a response opens with the success status line.
pub open spec fn is_ok(response: Seq<u8>) -> bool {
    ok_status().is_prefix_of(response)
}

fn same_text(a: &str, b: &str) -> (same: bool)
    ensures
        same == (a@ == b@),
{
    let x = a.as_bytes();
    let y = b.as_bytes();
    proof {
        encode_utf8_decode_utf8(a@);
        encode_utf8_decode_utf8(b@);
    }
    if x.len() != y.len() {
        return false;
    }
    let mut i: usize = 0;
    while i < x.len()
        invariant
            i <= x.len(),
            x.len() == y.len(),
            x@ == a.spec_bytes(),
            y@ == b.spec_bytes(),
            forall|k: int| 0 <= k < i ==> x@[k] == y@[k],
        decreases x.len() - i,
    {
        if x[i] != y[i] {
            return false;
        }
        i += 1;
    }
    assert(x@ =~= y@);
    true
}

/// Classifies a request path.
pub fn classify(path: &str) -> (route: Option<Route>)
    ensures
        route == route_of(path@),
{
    if same_text(path, INSTRUCTIONS_URI) {
        Some(Route::Instruction)
    } else if same_text(path, QUERY_URI) {
        Some(Route::Query)
    } else if same_text(path, BLOCKS_URI) {
        Some(Route::Block)
    } else {
        None
    }
}

/// The response to a request that was carried out and has nothing to report.
pub fn ok_response() -> (response: Vec<u8>)
    ensures
        response@ == ok_status(),
{
    OK.as_bytes_vec()
}

/// The response to a request that failed.
pub fn error_response() -> (response: Vec<u8>)
    ensures
        response@ == error_status(),
{
    INTERNAL_ERROR.as_bytes_vec()
}

/// The response to a request that was carried out and reports `body`.
pub fn ok_response_with(body: Vec<u8>) -> (response: Vec<u8>)
    ensures
        response@ == ok_with(body@),
{
    let mut response = OK.as_bytes_vec();
    let mut body = body;
    response.append(&mut body);
    response
}

/// The three route identifiers name three different routes.
pub proof fn lemma_routes_distinct()
    ensures
        route_of(INSTRUCTIONS_URI@) == Some(Route::Instruction),
        route_of(QUERY_URI@) == Some(Route::Query),
        route_of(BLOCKS_URI@) == Some(Route::Block),
{
    reveal_strlit("/instruction");
    reveal_strlit("/query");
    reveal_strlit("/block");
    assert(INSTRUCTIONS_URI@.len() == 12);
    assert(QUERY_URI@.len() == 6);
    assert(BLOCKS_URI@.len() == 6);
    assert(QUERY_URI@[1] == 'q');
    assert(BLOCKS_URI@[1] == 'b');
}

/// The two status lines, byte for byte.
pub proof fn lemma_status_lines()
    ensures
        ok_status() == seq![
            0x48u8, 0x54, 0x54, 0x50, 0x2f, 0x31, 0x2e, 0x31, 0x20, 0x32, 0x30, 0x30, 0x20, 0x4f,
            0x4b, 0x0d, 0x0a, 0x0d, 0x0a,
        ],
        error_status() == seq![
            0x48u8, 0x54, 0x54, 0x50, 0x2f, 0x31, 0x2e, 0x31, 0x20, 0x35, 0x30, 0x30, 0x20, 0x49,
            0x6e, 0x74, 0x65, 0x72, 0x6e, 0x61, 0x6c, 0x20, 0x53, 0x65, 0x72, 0x76, 0x65, 0x72,
            0x20, 0x45, 0x72, 0x72, 0x6f, 0x72, 0x0d, 0x0a, 0x0d, 0x0a,
        ],
{
    broadcast use is_ascii_spec_bytes;

    reveal_strlit("HTTP/1.1 200 OK\r\n\r\n");
    reveal_strlit("HTTP/1.1 500 Internal Server Error\r\n\r\n");
    assert(is_ascii(OK));
    assert(is_ascii(INTERNAL_ERROR));
    assert(ok_status() =~= seq![
        0x48u8, 0x54, 0x54, 0x50, 0x2f, 0x31, 0x2e, 0x31, 0x20, 0x32, 0x30, 0x30, 0x20, 0x4f, 0x4b,
        0x0d, 0x0a, 0x0d, 0x0a,
    ]);
    assert(error_status() =~= seq![
        0x48u8, 0x54, 0x54, 0x50, 0x2f, 0x31, 0x2e, 0x31, 0x20, 0x35, 0x30, 0x30, 0x20, 0x49, 0x6e,
        0x74, 0x65, 0x72, 0x6e, 0x61, 0x6c, 0x20, 0x53, 0x65, 0x72, 0x76, 0x65, 0x72, 0x20, 0x45,
        0x72, 0x72, 0x6f, 0x72, 0x0d, 0x0a, 0x0d, 0x0a,
    ]);
}

/// A client can always tell the two classes of response apart: whatever
/// body a success carries, it opens with the success status line, and the
/// failure status line does not.
pub proof fn lemma_status_classes_disjoint(body: Seq<u8>)
    ensures
        is_ok(ok_status()),
        is_ok(ok_with(body)),
        !is_ok(error_status()),
        ok_with(body) != error_status(),
{
    lemma_status_lines();
    assert(ok_status() =~= ok_with(body).subrange(0, ok_status().len() as int));
    assert(ok_status() =~= ok_status().subrange(0, ok_status().len() as int));
    assert(ok_status()[9] != error_status()[9]);
}

/// A success response carries its body whole: two of them are the same
/// bytes only if their bodies are.
pub proof fn lemma_body_recoverable(first: Seq<u8>, second: Seq<u8>)
    requires
        ok_with(first) == ok_with(second),
    ensures
        first == second,
{
    let n = ok_status().len() as int;
    assert(first =~= ok_with(first).subrange(n, n + first.len()));
    assert(second =~= ok_with(second).subrange(n, n + second.len()));
    assert(ok_with(first).len() == n + first.len());
    assert(ok_with(second).len() == n + second.len());
}

} // verus!
