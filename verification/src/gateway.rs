//! The request-forwarding gateway.
//!
//! Every inbound request that no native route matches is rewritten into an
//! outbound request against the fixed backend origin and relayed. The
//! functions here are the decision core: they rewrite the request, filter the
//! backend's response headers, and map every failure mode to the HTTP
//! response the original caller must see. The caller performs the actual
//! transport and hands the results in as plain values.

use vstd::prelude::*;
use vstd::slice::slice_to_vec;
use vstd::string::StringExecFns;

verus! {

/// Seconds after which the shared outbound client abandons a request; an
/// exceeded timeout surfaces exactly like a connection failure.
pub const CLIENT_TIMEOUT_SECONDS: u64 = 30;

/// One HTTP header: an opaque name and value. Order among headers and
/// duplicate names are significant and must be preserved.
pub struct Header {
    pub name: Vec<u8>,
    pub value: Vec<u8>,
}

/// An inbound request as the gateway sees it, already fully read: its body is
/// materialized in memory before anything is forwarded.
pub struct InboundRequest {
    pub method: String,
    /// The URI's path-and-query component, absent when the URI has none.
    pub path_and_query: Option<String>,
    pub headers: Vec<Header>,
    pub body: Vec<u8>,
}

/// The request the gateway sends to the backend: same method, headers and
/// body as the inbound request, with only the target URL rewritten.
pub struct OutboundRequest {
    pub method: String,
    pub url: String,
    pub headers: Vec<Header>,
    pub body: Vec<u8>,
}

/// What the backend answered: its status, its headers, and its body, or
/// `None` for the body when it could not be read.
pub struct BackendResponse {
    pub status: u16,
    pub headers: Vec<Header>,
    pub body: Option<Vec<u8>>,
}

/// How one forwarding attempt ended, as seen at the transport.
pub enum ForwardOutcome {
    /// The backend produced a response, whatever its status.
    Answered(BackendResponse),
    /// The backend could not be reached: connection failure, reset, or
    /// timeout.
    TransportFailed,
}

/// The response handed back to the original caller.
pub struct GatewayResponse {
    pub status: u16,
    pub headers: Vec<Header>,
    pub body: Vec<u8>,
}

/// The fixed origin of the supervised backend.
pub open spec fn backend_origin() -> Seq<char> {
    "http://127.0.0.1:8000"@
}

/// The URL a request with the given path-and-query is forwarded to: the
/// backend origin followed by the component, defaulting to `/` when the URI
/// has none.
pub open spec fn forwarded_url(pq: Option<String>) -> Seq<char> {
    match pq {
        Some(p) => backend_origin() + p@,
        None => backend_origin() + "/"@,
    }
}

/// The bytes of an ASCII character sequence, one byte per character.
pub open spec fn ascii_bytes(s: Seq<char>) -> Seq<u8> {
    Seq::new(s.len(), |i: int| s[i] as u8)
}

/// ASCII lowercasing of one byte.
pub open spec fn ascii_lower(b: u8) -> u8 {
    if 65 <= b <= 90 {
        (b + 32) as u8
    } else {
        b
    }
}

/// ASCII lowercasing of a byte string.
pub open spec fn lower_bytes(s: Seq<u8>) -> Seq<u8> {
    Seq::new(s.len(), |i: int| ascii_lower(s[i]))
}

/// A response header name that carries body framing: `content-length` or
/// `transfer-encoding`, in any letter case. These are never relayed from the
/// backend, so the serving layer recomputes correct framing itself.
pub open spec fn is_framing_name(name: Seq<u8>) -> bool {
    ||| lower_bytes(name) == ascii_bytes("content-length"@)
    ||| lower_bytes(name) == ascii_bytes("transfer-encoding"@)
}

/// A backend response header that is relayed to the original caller.
pub open spec fn keep_header(h: Header) -> bool {
    !is_framing_name(h.name@)
}

/// The backend response headers that are relayed, verbatim and in order:
/// all of them except the framing headers.
pub open spec fn kept_headers(hs: Seq<Header>) -> Seq<Header> {
    hs.filter(|h: Header| keep_header(h))
}

/// The relayed body: the backend's bytes, or empty when the backend's body
/// could not be read.
pub open spec fn body_or_empty(b: Option<Vec<u8>>) -> Seq<u8> {
    match b {
        Some(v) => v@,
        None => Seq::empty(),
    }
}

/// Executable form of [`ascii_lower`].
fn lower_byte(b: u8) -> (r: u8)
    ensures
        r == ascii_lower(b),
{
    if 65 <= b && b <= 90 {
        b + 32
    } else {
        b
    }
}

/// The bytes of an ASCII message, for diagnostic response bodies and header
/// name constants.
fn message_bytes(msg: &str) -> (r: Vec<u8>)
    requires
        vstd::string::is_ascii(msg),
    ensures
        r@ == ascii_bytes(msg@),
{
    proof {
        vstd::string::is_ascii_spec_bytes(msg);
    }
    let b = msg.as_bytes();
    let r = slice_to_vec(b);
    proof {
        assert(r@ =~= ascii_bytes(msg@));
    }
    r
}

/// Does ASCII-lowercasing `name` yield exactly `target`?
fn lowered_equals(name: &Vec<u8>, target: &Vec<u8>) -> (r: bool)
    ensures
        r == (lower_bytes(name@) == target@),
{
    if name.len() != target.len() {
        return false;
    }
    let mut i: usize = 0;
    while i < name.len()
        invariant
            0 <= i <= name@.len(),
            name@.len() == target@.len(),
            forall|j: int| 0 <= j < i ==> ascii_lower(name@[j]) == target@[j],
        decreases name@.len() - i,
    {
        if lower_byte(name[i]) != target[i] {
            return false;
        }
        i = i + 1;
    }
    proof {
        assert(lower_bytes(name@) =~= target@);
    }
    true
}

/// Executable form of [`is_framing_name`].
pub fn is_framing_header_name(name: &Vec<u8>) -> (r: bool)
    ensures
        r == is_framing_name(name@),
{
    proof {
        reveal_strlit("content-length");
        reveal_strlit("transfer-encoding");
        assert(vstd::string::is_ascii("content-length"));
        assert(vstd::string::is_ascii("transfer-encoding"));
    }
    let cl = message_bytes("content-length");
    let te = message_bytes("transfer-encoding");
    let matches_cl = lowered_equals(name, &cl);
    let matches_te = lowered_equals(name, &te);
    matches_cl || matches_te
}

/// Build the target URL for a request with the given path-and-query
/// component, defaulting to `/` on the backend when the URI has none.
pub fn forward_url(pq: &Option<String>) -> (r: String)
    ensures
        r@ == forwarded_url(*pq),
{
    let mut url = "http://127.0.0.1:8000".to_owned();
    match pq {
        Some(p) => url.append(p.as_str()),
        None => url.append("/"),
    }
    url
}

/// Rewrite an inbound request into the outbound request sent to the backend:
/// only the target URL changes; method, every header (order and duplicates
/// included) and the body — empty or not — are carried over verbatim.
pub fn build_outbound(req: InboundRequest) -> (r: OutboundRequest)
    ensures
        r.method@ == req.method@,
        r.url@ == forwarded_url(req.path_and_query),
        r.headers@ == req.headers@,
        r.body@ == req.body@,
{
    let url = forward_url(&req.path_and_query);
    OutboundRequest { method: req.method, url, headers: req.headers, body: req.body }
}

/// Drop the framing headers from a backend response's header list; every
/// other header is kept verbatim, in order.
pub fn strip_framing_headers(headers: Vec<Header>) -> (r: Vec<Header>)
    ensures
        r@ == kept_headers(headers@),
{
    let ghost orig = headers@;
    let mut rest = headers;
    let mut out: Vec<Header> = Vec::new();
    let ghost mut i: int = 0;
    while rest.len() > 0
        invariant
            0 <= i <= orig.len(),
            rest@ == orig.skip(i),
            out@ == kept_headers(orig.take(i)),
        decreases rest@.len(),
    {
        proof {
            assert(rest@[0] == orig[i]);
        }
        let h = rest.remove(0);
        proof {
            reveal(Seq::filter);
            assert(orig.take(i + 1).drop_last() =~= orig.take(i));
            assert(orig.take(i + 1).last() == orig[i]);
        }
        if !is_framing_header_name(&h.name) {
            out.push(h);
        }
        proof {
            assert(rest@ =~= orig.skip(i + 1));
            i = i + 1;
        }
    }
    proof {
        assert(orig.take(i) =~= orig);
    }
    out
}

/// Law: header exclusion. No framing header of the backend response survives
/// filtering, and every non-framing header is relayed.
pub proof fn lemma_framing_headers_excluded(hs: Seq<Header>)
    ensures
        forall|i: int|
            0 <= i < kept_headers(hs).len() ==> !is_framing_name(
                #[trigger] kept_headers(hs)[i].name@,
            ),
        forall|i: int|
            0 <= i < hs.len() && keep_header(hs[i]) ==> kept_headers(hs).contains(hs[i]),
    decreases hs.len(),
{
    reveal(Seq::filter);
    if hs.len() == 0 {
    } else {
        lemma_framing_headers_excluded(hs.drop_last());
        let last = hs.last();
        let rest = kept_headers(hs.drop_last());
        if keep_header(last) {
            assert(kept_headers(hs) == rest.push(last));
            assert forall|i: int|
                0 <= i < hs.len() && keep_header(hs[i]) implies kept_headers(hs).contains(
                hs[i],
            ) by {
                if i < hs.len() - 1 {
                    assert(hs.drop_last()[i] == hs[i]);
                    let k = choose|k: int| 0 <= k < rest.len() && rest[k] == hs[i];
                    assert(kept_headers(hs)[k] == hs[i]);
                } else {
                    assert(kept_headers(hs)[rest.len() as int] == last);
                }
            }
        } else {
            assert(kept_headers(hs) == rest);
            assert forall|i: int|
                0 <= i < hs.len() && keep_header(hs[i]) implies kept_headers(hs).contains(
                hs[i],
            ) by {
                assert(i < hs.len() - 1);
                assert(hs.drop_last()[i] == hs[i]);
                let k = choose|k: int| 0 <= k < rest.len() && rest[k] == hs[i];
                assert(kept_headers(hs)[k] == hs[i]);
            }
        }
    }
}

/// The `502 Bad Gateway` response for a backend that could not be reached:
/// transport failures never crash the gateway and are distinguishable, by
/// status, from gateway-internal errors.
pub fn bad_gateway_response() -> (r: GatewayResponse)
    ensures
        r.status == 502,
        r.headers@.len() == 0,
        r.body@ == ascii_bytes("Failed to forward request"@),
        r.body@.len() > 0,
{
    proof {
        reveal_strlit("Failed to forward request");
        assert(vstd::string::is_ascii("Failed to forward request"));
    }
    GatewayResponse {
        status: 502,
        headers: Vec::new(),
        body: message_bytes("Failed to forward request"),
    }
}

/// The `500 Internal Server Error` response for an inbound body that could
/// not be fully read.
pub fn body_read_failure_response() -> (r: GatewayResponse)
    ensures
        r.status == 500,
        r.headers@.len() == 0,
        r.body@ == ascii_bytes("Failed to extract body"@),
        r.body@.len() > 0,
{
    proof {
        reveal_strlit("Failed to extract body");
        assert(vstd::string::is_ascii("Failed to extract body"));
    }
    GatewayResponse {
        status: 500,
        headers: Vec::new(),
        body: message_bytes("Failed to extract body"),
    }
}

/// The `500 Internal Server Error` response used when a received backend
/// response cannot be re-expressed as an outbound response.
pub fn build_failure_response() -> (r: GatewayResponse)
    ensures
        r.status == 500,
        r.headers@.len() == 0,
        r.body@ == ascii_bytes("Failed to build response"@),
        r.body@.len() > 0,
{
    proof {
        reveal_strlit("Failed to build response");
        assert(vstd::string::is_ascii("Failed to build response"));
    }
    GatewayResponse {
        status: 500,
        headers: Vec::new(),
        body: message_bytes("Failed to build response"),
    }
}

/// Turn the outcome of one forwarding attempt into the response for the
/// original caller: a backend answer is relayed with its status verbatim,
/// its headers filtered of framing, and its body verbatim (empty when it
/// could not be read); an unreachable backend becomes `502 Bad Gateway`.
pub fn gateway_reply(outcome: ForwardOutcome) -> (r: GatewayResponse)
    ensures
        match outcome {
            ForwardOutcome::Answered(resp) => {
                &&& r.status == resp.status
                &&& r.headers@ == kept_headers(resp.headers@)
                &&& r.body@ == body_or_empty(resp.body)
            },
            ForwardOutcome::TransportFailed => {
                &&& r.status == 502
                &&& r.headers@.len() == 0
                &&& r.body@ == ascii_bytes("Failed to forward request"@)
                &&& r.body@.len() > 0
            },
        },
{
    match outcome {
        ForwardOutcome::Answered(resp) => {
            let headers = strip_framing_headers(resp.headers);
            let body = match resp.body {
                Some(b) => b,
                None => Vec::new(),
            };
            GatewayResponse { status: resp.status, headers, body }
        },
        ForwardOutcome::TransportFailed => bad_gateway_response(),
    }
}

} // verus!
