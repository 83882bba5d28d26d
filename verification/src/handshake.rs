//! The server side of the handshake collaborator's visible behaviour:
//! the callback capability that may inspect the incoming request's
//! headers, append headers to the outgoing response, or reject the
//! handshake, and the response the collaborator produces for each
//! capability.  Upgrade negotiation and framing themselves are the
//! collaborator's business and stay outside this crate.

use vstd::prelude::*;
use crate::error::{Error, HandshakeError};

verus! {

/// The switching-protocols status a successful upgrade answers with.
pub const SWITCHING_PROTOCOLS: u16 = 101;

/// The callback capability an accept may carry, as a closed set: do
/// nothing, append the given headers to the outgoing response, or
/// reject the handshake outright with a status code.
#[derive(Clone, Debug, PartialEq, Eq)]
pub enum Callback {
    /// No header inspection: the response is the plain upgrade answer.
    NoCallback,
    /// Append these headers to the outgoing response.
    AppendHeaders(Vec<(String, String)>),
    /// Reject the handshake with this status code.
    Reject(u16),
}

/// A handshake response: status plus ordered header pairs, returned to
/// the connect caller unmodified.
#[derive(Clone, Debug, PartialEq, Eq)]
pub struct Response {
    pub status: u16,
    pub headers: Vec<(String, String)>,
}

/// Header pairs as sequences of characters.
pub open spec fn headers_view(h: Seq<(String, String)>) -> Seq<(Seq<char>, Seq<char>)> {
    h.map_values(|p: (String, String)| (p.0@, p.1@))
}

/// Abstract value of a response.
pub ghost struct ResponseView {
    pub status: u16,
    pub headers: Seq<(Seq<char>, Seq<char>)>,
}

impl View for Response {
    type V = ResponseView;

    open spec fn view(&self) -> ResponseView {
        ResponseView { status: self.status, headers: headers_view(self.headers@) }
    }
}

/// The headers every successful upgrade response carries.
pub open spec fn spec_base_headers() -> Seq<(Seq<char>, Seq<char>)> {
    seq![("Upgrade"@, "websocket"@), ("Connection"@, "Upgrade"@)]
}

/// Whether the header list holds the pair `(key, value)`.
pub open spec fn spec_header_present(
    headers: Seq<(Seq<char>, Seq<char>)>,
    key: Seq<char>,
    value: Seq<char>,
) -> bool {
    exists|i: int| 0 <= i < headers.len() && headers[i] == (key, value)
}

/// Mapping header pairs to their character sequences commutes with
/// appending one pair.
proof fn lemma_headers_view_push(h: Seq<(String, String)>, p: (String, String))
    ensures
        headers_view(h.push(p)) =~= headers_view(h).push((p.0@, p.1@)),
{
    assert forall|k: int| 0 <= k < h.push(p).len() implies headers_view(h.push(p))[k]
        == headers_view(h).push((p.0@, p.1@))[k] by {
        if k < h.len() {
            assert(h.push(p)[k] == h[k]);
        } else {
            assert(h.push(p)[k] == p);
        }
    }
}

/// The headers of every successful upgrade response.
fn base_response_headers() -> (v: Vec<(String, String)>)
    ensures
        headers_view(v@) == spec_base_headers(),
{
    let mut v: Vec<(String, String)> = Vec::new();
    v.push(("Upgrade".to_owned(), "websocket".to_owned()));
    v.push(("Connection".to_owned(), "Upgrade".to_owned()));
    proof {
        assert(headers_view(v@) =~= spec_base_headers());
    }
    v
}

/// The response the handshake collaborator produces while processing
/// headers with the given callback capability: a rejection surfaces as
/// a handshake error with the callback's status code, and otherwise the
/// switching-protocols response carries the base upgrade headers
/// followed by exactly the headers the callback appended.
pub fn server_handshake_response(callback: &Callback) -> (r: Result<Response, Error>)
    ensures
        callback matches Callback::Reject(code) ==> (
            r matches Err(e)
                && e matches Error::Handshake(he)
                && he matches HandshakeError::Rejected(c) && c == code
        ),
        callback matches Callback::NoCallback ==> (
            r matches Ok(resp)
                && resp@.status == SWITCHING_PROTOCOLS
                && resp@.headers == spec_base_headers()
        ),
        callback matches Callback::AppendHeaders(extra) ==> (
            r matches Ok(resp)
                && resp@.status == SWITCHING_PROTOCOLS
                && resp@.headers == spec_base_headers() + headers_view(extra@)
        ),
{
    match callback {
        Callback::Reject(code) => Err(Error::Handshake(HandshakeError::Rejected(*code))),
        Callback::NoCallback => Ok(Response {
            status: SWITCHING_PROTOCOLS,
            headers: base_response_headers(),
        }),
        Callback::AppendHeaders(extra) => {
            let mut headers = base_response_headers();
            let mut i: usize = 0;
            while i < extra.len()
                invariant
                    i <= extra@.len(),
                    headers_view(headers@) == spec_base_headers()
                        + headers_view(extra@).take(i as int),
                decreases extra@.len() - i,
            {
                let ghost headers_before = headers@;
                let pair = (extra[i].0.clone(), extra[i].1.clone());
                headers.push(pair);
                proof {
                    lemma_headers_view_push(headers_before, pair);
                    assert(headers_view(extra@)[i as int] == (extra@[i as int].0@, extra@[i as int].1@));
                    assert(headers_view(headers@)
                        =~= spec_base_headers() + headers_view(extra@).take(i + 1));
                }
                i = i + 1;
            }
            proof {
                assert(headers_view(extra@).take(extra@.len() as int) =~= headers_view(extra@));
                assert(headers_view(headers@) =~= spec_base_headers() + headers_view(extra@));
            }
            Ok(Response { status: SWITCHING_PROTOCOLS, headers })
        }
    }
}

/// Every header the inspecting callback appends is present in the
/// response the collaborator produces for it.
pub proof fn lemma_appended_headers_present(extra: Seq<(String, String)>, i: int)
    requires
        0 <= i < extra.len(),
    ensures
        spec_header_present(
            spec_base_headers() + headers_view(extra),
            extra[i].0@,
            extra[i].1@,
        ),
{
    let all = spec_base_headers() + headers_view(extra);
    assert(all[spec_base_headers().len() as int + i] == (extra[i].0@, extra[i].1@));
}

/// Whether the response holds a header equal to `(key, value)`.
pub fn response_contains(resp: &Response, key: &str, value: &str) -> (b: bool)
    ensures
        b == spec_header_present(resp@.headers, key@, value@),
{
    let key_owned: String = key.to_owned();
    let value_owned: String = value.to_owned();
    let mut i: usize = 0;
    while i < resp.headers.len()
        invariant
            i <= resp.headers@.len(),
            key_owned@ == key@,
            value_owned@ == value@,
            forall|j: int| 0 <= j < i ==> resp@.headers[j] != (key@, value@),
        decreases resp.headers@.len() - i,
    {
        if resp.headers[i].0 == key_owned && resp.headers[i].1 == value_owned {
            proof {
                assert(resp@.headers[i as int] == (key@, value@));
            }
            return true;
        }
        proof {
            assert(resp@.headers[i as int] != (key@, value@));
        }
        i = i + 1;
    }
    false
}

} // verus!
