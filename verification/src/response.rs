//! The upgrade decision and the responses it produces: pass a plain
//! request through, reject a malformed handshake, or answer 101 with the
//! exact headers that switch the connection to the WebSocket protocol.

use vstd::prelude::*;
use crate::handshake::{accept_key, spec_accept_key};
use crate::headers::{spec_header, spec_is_upgrade, Headers};

verus! {

/// Status of a response that switches protocols.
pub const STATUS_SWITCHING_PROTOCOLS: u16 = 101;

/// Status of a response that tells the client an upgrade was required.
pub const STATUS_UPGRADE_REQUIRED: u16 = 426;

/// What can go wrong around a WebSocket session.
#[derive(Clone, Debug)]
pub enum Error {
    /// An upgrade request arrived without a `Sec-WebSocket-Key` header.
    MissingHandshakeKey,
    /// The HTTP layer never released the raw transport, so no session
    /// started.
    HandoffNeverGranted,
    /// A value could not be serialized; nothing was written.
    Serialization(String),
}

impl Error {
    /// A short description of the error.
    pub fn describe(&self) -> (r: String)
        ensures
            self matches Error::MissingHandshakeKey ==> r@ == "expected sec-websocket-key"@,
            self matches Error::HandoffNeverGranted ==> r@ == "never received an upgrade"@,
            self matches Error::Serialization(m) ==> r@ == m@,
    {
        match self {
            Error::MissingHandshakeKey => String::from_str("expected sec-websocket-key"),
            Error::HandoffNeverGranted => String::from_str("never received an upgrade"),
            Error::Serialization(m) => m.clone(),
        }
    }
}

/// A response handed back to the HTTP layer: a status code, headers in
/// the order they were set, and a body, possibly empty.
pub struct Response {
    pub status: u16,
    pub headers: Headers,
    pub body: Vec<u8>,
}

/// What the inspector and responder decided for one request.
pub enum UpgradeDecision {
    /// The request did not ask for an upgrade; it passes through
    /// unchanged.
    NotUpgraded,
    /// The request asked for an upgrade: either the 101 response, or the
    /// error that the handshake ran into.
    Upgraded(Result<Response, Error>),
}

/// The exact response owed to a well-formed upgrade request carrying
/// `key`: status 101, no body, and precisely the four handshake headers.
pub open spec fn is_upgrade_response(r: Response, key: Seq<char>) -> bool {
    &&& r.status == STATUS_SWITCHING_PROTOCOLS
    &&& r.body@ == Seq::<u8>::empty()
    &&& r.headers@.len() == 4
    &&& r.headers@[0].0@ == "Upgrade"@ && r.headers@[0].1@ == "websocket"@
    &&& r.headers@[1].0@ == "Connection"@ && r.headers@[1].1@ == "Upgrade"@
    &&& r.headers@[2].0@ == "Sec-WebSocket-Accept"@ && r.headers@[2].1@ == spec_accept_key(key)
    &&& r.headers@[3].0@ == "Sec-WebSocket-Version"@ && r.headers@[3].1@ == "13"@
}

/// A rejection of a non-upgrade request at an upgrade-only endpoint:
/// status 426 with no headers set and an empty body.
pub open spec fn is_upgrade_required_response(r: Response) -> bool {
    &&& r.status == STATUS_UPGRADE_REQUIRED
    &&& r.body@ == Seq::<u8>::empty()
    &&& r.headers@.len() == 0
}

/// Builds the 101 response for a client that sent `key`.
pub fn upgrade_response(key: &str) -> (r: Response)
    ensures
        is_upgrade_response(r, key@),
{
    let mut headers = Headers::new();
    headers.push(String::from_str("Upgrade"), String::from_str("websocket"));
    headers.push(String::from_str("Connection"), String::from_str("Upgrade"));
    headers.push(String::from_str("Sec-WebSocket-Accept"), accept_key(key));
    headers.push(String::from_str("Sec-WebSocket-Version"), String::from_str("13"));
    Response { status: STATUS_SWITCHING_PROTOCOLS, headers, body: Vec::new() }
}

/// Builds the 426 response for a non-upgrade request at an upgrade-only
/// endpoint.
pub fn upgrade_required_response() -> (r: Response)
    ensures
        is_upgrade_required_response(r),
{
    Response { status: STATUS_UPGRADE_REQUIRED, headers: Headers::new(), body: Vec::new() }
}

/// Decides what one request gets: pass-through when it does not ask for
/// an upgrade; an error when it does but lacks the key; otherwise the
/// 101 response with the computed accept value.
pub fn handle_upgrade(headers: &Headers) -> (r: UpgradeDecision)
    ensures
        !spec_is_upgrade(headers@) <==> r matches UpgradeDecision::NotUpgraded,
        spec_is_upgrade(headers@) && spec_header(headers@, "Sec-WebSocket-Key"@) is None
            ==> (r matches UpgradeDecision::Upgraded(res)
                && res matches Err(e) && e matches Error::MissingHandshakeKey),
        spec_is_upgrade(headers@)
            ==> (spec_header(headers@, "Sec-WebSocket-Key"@) matches Some(k)
                ==> (r matches UpgradeDecision::Upgraded(res)
                    && res matches Ok(resp) && is_upgrade_response(resp, k))),
{
    if !headers.is_upgrade() {
        return UpgradeDecision::NotUpgraded;
    }
    match headers.header("Sec-WebSocket-Key") {
        None => UpgradeDecision::Upgraded(Err(Error::MissingHandshakeKey)),
        Some(key) => UpgradeDecision::Upgraded(Ok(upgrade_response(key.as_str()))),
    }
}

/// What an upgrade-only endpoint answers: the handshake result for an
/// upgrade request, status 426 with an empty body for anything else.
pub fn call_response(headers: &Headers) -> (r: Result<Response, Error>)
    ensures
        !spec_is_upgrade(headers@)
            ==> (r matches Ok(resp) && is_upgrade_required_response(resp)),
        spec_is_upgrade(headers@) && spec_header(headers@, "Sec-WebSocket-Key"@) is None
            ==> (r matches Err(e) && e matches Error::MissingHandshakeKey),
        spec_is_upgrade(headers@)
            ==> (spec_header(headers@, "Sec-WebSocket-Key"@) matches Some(k)
                ==> (r matches Ok(resp) && is_upgrade_response(resp, k))),
{
    match handle_upgrade(headers) {
        UpgradeDecision::NotUpgraded => Ok(upgrade_required_response()),
        UpgradeDecision::Upgraded(res) => res,
    }
}

} // verus!
