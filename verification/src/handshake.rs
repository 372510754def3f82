//! The cryptographic half of the RFC 6455 handshake: from the client's
//! `Sec-WebSocket-Key` to the value of the `Sec-WebSocket-Accept` header.

use vstd::prelude::*;
use vstd::string::StringSliceAdditionalSpecFns;
use vstd::utf8::encode_utf8;
use base64::encode as base64_encode_raw;
use sha1::{Digest, Sha1};

verus! {

/// The fixed GUID that RFC 6455 appends to the client's key before
/// hashing. A protocol constant, never configuration.
pub const WEBSOCKET_GUID: &'static str = "258EAFA5-E914-47DA-95CA-C5AB0DC85B11";

/// The SHA-1 digest of a byte sequence, as the `sha1` crate computes it.
pub uninterp spec fn sha1_of(input: Seq<u8>) -> Seq<u8>;

/// The standard base64 encoding of a byte sequence, with padding, as the
/// `base64` crate computes it.
pub uninterp spec fn base64_of(input: Seq<u8>) -> Seq<char>;

/// Relies on `sha1::Sha1::digest` (through the `Digest` trait): the digest
/// depends on the input bytes alone and is always 20 bytes long.
#[verifier::external_body]
fn sha1_digest(input: &str) -> (r: Vec<u8>)
    ensures
        r@ == sha1_of(input.spec_bytes()),
        r@.len() == 20,
{
    Sha1::digest(input.as_bytes()).to_vec()
}

/// Relies on `base64::encode`: the standard-alphabet, padded encoding of
/// the input bytes, a function of those bytes alone.
#[verifier::external_body]
fn base64_encode(input: &Vec<u8>) -> (r: String)
    ensures
        r@ == base64_of(input@),
{
    base64_encode_raw(input)
}

/// The accept value owed to a client that sent `key`: the base64 encoding
/// of the SHA-1 digest of the key with the protocol GUID appended.
pub open spec fn spec_accept_key(key: Seq<char>) -> Seq<char> {
    base64_of(sha1_of(encode_utf8(key + WEBSOCKET_GUID@)))
}

/// Computes the `Sec-WebSocket-Accept` value for the given
/// `Sec-WebSocket-Key`. The key is hashed exactly as it arrived: no
/// trimming and no re-encoding.
pub fn accept_key(key: &str) -> (r: String)
    ensures
        r@ == spec_accept_key(key@),
{
    let mut input = String::from_str(key);
    input.append(WEBSOCKET_GUID);
    let digest = sha1_digest(input.as_str());
    base64_encode(&digest)
}

} // verus!
