//! The discrete units of WebSocket traffic: text, binary, ping, pong and
//! close frames, immutable once constructed.

use vstd::prelude::*;

verus! {

/// The payload of a close frame: a status code and a human-readable reason.
#[derive(Clone, Debug)]
pub struct CloseFrame {
    pub code: u16,
    pub reason: String,
}

/// One WebSocket message, as handed to or received from the frame codec.
#[derive(Clone, Debug)]
pub enum Message {
    Text(String),
    Binary(Vec<u8>),
    Ping(Vec<u8>),
    Pong(Vec<u8>),
    Close(Option<CloseFrame>),
}

/// Equality of two messages up to the contents of their payloads.
pub open spec fn msg_eq(a: &Message, b: &Message) -> bool {
    match (a, b) {
        (Message::Text(x), Message::Text(y)) => x@ == y@,
        (Message::Binary(x), Message::Binary(y)) => x@ == y@,
        (Message::Ping(x), Message::Ping(y)) => x@ == y@,
        (Message::Pong(x), Message::Pong(y)) => x@ == y@,
        (Message::Close(x), Message::Close(y)) => match (x, y) {
            (None, None) => true,
            (Some(f), Some(g)) => f.code == g.code && f.reason@ == g.reason@,
            _ => false,
        },
        _ => false,
    }
}

/// Byte-for-byte equality of two buffers.
fn bytes_eq(a: &Vec<u8>, b: &Vec<u8>) -> (r: bool)
    ensures
        r == (a@ == b@),
{
    if a.len() != b.len() {
        return false;
    }
    let n = a.len();
    for i in 0..n
        invariant
            n == a.len() == b.len(),
            forall|j: int| 0 <= j < i ==> a@[j] == b@[j],
    {
        if a[i] != b[i] {
            return false;
        }
    }
    proof {
        assert(a@ =~= b@);
    }
    true
}

impl PartialEq for Message {
    fn eq(&self, other: &Self) -> (r: bool) {
        match (self, other) {
            (Message::Text(x), Message::Text(y)) => *x == *y,
            (Message::Binary(x), Message::Binary(y)) => bytes_eq(x, y),
            (Message::Ping(x), Message::Ping(y)) => bytes_eq(x, y),
            (Message::Pong(x), Message::Pong(y)) => bytes_eq(x, y),
            (Message::Close(x), Message::Close(y)) => match (x, y) {
                (None, None) => true,
                (Some(f), Some(g)) => f.code == g.code && f.reason == g.reason,
                _ => false,
            },
            _ => false,
        }
    }
}

impl vstd::std_specs::cmp::PartialEqSpecImpl for Message {
    open spec fn obeys_eq_spec() -> bool {
        true
    }

    open spec fn eq_spec(&self, other: &Self) -> bool {
        msg_eq(self, other)
    }
}

} // verus!
