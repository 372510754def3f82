//! The connection handle's logical core: one session's traffic, seen as
//! two independent directions. Outgoing messages are appended whole, in
//! the order the sends are serialized; incoming frames queue up and are
//! handed out one per receive, oldest first. The transport, the frame
//! codec and the guards that serialize concurrent callers live outside
//! this crate; every operation here is exact about which direction it
//! touches and that it leaves the other one alone.

use vstd::prelude::*;
use crate::message::Message;
use crate::response::Error;

verus! {

/// The state of one WebSocket session as the handle sees it: the
/// messages handed to the write half so far, and the inbound frames that
/// have arrived but have not been received yet.
pub struct WebSocketConnection {
    pub outgoing: Vec<Message>,
    pub incoming: Vec<Message>,
}

/// One send: `m` is appended to the outgoing traffic whole, and the read
/// half is untouched.
pub open spec fn sends(
    pre: WebSocketConnection,
    m: Message,
    post: WebSocketConnection,
) -> bool {
    &&& post.outgoing@ == pre.outgoing@.push(m)
    &&& post.incoming@ == pre.incoming@
}

/// One frame arriving from the transport: `m` joins the end of the
/// inbound queue, and the write half is untouched.
pub open spec fn delivers(
    pre: WebSocketConnection,
    m: Message,
    post: WebSocketConnection,
) -> bool {
    &&& post.incoming@ == pre.incoming@.push(m)
    &&& post.outgoing@ == pre.outgoing@
}

/// One receive: the oldest pending frame comes out, or nothing when the
/// queue is empty; either way the write half is untouched.
pub open spec fn receives(
    pre: WebSocketConnection,
    post: WebSocketConnection,
    r: Option<Message>,
) -> bool {
    if pre.incoming@.len() == 0 {
        r is None && post == pre
    } else {
        &&& r == Some(pre.incoming@[0])
        &&& post.incoming@ == pre.incoming@.drop_first()
        &&& post.outgoing@ == pre.outgoing@
    }
}

impl WebSocketConnection {
    /// A fresh session: nothing sent, nothing pending.
    pub fn new() -> (c: Self)
        ensures
            c.outgoing@ == Seq::<Message>::empty(),
            c.incoming@ == Seq::<Message>::empty(),
    {
        WebSocketConnection { outgoing: Vec::new(), incoming: Vec::new() }
    }

    /// Sends one message as it stands.
    pub fn send(&mut self, message: Message) -> (r: Result<(), Error>)
        ensures
            sends(*old(self), message, *final(self)),
            r is Ok,
    {
        self.outgoing.push(message);
        Ok(())
    }

    /// Sends a text message to the connected client.
    pub fn send_string(&mut self, s: String) -> (r: Result<(), Error>)
        ensures
            sends(*old(self), Message::Text(s), *final(self)),
            r is Ok,
    {
        self.send(Message::Text(s))
    }

    /// Sends a binary message to the connected client.
    pub fn send_bytes(&mut self, bytes: Vec<u8>) -> (r: Result<(), Error>)
        ensures
            sends(*old(self), Message::Binary(bytes), *final(self)),
            r is Ok,
    {
        self.send(Message::Binary(bytes))
    }

    /// Sends an already-serialized value as a text message. The argument
    /// is the outcome of serializing it; when serialization failed, the
    /// error surfaces here and nothing at all is written, so the
    /// connection stays usable exactly as it was.
    pub fn send_json(&mut self, serialized: Result<String, String>) -> (r: Result<(), Error>)
        ensures
            serialized matches Ok(s)
                ==> (sends(*old(self), Message::Text(s), *final(self)) && r is Ok),
            serialized matches Err(reason)
                ==> (*final(self) == *old(self)
                    && (r matches Err(e)
                        && e matches Error::Serialization(m) && m@ == reason@)),
    {
        match serialized {
            Ok(s) => self.send_string(s),
            Err(reason) => Err(Error::Serialization(reason)),
        }
    }

    /// Receives the next pending inbound frame, oldest first, or `None`
    /// when none is pending.
    pub fn next(&mut self) -> (r: Option<Message>)
        ensures
            receives(*old(self), *final(self), r),
    {
        if self.incoming.len() == 0 {
            None
        } else {
            let m = self.incoming.remove(0);
            proof {
                assert(old(self).incoming@.remove(0) =~= old(self).incoming@.drop_first());
            }
            Some(m)
        }
    }

    /// A frame arriving from the transport joins the inbound queue. In a
    /// live session the framing layer calls this side; in a test it is
    /// the paired double that feeds the read half.
    pub fn deliver(&mut self, message: Message)
        ensures
            delivers(*old(self), message, *final(self)),
    {
        self.incoming.push(message);
    }
}

/// Law: a frame delivered to an idle read half comes back from the next
/// receive exactly as it went in, and the session ends where it began.
pub proof fn lemma_round_trip(
    pre: WebSocketConnection,
    mid: WebSocketConnection,
    post: WebSocketConnection,
    m: Message,
    r: Option<Message>,
)
    requires
        pre.incoming@.len() == 0,
        delivers(pre, m, mid),
        receives(mid, post, r),
    ensures
        r == Some(m),
        post.incoming@ == pre.incoming@,
        post.outgoing@ == pre.outgoing@,
{
    assert(mid.incoming@[0] == m);
    assert(mid.incoming@.drop_first() =~= pre.incoming@);
}

/// Law: two sends serialized one after the other deliver both messages,
/// each intact, in call order, and never touch the read half.
pub proof fn lemma_sends_in_order(
    c0: WebSocketConnection,
    c1: WebSocketConnection,
    c2: WebSocketConnection,
    m1: Message,
    m2: Message,
)
    requires
        sends(c0, m1, c1),
        sends(c1, m2, c2),
    ensures
        c2.outgoing@ == c0.outgoing@ + seq![m1, m2],
        c2.incoming@ == c0.incoming@,
{
    assert(c0.outgoing@.push(m1).push(m2) =~= c0.outgoing@ + seq![m1, m2]);
}

/// Law: the two halves are independent. From any state, a send and a
/// receive reach the same session state and yield the same frame in
/// either order, so a blocked reader cannot hold up a writer or the
/// other way round.
pub proof fn lemma_send_receive_commute(
    pre: WebSocketConnection,
    s: WebSocketConnection,
    sr: WebSocketConnection,
    t: WebSocketConnection,
    ts: WebSocketConnection,
    m: Message,
    r1: Option<Message>,
    r2: Option<Message>,
)
    requires
        sends(pre, m, s),
        receives(s, sr, r1),
        receives(pre, t, r2),
        sends(t, m, ts),
    ensures
        r1 == r2,
        sr.outgoing@ == ts.outgoing@,
        sr.incoming@ == ts.incoming@,
{
}

} // verus!
