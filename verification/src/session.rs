//! The lifecycle of one connection, from the moment a request is
//! inspected to the end of its session. The dispatcher that actually
//! spawns the handler lives outside this crate; the states it may move
//! through, and the moves themselves, are fixed here.

use vstd::prelude::*;

verus! {

/// Where one connection stands.
#[derive(Clone, Copy, Debug, PartialEq, Eq, Structural)]
pub enum SessionState {
    /// The request has arrived and has not been inspected yet.
    AwaitingUpgradeDecision,
    /// The request was answered without an upgrade (status 426, or a
    /// handshake error); no session starts.
    Rejected,
    /// The request was not an upgrade and was handed on unchanged.
    PassedThrough,
    /// The 101 response is queued; the raw transport is awaited.
    Upgrading,
    /// The transport was never released; the handler is never started.
    HandshakeFailed,
    /// The handler runs against the connection handle.
    Active,
    /// The session is over. Terminal and irreversible.
    Closed,
}

/// What can happen to a connection.
#[derive(Clone, Copy, Debug, PartialEq, Eq, Structural)]
pub enum SessionEvent {
    /// An upgrade-only endpoint saw no valid upgrade request.
    RequestRejected,
    /// A middleware saw no upgrade request and handed it on.
    RequestPassedOn,
    /// The 101 response was produced and queued.
    UpgradeAccepted,
    /// The HTTP layer released the raw transport.
    HandoffGranted,
    /// The HTTP layer never released the transport.
    HandoffDenied,
    /// The handler returned, successfully or not.
    HandlerReturned,
    /// The transport closed or failed.
    TransportClosed,
}

/// The next state after `event` hits `state`. An event that has no
/// meaning in the current state changes nothing.
pub open spec fn spec_step(state: SessionState, event: SessionEvent) -> SessionState {
    match (state, event) {
        (SessionState::AwaitingUpgradeDecision, SessionEvent::RequestRejected)
            => SessionState::Rejected,
        (SessionState::AwaitingUpgradeDecision, SessionEvent::RequestPassedOn)
            => SessionState::PassedThrough,
        (SessionState::AwaitingUpgradeDecision, SessionEvent::UpgradeAccepted)
            => SessionState::Upgrading,
        (SessionState::Upgrading, SessionEvent::HandoffGranted) => SessionState::Active,
        (SessionState::Upgrading, SessionEvent::HandoffDenied) => SessionState::HandshakeFailed,
        (SessionState::Active, SessionEvent::HandlerReturned) => SessionState::Closed,
        (SessionState::Active, SessionEvent::TransportClosed) => SessionState::Closed,
        (SessionState::HandshakeFailed, SessionEvent::TransportClosed) => SessionState::Closed,
        _ => state,
    }
}

/// The moves a connection may make: staying put, or one of the arrows of
/// the lifecycle.
pub open spec fn allowed(from: SessionState, to: SessionState) -> bool {
    ||| to == from
    ||| (from == SessionState::AwaitingUpgradeDecision
        && (to == SessionState::Rejected || to == SessionState::PassedThrough
            || to == SessionState::Upgrading))
    ||| (from == SessionState::Upgrading
        && (to == SessionState::HandshakeFailed || to == SessionState::Active))
    ||| (from == SessionState::Active && to == SessionState::Closed)
    ||| (from == SessionState::HandshakeFailed && to == SessionState::Closed)
}

/// Advances the lifecycle by one event.
pub fn step(state: SessionState, event: SessionEvent) -> (r: SessionState)
    ensures
        r == spec_step(state, event),
{
    match (state, event) {
        (SessionState::AwaitingUpgradeDecision, SessionEvent::RequestRejected)
            => SessionState::Rejected,
        (SessionState::AwaitingUpgradeDecision, SessionEvent::RequestPassedOn)
            => SessionState::PassedThrough,
        (SessionState::AwaitingUpgradeDecision, SessionEvent::UpgradeAccepted)
            => SessionState::Upgrading,
        (SessionState::Upgrading, SessionEvent::HandoffGranted) => SessionState::Active,
        (SessionState::Upgrading, SessionEvent::HandoffDenied) => SessionState::HandshakeFailed,
        (SessionState::Active, SessionEvent::HandlerReturned) => SessionState::Closed,
        (SessionState::Active, SessionEvent::TransportClosed) => SessionState::Closed,
        (SessionState::HandshakeFailed, SessionEvent::TransportClosed) => SessionState::Closed,
        _ => state,
    }
}

/// Law: every step is an allowed move of the lifecycle.
pub proof fn lemma_step_allowed(state: SessionState, event: SessionEvent)
    ensures
        allowed(state, spec_step(state, event)),
{
}

/// Law: `Closed` is terminal; no event leaves it.
pub proof fn lemma_closed_terminal(event: SessionEvent)
    ensures
        spec_step(SessionState::Closed, event) == SessionState::Closed,
{
}

} // verus!
