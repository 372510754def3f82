//! The lifecycle of one connection through the dispatcher's states.

use tide_websockets::session::{step, SessionEvent, SessionState};

#[test]
fn successful_session_runs_the_full_lifecycle() {
    let s = SessionState::AwaitingUpgradeDecision;
    let s = step(s, SessionEvent::UpgradeAccepted);
    assert_eq!(s, SessionState::Upgrading);
    let s = step(s, SessionEvent::HandoffGranted);
    assert_eq!(s, SessionState::Active);
    let s = step(s, SessionEvent::HandlerReturned);
    assert_eq!(s, SessionState::Closed);
}

#[test]
fn denied_handoff_never_activates_a_session() {
    let s = step(SessionState::AwaitingUpgradeDecision, SessionEvent::UpgradeAccepted);
    let s = step(s, SessionEvent::HandoffDenied);
    assert_eq!(s, SessionState::HandshakeFailed);
    let s = step(s, SessionEvent::TransportClosed);
    assert_eq!(s, SessionState::Closed);
}

#[test]
fn non_upgrades_are_rejected_or_passed_on() {
    assert_eq!(
        step(SessionState::AwaitingUpgradeDecision, SessionEvent::RequestRejected),
        SessionState::Rejected
    );
    assert_eq!(
        step(SessionState::AwaitingUpgradeDecision, SessionEvent::RequestPassedOn),
        SessionState::PassedThrough
    );
}

#[test]
fn closed_is_terminal() {
    let events = [
        SessionEvent::RequestRejected,
        SessionEvent::RequestPassedOn,
        SessionEvent::UpgradeAccepted,
        SessionEvent::HandoffGranted,
        SessionEvent::HandoffDenied,
        SessionEvent::HandlerReturned,
        SessionEvent::TransportClosed,
    ];
    for e in events {
        assert_eq!(step(SessionState::Closed, e), SessionState::Closed);
    }
}

#[test]
fn meaningless_events_change_nothing() {
    assert_eq!(
        step(SessionState::Active, SessionEvent::UpgradeAccepted),
        SessionState::Active
    );
    assert_eq!(
        step(SessionState::Upgrading, SessionEvent::HandlerReturned),
        SessionState::Upgrading
    );
}
