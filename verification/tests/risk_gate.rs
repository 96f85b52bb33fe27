use traderd::risk::{risk_state_label, state_or_paused};
use traderd::{RiskGate, RiskState};

#[test]
fn fresh_gate_is_active() {
    let gate = RiskGate::new();
    assert_eq!(gate.status(), RiskState::Active);
    assert_eq!(RiskGate::default().status(), RiskState::Active);
    assert_eq!(RiskState::default(), RiskState::Active);
}

#[test]
fn repeated_pauses_stay_paused() {
    let mut gate = RiskGate::new();
    for _ in 0..5 {
        gate.pause();
        assert_eq!(gate.status(), RiskState::Paused);
    }
}

#[test]
fn pause_then_resume_returns_to_active() {
    let mut gate = RiskGate::new();
    gate.pause();
    gate.resume();
    assert_eq!(gate.status(), RiskState::Active);
    gate.resume();
    assert_eq!(gate.status(), RiskState::Active);
}

#[test]
fn ambiguous_read_degrades_to_paused() {
    assert_eq!(state_or_paused(None), RiskState::Paused);
    assert_eq!(state_or_paused(Some(RiskState::Active)), RiskState::Active);
    assert_eq!(state_or_paused(Some(RiskState::Paused)), RiskState::Paused);
}

#[test]
fn state_labels_match_the_wire_protocol() {
    assert_eq!(risk_state_label(RiskState::Active), "Active");
    assert_eq!(risk_state_label(RiskState::Paused), "Paused");
}
