//! The risk gate: the single source of truth for whether the trading daemon
//! may act. A two-valued state with total, reversible, idempotent
//! transitions, and a fallible read that degrades to the safe state.

use vstd::prelude::*;

verus! {

/// Whether the trading daemon may act. There is no third state and no
/// transient lock-out window visible to readers.
#[derive(Clone, Copy, Debug, PartialEq, Eq, Structural)]
pub enum RiskState {
    Active,
    Paused,
}

impl Default for RiskState {
    fn default() -> (r: Self)
        ensures
            r == RiskState::Active,
    {
        RiskState::Active
    }
}

/// The state after a pause: unconditionally `Paused`.
pub open spec fn state_after_pause(s: RiskState) -> RiskState {
    RiskState::Paused
}

/// The state after a resume: unconditionally `Active`.
pub open spec fn state_after_resume(s: RiskState) -> RiskState {
    RiskState::Active
}

/// The state after `n` consecutive pauses starting from `s`.
pub open spec fn state_after_pauses(s: RiskState, n: nat) -> RiskState
    decreases n,
{
    if n == 0 {
        s
    } else {
        state_after_pause(state_after_pauses(s, (n - 1) as nat))
    }
}

/// The label a status report carries for a state.
pub open spec fn state_text(s: RiskState) -> Seq<char> {
    match s {
        RiskState::Active => "Active"@,
        RiskState::Paused => "Paused"@,
    }
}

/// The guarded risk flag. Constructed once at startup and
/// shared by handle; mutation is exclusive, so the transition functions
/// take it by `&mut`.
#[derive(Clone, Copy, Debug, PartialEq, Eq, Structural)]
pub struct RiskGate {
    /// The current disposition of the daemon.
    pub state: RiskState,
}

impl RiskGate {
    /// A fresh gate starts out `Active`.
    pub fn new() -> (r: Self)
        ensures
            r.state == RiskState::Active,
    {
        RiskGate { state: RiskState::Active }
    }

    /// Forbid trading. Idempotent: pausing an already-paused gate is a
    /// no-op with the same observable effect.
    pub fn pause(&mut self)
        ensures
            final(self).state == state_after_pause(old(self).state),
            final(self).state == RiskState::Paused,
    {
        self.state = RiskState::Paused;
    }

    /// Allow trading again. Idempotent, like `pause`.
    pub fn resume(&mut self)
        ensures
            final(self).state == state_after_resume(old(self).state),
            final(self).state == RiskState::Active,
    {
        self.state = RiskState::Active;
    }

    /// Read the current disposition.
    pub fn status(&self) -> (r: RiskState)
        ensures
            r == self.state,
    {
        self.state
    }
}

impl Default for RiskGate {
    fn default() -> (r: Self)
        ensures
            r.state == RiskState::Active,
    {
        RiskGate::new()
    }
}

/// The label a status report carries for a state, as text.
pub fn risk_state_label(s: RiskState) -> (r: &'static str)
    ensures
        r@ == state_text(s),
{
    match s {
        RiskState::Active => "Active",
        RiskState::Paused => "Paused",
    }
}

/// The disposition to report from a fallible read of the shared gate.
/// Ambiguity about whether trading is permitted (a reader that found the
/// gate's lock broken by a failed prior holder reports `None`) must resolve
/// to the safe, non-trading state, never to `Active`.
pub fn state_or_paused(read: Option<RiskState>) -> (r: RiskState)
    ensures
        read is Some ==> r == read->0,
        read is None ==> r == RiskState::Paused,
{
    match read {
        Some(s) => s,
        None => RiskState::Paused,
    }
}

/// After any run of one or more pauses, the risk state is `Paused` and a status
/// report says so, no matter what state it started in.
pub proof fn lemma_pauses_stay_paused(s: RiskState, n: nat)
    requires
        n >= 1,
    ensures
        state_after_pauses(s, n) == RiskState::Paused,
        state_text(state_after_pauses(s, n)) == "Paused"@,
    decreases n,
{
    if n > 1 {
        lemma_pauses_stay_paused(s, (n - 1) as nat);
    }
}

/// Pause followed by resume always lands in `Active`; in particular, a
/// gate that was `Active` is returned to exactly its old state.
pub proof fn lemma_pause_resume_round_trip(s: RiskState)
    ensures
        state_after_resume(state_after_pause(s)) == RiskState::Active,
        s == RiskState::Active ==> state_after_resume(state_after_pause(s)) == s,
{
}

} // verus!
