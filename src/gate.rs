//! The verified-device flag that the timeline waits on before it starts.
use vstd::prelude::*;

verus! {

/// The device's verification state as the encryption layer reports it.
#[derive(Debug, Clone, Copy, PartialEq, Eq, Structural)]
pub enum VerificationState {
    /// Not yet known, before the first check.
    Unknown,
    /// The device is verified.
    Verified,
    /// The device is not verified.
    Unverified,
}

/// The next move of a task that waits for the device to be verified.
#[derive(Debug, Clone, Copy, PartialEq, Eq, Structural)]
pub enum WaitStep {
    /// The device is verified: go on.
    Proceed,
    /// Not verified: sleep until the next wake, then look again.
    Sleep,
}

/// Whether a reported state counts as verified: only `Verified` does.
pub open spec fn is_verified(s: VerificationState) -> bool {
    s == VerificationState::Verified
}

/// The flag that records whether this device has completed verification.
#[derive(Debug, Clone, Copy, PartialEq, Eq, Structural)]
pub struct VerifiedGate {
    verified: bool,
}

impl View for VerifiedGate {
    type V = bool;

    closed spec fn view(&self) -> bool {
        self.verified
    }
}

impl VerifiedGate {
    /// A flag that starts unset: nothing has been verified yet.
    pub fn new() -> (g: Self)
        ensures
            !g@,
    {
        VerifiedGate { verified: false }
    }

    /// Whether the device is verified.
    pub fn is_open(&self) -> (r: bool)
        ensures
            r == self@,
    {
        self.verified
    }

    /// Records a state update. The flag follows the latest update; the result
    /// says whether the flag changed, which is when waiters are woken.
    pub fn observe(&mut self, state: VerificationState) -> (wake: bool)
        ensures
            final(self)@ == is_verified(state),
            wake <==> final(self)@ != old(self)@,
    {
        let v = match state {
            VerificationState::Verified => true,
            _ => false,
        };
        let changed = v != self.verified;
        self.verified = v;
        changed
    }

    /// What a waiter does on looking at the flag: it goes on only once the
    /// flag is set, and looks again after every wake.
    pub fn wait_step(&self) -> (s: WaitStep)
        ensures
            s == WaitStep::Proceed <==> self@,
            s == WaitStep::Sleep <==> !self@,
    {
        if self.verified {
            WaitStep::Proceed
        } else {
            WaitStep::Sleep
        }
    }
}

} // verus!
