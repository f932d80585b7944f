//! The device verification handshake: the request phase, in which the two
//! devices agree on a method, and the short authentication string (SAS)
//! exchange, in which the codes are compared and confirmed. Both accept at
//! once; the exchange confirms a fixed delay after the keys are exchanged.
use vstd::prelude::*;

verus! {

/// How long after the keys are exchanged the codes are confirmed.
pub const CONFIRM_DELAY_SECS: u64 = 5;

/// The concrete method that a request turned into.
#[derive(Debug, Clone, Copy, PartialEq, Eq, Structural)]
pub enum Method {
    /// Short authentication string comparison, the one method handled here.
    SasV1,
    /// Any other method, such as scanning a QR code.
    Other,
}

/// A state of a verification request.
#[derive(Debug, Clone, Copy, PartialEq, Eq, Structural)]
pub enum RequestState {
    Created,
    Requested,
    Ready,
    Transitioned(Method),
    Done,
    Cancelled,
}

/// A state of a SAS exchange.
#[derive(Debug, Clone, Copy, PartialEq, Eq, Structural)]
pub enum SasState {
    Created,
    Started,
    Accepted,
    KeysExchanged,
    Confirmed,
    Done,
    Cancelled,
}

/// Where a handler stands.
#[derive(Debug, Clone, Copy, PartialEq, Eq, Structural)]
pub enum Phase {
    /// Its accept call is yet to be made and answered.
    Accepting,
    /// It watches the session's state changes.
    Watching,
    /// It has ended and observes nothing more.
    Finished,
}

/// What the request handler does on a state change.
#[derive(Debug, Clone, Copy, PartialEq, Eq, Structural)]
pub enum RequestAction {
    /// Keep watching.
    Continue,
    /// Start a SAS exchange handler on the new session, and stop watching.
    StartSas,
    /// Stop watching.
    Finish,
}

/// What the SAS handler does on a state change.
#[derive(Debug, Clone, Copy, PartialEq, Eq, Structural)]
pub enum SasAction {
    /// Keep watching.
    Continue,
    /// Start a task that confirms the codes after `CONFIRM_DELAY_SECS`, and
    /// keep watching meanwhile.
    ScheduleConfirm,
    /// The devices are verified: stop watching.
    FinishVerified,
    /// The exchange was cancelled: stop watching. A confirm already scheduled
    /// still runs.
    FinishCancelled,
}

/// The request handler's answer to each state.
pub open spec fn request_action(s: RequestState) -> RequestAction {
    match s {
        RequestState::Transitioned(Method::SasV1) => RequestAction::StartSas,
        RequestState::Transitioned(Method::Other) => RequestAction::Finish,
        RequestState::Done => RequestAction::Finish,
        RequestState::Cancelled => RequestAction::Finish,
        _ => RequestAction::Continue,
    }
}

/// The SAS handler's answer to each state.
pub open spec fn sas_action(s: SasState) -> SasAction {
    match s {
        SasState::KeysExchanged => SasAction::ScheduleConfirm,
        SasState::Done => SasAction::FinishVerified,
        SasState::Cancelled => SasAction::FinishCancelled,
        _ => SasAction::Continue,
    }
}

/// The handler of an inbound verification request. It accepts the request at
/// once, then watches it until it turns into a SAS exchange or ends.
pub struct RequestHandler {
    phase: Phase,
}

impl RequestHandler {
    /// Where the handler stands.
    pub closed spec fn phase(&self) -> Phase {
        self.phase
    }

    /// A handler whose first act is to accept the request.
    pub fn new() -> (h: Self)
        ensures
            h.phase() == Phase::Accepting,
    {
        RequestHandler { phase: Phase::Accepting }
    }

    /// Whether the handler has ended.
    pub fn is_finished(&self) -> (r: bool)
        ensures
            r <==> self.phase() == Phase::Finished,
    {
        match self.phase {
            Phase::Finished => true,
            _ => false,
        }
    }

    /// Takes the answer to the accept call: the handler watches the request
    /// if it was accepted, and ends if not.
    pub fn accepted(&mut self, ok: bool)
        requires
            old(self).phase() == Phase::Accepting,
        ensures
            final(self).phase() == if ok { Phase::Watching } else { Phase::Finished },
    {
        self.phase = if ok { Phase::Watching } else { Phase::Finished };
    }

    /// Takes the next state of the request.
    pub fn on_state(&mut self, state: RequestState) -> (a: RequestAction)
        requires
            old(self).phase() == Phase::Watching,
        ensures
            a == request_action(state),
            final(self).phase() == if a == RequestAction::Continue {
                Phase::Watching
            } else {
                Phase::Finished
            },
    {
        let a = match state {
            RequestState::Transitioned(Method::SasV1) => RequestAction::StartSas,
            RequestState::Transitioned(Method::Other) => RequestAction::Finish,
            RequestState::Done => RequestAction::Finish,
            RequestState::Cancelled => RequestAction::Finish,
            _ => RequestAction::Continue,
        };
        if a != RequestAction::Continue {
            self.phase = Phase::Finished;
        }
        a
    }
}

/// The handler of a SAS exchange. It accepts at once, schedules a confirm
/// when the keys are exchanged, and ends when the exchange is done or
/// cancelled.
pub struct SasHandler {
    phase: Phase,
}

impl SasHandler {
    /// Where the handler stands.
    pub closed spec fn phase(&self) -> Phase {
        self.phase
    }

    /// A handler whose first act is to accept the exchange.
    pub fn new() -> (h: Self)
        ensures
            h.phase() == Phase::Accepting,
    {
        SasHandler { phase: Phase::Accepting }
    }

    /// Whether the handler has ended.
    pub fn is_finished(&self) -> (r: bool)
        ensures
            r <==> self.phase() == Phase::Finished,
    {
        match self.phase {
            Phase::Finished => true,
            _ => false,
        }
    }

    /// Takes the answer to the accept call: a failed accept ends the
    /// exchange, with no retry.
    pub fn accepted(&mut self, ok: bool)
        requires
            old(self).phase() == Phase::Accepting,
        ensures
            final(self).phase() == if ok { Phase::Watching } else { Phase::Finished },
    {
        self.phase = if ok { Phase::Watching } else { Phase::Finished };
    }

    /// Takes the next state of the exchange.
    pub fn on_state(&mut self, state: SasState) -> (a: SasAction)
        requires
            old(self).phase() == Phase::Watching,
        ensures
            a == sas_action(state),
            final(self).phase() == match a {
                SasAction::FinishVerified => Phase::Finished,
                SasAction::FinishCancelled => Phase::Finished,
                _ => Phase::Watching,
            },
    {
        let a = match state {
            SasState::KeysExchanged => SasAction::ScheduleConfirm,
            SasState::Done => SasAction::FinishVerified,
            SasState::Cancelled => SasAction::FinishCancelled,
            _ => SasAction::Continue,
        };
        match a {
            SasAction::FinishVerified | SasAction::FinishCancelled => {
                self.phase = Phase::Finished;
            },
            _ => {},
        }
        a
    }
}

} // verus!
