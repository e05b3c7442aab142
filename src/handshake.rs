//! The TLS handshake state machine. The engine performs each handshake step;
//! this machine interprets the step's return code and the engine's error
//! code, and decides whether the handshake is established, suspended until
//! the socket is ready, or failed for good.

use vstd::prelude::*;
use crate::error::{ErrorKind, HttpClientError};
use crate::stream::VerifiedStream;

verus! {

/// Engine error code: no error.
pub const SSL_ERROR_NONE: i32 = 0;
/// Engine error code: a protocol failure inside the engine.
pub const SSL_ERROR_SSL: i32 = 1;
/// Engine error code: the step must be retried once the socket is readable.
pub const SSL_ERROR_WANT_READ: i32 = 2;
/// Engine error code: the step must be retried once the socket is writable.
pub const SSL_ERROR_WANT_WRITE: i32 = 3;
/// Engine error code: a transport-level failure, such as a reset.
pub const SSL_ERROR_SYSCALL: i32 = 5;
/// Engine error code: the peer closed the session.
pub const SSL_ERROR_ZERO_RETURN: i32 = 6;

/// The socket readiness a suspended operation waits for.
#[derive(Debug, Clone, Copy, PartialEq, Eq, Structural)]
pub enum Want {
    Read,
    Write,
}

/// What the engine's error code says of a non-positive return code: a
/// direction to wait in, or nothing (the failure is terminal).
pub open spec fn want_of(code: i32) -> Option<Want> {
    if code == SSL_ERROR_WANT_READ {
        Some(Want::Read)
    } else if code == SSL_ERROR_WANT_WRITE {
        Some(Want::Write)
    } else {
        None
    }
}

/// The outcome of one handshake step.
#[derive(Debug, Clone, Copy, PartialEq, Eq, Structural)]
pub enum StepOutcome {
    /// The handshake completed.
    Established,
    /// No progress was possible yet; retry when the socket is ready.
    WouldBlock(Want),
    /// The handshake failed for good, with the engine's error code.
    Failed(i32),
}

/// How a step's return code `ret`, with the engine's error code `code`,
/// is interpreted.
pub open spec fn step_outcome(ret: i32, code: i32) -> StepOutcome {
    if ret > 0 {
        StepOutcome::Established
    } else {
        match want_of(code) {
            Some(w) => StepOutcome::WouldBlock(w),
            None => StepOutcome::Failed(code),
        }
    }
}

/// Interprets the return code of one handshake step.
pub fn classify_step(ret: i32, code: i32) -> (r: StepOutcome)
    ensures
        r == step_outcome(ret, code),
{
    if ret > 0 {
        StepOutcome::Established
    } else if code == SSL_ERROR_WANT_READ {
        StepOutcome::WouldBlock(Want::Read)
    } else if code == SSL_ERROR_WANT_WRITE {
        StepOutcome::WouldBlock(Want::Write)
    } else {
        StepOutcome::Failed(code)
    }
}

/// The states of a handshake.
#[derive(Debug, Clone, Copy, PartialEq, Eq, Structural)]
pub enum HandshakeState {
    Unstarted,
    InProgress(Want),
    Established,
    Failed,
}

/// The state that a step outcome leads to.
pub open spec fn state_after(o: StepOutcome) -> HandshakeState {
    match o {
        StepOutcome::Established => HandshakeState::Established,
        StepOutcome::WouldBlock(w) => HandshakeState::InProgress(w),
        StepOutcome::Failed(_) => HandshakeState::Failed,
    }
}

/// The state after a resumption that returned `ret` and `code`: a suspended
/// handshake moves on; any other state is left as it is (the resumption is
/// refused as a usage error).
pub open spec fn resumed(s: HandshakeState, ret: i32, code: i32) -> HandshakeState {
    match s {
        HandshakeState::InProgress(_) => state_after(step_outcome(ret, code)),
        _ => s,
    }
}

/// The state after a run of resumptions, each given as its step's return
/// code and error code.
pub open spec fn resumed_all(s: HandshakeState, steps: Seq<(i32, i32)>) -> HandshakeState
    decreases steps.len(),
{
    if steps.len() == 0 {
        s
    } else {
        resumed_all(resumed(s, steps[0].0, steps[0].1), steps.drop_first())
    }
}

/// A step that reports that the socket is not ready yet.
pub open spec fn is_not_ready(step: (i32, i32)) -> bool {
    step.0 <= 0 && want_of(step.1) is Some
}

/// The error that a terminal handshake failure is surfaced as.
pub fn handshake_failure() -> (r: HttpClientError)
    ensures
        r.kind() == ErrorKind::Connect,
        r.cause_text() == Some("TLS handshake failed"@),
{
    HttpClientError::new_with_message(ErrorKind::Connect, "TLS handshake failed")
}

/// A handshake driven through its states. The engine call itself is made by
/// the owner of the session; the machine is told what each step returned.
pub struct Handshake {
    state: HandshakeState,
}

impl Handshake {
    /// The current state.
    pub closed spec fn spec_state(&self) -> HandshakeState {
        self.state
    }

    /// A handshake that has not been started.
    pub fn new() -> (r: Handshake)
        ensures
            r.spec_state() == HandshakeState::Unstarted,
    {
        Handshake { state: HandshakeState::Unstarted }
    }

    /// The current state.
    pub fn state(&self) -> (r: HandshakeState)
        ensures
            r == self.spec_state(),
    {
        self.state
    }

    fn usage_error(message: &str) -> (r: HttpClientError)
        ensures
            r.kind() == ErrorKind::Other,
            r.cause_text() == Some(message@),
    {
        HttpClientError::new_with_message(ErrorKind::Other, message)
    }

    /// Records the first step, which returned `ret` with error code `code`.
    /// Only an unstarted handshake can begin; otherwise the call is a usage
    /// error and the state is kept.
    pub fn begin(&mut self, ret: i32, code: i32) -> (r: Result<StepOutcome, HttpClientError>)
        ensures
            old(self).spec_state() == HandshakeState::Unstarted ==> {
                &&& r == Ok::<StepOutcome, HttpClientError>(step_outcome(ret, code))
                &&& final(self).spec_state() == state_after(step_outcome(ret, code))
            },
            old(self).spec_state() != HandshakeState::Unstarted ==> {
                &&& (r matches Err(e) && e.kind() == ErrorKind::Other)
                &&& final(self).spec_state() == old(self).spec_state()
            },
    {
        match self.state {
            HandshakeState::Unstarted => {
                let o = classify_step(ret, code);
                self.state = Self::next_state(o);
                Ok(o)
            },
            _ => Err(Self::usage_error("handshake already started")),
        }
    }

    /// Records a resumption of a suspended handshake, which returned `ret`
    /// with error code `code`. Resuming a handshake that is not suspended is a
    /// usage error and keeps the state.
    pub fn resume(&mut self, ret: i32, code: i32) -> (r: Result<StepOutcome, HttpClientError>)
        ensures
            final(self).spec_state() == resumed(old(self).spec_state(), ret, code),
            old(self).spec_state() is InProgress ==> r == Ok::<StepOutcome, HttpClientError>(
                step_outcome(ret, code),
            ),
            !(old(self).spec_state() is InProgress) ==> (r matches Err(e) && e.kind()
                == ErrorKind::Other),
    {
        match self.state {
            HandshakeState::InProgress(_) => {
                let o = classify_step(ret, code);
                self.state = Self::next_state(o);
                Ok(o)
            },
            _ => Err(Self::usage_error("handshake is not suspended")),
        }
    }

    /// The stream over the established session, carrying the verification
    /// result that the engine reported at completion. There is none before
    /// the handshake is established.
    pub fn established_stream(&self, verify_result: i64) -> (r: Option<VerifiedStream>)
        ensures
            r is Some <==> self.spec_state() == HandshakeState::Established,
            r matches Some(st) ==> st.spec_verify_result() == verify_result,
    {
        match self.state {
            HandshakeState::Established => Some(VerifiedStream::new(verify_result)),
            _ => None,
        }
    }

    fn next_state(o: StepOutcome) -> (r: HandshakeState)
        ensures
            r == state_after(o),
    {
        match o {
            StepOutcome::Established => HandshakeState::Established,
            StepOutcome::WouldBlock(w) => HandshakeState::InProgress(w),
            StepOutcome::Failed(_) => HandshakeState::Failed,
        }
    }
}

/// A suspended handshake whose socket never becomes ready stays suspended,
/// however often it is resumed: it never becomes established.
pub proof fn never_ready_never_established(w: Want, steps: Seq<(i32, i32)>)
    requires
        forall|i: int| 0 <= i < steps.len() ==> is_not_ready(#[trigger] steps[i]),
    ensures
        resumed_all(HandshakeState::InProgress(w), steps) is InProgress,
    decreases steps.len(),
{
    if steps.len() > 0 {
        assert(is_not_ready(steps[0]));
        let next = resumed(HandshakeState::InProgress(w), steps[0].0, steps[0].1);
        let w2 = want_of(steps[0].1).unwrap();
        assert(next == HandshakeState::InProgress(w2));
        assert forall|i: int| 0 <= i < steps.drop_first().len() implies is_not_ready(
            #[trigger] steps.drop_first()[i],
        ) by {
            assert(steps.drop_first()[i] == steps[i + 1]);
        }
        never_ready_never_established(w2, steps.drop_first());
    }
}

/// Once the engine signals success on a suspended handshake, the handshake
/// is established, and stays so through any further resumption, each of which
/// is refused.
pub proof fn established_exactly_once(w: Want, ret: i32, code: i32, later: Seq<(i32, i32)>)
    requires
        ret > 0,
    ensures
        resumed(HandshakeState::InProgress(w), ret, code) == HandshakeState::Established,
        resumed_all(HandshakeState::Established, later) == HandshakeState::Established,
    decreases later.len(),
{
    if later.len() > 0 {
        established_exactly_once(w, ret, code, later.drop_first());
    }
}

} // verus!
