//! The decisions of the client core for one request: when to send, when to
//! follow a redirect, when to retry on a fresh connection, and when to stop
//! with a response or an error. The caller performs each action (acquire a
//! connection, write the request, read the response head) and reports what
//! happened as the next event.

use vstd::prelude::*;
use crate::error::{ErrorKind, HttpClientError};

verus! {

/// Request methods.
#[derive(Debug, Clone, Copy, PartialEq, Eq, Structural)]
pub enum Method {
    Get,
    Head,
    Options,
    Trace,
    Put,
    Delete,
    Post,
    Patch,
    Connect,
}

/// Whether a request with method `m` can be repeated without changing what
/// it does.
pub open spec fn idempotent(m: Method) -> bool {
    match m {
        Method::Get | Method::Head | Method::Options | Method::Trace | Method::Put
        | Method::Delete => true,
        _ => false,
    }
}

impl Method {
    /// Whether a request with this method can be repeated without changing
    /// what it does.
    pub fn is_idempotent(&self) -> (r: bool)
        ensures
            r == idempotent(*self),
    {
        match self {
            Method::Get | Method::Head | Method::Options | Method::Trace | Method::Put
            | Method::Delete => true,
            _ => false,
        }
    }
}

/// Whether `status` asks the client to go elsewhere.
pub open spec fn redirect_status(status: u16) -> bool {
    status == 301 || status == 302 || status == 303 || status == 307 || status == 308
}

/// Whether `status` asks the client to go elsewhere.
pub fn is_redirect_status(status: u16) -> (r: bool)
    ensures
        r == redirect_status(status),
{
    status == 301 || status == 302 || status == 303 || status == 307 || status == 308
}

/// Where a request stands.
#[derive(Debug, Clone, Copy, PartialEq, Eq, Structural)]
pub enum Phase {
    /// Waiting for a connection to the current target.
    Acquiring,
    /// The request is being written and its response head read.
    Exchanging,
    /// A response was delivered or an error surfaced.
    Done,
}

/// The state of one request.
#[derive(Debug, Clone, Copy, PartialEq, Eq, Structural)]
pub struct DispatchState {
    pub method: Method,
    /// Whether a non-idempotent request is explicitly marked safe to retry.
    pub retry_marked_safe: bool,
    pub follow_redirects: bool,
    pub max_redirects: usize,
    /// Redirects followed so far.
    pub hops: usize,
    /// Whether the one stale-connection retry was spent.
    pub retried: bool,
    /// Whether the current connection came from the pool.
    pub reused: bool,
    pub cancelled: bool,
    pub phase: Phase,
}

/// What happened since the last action.
#[derive(Debug)]
pub enum Event {
    /// A connection was acquired; `reused` tells whether it came from the pool.
    Acquired { reused: bool },
    /// A response head with this status was read.
    Response(u16),
    /// A failure, already classified where it was observed.
    Failure(HttpClientError),
    /// The caller's deadline passed.
    DeadlineExceeded,
}

/// What the caller is to do next.
#[derive(Debug)]
pub enum Action {
    /// Write the request on the acquired connection.
    Send,
    /// Hand the response with this status to the user.
    Deliver(u16),
    /// Acquire a connection to the redirect target.
    FollowRedirect,
    /// Acquire a freshly established connection and send again.
    RetryFresh,
    /// Stop with this error.
    Fail(HttpClientError),
}

/// An action, with an error reduced to its kind.
#[derive(PartialEq, Eq, Structural)]
pub enum Decision {
    Send,
    Deliver(u16),
    FollowRedirect,
    RetryFresh,
    Fail(ErrorKind),
}

/// The decision that an action carries.
pub open spec fn decision_of(a: Action) -> Decision {
    match a {
        Action::Send => Decision::Send,
        Action::Deliver(s) => Decision::Deliver(s),
        Action::FollowRedirect => Decision::FollowRedirect,
        Action::RetryFresh => Decision::RetryFresh,
        Action::Fail(e) => Decision::Fail(e.kind()),
    }
}

/// Whether a transport failure on a reused connection may be retried once.
pub open spec fn retry_allowed(s: DispatchState) -> bool {
    idempotent(s.method) || s.retry_marked_safe
}

/// The state that ends a request.
pub open spec fn finished(s: DispatchState) -> DispatchState {
    DispatchState { phase: Phase::Done, ..s }
}

/// The next state and decision after event `e` in state `s`.
pub open spec fn next(s: DispatchState, e: Event) -> (DispatchState, Decision) {
    if s.cancelled {
        (finished(s), Decision::Fail(ErrorKind::UserAborted))
    } else if s.phase == Phase::Done {
        (s, Decision::Fail(ErrorKind::Other))
    } else {
        match e {
            Event::DeadlineExceeded => (finished(s), Decision::Fail(ErrorKind::Timeout)),
            Event::Acquired { reused } => if s.phase == Phase::Acquiring {
                (DispatchState { reused, phase: Phase::Exchanging, ..s }, Decision::Send)
            } else {
                (finished(s), Decision::Fail(ErrorKind::Other))
            },
            Event::Response(status) => if s.phase != Phase::Exchanging {
                (finished(s), Decision::Fail(ErrorKind::Other))
            } else if s.follow_redirects && redirect_status(status) {
                if s.hops < s.max_redirects {
                    (
                        DispatchState { hops: (s.hops + 1) as usize, phase: Phase::Acquiring, ..s },
                        Decision::FollowRedirect,
                    )
                } else {
                    (finished(s), Decision::Fail(ErrorKind::Redirect))
                }
            } else {
                (finished(s), Decision::Deliver(status))
            },
            Event::Failure(err) => if s.phase == Phase::Exchanging && s.reused && !s.retried
                && retry_allowed(s) {
                (
                    DispatchState { retried: true, phase: Phase::Acquiring, ..s },
                    Decision::RetryFresh,
                )
            } else {
                (finished(s), Decision::Fail(err.kind()))
            },
        }
    }
}

/// The decisions for one request.
pub struct Dispatch {
    state: DispatchState,
}

impl Dispatch {
    /// The state of the request.
    pub closed spec fn spec_state(&self) -> DispatchState {
        self.state
    }

    /// A request with `method`, waiting for its first connection. Redirects
    /// are followed, up to `max_redirects` of them, where `follow_redirects`
    /// holds.
    pub fn new(method: Method, follow_redirects: bool, max_redirects: usize) -> (r: Dispatch)
        ensures
            r.spec_state() == (DispatchState {
                method,
                retry_marked_safe: false,
                follow_redirects,
                max_redirects,
                hops: 0,
                retried: false,
                reused: false,
                cancelled: false,
                phase: Phase::Acquiring,
            }),
    {
        Dispatch {
            state: DispatchState {
                method,
                retry_marked_safe: false,
                follow_redirects,
                max_redirects,
                hops: 0,
                retried: false,
                reused: false,
                cancelled: false,
                phase: Phase::Acquiring,
            },
        }
    }

    /// Marks a request as safe to retry on a stale connection, whatever its
    /// method.
    pub fn mark_retry_safe(&mut self)
        ensures
            final(self).spec_state() == (DispatchState {
                retry_marked_safe: true,
                ..old(self).spec_state()
            }),
    {
        self.state.retry_marked_safe = true;
    }

    /// Cancels the request: the next event ends it with `UserAborted`.
    pub fn cancel(&mut self)
        ensures
            final(self).spec_state() == (DispatchState { cancelled: true, ..old(self).spec_state() }),
    {
        self.state.cancelled = true;
    }

    /// The state of the request.
    pub fn state(&self) -> (r: DispatchState)
        ensures
            r == self.spec_state(),
    {
        self.state
    }

    fn finish(&mut self)
        ensures
            final(self).spec_state() == finished(old(self).spec_state()),
    {
        self.state.phase = Phase::Done;
    }

    fn refuse(&mut self, message: &str) -> (r: Action)
        ensures
            final(self).spec_state() == finished(old(self).spec_state()),
            decision_of(r) == Decision::Fail(ErrorKind::Other),
    {
        self.finish();
        Action::Fail(HttpClientError::new_with_message(ErrorKind::Other, message))
    }

    /// Takes the next event and says what to do. A failure that ends the
    /// request is surfaced as it was reported.
    pub fn on_event(&mut self, e: Event) -> (r: Action)
        ensures
            (final(self).spec_state(), decision_of(r)) == next(old(self).spec_state(), e),
            !old(self).spec_state().cancelled && old(self).spec_state().phase != Phase::Done ==> (
            e matches Event::Failure(x) ==> (r matches Action::Fail(y) ==> y == x)),
    {
        if self.state.cancelled {
            self.finish();
            return Action::Fail(HttpClientError::user_aborted());
        }
        if self.state.phase == Phase::Done {
            return Action::Fail(
                HttpClientError::new_with_message(ErrorKind::Other, "request already finished"),
            );
        }
        match e {
            Event::DeadlineExceeded => {
                self.finish();
                Action::Fail(
                    HttpClientError::new_with_message(ErrorKind::Timeout, "deadline exceeded"),
                )
            },
            Event::Acquired { reused } => {
                if self.state.phase == Phase::Acquiring {
                    self.state.reused = reused;
                    self.state.phase = Phase::Exchanging;
                    Action::Send
                } else {
                    self.refuse("no connection was asked for")
                }
            },
            Event::Response(status) => {
                if self.state.phase != Phase::Exchanging {
                    self.refuse("no request was sent")
                } else if self.state.follow_redirects && is_redirect_status(status) {
                    if self.state.hops < self.state.max_redirects {
                        self.state.hops = self.state.hops + 1;
                        self.state.phase = Phase::Acquiring;
                        Action::FollowRedirect
                    } else {
                        self.finish();
                        Action::Fail(
                            HttpClientError::new_with_message(
                                ErrorKind::Redirect,
                                "too many redirects",
                            ),
                        )
                    }
                } else {
                    self.finish();
                    Action::Deliver(status)
                }
            },
            Event::Failure(err) => {
                if self.state.phase == Phase::Exchanging && self.state.reused
                    && !self.state.retried && (self.state.method.is_idempotent()
                    || self.state.retry_marked_safe) {
                    self.state.retried = true;
                    self.state.phase = Phase::Acquiring;
                    Action::RetryFresh
                } else {
                    self.finish();
                    Action::Fail(err)
                }
            },
        }
    }
}

/// A transport failure while exchanging an idempotent request over a pooled
/// connection is retried exactly once, on a fresh connection: the retry is
/// sent, and a failure of the retry is surfaced.
pub proof fn idempotent_failure_retried_once(
    s: DispatchState,
    first: HttpClientError,
    fresh_reused: bool,
    second: HttpClientError,
)
    requires
        s.phase == Phase::Exchanging,
        s.reused,
        !s.retried,
        !s.cancelled,
        idempotent(s.method),
    ensures
        ({
            let (s1, d1) = next(s, Event::Failure(first));
            let (s2, d2) = next(s1, Event::Acquired { reused: fresh_reused });
            let (s3, d3) = next(s2, Event::Failure(second));
            &&& d1 == Decision::RetryFresh
            &&& d2 == Decision::Send
            &&& d3 == Decision::Fail(second.kind())
            &&& s3.phase == Phase::Done
        }),
{
}

/// A transport failure while exchanging a request that is neither idempotent
/// nor marked safe to retry is surfaced at once, without a retry.
pub proof fn non_idempotent_failure_surfaced(s: DispatchState, err: HttpClientError)
    requires
        s.phase == Phase::Exchanging,
        !s.cancelled,
        !idempotent(s.method),
        !s.retry_marked_safe,
    ensures
        next(s, Event::Failure(err)) == (finished(s), Decision::Fail(err.kind())),
{
}

/// Once a request is cancelled, whatever is reported next ends it with
/// `UserAborted`, and no further I/O is asked for.
pub proof fn cancelled_request_aborts(s: DispatchState, e: Event)
    requires
        s.cancelled,
    ensures
        next(s, e).1 == Decision::Fail(ErrorKind::UserAborted),
        next(s, e).0.phase == Phase::Done,
{
}

} // verus!
