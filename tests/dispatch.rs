use ylong_http_client::dispatch::{is_redirect_status, Action, Dispatch, Event, Method, Phase};
use ylong_http_client::{ErrorKind, HttpClientError};

fn run_chain(limit: usize, statuses: &[u16]) -> Action {
    let mut d = Dispatch::new(Method::Get, true, limit);
    let mut last = Action::Send;
    for &s in statuses {
        assert!(matches!(d.on_event(Event::Acquired { reused: false }), Action::Send));
        last = d.on_event(Event::Response(s));
        if !matches!(last, Action::FollowRedirect) {
            return last;
        }
    }
    last
}

#[test]
fn redirect_chain_within_limit_delivers_final_response() {
    let r = run_chain(5, &[302, 302, 302, 200]);
    assert!(matches!(r, Action::Deliver(200)));
}

#[test]
fn redirect_chain_over_limit_is_a_redirect_error() {
    let mut d = Dispatch::new(Method::Get, true, 2);
    let mut hops = 0;
    let mut outcome = None;
    for s in [302u16, 302, 302, 200] {
        d.on_event(Event::Acquired { reused: false });
        match d.on_event(Event::Response(s)) {
            Action::FollowRedirect => hops += 1,
            other => {
                outcome = Some(other);
                break;
            }
        }
    }
    assert_eq!(hops, 2);
    match outcome {
        Some(Action::Fail(e)) => assert_eq!(e.error_kind(), ErrorKind::Redirect),
        _ => panic!("expected a redirect error"),
    }
    assert_eq!(d.state().phase, Phase::Done);
}

#[test]
fn redirect_with_zero_limit_is_a_redirect_error() {
    match run_chain(0, &[302]) {
        Action::Fail(e) => assert_eq!(e.error_kind(), ErrorKind::Redirect),
        _ => panic!("expected a redirect error"),
    }
}

#[test]
fn redirects_not_followed_are_delivered() {
    let mut d = Dispatch::new(Method::Get, false, 5);
    d.on_event(Event::Acquired { reused: false });
    assert!(matches!(d.on_event(Event::Response(302)), Action::Deliver(302)));
    assert!(is_redirect_status(307));
    assert!(!is_redirect_status(304));
}

fn reset() -> HttpClientError {
    HttpClientError::new_with_message(ErrorKind::Request, "connection reset")
}

#[test]
fn get_on_stale_pooled_connection_is_retried_once() {
    let mut d = Dispatch::new(Method::Get, true, 5);
    assert!(matches!(d.on_event(Event::Acquired { reused: true }), Action::Send));
    assert!(matches!(d.on_event(Event::Failure(reset())), Action::RetryFresh));
    assert!(matches!(d.on_event(Event::Acquired { reused: false }), Action::Send));
    match d.on_event(Event::Failure(reset())) {
        Action::Fail(e) => {
            assert_eq!(e.error_kind(), ErrorKind::Request);
            assert_eq!(e.cause(), Some(String::from("connection reset")));
        }
        _ => panic!("expected the failure to be surfaced"),
    }
}

#[test]
fn post_on_stale_pooled_connection_is_not_retried() {
    let mut d = Dispatch::new(Method::Post, true, 5);
    d.on_event(Event::Acquired { reused: true });
    match d.on_event(Event::Failure(reset())) {
        Action::Fail(e) => assert_eq!(e.error_kind(), ErrorKind::Request),
        _ => panic!("expected the failure to be surfaced"),
    }
    let mut safe = Dispatch::new(Method::Post, true, 5);
    safe.mark_retry_safe();
    safe.on_event(Event::Acquired { reused: true });
    assert!(matches!(safe.on_event(Event::Failure(reset())), Action::RetryFresh));
}

#[test]
fn failure_on_fresh_connection_is_not_retried() {
    let mut d = Dispatch::new(Method::Get, true, 5);
    d.on_event(Event::Acquired { reused: false });
    assert!(matches!(d.on_event(Event::Failure(reset())), Action::Fail(_)));
}

#[test]
fn cancellation_aborts_the_next_operation() {
    let mut d = Dispatch::new(Method::Get, true, 5);
    d.on_event(Event::Acquired { reused: false });
    d.cancel();
    match d.on_event(Event::Response(200)) {
        Action::Fail(e) => assert_eq!(e.error_kind(), ErrorKind::UserAborted),
        _ => panic!("expected UserAborted"),
    }
    assert_eq!(d.state().phase, Phase::Done);
}

#[test]
fn deadline_is_a_timeout() {
    let mut d = Dispatch::new(Method::Get, true, 5);
    match d.on_event(Event::DeadlineExceeded) {
        Action::Fail(e) => assert_eq!(e.error_kind(), ErrorKind::Timeout),
        _ => panic!("expected Timeout"),
    }
}
