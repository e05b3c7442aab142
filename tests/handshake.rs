use ylong_http_client::handshake::{
    classify_step, handshake_failure, Handshake, HandshakeState, StepOutcome, Want, SSL_ERROR_NONE, SSL_ERROR_SSL,
    SSL_ERROR_SYSCALL, SSL_ERROR_WANT_READ, SSL_ERROR_WANT_WRITE,
};
use ylong_http_client::ErrorKind;

#[test]
fn step_codes_are_classified() {
    assert_eq!(classify_step(1, SSL_ERROR_NONE), StepOutcome::Established);
    assert_eq!(classify_step(-1, SSL_ERROR_WANT_READ), StepOutcome::WouldBlock(Want::Read));
    assert_eq!(classify_step(0, SSL_ERROR_WANT_WRITE), StepOutcome::WouldBlock(Want::Write));
    assert_eq!(classify_step(-1, SSL_ERROR_SYSCALL), StepOutcome::Failed(SSL_ERROR_SYSCALL));
    assert_eq!(classify_step(0, SSL_ERROR_SSL), StepOutcome::Failed(SSL_ERROR_SSL));
}

#[test]
fn never_ready_socket_keeps_the_handshake_suspended() {
    let mut h = Handshake::new();
    assert_eq!(h.begin(-1, SSL_ERROR_WANT_READ).unwrap(), StepOutcome::WouldBlock(Want::Read));
    for i in 0..50 {
        let code = if i % 3 == 0 { SSL_ERROR_WANT_WRITE } else { SSL_ERROR_WANT_READ };
        let o = h.resume(-1, code).unwrap();
        assert!(matches!(o, StepOutcome::WouldBlock(_)));
        assert!(matches!(h.state(), HandshakeState::InProgress(_)));
    }
}

#[test]
fn success_is_established_once_then_resume_is_refused() {
    let mut h = Handshake::new();
    h.begin(-1, SSL_ERROR_WANT_WRITE).unwrap();
    assert_eq!(h.resume(1, SSL_ERROR_NONE).unwrap(), StepOutcome::Established);
    assert_eq!(h.state(), HandshakeState::Established);
    let again = h.resume(1, SSL_ERROR_NONE);
    assert_eq!(again.unwrap_err().error_kind(), ErrorKind::Other);
    assert_eq!(h.state(), HandshakeState::Established);
}

#[test]
fn failed_handshake_is_terminal() {
    let mut h = Handshake::new();
    assert_eq!(h.begin(-1, SSL_ERROR_SYSCALL).unwrap(), StepOutcome::Failed(SSL_ERROR_SYSCALL));
    assert_eq!(h.state(), HandshakeState::Failed);
    assert!(h.resume(1, SSL_ERROR_NONE).is_err());
    assert!(h.begin(1, SSL_ERROR_NONE).is_err());
    assert_eq!(h.state(), HandshakeState::Failed);
}

#[test]
fn resume_before_begin_is_refused() {
    let mut h = Handshake::new();
    assert!(h.resume(1, SSL_ERROR_NONE).is_err());
    assert_eq!(h.state(), HandshakeState::Unstarted);
    assert_eq!(h.begin(1, SSL_ERROR_NONE).unwrap(), StepOutcome::Established);
}

#[test]
fn stream_only_after_establishment() {
    let mut h = Handshake::new();
    assert!(h.established_stream(0).is_none());
    h.begin(-1, SSL_ERROR_WANT_READ).unwrap();
    assert!(h.established_stream(0).is_none());
    h.resume(1, SSL_ERROR_NONE).unwrap();
    assert_eq!(h.established_stream(42).unwrap().verification_result(), 42);
    let e = handshake_failure();
    assert_eq!(e.error_kind(), ErrorKind::Connect);
    assert_eq!(e.to_display_string(), "Connect Error: TLS handshake failed");
}
