use ylong_http_client::handshake::{Want, SSL_ERROR_SYSCALL, SSL_ERROR_WANT_READ, SSL_ERROR_WANT_WRITE};
use ylong_http_client::stream::{classify_io, engine_len, IoOutcome, VerifiedStream, C_INT_MAX};

#[test]
fn io_codes_are_classified() {
    assert_eq!(classify_io(0, 0), IoOutcome::Transferred(0));
    assert_eq!(classify_io(512, 0), IoOutcome::Transferred(512));
    assert_eq!(classify_io(-1, SSL_ERROR_WANT_READ), IoOutcome::WouldBlock(Want::Read));
    assert_eq!(classify_io(-1, SSL_ERROR_WANT_WRITE), IoOutcome::WouldBlock(Want::Write));
    assert_eq!(classify_io(-1, SSL_ERROR_SYSCALL), IoOutcome::Fatal(SSL_ERROR_SYSCALL));
}

#[test]
fn engine_length_is_capped() {
    assert_eq!(engine_len(0), 0);
    assert_eq!(engine_len(4096), 4096);
    assert_eq!(engine_len(C_INT_MAX as usize), C_INT_MAX);
    assert_eq!(engine_len(usize::MAX), C_INT_MAX);
}

#[test]
fn verification_result_is_fixed() {
    let mut s = VerifiedStream::new(18);
    assert_eq!(s.read_outcome(100, 10, 0), IoOutcome::Transferred(10));
    assert_eq!(s.write_outcome(100, -1, SSL_ERROR_WANT_WRITE), IoOutcome::WouldBlock(Want::Write));
    assert_eq!(s.verification_result(), 18);
}
