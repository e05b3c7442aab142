//! A verified stream: the byte interface over an established session. The
//! engine performs each read and write; the stream interprets what it
//! returned, and keeps the verification result fixed at handshake completion.

use vstd::prelude::*;
use crate::handshake::{want_of, Want, SSL_ERROR_WANT_READ, SSL_ERROR_WANT_WRITE};

verus! {

/// The largest length one engine call can be given.
pub const C_INT_MAX: i32 = 0x7fff_ffff;

/// The outcome of one read or write on the engine.
#[derive(Debug, Clone, Copy, PartialEq, Eq, Structural)]
pub enum IoOutcome {
    /// This many bytes were transferred.
    Transferred(usize),
    /// No progress yet; retry with the same buffer once the socket is ready.
    WouldBlock(Want),
    /// The transfer failed for good, with the engine's error code.
    Fatal(i32),
}

/// How a read's or write's return code `ret`, with the engine's error code
/// `code`, is interpreted.
pub open spec fn io_outcome(ret: i32, code: i32) -> IoOutcome {
    if ret >= 0 {
        IoOutcome::Transferred(ret as usize)
    } else {
        match want_of(code) {
            Some(w) => IoOutcome::WouldBlock(w),
            None => IoOutcome::Fatal(code),
        }
    }
}

/// Interprets the return code of one read or write.
pub fn classify_io(ret: i32, code: i32) -> (r: IoOutcome)
    ensures
        r == io_outcome(ret, code),
{
    if ret >= 0 {
        IoOutcome::Transferred(ret as usize)
    } else if code == SSL_ERROR_WANT_READ {
        IoOutcome::WouldBlock(Want::Read)
    } else if code == SSL_ERROR_WANT_WRITE {
        IoOutcome::WouldBlock(Want::Write)
    } else {
        IoOutcome::Fatal(code)
    }
}

/// The length handed to the engine for a buffer of `len` bytes.
pub open spec fn engine_len_spec(len: usize) -> int {
    if len <= C_INT_MAX as usize {
        len as int
    } else {
        C_INT_MAX as int
    }
}

/// The length handed to the engine for a buffer of `len` bytes: the buffer's
/// length, capped at the largest value the engine takes.
pub fn engine_len(len: usize) -> (r: i32)
    ensures
        r as int == engine_len_spec(len),
        r >= 0,
{
    if len <= C_INT_MAX as usize {
        len as i32
    } else {
        C_INT_MAX
    }
}

/// A stream over an established session, with the certificate verification
/// result that the engine reported when the handshake completed.
pub struct VerifiedStream {
    verify_result: i64,
}

impl VerifiedStream {
    /// The verification result captured at handshake completion.
    pub closed spec fn spec_verify_result(&self) -> i64 {
        self.verify_result
    }

    /// A stream for a handshake that completed with `verify_result`.
    pub fn new(verify_result: i64) -> (r: VerifiedStream)
        ensures
            r.spec_verify_result() == verify_result,
    {
        VerifiedStream { verify_result }
    }

    /// The verification result captured at handshake completion.
    pub fn verification_result(&self) -> (r: i64)
        ensures
            r == self.spec_verify_result(),
    {
        self.verify_result
    }

    /// Interprets a read of a buffer of `buf_len` bytes, which returned `ret`
    /// with error code `code`. The verification result is left as it was.
    pub fn read_outcome(&mut self, buf_len: usize, ret: i32, code: i32) -> (r: IoOutcome)
        requires
            ret <= engine_len_spec(buf_len),
        ensures
            r == io_outcome(ret, code),
            r matches IoOutcome::Transferred(n) ==> n <= buf_len,
            final(self).spec_verify_result() == old(self).spec_verify_result(),
    {
        classify_io(ret, code)
    }

    /// Interprets a write of a buffer of `buf_len` bytes, which returned `ret`
    /// with error code `code`. The verification result is left as it was.
    pub fn write_outcome(&mut self, buf_len: usize, ret: i32, code: i32) -> (r: IoOutcome)
        requires
            ret <= engine_len_spec(buf_len),
        ensures
            r == io_outcome(ret, code),
            r matches IoOutcome::Transferred(n) ==> n <= buf_len,
            final(self).spec_verify_result() == old(self).spec_verify_result(),
    {
        classify_io(ret, code)
    }
}

} // verus!
