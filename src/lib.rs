//! Connection-establishment core of an HTTP client: the error taxonomy, the
//! TLS handshake state machine, verified-stream I/O classification, proxy
//! tunnel negotiation, the connection pool and the client dispatch decisions.

pub mod dispatch;
pub mod error;
pub mod handshake;
pub mod pool;
pub mod stream;
pub mod tunnel;
pub mod verify;

pub use error::{ErrorKind, HttpClientError};
