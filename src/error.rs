//! The closed set of error kinds surfaced to callers, and the error value
//! that carries one of them with an optional diagnostic cause.

use vstd::prelude::*;

verus! {

/// Error kinds which can indicate the type of a `HttpClientError`.
#[derive(Debug, Clone, Copy, PartialEq, Eq, Structural)]
pub enum ErrorKind {
    /// Errors for decoding response body.
    BodyDecode,
    /// Errors for transferring request body or response body.
    BodyTransfer,
    /// Errors for using various builder.
    Build,
    /// Errors for connecting to a server.
    Connect,
    /// Errors for upgrading a connection.
    ConnectionUpgrade,
    /// Other error kinds.
    Other,
    /// Errors for following redirect.
    Redirect,
    /// Errors for sending a request.
    Request,
    /// Errors for reaching a timeout.
    Timeout,
    /// User raised errors.
    UserAborted,
}

/// The text that names each error kind.
pub open spec fn kind_text(kind: ErrorKind) -> Seq<char> {
    match kind {
        ErrorKind::BodyDecode => "Body Decode Error"@,
        ErrorKind::BodyTransfer => "Body Transfer Error"@,
        ErrorKind::Build => "Build Error"@,
        ErrorKind::Connect => "Connect Error"@,
        ErrorKind::ConnectionUpgrade => "Connection Upgrade Error"@,
        ErrorKind::Other => "Other Error"@,
        ErrorKind::Redirect => "Redirect Error"@,
        ErrorKind::Request => "Request Error"@,
        ErrorKind::Timeout => "Timeout Error"@,
        ErrorKind::UserAborted => "User Aborted Error"@,
    }
}

impl ErrorKind {
    /// Gets the string info of this `ErrorKind`.
    pub fn as_str(&self) -> (r: &'static str)
        ensures
            r@ == kind_text(*self),
    {
        match self {
            ErrorKind::BodyDecode => "Body Decode Error",
            ErrorKind::BodyTransfer => "Body Transfer Error",
            ErrorKind::Build => "Build Error",
            ErrorKind::Connect => "Connect Error",
            ErrorKind::ConnectionUpgrade => "Connection Upgrade Error",
            ErrorKind::Other => "Other Error",
            ErrorKind::Redirect => "Redirect Error",
            ErrorKind::Request => "Request Error",
            ErrorKind::Timeout => "Timeout Error",
            ErrorKind::UserAborted => "User Aborted Error",
        }
    }
}

/// A message summarizing the cause of an error.
#[derive(Debug)]
pub struct CauseMessage(String);

impl CauseMessage {
    /// Wraps a copy of `message`.
    pub fn new(message: &str) -> (r: CauseMessage)
        ensures
            r.text() == message@,
    {
        CauseMessage(message.to_string())
    }

    /// The text of the message.
    pub closed spec fn text(&self) -> Seq<char> {
        self.0@
    }

    /// Gives up the message as a `String`.
    pub fn into_string(self) -> (r: String)
        ensures
            r@ == self.text(),
    {
        self.0
    }
}

/// The error encountered when working with the HTTP client: a kind fixed at
/// construction and an optional cause kept for diagnostics.
#[derive(Debug)]
pub struct HttpClientError {
    kind: ErrorKind,
    cause: Option<String>,
}

impl HttpClientError {
    /// The kind of this error.
    pub closed spec fn kind(&self) -> ErrorKind {
        self.kind
    }

    /// The text of the cause, if there is one.
    pub closed spec fn cause_text(&self) -> Option<Seq<char>> {
        match self.cause {
            Some(c) => Some(c@),
            None => None,
        }
    }

    /// Creates a `UserAborted` error.
    pub fn user_aborted() -> (r: HttpClientError)
        ensures
            r.kind() == ErrorKind::UserAborted,
            r.cause_text() is None,
    {
        HttpClientError { kind: ErrorKind::UserAborted, cause: None }
    }

    /// Creates an `Other` error.
    pub fn other(cause: Option<String>) -> (r: HttpClientError)
        ensures
            r.kind() == ErrorKind::Other,
            r.cause_text() == (match cause {
                Some(c) => Some(c@),
                None => None::<Seq<char>>,
            }),
    {
        HttpClientError { kind: ErrorKind::Other, cause }
    }

    /// Gets the `ErrorKind` of this `HttpClientError`.
    pub fn error_kind(&self) -> (r: ErrorKind)
        ensures
            r == self.kind(),
    {
        self.kind
    }

    /// Creates an error of the given kind with an optional cause.
    pub fn new_with_cause(kind: ErrorKind, cause: Option<String>) -> (r: HttpClientError)
        ensures
            r.kind() == kind,
            r.cause_text() == (match cause {
                Some(c) => Some(c@),
                None => None::<Seq<char>>,
            }),
    {
        HttpClientError { kind, cause }
    }

    /// Creates an error of the given kind whose cause is `message`.
    pub fn new_with_message(kind: ErrorKind, message: &str) -> (r: HttpClientError)
        ensures
            r.kind() == kind,
            r.cause_text() == Some(message@),
    {
        let m = CauseMessage::new(message);
        HttpClientError { kind, cause: Some(m.into_string()) }
    }

    /// A copy of the cause's text, if there is one.
    pub fn cause(&self) -> (r: Option<String>)
        ensures
            match r {
                Some(c) => self.cause_text() == Some(c@),
                None => self.cause_text() is None,
            },
    {
        match &self.cause {
            Some(c) => Some(c.clone()),
            None => None,
        }
    }

    /// The text that describes this error: the kind's name, followed by
    /// `": "` and the cause where there is one.
    pub fn to_display_string(&self) -> (r: String)
        ensures
            r@ == (match self.cause_text() {
                Some(c) => kind_text(self.kind()) + ": "@ + c,
                None => kind_text(self.kind()),
            }),
    {
        let mut out = String::from_str(self.kind.as_str());
        match &self.cause {
            Some(c) => {
                out.append(": ");
                out.append(c.as_str());
            },
            None => {},
        }
        out
    }
}

} // verus!
