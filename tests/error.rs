use ylong_http_client::error::CauseMessage;
use ylong_http_client::{ErrorKind, HttpClientError};

#[test]
fn user_aborted_has_its_kind_and_no_cause() {
    let e = HttpClientError::user_aborted();
    assert_eq!(e.error_kind(), ErrorKind::UserAborted);
    assert_eq!(e.cause(), None);
    assert_eq!(e.to_display_string(), "User Aborted Error");
}

#[test]
fn other_keeps_its_cause() {
    let e = HttpClientError::other(Some(String::from("broken pipe")));
    assert_eq!(e.error_kind(), ErrorKind::Other);
    assert_eq!(e.cause(), Some(String::from("broken pipe")));
    assert_eq!(e.to_display_string(), "Other Error: broken pipe");
    let bare = HttpClientError::other(None);
    assert_eq!(bare.cause(), None);
}

#[test]
fn error_kind_names() {
    assert_eq!(ErrorKind::BodyDecode.as_str(), "Body Decode Error");
    assert_eq!(ErrorKind::BodyTransfer.as_str(), "Body Transfer Error");
    assert_eq!(ErrorKind::Build.as_str(), "Build Error");
    assert_eq!(ErrorKind::Connect.as_str(), "Connect Error");
    assert_eq!(ErrorKind::ConnectionUpgrade.as_str(), "Connection Upgrade Error");
    assert_eq!(ErrorKind::Other.as_str(), "Other Error");
    assert_eq!(ErrorKind::Redirect.as_str(), "Redirect Error");
    assert_eq!(ErrorKind::Request.as_str(), "Request Error");
    assert_eq!(ErrorKind::Timeout.as_str(), "Timeout Error");
    assert_eq!(ErrorKind::UserAborted.as_str(), "User Aborted Error");
}

#[test]
fn errors_built_with_kind_and_message() {
    let e = HttpClientError::new_with_message(ErrorKind::Build, "bad proxy");
    assert_eq!(e.error_kind(), ErrorKind::Build);
    assert_eq!(e.cause(), Some(String::from("bad proxy")));
    assert_eq!(e.to_display_string(), "Build Error: bad proxy");
    let c = HttpClientError::new_with_cause(ErrorKind::Timeout, Some(String::from("late")));
    assert_eq!(c.error_kind(), ErrorKind::Timeout);
    assert_eq!(c.cause(), Some(String::from("late")));
    assert_eq!(CauseMessage::new("why").into_string(), "why");
}
