use ylong_http_client::verify::{VerifyParams, X509_CHECK_FLAG_NO_PARTIAL_WILDCARDS};
use ylong_http_client::ErrorKind;

#[test]
fn ip_literal_is_matched_as_an_address() {
    let mut p = VerifyParams::new();
    p.setup_verify_hostname("127.0.0.1", Some(vec![127, 0, 0, 1]));
    assert_eq!(p.target_ip(), Some(vec![127, 0, 0, 1]));
    assert_eq!(p.target_dns_name(), None);
    assert_ne!(p.host_flags() & X509_CHECK_FLAG_NO_PARTIAL_WILDCARDS, 0);
}

#[test]
fn dns_name_is_matched_without_partial_wildcards() {
    let mut p = VerifyParams::new();
    p.setup_verify_hostname("a.b.example.com", None);
    assert_eq!(p.target_dns_name(), Some(String::from("a.b.example.com")));
    assert_eq!(p.target_ip(), None);
    assert_eq!(p.host_flags(), X509_CHECK_FLAG_NO_PARTIAL_WILDCARDS);
}

#[test]
fn server_name_with_nul_is_refused() {
    let mut p = VerifyParams::new();
    assert!(p.set_host_name("example.com").is_ok());
    assert_eq!(p.server_name(), Some(String::from("example.com")));
    let e = p.set_host_name("bad\0name").unwrap_err();
    assert_eq!(e.error_kind(), ErrorKind::Connect);
    assert_eq!(p.server_name(), Some(String::from("example.com")));
}
