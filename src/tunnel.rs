//! Proxy tunnel negotiation: the `CONNECT` request written to a forward
//! proxy, and the reading of the proxy's status line.

use vstd::prelude::*;
use crate::error::{ErrorKind, HttpClientError};

verus! {

/// The character of a decimal digit.
pub open spec fn digit_char(d: nat) -> char {
    if d == 0 { '0' }
    else if d == 1 { '1' }
    else if d == 2 { '2' }
    else if d == 3 { '3' }
    else if d == 4 { '4' }
    else if d == 5 { '5' }
    else if d == 6 { '6' }
    else if d == 7 { '7' }
    else if d == 8 { '8' }
    else { '9' }
}

/// The decimal text of `n`, without leading zeros.
pub open spec fn decimal(n: nat) -> Seq<char>
    decreases n,
{
    if n < 10 {
        seq![digit_char(n)]
    } else {
        decimal(n / 10).push(digit_char(n % 10))
    }
}

/// `host:port`, the authority that a tunnel request names.
pub open spec fn authority(host: Seq<char>, port: u16) -> Seq<char> {
    host + ":"@ + decimal(port as nat)
}

/// The tunnel request for `host:port`, with an authorization header where
/// credentials are given.
pub open spec fn connect_request_text(
    host: Seq<char>,
    port: u16,
    credentials: Option<Seq<char>>,
) -> Seq<char> {
    let auth = authority(host, port);
    let creds = match credentials {
        Some(c) => "Proxy-Authorization: "@ + c + "\r\n"@,
        None => Seq::<char>::empty(),
    };
    "CONNECT "@ + auth + " HTTP/1.1\r\nHost: "@ + auth + "\r\n"@ + creds + "\r\n"@
}

fn digit_str(d: u16) -> (r: &'static str)
    requires
        d < 10,
    ensures
        r@ == seq![digit_char(d as nat)],
{
    proof {
        reveal_strlit("0");
        reveal_strlit("1");
        reveal_strlit("2");
        reveal_strlit("3");
        reveal_strlit("4");
        reveal_strlit("5");
        reveal_strlit("6");
        reveal_strlit("7");
        reveal_strlit("8");
        reveal_strlit("9");
    }
    if d == 0 { "0" }
    else if d == 1 { "1" }
    else if d == 2 { "2" }
    else if d == 3 { "3" }
    else if d == 4 { "4" }
    else if d == 5 { "5" }
    else if d == 6 { "6" }
    else if d == 7 { "7" }
    else if d == 8 { "8" }
    else { "9" }
}

/// Appends the decimal text of `n` to `out`.
pub fn push_decimal(out: &mut String, n: u16)
    ensures
        final(out)@ == old(out)@ + decimal(n as nat),
    decreases n,
{
    if n >= 10 {
        push_decimal(out, n / 10);
    }
    out.append(digit_str(n % 10));
    assert(final(out)@ =~= old(out)@ + decimal(n as nat));
}

/// Appends `host:port` to `out`.
fn push_authority(out: &mut String, host: &str, port: u16)
    ensures
        final(out)@ == old(out)@ + authority(host@, port),
{
    out.append(host);
    out.append(":");
    push_decimal(out, port);
    assert(final(out)@ =~= old(out)@ + authority(host@, port));
}

/// The request that asks a proxy for a tunnel to `host:port`.
pub fn connect_request(host: &str, port: u16, credentials: Option<&str>) -> (r: String)
    ensures
        r@ == connect_request_text(
            host@,
            port,
            match credentials {
                Some(c) => Some(c@),
                None => None,
            },
        ),
{
    let mut out = String::from_str("CONNECT ");
    push_authority(&mut out, host, port);
    out.append(" HTTP/1.1\r\nHost: ");
    push_authority(&mut out, host, port);
    out.append("\r\n");
    match credentials {
        Some(c) => {
            out.append("Proxy-Authorization: ");
            out.append(c);
            out.append("\r\n");
        },
        None => {},
    }
    out.append("\r\n");
    let ghost creds = match credentials {
        Some(c) => Some(c@),
        None => None,
    };
    assert(out@ =~= connect_request_text(host@, port, creds));
    out
}

/// Whether `c` is a decimal digit.
pub open spec fn is_digit(c: char) -> bool {
    '0' <= c <= '9'
}

/// The value of the decimal digit `c`.
pub open spec fn digit_value(c: char) -> int {
    c as int - '0' as int
}

/// Whether `s` is a status line `HTTP/x.y NNN`, optionally followed by a
/// space and a reason phrase.
pub open spec fn is_status_line(s: Seq<char>) -> bool {
    &&& s.len() >= 12
    &&& s[0] == 'H' && s[1] == 'T' && s[2] == 'T' && s[3] == 'P' && s[4] == '/'
    &&& is_digit(s[5]) && s[6] == '.' && is_digit(s[7]) && s[8] == ' '
    &&& is_digit(s[9]) && is_digit(s[10]) && is_digit(s[11])
    &&& (s.len() == 12 || s[12] == ' ')
}

/// The status code of a status line.
pub open spec fn status_of(s: Seq<char>) -> int {
    100 * digit_value(s[9]) + 10 * digit_value(s[10]) + digit_value(s[11])
}

/// Whether the proxy's status line opens the tunnel: a well-formed line with
/// a 2xx status.
pub open spec fn opens_tunnel(s: Seq<char>) -> bool {
    is_status_line(s) && 200 <= status_of(s) < 300
}

fn digit_at(line: &str, i: usize) -> (r: Option<u16>)
    requires
        i < line@.len(),
    ensures
        is_digit(line@[i as int]) <==> r is Some,
        r matches Some(d) ==> d as int == digit_value(line@[i as int]) && d < 10,
{
    let c = line.get_char(i);
    if '0' <= c && c <= '9' {
        Some((c as u32 - '0' as u32) as u16)
    } else {
        None
    }
}

/// Reads the status code of a status line, or `None` where `line` is not one.
pub fn parse_status_line(line: &str) -> (r: Option<u16>)
    ensures
        r is Some <==> is_status_line(line@),
        r matches Some(code) ==> code as int == status_of(line@),
{
    let n = line.unicode_len();
    if n < 12 {
        return None;
    }
    if !(line.get_char(0) == 'H' && line.get_char(1) == 'T' && line.get_char(2) == 'T'
        && line.get_char(3) == 'P' && line.get_char(4) == '/') {
        return None;
    }
    if digit_at(line, 5).is_none() || line.get_char(6) != '.' || digit_at(line, 7).is_none()
        || line.get_char(8) != ' ' {
        return None;
    }
    if n > 12 && line.get_char(12) != ' ' {
        return None;
    }
    match (digit_at(line, 9), digit_at(line, 10), digit_at(line, 11)) {
        (Some(a), Some(b), Some(c)) => Some(100 * a + 10 * b + c),
        _ => None,
    }
}

/// Checks the proxy's reply to a tunnel request. A 2xx status opens the
/// tunnel and is returned; any other status, or a line that is no status
/// line, is a `Connect` error whose cause is the line.
pub fn check_tunnel_response(line: &str) -> (r: Result<u16, HttpClientError>)
    ensures
        r is Ok <==> opens_tunnel(line@),
        r matches Ok(code) ==> code as int == status_of(line@),
        r matches Err(e) ==> e.kind() == ErrorKind::Connect && e.cause_text() == Some(line@),
{
    match parse_status_line(line) {
        Some(code) => {
            if 200 <= code && code < 300 {
                Ok(code)
            } else {
                Err(HttpClientError::new_with_message(ErrorKind::Connect, line))
            }
        },
        None => Err(HttpClientError::new_with_message(ErrorKind::Connect, line)),
    }
}

/// A 2xx status line opens the tunnel, and any status of 300 or more is
/// refused.
pub proof fn tunnel_status_classes(s: Seq<char>)
    requires
        is_status_line(s),
    ensures
        200 <= status_of(s) < 300 ==> opens_tunnel(s),
        status_of(s) >= 300 ==> !opens_tunnel(s),
{
}

/// Where a tunnel negotiation stands.
#[derive(Debug, Clone, Copy, PartialEq, Eq, Structural)]
pub enum TunnelState {
    /// Nothing written yet.
    Idle,
    /// The request was written; the proxy's status line is awaited.
    AwaitingStatus,
    /// The proxy opened the tunnel.
    Open,
    /// The proxy refused, or its reply was not understood.
    Refused,
}

/// The negotiation of one tunnel through a forward proxy. No handshake or
/// request byte may be sent through it before the status line is consumed
/// and accepted.
pub struct ProxyTunnel {
    state: TunnelState,
}

impl ProxyTunnel {
    /// Where the negotiation stands.
    pub closed spec fn spec_state(&self) -> TunnelState {
        self.state
    }

    /// A negotiation that has not started.
    pub fn new() -> (r: ProxyTunnel)
        ensures
            r.spec_state() == TunnelState::Idle,
    {
        ProxyTunnel { state: TunnelState::Idle }
    }

    /// Where the negotiation stands.
    pub fn state(&self) -> (r: TunnelState)
        ensures
            r == self.spec_state(),
    {
        self.state
    }

    /// The tunnel request to write to the proxy for `host:port`. It can be
    /// asked for once, before anything else.
    pub fn request(&mut self, host: &str, port: u16, credentials: Option<&str>) -> (r: Result<
        String,
        HttpClientError,
    >)
        ensures
            old(self).spec_state() == TunnelState::Idle ==> final(self).spec_state()
                == TunnelState::AwaitingStatus && (r matches Ok(req) && req@
                == connect_request_text(
                host@,
                port,
                match credentials {
                    Some(c) => Some(c@),
                    None => None,
                },
            )),
            old(self).spec_state() != TunnelState::Idle ==> final(self).spec_state() == old(
                self,
            ).spec_state() && (r matches Err(e) && e.kind() == ErrorKind::Other),
    {
        if self.state != TunnelState::Idle {
            return Err(
                HttpClientError::new_with_message(ErrorKind::Other, "tunnel request already made"),
            );
        }
        self.state = TunnelState::AwaitingStatus;
        Ok(connect_request(host, port, credentials))
    }

    /// Consumes the proxy's status line. The tunnel opens on a 2xx status;
    /// anything else is a `Connect` error whose cause is the line.
    pub fn on_status_line(&mut self, line: &str) -> (r: Result<u16, HttpClientError>)
        ensures
            old(self).spec_state() == TunnelState::AwaitingStatus ==> {
                &&& r is Ok <==> opens_tunnel(line@)
                &&& (r matches Ok(code) ==> code as int == status_of(line@))
                &&& (r matches Err(e) ==> e.kind() == ErrorKind::Connect && e.cause_text() == Some(
                    line@,
                ))
                &&& final(self).spec_state() == if opens_tunnel(line@) {
                    TunnelState::Open
                } else {
                    TunnelState::Refused
                }
            },
            old(self).spec_state() != TunnelState::AwaitingStatus ==> final(self).spec_state()
                == old(self).spec_state() && (r matches Err(e) && e.kind() == ErrorKind::Other),
    {
        if self.state != TunnelState::AwaitingStatus {
            return Err(
                HttpClientError::new_with_message(ErrorKind::Other, "no tunnel status awaited"),
            );
        }
        let r = check_tunnel_response(line);
        match r {
            Ok(_) => {
                self.state = TunnelState::Open;
            },
            Err(_) => {
                self.state = TunnelState::Refused;
            },
        }
        r
    }

    /// Whether bytes of the tunnelled connection may be sent: only once the
    /// tunnel is open.
    pub fn may_send_payload(&self) -> (r: bool)
        ensures
            r == (self.spec_state() == TunnelState::Open),
    {
        self.state == TunnelState::Open
    }
}

} // verus!
