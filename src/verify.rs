//! The verification target of a TLS session: which name the peer's
//! certificate must match, and how.

use vstd::prelude::*;
use crate::error::{ErrorKind, HttpClientError};

verus! {

/// Host-check flag: a wildcard may only stand for a whole left-most label,
/// so `*.example.com` does not match `a.b.example.com` and `f*.example.com`
/// matches nothing.
pub const X509_CHECK_FLAG_NO_PARTIAL_WILDCARDS: u32 = 0x4;

/// What the certificate is checked against.
pub enum VerifyTarget {
    /// Not configured yet.
    Unset,
    /// An IP address, as its octets (4 for IPv4, 16 for IPv6).
    Ip(Vec<u8>),
    /// A DNS name.
    DnsName(String),
}

/// The verification parameters of a session.
pub struct VerifyParams {
    target: VerifyTarget,
    host_flags: u32,
    server_name: Option<String>,
}

/// Whether `s` holds a NUL character.
pub open spec fn has_nul(s: Seq<char>) -> bool {
    exists|i: int| 0 <= i < s.len() && s[i] == '\0'
}

impl VerifyParams {
    /// The octets of the address to match, if the target is an IP address.
    pub closed spec fn ip_target(&self) -> Option<Seq<u8>> {
        match self.target {
            VerifyTarget::Ip(b) => Some(b@),
            _ => None,
        }
    }

    /// The DNS name to match, if the target is a name.
    pub closed spec fn dns_target(&self) -> Option<Seq<char>> {
        match self.target {
            VerifyTarget::DnsName(n) => Some(n@),
            _ => None,
        }
    }

    /// The host-check flags.
    pub closed spec fn flags(&self) -> u32 {
        self.host_flags
    }

    /// The name sent to the server in the handshake, if one was set.
    pub closed spec fn sni(&self) -> Option<Seq<char>> {
        match self.server_name {
            Some(n) => Some(n@),
            None => None,
        }
    }

    /// Parameters with no target, no flags and no server name.
    pub fn new() -> (r: VerifyParams)
        ensures
            r.ip_target() is None,
            r.dns_target() is None,
            r.flags() == 0,
            r.sni() is None,
    {
        VerifyParams { target: VerifyTarget::Unset, host_flags: 0, server_name: None }
    }

    /// Configures the check for `host`. `ip` is what `host` reads as when
    /// taken as an IP literal: its octets, or `None` where it is no valid IP
    /// literal. An IP literal is matched as an address; any other host as a
    /// DNS name. Partial wildcards are disabled in either case.
    pub fn setup_verify_hostname(&mut self, host: &str, ip: Option<Vec<u8>>)
        ensures
            final(self).flags() == old(self).flags() | X509_CHECK_FLAG_NO_PARTIAL_WILDCARDS,
            final(self).flags() & X509_CHECK_FLAG_NO_PARTIAL_WILDCARDS != 0,
            final(self).sni() == old(self).sni(),
            match ip {
                Some(b) => final(self).ip_target() == Some(b@) && final(self).dns_target() is None,
                None => final(self).dns_target() == Some(host@) && final(self).ip_target() is None,
            },
    {
        let prev: u32 = self.host_flags;
        let flags = prev | X509_CHECK_FLAG_NO_PARTIAL_WILDCARDS;
        assert(flags & X509_CHECK_FLAG_NO_PARTIAL_WILDCARDS != 0) by (bit_vector)
            requires
                flags == prev | 4u32,
        ;
        self.host_flags = flags;
        match ip {
            Some(b) => {
                self.target = VerifyTarget::Ip(b);
            },
            None => {
                self.target = VerifyTarget::DnsName(host.to_string());
            },
        }
    }

    /// A copy of the address octets to match, if the target is an IP address.
    pub fn target_ip(&self) -> (r: Option<Vec<u8>>)
        ensures
            match r {
                Some(b) => self.ip_target() == Some(b@),
                None => self.ip_target() is None,
            },
    {
        match &self.target {
            VerifyTarget::Ip(b) => Some(b.clone()),
            _ => None,
        }
    }

    /// A copy of the DNS name to match, if the target is a name.
    pub fn target_dns_name(&self) -> (r: Option<String>)
        ensures
            match r {
                Some(n) => self.dns_target() == Some(n@),
                None => self.dns_target() is None,
            },
    {
        match &self.target {
            VerifyTarget::DnsName(n) => Some(n.clone()),
            _ => None,
        }
    }

    /// The host-check flags.
    pub fn host_flags(&self) -> (r: u32)
        ensures
            r == self.flags(),
    {
        self.host_flags
    }

    /// A copy of the name sent to the server, if one was set.
    pub fn server_name(&self) -> (r: Option<String>)
        ensures
            match r {
                Some(n) => self.sni() == Some(n@),
                None => self.sni() is None,
            },
    {
        match &self.server_name {
            Some(n) => Some(n.clone()),
            None => None,
        }
    }

    /// Sets the name sent to the server in the handshake. A name holding a
    /// NUL character cannot be sent; it is refused and nothing changes.
    pub fn set_host_name(&mut self, name: &str) -> (r: Result<(), HttpClientError>)
        ensures
            r is Ok <==> !has_nul(name@),
            r is Ok ==> final(self).sni() == Some(name@),
            r is Err ==> final(self).sni() == old(self).sni(),
            (r matches Err(e) ==> e.kind() == ErrorKind::Connect),
            final(self).ip_target() == old(self).ip_target(),
            final(self).dns_target() == old(self).dns_target(),
            final(self).flags() == old(self).flags(),
    {
        let n = name.unicode_len();
        let mut i: usize = 0;
        while i < n
            invariant
                n == name@.len(),
                i <= n,
                forall|j: int| 0 <= j < i ==> name@[j] != '\0',
            decreases n - i,
        {
            if name.get_char(i) == '\0' {
                return Err(HttpClientError::new_with_message(
                    ErrorKind::Connect,
                    "server name holds a NUL character",
                ));
            }
            i = i + 1;
        }
        self.server_name = Some(name.to_string());
        Ok(())
    }
}

} // verus!
