//! IPv4 socket addresses, i.e. an IPv4 address with a port.
use vstd::prelude::*;

use crate::text::{chars_of, dec_string, push_char, push_decimal};

use super::ip::{ipv4_display, AddrKind, AddrParseError, Ipv4Addr};
use super::parse::{parse_socket_v4, parse_socket_v4_chars};

verus! {

/// The display of an IPv4 socket address, as in `192.168.2.3:9`.
pub open spec fn socket_v4_display(ip: Seq<u8>, port: u16) -> Seq<char> {
    ipv4_display(ip) + seq![':'] + dec_string(port as nat)
}

/// An IPv4 address together with a port.
#[derive(Clone, Copy, Debug, PartialEq, Eq, Structural, PartialOrd, Ord, Hash)]
pub struct SocketAddrV4Boxed {
    pub ip: Ipv4Addr,
    pub port: u16,
}

impl SocketAddrV4Boxed {
    /// The socket address of `ip` and `port`.
    pub fn new(ip: Ipv4Addr, port: u16) -> (r: Self)
        ensures
            r.ip == ip,
            r.port == port,
    {
        SocketAddrV4Boxed { ip, port }
    }

    /// The IP address.
    pub fn ip(&self) -> (r: Ipv4Addr)
        ensures
            r == self.ip,
    {
        self.ip
    }

    /// The port.
    pub fn port(&self) -> (r: u16)
        ensures
            r == self.port,
    {
        self.port
    }

    /// Parse `address:port`.
    pub fn from_str(s: &str) -> (r: Result<Self, AddrParseError>)
        ensures
            r matches Ok(a) ==> parse_socket_v4(s@) == Some((a.ip@, a.port)),
            r is Err <==> parse_socket_v4(s@) is None,
            r matches Err(e) ==> e.kind == AddrKind::SocketV4,
    {
        let cs = chars_of(s);
        match parse_socket_v4_chars(cs.as_slice()) {
            Some((o, port)) => {
                let ip = Ipv4Addr::new(o[0], o[1], o[2], o[3]);
                assert(ip@ =~= o@);
                Ok(SocketAddrV4Boxed { ip, port })
            },
            None => Err(AddrParseError { kind: AddrKind::SocketV4 }),
        }
    }

    /// The display of the address, e.g. `255.255.255.255:9`.
    pub fn to_string(&self) -> (r: String)
        ensures
            r@ == socket_v4_display(self.ip@, self.port),
    {
        let mut r = String::new();
        self.ip.push_to(&mut r);
        push_char(&mut r, ':');
        push_decimal(&mut r, self.port as u64);
        assert(r@ =~= socket_v4_display(self.ip@, self.port));
        r
    }
}

impl Default for SocketAddrV4Boxed {
    /// The unspecified IPv4 address and port 0.
    fn default() -> (r: Self)
        ensures
            r.ip@ == seq![0u8, 0u8, 0u8, 0u8],
            r.port == 0,
    {
        SocketAddrV4Boxed { ip: Ipv4Addr::unspecified(), port: 0 }
    }
}

} // verus!
