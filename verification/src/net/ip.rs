//! IP addresses and IPv4 socket addresses as plain values.
//!
//! IPv4 addresses and IPv4 socket addresses are parsed and rendered here;
//! IPv6 addresses are parsed and displayed by the caller, which hands over
//! their segments.
use vstd::prelude::*;

use crate::text::{chars_of, dec_string, push_char, push_decimal};

use super::parse::{parse_ipv4, parse_ipv4_chars};

verus! {

/// Which kind of address failed to parse; mirrors the kinds of
/// `std::net::AddrParseError`.
#[derive(Clone, Copy, Debug, PartialEq, Eq, Structural)]
pub enum AddrKind {
    Ip,
    Ipv4,
    SocketV4,
}

/// An address did not parse.
#[derive(Clone, Copy, Debug, PartialEq, Eq, Structural)]
pub struct AddrParseError {
    pub kind: AddrKind,
}

impl AddrParseError {
    /// The message `std::net::AddrParseError` displays for this kind.
    pub fn message(&self) -> (r: &'static str)
        ensures
            self.kind == AddrKind::Ip ==> r@ == "invalid IP address syntax"@,
            self.kind == AddrKind::Ipv4 ==> r@ == "invalid IPv4 address syntax"@,
            self.kind == AddrKind::SocketV4 ==> r@ == "invalid IPv4 socket address syntax"@,
    {
        match self.kind {
            AddrKind::Ip => "invalid IP address syntax",
            AddrKind::Ipv4 => "invalid IPv4 address syntax",
            AddrKind::SocketV4 => "invalid IPv4 socket address syntax",
        }
    }
}

/// An IPv4 address.
#[derive(Clone, Copy, Debug, PartialEq, Eq, Structural, PartialOrd, Ord, Hash)]
pub struct Ipv4Addr {
    pub a: u8,
    pub b: u8,
    pub c: u8,
    pub d: u8,
}

impl View for Ipv4Addr {
    type V = Seq<u8>;

    open spec fn view(&self) -> Seq<u8> {
        seq![self.a, self.b, self.c, self.d]
    }
}

/// The dot-decimal display of four octets, as in `192.168.2.3`.
pub open spec fn ipv4_display(o: Seq<u8>) -> Seq<char> {
    dec_string(o[0] as nat) + seq!['.'] + dec_string(o[1] as nat) + seq!['.'] + dec_string(
        o[2] as nat,
    ) + seq!['.'] + dec_string(o[3] as nat)
}

impl Ipv4Addr {
    /// The address with the four given octets.
    pub fn new(a: u8, b: u8, c: u8, d: u8) -> (r: Self)
        ensures
            r@ == seq![a, b, c, d],
    {
        Ipv4Addr { a, b, c, d }
    }

    /// The broadcast address `255.255.255.255`.
    pub fn broadcast() -> (r: Self)
        ensures
            r@ == seq![255u8, 255u8, 255u8, 255u8],
    {
        Ipv4Addr { a: 255, b: 255, c: 255, d: 255 }
    }

    /// The unspecified address `0.0.0.0`.
    pub fn unspecified() -> (r: Self)
        ensures
            r@ == seq![0u8, 0u8, 0u8, 0u8],
    {
        Ipv4Addr { a: 0, b: 0, c: 0, d: 0 }
    }

    /// The four octets.
    pub fn octets(&self) -> (r: [u8; 4])
        ensures
            r@ == self@,
    {
        let r = [self.a, self.b, self.c, self.d];
        assert(r@ =~= self@);
        r
    }

    /// Parse a dot-decimal IPv4 address.
    pub fn from_str(s: &str) -> (r: Result<Self, AddrParseError>)
        ensures
            r matches Ok(ip) ==> parse_ipv4(s@) == Some(ip@),
            r is Err <==> parse_ipv4(s@) is None,
            r matches Err(e) ==> e.kind == AddrKind::Ipv4,
    {
        let cs = chars_of(s);
        match parse_ipv4_chars(cs.as_slice()) {
            Some(o) => {
                let ip = Ipv4Addr { a: o[0], b: o[1], c: o[2], d: o[3] };
                assert(ip@ =~= o@);
                Ok(ip)
            },
            None => Err(AddrParseError { kind: AddrKind::Ipv4 }),
        }
    }

    /// Append the dot-decimal display of this address to `out`.
    pub fn push_to(&self, out: &mut String)
        ensures
            final(out)@ == old(out)@ + ipv4_display(self@),
    {
        push_decimal(out, self.a as u64);
        push_char(out, '.');
        push_decimal(out, self.b as u64);
        push_char(out, '.');
        push_decimal(out, self.c as u64);
        push_char(out, '.');
        push_decimal(out, self.d as u64);
        assert(out@ =~= old(out)@ + ipv4_display(self@));
    }

    /// The dot-decimal display of this address, e.g. `192.168.2.3`.
    pub fn to_string(&self) -> (r: String)
        ensures
            r@ == ipv4_display(self@),
    {
        let mut r = String::new();
        self.push_to(&mut r);
        assert(r@ =~= ipv4_display(self@));
        r
    }
}

/// An IPv6 address, as eight 16-bit segments.
#[derive(Clone, Copy, Debug, PartialEq, Eq, Structural, PartialOrd, Ord, Hash)]
pub struct Ipv6Addr {
    pub s0: u16,
    pub s1: u16,
    pub s2: u16,
    pub s3: u16,
    pub s4: u16,
    pub s5: u16,
    pub s6: u16,
    pub s7: u16,
}

impl View for Ipv6Addr {
    type V = Seq<u16>;

    open spec fn view(&self) -> Seq<u16> {
        seq![self.s0, self.s1, self.s2, self.s3, self.s4, self.s5, self.s6, self.s7]
    }
}

impl Ipv6Addr {
    /// The eight segments.
    pub fn segments(&self) -> (r: [u16; 8])
        ensures
            r@ == self@,
    {
        let r = [self.s0, self.s1, self.s2, self.s3, self.s4, self.s5, self.s6, self.s7];
        assert(r@ =~= self@);
        r
    }

    /// The address made of the eight segments.
    pub fn from_segments(s: [u16; 8]) -> (r: Self)
        ensures
            r@ == s@,
    {
        let r = Ipv6Addr {
            s0: s[0],
            s1: s[1],
            s2: s[2],
            s3: s[3],
            s4: s[4],
            s5: s[5],
            s6: s[6],
            s7: s[7],
        };
        assert(r@ =~= s@);
        r
    }

    /// The loopback address `::1`.
    pub fn localhost() -> (r: Self)
        ensures
            r@ == seq![0u16, 0u16, 0u16, 0u16, 0u16, 0u16, 0u16, 1u16],
    {
        Ipv6Addr { s0: 0, s1: 0, s2: 0, s3: 0, s4: 0, s5: 0, s6: 0, s7: 1 }
    }
}

/// An IPv4 or IPv6 address.
#[derive(Clone, Copy, Debug, PartialEq, Eq, Structural, PartialOrd, Ord, Hash)]
pub enum IpAddr {
    V4(Ipv4Addr),
    V6(Ipv6Addr),
}

impl IpAddr {
    /// Whether this is an IPv6 address.
    pub fn is_ipv6(&self) -> (r: bool)
        ensures
            r == (*self is V6),
    {
        match self {
            IpAddr::V4(_) => false,
            IpAddr::V6(_) => true,
        }
    }
}

} // verus!
