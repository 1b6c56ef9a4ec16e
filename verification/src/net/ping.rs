//! ICMP echo ("ping") packets of the user-space ping.
//!
//! Unprivileged ICMP sockets on Linux fill in the checksum and the identifier,
//! so the echo request is assembled statically; ICMPv4 and ICMPv6 echo messages
//! share one layout.
use vstd::prelude::*;

use crate::text::{push_decimal, push_str};

use super::ip::{IpAddr, Ipv4Addr};

verus! {

/// The ICMP type of an echo request: 8 for ICMPv4, 128 for ICMPv6.
pub open spec fn echo_request_type(v6: bool) -> u8 {
    if v6 {
        128
    } else {
        8
    }
}

/// The ICMP type of an echo reply: 0 for ICMPv4, 129 for ICMPv6.
pub open spec fn echo_reply_type(v6: bool) -> u8 {
    if v6 {
        129
    } else {
        0
    }
}

/// The payload of our echo requests: `turnon-ping\n` four times.
pub open spec fn echo_payload() -> Seq<u8> {
    let line = seq![
        0x74u8, 0x75u8, 0x72u8, 0x6eu8, 0x6fu8, 0x6eu8, 0x2du8, 0x70u8, 0x69u8, 0x6eu8, 0x67u8,
        0x0au8,
    ];
    line + line + line + line
}

/// The echo request with `sequence_number`: type, code 0, checksum 0,
/// identifier 0, the big-endian sequence number, then the payload; 56 bytes.
pub open spec fn echo_request(v6: bool, sequence_number: u16) -> Seq<u8> {
    seq![
        echo_request_type(v6),
        0u8,
        0u8,
        0u8,
        0u8,
        0u8,
        (sequence_number / 256) as u8,
        (sequence_number % 256) as u8,
    ] + echo_payload()
}

/// The size of echo requests and of the replies we expect.
pub const ECHO_PACKET_LEN: usize = 56;

/// The echo request for `ip_address` with `sequence_number`.
pub fn echo_request_for(ip_address: &IpAddr, sequence_number: u16) -> (r: Vec<u8>)
    ensures
        r@ == echo_request(*ip_address is V6, sequence_number),
        r@.len() == ECHO_PACKET_LEN,
{
    let kind: u8 = match ip_address {
        IpAddr::V4(_) => 8,
        IpAddr::V6(_) => 128,
    };
    let mut r: Vec<u8> = Vec::new();
    r.push(kind);
    r.push(0);
    r.push(0);
    r.push(0);
    r.push(0);
    r.push(0);
    r.push((sequence_number / 256) as u8);
    r.push((sequence_number % 256) as u8);
    let line: [u8; 12] = [0x74, 0x75, 0x72, 0x6e, 0x6f, 0x6e, 0x2d, 0x70, 0x69, 0x6e, 0x67, 0x0a];
    let mut k: usize = 0;
    while k < 4
        invariant
            k <= 4,
            line@ == seq![
                0x74u8, 0x75u8, 0x72u8, 0x6eu8, 0x6fu8, 0x6eu8, 0x2du8, 0x70u8, 0x69u8, 0x6eu8,
                0x67u8, 0x0au8,
            ],
            r@.len() == 8 + 12 * k,
            r@.subrange(0, 8) == seq![
                kind,
                0u8,
                0u8,
                0u8,
                0u8,
                0u8,
                (sequence_number / 256) as u8,
                (sequence_number % 256) as u8,
            ],
            forall|i: int| 8 <= i < r@.len() ==> #[trigger] r@[i] == line@[(i - 8) % 12],
        decreases 4 - k,
    {
        let ghost before = r@;
        let mut m: usize = 0;
        while m < 12
            invariant
                m <= 12,
                k < 4,
                line@.len() == 12,
                r@.len() == 8 + 12 * k + m,
                r@.subrange(0, 8 + 12 * k as int) == before,
                before.len() == 8 + 12 * k,
                forall|i: int| 8 + 12 * k <= i < r@.len() ==> #[trigger] r@[i] == line@[i - 8 - 12 * k],
            decreases 12 - m,
        {
            r.push(line[m]);
            m = m + 1;
        }
        proof {
            assert forall|i: int| 8 <= i < r@.len() implies #[trigger] r@[i] == line@[(i - 8) % 12] by {
                if i < 8 + 12 * k {
                    assert(r@[i] == before[i]);
                } else {
                    assert((i - 8) % 12 == i - 8 - 12 * k) by (nonlinear_arith)
                        requires
                            8 + 12 * k <= i < 8 + 12 * k + 12,
                    ;
                }
            }
            assert(r@.subrange(0, 8) =~= before.subrange(0, 8));
        }
        k = k + 1;
    }
    proof {
        let want = echo_request(*ip_address is V6, sequence_number);
        assert forall|i: int| 8 <= i < 56 implies want[i] == line@[(i - 8) % 12] by {
            let p = echo_payload();
            assert(want[i] == p[i - 8]);
            let l = seq![
                0x74u8, 0x75u8, 0x72u8, 0x6eu8, 0x6fu8, 0x6eu8, 0x2du8, 0x70u8, 0x69u8, 0x6eu8,
                0x67u8, 0x0au8,
            ];
            if i - 8 < 12 {
            } else if i - 8 < 24 {
                assert(p[i - 8] == l[i - 20]);
            } else if i - 8 < 36 {
                assert(p[i - 8] == l[i - 32]);
            } else {
                assert(p[i - 8] == l[i - 44]);
            }
        }
        assert forall|i: int| 0 <= i < 8 implies want[i] == r@[i] by {
            assert(r@[i] == r@.subrange(0, 8)[i]);
        }
        assert(r@ =~= want);
    }
    r
}

/// Why an echo exchange failed.
#[derive(Clone, Copy, Debug, PartialEq, Eq, Structural)]
pub enum EchoError {
    /// Fewer bytes than the request were written to the socket.
    IncompleteWrite,
    /// Fewer bytes than expected were read from the socket.
    IncompleteRead,
    /// The reply carried another sequence number.
    OutOfOrder { received: u16, expected: u16 },
    /// The reply was not an echo reply; holds its type.
    UnexpectedType(u8),
}

/// Whether the request was written completely.
pub fn check_echo_write(bytes_written: usize) -> (r: Result<(), EchoError>)
    ensures
        r is Ok <==> bytes_written == ECHO_PACKET_LEN,
        r matches Err(e) ==> e == EchoError::IncompleteWrite,
{
    if bytes_written == ECHO_PACKET_LEN {
        Ok(())
    } else {
        Err(EchoError::IncompleteWrite)
    }
}

/// What the check of a response of `bytes_received` bytes `response` to the echo
/// request with `sequence_number` gives: it must be complete, an echo reply,
/// and carry the same sequence number.
pub open spec fn spec_check_echo_reply(
    v6: bool,
    sequence_number: u16,
    response: Seq<u8>,
    bytes_received: nat,
) -> Result<(), EchoError> {
    if bytes_received != 56 || response.len() < 8 {
        Err(EchoError::IncompleteRead)
    } else if response[0] == echo_reply_type(v6) {
        let received = (response[6] as nat * 256 + response[7] as nat) as u16;
        if received == sequence_number {
            Ok(())
        } else {
            Err(EchoError::OutOfOrder { received, expected: sequence_number })
        }
    } else {
        Err(EchoError::UnexpectedType(response[0]))
    }
}

/// Check the `bytes_received` bytes read into `response` as the reply to the
/// echo request for `ip_address` with `sequence_number`.
pub fn check_echo_reply(
    ip_address: &IpAddr,
    sequence_number: u16,
    response: &[u8],
    bytes_received: usize,
) -> (r: Result<(), EchoError>)
    ensures
        r == spec_check_echo_reply(
            *ip_address is V6,
            sequence_number,
            response@,
            bytes_received as nat,
        ),
{
    if bytes_received != ECHO_PACKET_LEN || response.len() < 8 {
        return Err(EchoError::IncompleteRead);
    }
    let reply_type: u8 = match ip_address {
        IpAddr::V4(_) => 0,
        IpAddr::V6(_) => 129,
    };
    if response[0] == reply_type {
        let received = (response[6] as u16) * 256 + (response[7] as u16);
        if received == sequence_number {
            Ok(())
        } else {
            Err(EchoError::OutOfOrder { received, expected: sequence_number })
        }
    } else {
        Err(EchoError::UnexpectedType(response[0]))
    }
}

/// The reply a host sends to `request`: the request with the reply type.
pub open spec fn echo_reply_to(v6: bool, request: Seq<u8>) -> Seq<u8> {
    request.update(0, echo_reply_type(v6))
}

/// A complete echo reply to our request is accepted.
pub proof fn lemma_reply_to_request_accepted(v6: bool, sequence_number: u16)
    ensures
        spec_check_echo_reply(
            v6,
            sequence_number,
            echo_reply_to(v6, echo_request(v6, sequence_number)),
            56,
        ) == Ok::<(), EchoError>(()),
{
    let reply = echo_reply_to(v6, echo_request(v6, sequence_number));
    assert(reply[6] == (sequence_number / 256) as u8);
    assert(reply[7] == (sequence_number % 256) as u8);
}

/// A reply whose sequence number differs from the request's is rejected as out
/// of order.
pub proof fn lemma_other_sequence_rejected(v6: bool, sent: u16, expected: u16)
    requires
        sent != expected,
    ensures
        spec_check_echo_reply(v6, expected, echo_reply_to(v6, echo_request(v6, sent)), 56)
            == Err::<(), EchoError>(EchoError::OutOfOrder { received: sent, expected }),
{
    let reply = echo_reply_to(v6, echo_request(v6, sent));
    assert(reply[6] == (sent / 256) as u8);
    assert(reply[7] == (sent % 256) as u8);
}

impl EchoError {
    /// The message for this error, naming the pinged address by its display `address`.
    pub fn message(&self, address: &str) -> (r: String)
        ensures
            r@ == echo_error_message(*self, address@),
    {
        let mut out = String::new();
        match self {
            EchoError::IncompleteWrite => {
                push_str(&mut out, "Failed to write full ICMP echo request to ");
                push_str(&mut out, address);
                push_str(&mut out, " to socket");
            },
            EchoError::IncompleteRead => {
                push_str(&mut out, "Failed to read full ICMP echo reply from ");
                push_str(&mut out, address);
                push_str(&mut out, " from socket");
            },
            EchoError::OutOfOrder { received, expected } => {
                push_str(&mut out, "Received out of order sequence number ");
                push_decimal(&mut out, *received as u64);
                push_str(&mut out, ", expected ");
                push_decimal(&mut out, *expected as u64);
            },
            EchoError::UnexpectedType(t) => {
                push_str(&mut out, "Received unexpected response of type ");
                push_decimal(&mut out, *t as u64);
            },
        }
        assert(out@ =~= echo_error_message(*self, address@));
        out
    }
}

/// The message of an echo error about the address displayed as `address`.
pub open spec fn echo_error_message(e: EchoError, address: Seq<char>) -> Seq<char> {
    match e {
        EchoError::IncompleteWrite => "Failed to write full ICMP echo request to "@ + address
            + " to socket"@,
        EchoError::IncompleteRead => "Failed to read full ICMP echo reply from "@ + address
            + " from socket"@,
        EchoError::OutOfOrder { received, expected } => "Received out of order sequence number "@
            + crate::text::dec_string(received as nat) + ", expected "@ + crate::text::dec_string(
            expected as nat,
        ),
        EchoError::UnexpectedType(t) => "Received unexpected response of type "@
            + crate::text::dec_string(t as nat),
    }
}

/// A network destination which we can ping.
#[derive(Clone, Debug)]
pub enum PingDestination {
    /// A DNS name which needs to be resolved first.
    Dns(String),
    /// A resolved IP address.
    Addr(IpAddr),
}

impl PingDestination {
    /// The destination for `host`, given what `IpAddr::from_str` parsed from it:
    /// the address if `host` is one, else the DNS name.
    pub fn from_host(host: String, parsed: Option<IpAddr>) -> (r: Self)
        ensures
            parsed matches Some(ip) ==> (r matches PingDestination::Addr(a) && a == ip),
            parsed is None ==> (r matches PingDestination::Dns(h) && h@ == host@),
    {
        match parsed {
            Some(ip) => PingDestination::Addr(ip),
            None => PingDestination::Dns(host),
        }
    }

    /// The addresses to ping when this destination is an address: just that
    /// address; `None` for a DNS name, which must be looked up first.
    pub fn resolved(&self) -> (r: Option<Vec<IpAddr>>)
        ensures
            match self {
                PingDestination::Addr(a) => r matches Some(v) && v@ == seq![*a],
                PingDestination::Dns(_) => r is None,
            },
    {
        match self {
            PingDestination::Addr(a) => {
                let mut v = Vec::new();
                v.push(*a);
                Some(v)
            },
            PingDestination::Dns(_) => None,
        }
    }
}

/// Why a name could not be resolved to addresses.
#[derive(Clone, Copy, Debug, PartialEq, Eq, Structural)]
pub enum ResolveError {
    /// The lookup succeeded but gave no addresses.
    NoAddresses,
}

/// The addresses a lookup gave, failing if it gave none.
pub fn addresses_from_lookup(addresses: Vec<IpAddr>) -> (r: Result<Vec<IpAddr>, ResolveError>)
    ensures
        addresses@.len() == 0 ==> r == Err::<Vec<IpAddr>, ResolveError>(ResolveError::NoAddresses),
        addresses@.len() > 0 ==> (r matches Ok(v) && v@ == addresses@),
{
    if addresses.len() == 0 {
        Err(ResolveError::NoAddresses)
    } else {
        Ok(addresses)
    }
}

/// The first address a lookup gave, as the monitor of single addresses uses it.
pub fn first_address(addresses: &[IpAddr]) -> (r: Result<IpAddr, ResolveError>)
    ensures
        addresses@.len() == 0 ==> r == Err::<IpAddr, ResolveError>(ResolveError::NoAddresses),
        addresses@.len() > 0 ==> r == Ok::<IpAddr, ResolveError>(addresses@[0]),
{
    if addresses.len() == 0 {
        Err(ResolveError::NoAddresses)
    } else {
        Ok(addresses[0])
    }
}

/// The IPv4 loopback address.
pub fn ipv4_localhost() -> (r: Ipv4Addr)
    ensures
        r@ == seq![127u8, 0u8, 0u8, 1u8],
{
    Ipv4Addr::new(127, 0, 0, 1)
}

impl ResolveError {
    /// The message of the error.
    pub fn message(&self) -> (r: &'static str)
        ensures
            r@ == "No addresses found"@,
    {
        "No addresses found"
    }
}

/// Why a socket could not be used.
#[derive(Clone, Copy, Debug, PartialEq, Eq, Structural)]
pub enum SocketNotReady {
    Write,
    Read,
}

impl SocketNotReady {
    /// The message for the socket of the address displayed as `address`.
    pub fn message(&self, address: &str) -> (r: String)
        ensures
            r@ == "Socket for "@ + address@ + match *self {
                SocketNotReady::Write => " not ready to write"@,
                SocketNotReady::Read => " not ready to read"@,
            },
    {
        let mut out = String::new();
        push_str(&mut out, "Socket for ");
        push_str(&mut out, address);
        match self {
            SocketNotReady::Write => push_str(&mut out, " not ready to write"),
            SocketNotReady::Read => push_str(&mut out, " not ready to read"),
        }
        out
    }
}

/// The message of a destination, displayed as `destination`, none of whose
/// addresses replied.
pub fn unreachable_message(destination: &str) -> (r: String)
    ensures
        r@ == "Target "@ + destination@ + " had no reachable addresses"@,
{
    let mut out = String::new();
    push_str(&mut out, "Target ");
    push_str(&mut out, destination);
    push_str(&mut out, " had no reachable addresses");
    out
}

/// The first address that replied, with its round trip time in milliseconds,
/// of the ping results in the order they completed.
pub fn first_reply(results: &[(IpAddr, Option<u64>)]) -> (r: Option<(IpAddr, u64)>)
    ensures
        match r {
            Some((a, ms)) => exists|i: int|
                0 <= i < results@.len() && #[trigger] results@[i] == (a, Some(ms)) && forall|j: int|
                    0 <= j < i ==> results@[j].1 is None,
            None => forall|j: int| 0 <= j < results@.len() ==> results@[j].1 is None,
        },
{
    let mut i: usize = 0;
    while i < results.len()
        invariant
            i <= results@.len(),
            forall|j: int| 0 <= j < i ==> results@[j].1 is None,
        decreases results.len() - i,
    {
        match results[i].1 {
            Some(ms) => {
                let a = results[i].0;
                assert(results@[i as int] == (a, Some(ms)));
                return Some((a, ms));
            },
            None => {},
        }
        i = i + 1;
    }
    None
}

} // verus!
