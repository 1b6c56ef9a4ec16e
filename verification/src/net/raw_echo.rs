//! ICMP echo packets with checksum, built and read with `etherparse`, for raw
//! ICMP sockets that leave the checksum to the sender.
use vstd::prelude::*;

verus! {

/// The identifier of our echo requests.
pub const ECHO_ID: u16 = 42;

/// The sequence number of our echo requests.
pub const ECHO_SEQ: u16 = 23;

/// `wakeup-ping` in ASCII.
pub open spec fn wakeup_word() -> Seq<u8> {
    seq![0x77u8, 0x61u8, 0x6bu8, 0x65u8, 0x75u8, 0x70u8, 0x2du8, 0x70u8, 0x69u8, 0x6eu8, 0x67u8]
}

/// The payload of our echo requests: `wakeup-ping` four times, separated by
/// single spaces.
pub open spec fn wakeup_payload() -> Seq<u8> {
    let w = wakeup_word();
    w + seq![0x20u8] + w + seq![0x20u8] + w + seq![0x20u8] + w
}

/// The sum of `bytes` read as big-endian 16-bit words, an odd last byte
/// padded with a zero byte.
pub open spec fn word_sum(bytes: Seq<u8>) -> nat
    decreases bytes.len(),
{
    if bytes.len() == 0 {
        0
    } else if bytes.len() == 1 {
        bytes[0] as nat * 256
    } else {
        bytes[0] as nat * 256 + bytes[1] as nat + word_sum(bytes.skip(2))
    }
}

/// `s` with the carries above 16 bits added back in, until it fits in 16 bits.
pub open spec fn fold_carries(s: nat) -> nat
    decreases s,
{
    if s < 0x10000 {
        s
    } else {
        fold_carries(s / 0x10000 + s % 0x10000)
    }
}

/// The internet checksum of `bytes`: the ones' complement of their ones'
/// complement sum in 16-bit words.
pub open spec fn internet_checksum(bytes: Seq<u8>) -> u16 {
    (0xFFFF - fold_carries(word_sum(bytes))) as u16
}

/// The checksum `etherparse::Icmpv4Header::with_checksum` computes for an
/// echo request with `id` and `seq` before `payload`: the internet checksum of
/// the header, its checksum field left out, and the payload.
pub open spec fn echo_v4_checksum(id: u16, seq: u16, payload: Seq<u8>) -> u16 {
    internet_checksum(
        seq![8u8, 0u8, (id / 256) as u8, (id % 256) as u8, (seq / 256) as u8, (seq % 256) as u8]
            + payload,
    )
}

/// The four big-endian bytes of `n`.
pub open spec fn be32(n: nat) -> Seq<u8> {
    seq![
        (n / 0x100_0000 % 256) as u8,
        (n / 0x1_0000 % 256) as u8,
        (n / 256 % 256) as u8,
        (n % 256) as u8,
    ]
}

/// The checksum `etherparse::Icmpv6Header::with_checksum` computes for an
/// echo request with `id` and `seq` before `payload`, between the addresses
/// `source` and `destination`: the internet checksum of the IPv6 pseudo
/// header (the addresses, next header 58 and the length of the message),
/// the header, its checksum field left out, and the payload.
pub open spec fn echo_v6_checksum(
    id: u16,
    seq: u16,
    source: Seq<u8>,
    destination: Seq<u8>,
    payload: Seq<u8>,
) -> u16 {
    internet_checksum(
        source + destination + seq![0u8, 58u8] + be32(payload.len() + 8) + seq![
            128u8,
            0u8,
            (id / 256) as u8,
            (id % 256) as u8,
            (seq / 256) as u8,
            (seq % 256) as u8,
        ] + payload,
    )
}

/// The eight bytes of an ICMP echo header: type, code 0, the checksum, the
/// identifier and the sequence number, each big-endian.
pub open spec fn echo_header_bytes(kind: u8, checksum: u16, id: u16, seq: u16) -> Seq<u8> {
    seq![
        kind,
        0u8,
        (checksum / 256) as u8,
        (checksum % 256) as u8,
        (id / 256) as u8,
        (id % 256) as u8,
        (seq / 256) as u8,
        (seq % 256) as u8,
    ]
}

/// The header bytes of an ICMPv4 echo request, by
/// `etherparse::Icmpv4Header::with_checksum` and `to_bytes`: the layout of
/// `to_bytes` for `EchoRequest` (type 8), with the checksum `echo_v4_checksum`.
#[verifier::external_body]
fn echo_v4_request_header(id: u16, seq: u16, payload: &[u8]) -> (r: Vec<u8>)
    ensures
        r@ == echo_header_bytes(8, echo_v4_checksum(id, seq, payload@), id, seq),
{
    let echo = etherparse::Icmpv4Type::EchoRequest(etherparse::IcmpEchoHeader { id, seq });
    etherparse::Icmpv4Header::with_checksum(echo, payload).to_bytes().to_vec()
}

/// The header bytes of an ICMPv6 echo request, by
/// `etherparse::Icmpv6Header::with_checksum` and `to_bytes`: the layout of
/// `to_bytes` for `EchoRequest` (type 128), with the checksum
/// `echo_v6_checksum`.  `with_checksum` refuses a payload longer
/// than `u32::MAX - 8` bytes, which `requires` leaves out.
#[verifier::external_body]
fn echo_v6_request_header(
    id: u16,
    seq: u16,
    source: &[u8; 16],
    destination: &[u8; 16],
    payload: &[u8],
) -> (r: Vec<u8>)
    requires
        payload@.len() + 8 <= 0xFFFF_FFFF,
    ensures
        r@ == echo_header_bytes(
            128,
            echo_v6_checksum(id, seq, source@, destination@, payload@),
            id,
            seq,
        ),
{
    let echo = etherparse::Icmpv6Type::EchoRequest(etherparse::IcmpEchoHeader { id, seq });
    etherparse::Icmpv6Header::with_checksum(echo, *source, *destination, payload)
        .unwrap()
        .to_bytes()
        .to_vec()
}

/// The length error `etherparse::Icmpv4Slice::from_slice` reports for
/// `bytes`, as required and actual length: fewer than 8 bytes, or a
/// timestamp message (type 13 or 14, code 0) of other than 20 bytes.
pub open spec fn echo_v4_len_error(bytes: Seq<u8>) -> Option<(usize, usize)> {
    if bytes.len() < 8 {
        Some((8usize, bytes.len() as usize))
    } else if (bytes[0] == 13 || bytes[0] == 14) && bytes[1] == 0 && bytes.len() != 20 {
        Some((20usize, bytes.len() as usize))
    } else {
        None
    }
}

/// Whether `bytes` hold an ICMPv4 echo reply, by
/// `etherparse::Icmpv4Slice::from_slice` and `icmp_type`: the length error
/// of `from_slice` as required and actual length, else whether type and code
/// are 0.
#[verifier::external_body]
fn echo_v4_reply_check(bytes: &[u8]) -> (r: Result<bool, (usize, usize)>)
    ensures
        r == match echo_v4_len_error(bytes@) {
            Some(e) => Err::<bool, (usize, usize)>(e),
            None => Ok(bytes@[0] == 0 && bytes@[1] == 0),
        },
{
    match etherparse::Icmpv4Slice::from_slice(bytes) {
        Ok(slice) => Ok(matches!(slice.icmp_type(), etherparse::Icmpv4Type::EchoReply(_))),
        Err(e) => Err((e.required_len, e.len)),
    }
}

/// Whether `bytes` hold an ICMPv6 echo reply, by
/// `etherparse::Icmpv6Slice::from_slice` and `icmp_type`: fewer than 8 bytes
/// are a length error, else whether the type is 129 and the code 0.  Slices
/// longer than `u32::MAX` bytes, refused too, are left out by `requires`.
#[verifier::external_body]
fn echo_v6_reply_check(bytes: &[u8]) -> (r: Result<bool, (usize, usize)>)
    requires
        bytes@.len() <= 0xFFFF_FFFF,
    ensures
        r == if bytes@.len() < 8 {
            Err::<bool, (usize, usize)>((8usize, bytes.len()))
        } else {
            Ok(bytes@[0] == 129 && bytes@[1] == 0)
        },
{
    match etherparse::Icmpv6Slice::from_slice(bytes) {
        Ok(slice) => Ok(matches!(slice.icmp_type(), etherparse::Icmpv6Type::EchoReply(_))),
        Err(e) => Err((e.required_len, e.len)),
    }
}

/// Append `b` to `v`.
fn push_bytes(v: &mut Vec<u8>, b: &[u8])
    ensures
        final(v)@ == old(v)@ + b@,
{
    let mut i: usize = 0;
    while i < b.len()
        invariant
            i <= b@.len(),
            v@ == old(v)@ + b@.subrange(0, i as int),
        decreases b.len() - i,
    {
        v.push(b[i]);
        i = i + 1;
        assert(v@ =~= old(v)@ + b@.subrange(0, i as int));
    }
    assert(b@.subrange(0, b@.len() as int) =~= b@);
}

/// The payload of our echo requests.
pub fn wakeup_ping_payload() -> (r: Vec<u8>)
    ensures
        r@ == wakeup_payload(),
{
    let word: [u8; 11] = [0x77, 0x61, 0x6b, 0x65, 0x75, 0x70, 0x2d, 0x70, 0x69, 0x6e, 0x67];
    assert(word@ =~= wakeup_word());
    let space: [u8; 1] = [0x20];
    let mut r: Vec<u8> = Vec::new();
    push_bytes(&mut r, &word);
    push_bytes(&mut r, &space);
    push_bytes(&mut r, &word);
    push_bytes(&mut r, &space);
    push_bytes(&mut r, &word);
    push_bytes(&mut r, &space);
    push_bytes(&mut r, &word);
    assert(r@ =~= wakeup_payload());
    r
}

/// The echo request we send to an IPv4 (`v6` false) or IPv6 host: the header
/// with identifier 42, sequence number 23 and the checksum over the payload
/// (for IPv6 between the unspecified addresses), then the payload.
pub open spec fn echo_request_packet(v6: bool) -> Seq<u8> {
    let zero = Seq::new(16, |i: int| 0u8);
    let header = if v6 {
        echo_header_bytes(
            128,
            echo_v6_checksum(ECHO_ID, ECHO_SEQ, zero, zero, wakeup_payload()),
            ECHO_ID,
            ECHO_SEQ,
        )
    } else {
        echo_header_bytes(8, echo_v4_checksum(ECHO_ID, ECHO_SEQ, wakeup_payload()), ECHO_ID, ECHO_SEQ)
    };
    header + wakeup_payload()
}

/// The echo request for an IPv4 or IPv6 (`v6`) host.
pub fn echo_request(v6: bool) -> (r: Vec<u8>)
    ensures
        r@ == echo_request_packet(v6),
        r@.len() == 55,
{
    let payload = wakeup_ping_payload();
    let mut packet = if v6 {
        let zero: [u8; 16] = [0; 16];
        assert(zero@ =~= Seq::new(16, |i: int| 0u8));
        echo_v6_request_header(ECHO_ID, ECHO_SEQ, &zero, &zero, payload.as_slice())
    } else {
        echo_v4_request_header(ECHO_ID, ECHO_SEQ, payload.as_slice())
    };
    push_bytes(&mut packet, payload.as_slice());
    packet
}

/// A reply that is too short, or of the wrong length for its type.
#[derive(Clone, Copy, Debug, PartialEq, Eq, Structural)]
pub struct PacketLenError {
    pub required_len: usize,
    pub len: usize,
}

/// Whether the first `received` bytes of `buffer` are an echo reply of an
/// IPv4 or IPv6 (`v6`) host, or why they cannot be read.
pub fn is_echo_reply(v6: bool, buffer: &[u8], received: usize) -> (r: Result<bool, PacketLenError>)
    requires
        received <= buffer@.len(),
        received <= 0xFFFF_FFFF,
    ensures
        ({
            let bytes = buffer@.subrange(0, received as int);
            if v6 {
                r == if bytes.len() < 8 {
                    Err::<bool, PacketLenError>(PacketLenError { required_len: 8, len: received })
                } else {
                    Ok(bytes[0] == 129 && bytes[1] == 0)
                }
            } else {
                r == match echo_v4_len_error(bytes) {
                    Some((required_len, len)) => Err::<bool, PacketLenError>(
                        PacketLenError { required_len, len },
                    ),
                    None => Ok(bytes[0] == 0 && bytes[1] == 0),
                }
            }
        }),
{
    let bytes = slice_prefix(buffer, received);
    let checked = if v6 {
        echo_v6_reply_check(bytes.as_slice())
    } else {
        echo_v4_reply_check(bytes.as_slice())
    };
    match checked {
        Ok(b) => Ok(b),
        Err((required_len, len)) => Err(PacketLenError { required_len, len }),
    }
}

/// The first `n` bytes of `b`.
fn slice_prefix(b: &[u8], n: usize) -> (r: Vec<u8>)
    requires
        n <= b@.len(),
    ensures
        r@ == b@.subrange(0, n as int),
{
    let mut r: Vec<u8> = Vec::new();
    let mut i: usize = 0;
    while i < n
        invariant
            n <= b@.len(),
            i <= n,
            r@ == b@.subrange(0, i as int),
        decreases n - i,
    {
        r.push(b[i]);
        i = i + 1;
        assert(r@ =~= b@.subrange(0, i as int));
    }
    r
}

} // verus!
