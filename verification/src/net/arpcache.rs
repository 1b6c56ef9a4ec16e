//! The Linux ARP cache, as `/proc/net/arp` presents it.
//!
//! Each line after the heading holds an IP address, the hardware type, the
//! flags, a hardware address, a mask and a device; see `proc_net(5)`.  The
//! hardware type and the flags are hexadecimal, each after any leading `0x`.
use vstd::prelude::*;

use crate::text::{
    ascii_words, chars_of, push_char, push_decimal, push_str, split_ascii_whitespace,
    split_lines, string_of, text_lines,
};

use super::ip::{AddrKind, AddrParseError, Ipv4Addr};
use super::macaddr::{spec_mac6_from_str, MacAddr6Boxed, MacParseError};
use super::parse::{
    parse_ipv4, parse_ipv4_chars, parse_uint, parse_uint_chars, trim_hex_prefix,
    trim_hex_prefix_chars, IntErrorKind, ParseIntError,
};

verus! {

/// A hardware type we know; Linux numbers Ethernet (including WiFi) as 1.
#[derive(Clone, Copy, Debug, PartialEq, Eq, Structural)]
pub enum ArpKnownHardwareType {
    /// Ethernet, including WiFi.
    Ether,
}

/// A known or unknown hardware type.
#[derive(Clone, Copy, Debug, PartialEq, Eq, Structural)]
pub enum ArpHardwareType {
    /// A hardware type we know.
    Known(ArpKnownHardwareType),
    /// A hardware type we do not understand.
    Unknown(u16),
}

/// The hardware type with the number `v`.
pub open spec fn hardware_type_of(v: nat) -> ArpHardwareType {
    if v == 1 {
        ArpHardwareType::Known(ArpKnownHardwareType::Ether)
    } else {
        ArpHardwareType::Unknown(v as u16)
    }
}

impl ArpHardwareType {
    /// Parse a hardware type from its hexadecimal number.
    pub fn from_str(s: &str) -> (r: Result<Self, ParseIntError>)
        ensures
            match parse_uint(s@, 16, 0xFFFF) {
                Ok(v) => r == Ok::<Self, ParseIntError>(hardware_type_of(v)),
                Err(k) => r == Err::<Self, ParseIntError>(ParseIntError { kind: k }),
            },
    {
        let cs = chars_of(s);
        Self::from_chars(cs.as_slice())
    }

    /// Parse a hardware type from the hexadecimal number in `cs`.
    pub fn from_chars(cs: &[char]) -> (r: Result<Self, ParseIntError>)
        ensures
            match parse_uint(cs@, 16, 0xFFFF) {
                Ok(v) => r == Ok::<Self, ParseIntError>(hardware_type_of(v)),
                Err(k) => r == Err::<Self, ParseIntError>(ParseIntError { kind: k }),
            },
    {
        match parse_uint_chars(cs, 16, 0xFFFF) {
            Ok(v) => if v == 1 {
                Ok(ArpHardwareType::Known(ArpKnownHardwareType::Ether))
            } else {
                Ok(ArpHardwareType::Unknown(v as u16))
            },
            Err(k) => Err(ParseIntError { kind: k }),
        }
    }
}

/// The bits of all flags we know of.
pub const KNOWN_FLAG_BITS: u8 = 0x7E;

/// Flags of an ARP cache entry; only known flags are kept.
#[derive(Clone, Copy, Debug, PartialEq, Eq, Structural)]
pub struct ArpCacheEntryFlags {
    pub bits: u8,
}

impl ArpCacheEntryFlags {
    /// completed entry (hardware address valid)
    pub const ATF_COM: u8 = 0x02;

    /// permanent entry
    pub const ATF_PERM: u8 = 0x04;

    /// publish entry
    pub const ATF_PUBL: u8 = 0x08;

    /// has requested trailers
    pub const ATF_USETRAILERS: u8 = 0x10;

    /// want to use a netmask (only for proxy entries)
    pub const ATF_NETMASK: u8 = 0x20;

    /// don't answer this address
    pub const ATF_DONTPUB: u8 = 0x40;

    /// The flags of `bits`, dropping unknown bits.
    pub fn from_bits_truncate(bits: u8) -> (r: Self)
        ensures
            r.bits == bits & KNOWN_FLAG_BITS,
    {
        ArpCacheEntryFlags { bits: bits & KNOWN_FLAG_BITS }
    }

    /// Whether all bits of `flag` are set.
    pub fn contains(&self, flag: u8) -> (r: bool)
        ensures
            r == (self.bits & flag == flag),
    {
        self.bits & flag == flag
    }

    /// Parse flags from a hexadecimal number, discarding unknown flags.
    pub fn from_chars(cs: &[char]) -> (r: Result<Self, ParseIntError>)
        ensures
            match parse_uint(cs@, 16, 0xFF) {
                Ok(v) => r == Ok::<Self, ParseIntError>(
                    ArpCacheEntryFlags { bits: (v as u8) & KNOWN_FLAG_BITS },
                ),
                Err(k) => r == Err::<Self, ParseIntError>(ParseIntError { kind: k }),
            },
    {
        match parse_uint_chars(cs, 16, 0xFF) {
            Ok(v) => Ok(Self::from_bits_truncate(v as u8)),
            Err(k) => Err(ParseIntError { kind: k }),
        }
    }

    /// Parse flags from a hexadecimal number, discarding unknown flags.
    pub fn from_str(s: &str) -> (r: Result<Self, ParseIntError>)
        ensures
            match parse_uint(s@, 16, 0xFF) {
                Ok(v) => r == Ok::<Self, ParseIntError>(
                    ArpCacheEntryFlags { bits: (v as u8) & KNOWN_FLAG_BITS },
                ),
                Err(k) => r == Err::<Self, ParseIntError>(ParseIntError { kind: k }),
            },
    {
        let cs = chars_of(s);
        Self::from_chars(cs.as_slice())
    }
}

/// An ARP cache entry.
#[derive(Clone, Copy, Debug, PartialEq, Eq, Structural)]
pub struct ArpCacheEntry {
    /// The IP address.
    pub ip_address: Ipv4Addr,
    /// The hardware type.
    pub hardware_type: ArpHardwareType,
    /// Internal flags for this cache entry.
    pub flags: ArpCacheEntryFlags,
    /// The hardware address for this entry.
    pub hardware_address: MacAddr6Boxed,
}

/// A cell of an ARP cache line.
#[derive(Clone, Copy, Debug, PartialEq, Eq, Structural)]
pub enum ArpCell {
    IpAddress,
    HwType,
    Flags,
    HwAddress,
}

impl ArpCell {
    /// The human readable name of the cell.
    pub fn name(&self) -> (r: &'static str)
        ensures
            *self == ArpCell::IpAddress ==> r@ == "IP address"@,
            *self == ArpCell::HwType ==> r@ == "HW type"@,
            *self == ArpCell::Flags ==> r@ == "Flags"@,
            *self == ArpCell::HwAddress ==> r@ == "HW address"@,
    {
        match self {
            ArpCell::IpAddress => "IP address",
            ArpCell::HwType => "HW type",
            ArpCell::Flags => "Flags",
            ArpCell::HwAddress => "HW address",
        }
    }
}

/// Why a line is not an ARP cache entry.
#[derive(Clone, Copy, Debug, PartialEq, Eq, Structural)]
pub enum ArpCacheParseError {
    /// A cell is missing; holds the cell and its index.
    MissingCell(ArpCell, u8),
    InvalidIpAddress(AddrParseError),
    InvalidHardwareType(ParseIntError),
    InvalidFlags(ParseIntError),
    InvalidHardwareAddess(MacParseError),
}

/// The IPv4 address of four octets.
pub open spec fn ipv4_of(o: Seq<u8>) -> Ipv4Addr {
    Ipv4Addr { a: o[0], b: o[1], c: o[2], d: o[3] }
}

/// The hardware address of six bytes.
pub open spec fn mac_of(m: Seq<u8>) -> MacAddr6Boxed {
    MacAddr6Boxed { b0: m[0], b1: m[1], b2: m[2], b3: m[3], b4: m[4], b5: m[5] }
}

/// The entry, or the error, for one line of the ARP cache: the whitespace
/// separated cells are the IP address, the hardware type and the flags (each
/// hexadecimal after any leading `0x`), and the hardware address; cells after
/// these are ignored, and the first missing or malformed cell is reported.
pub open spec fn parse_arp_entry(s: Seq<char>) -> Result<ArpCacheEntry, ArpCacheParseError> {
    let w = ascii_words(s);
    if w.len() < 1 {
        Err(ArpCacheParseError::MissingCell(ArpCell::IpAddress, 0))
    } else {
        match parse_ipv4(w[0]) {
            None => Err(ArpCacheParseError::InvalidIpAddress(AddrParseError { kind: AddrKind::Ipv4 })),
            Some(ip) => if w.len() < 2 {
                Err(ArpCacheParseError::MissingCell(ArpCell::HwType, 1))
            } else {
                match parse_uint(trim_hex_prefix(w[1]), 16, 0xFFFF) {
                    Err(k) => Err(ArpCacheParseError::InvalidHardwareType(ParseIntError { kind: k })),
                    Ok(h) => if w.len() < 3 {
                        Err(ArpCacheParseError::MissingCell(ArpCell::Flags, 2))
                    } else {
                        match parse_uint(trim_hex_prefix(w[2]), 16, 0xFF) {
                            Err(k) => Err(
                                ArpCacheParseError::InvalidFlags(ParseIntError { kind: k }),
                            ),
                            Ok(f) => if w.len() < 4 {
                                Err(ArpCacheParseError::MissingCell(ArpCell::HwAddress, 3))
                            } else {
                                match spec_mac6_from_str(w[3]) {
                                    Err(e) => Err(ArpCacheParseError::InvalidHardwareAddess(e)),
                                    Ok(m) => Ok(
                                        ArpCacheEntry {
                                            ip_address: ipv4_of(ip),
                                            hardware_type: hardware_type_of(h),
                                            flags: ArpCacheEntryFlags {
                                                bits: (f as u8) & KNOWN_FLAG_BITS,
                                            },
                                            hardware_address: mac_of(m),
                                        },
                                    ),
                                }
                            },
                        }
                    },
                }
            },
        }
    }
}

impl ArpCacheEntry {
    /// Parse an ARP cache entry from one line of `/proc/net/arp`.
    pub fn from_str(s: &str) -> (r: Result<Self, ArpCacheParseError>)
        ensures
            r == parse_arp_entry(s@),
    {
        let cs = chars_of(s);
        Self::from_chars(cs.as_slice())
    }

    /// Parse an ARP cache entry from the characters of one line.
    pub fn from_chars(cs: &[char]) -> (r: Result<Self, ArpCacheParseError>)
        ensures
            r == parse_arp_entry(cs@),
    {
        let w = split_ascii_whitespace(cs);
        if w.len() < 1 {
            return Err(ArpCacheParseError::MissingCell(ArpCell::IpAddress, 0));
        }
        proof {
            assert(w@[0]@ == ascii_words(cs@)[0]);
        }
        let ip = match parse_ipv4_chars(w[0].as_slice()) {
            None => {
                return Err(
                    ArpCacheParseError::InvalidIpAddress(AddrParseError { kind: AddrKind::Ipv4 }),
                );
            },
            Some(o) => Ipv4Addr::new(o[0], o[1], o[2], o[3]),
        };
        if w.len() < 2 {
            return Err(ArpCacheParseError::MissingCell(ArpCell::HwType, 1));
        }
        proof {
            assert(w@[1]@ == ascii_words(cs@)[1]);
        }
        let hw_digits = trim_hex_prefix_chars(w[1].as_slice());
        let hardware_type = match ArpHardwareType::from_chars(hw_digits.as_slice()) {
            Err(e) => {
                return Err(ArpCacheParseError::InvalidHardwareType(e));
            },
            Ok(t) => t,
        };
        if w.len() < 3 {
            return Err(ArpCacheParseError::MissingCell(ArpCell::Flags, 2));
        }
        proof {
            assert(w@[2]@ == ascii_words(cs@)[2]);
        }
        let flag_digits = trim_hex_prefix_chars(w[2].as_slice());
        let flags = match ArpCacheEntryFlags::from_chars(flag_digits.as_slice()) {
            Err(e) => {
                return Err(ArpCacheParseError::InvalidFlags(e));
            },
            Ok(f) => f,
        };
        if w.len() < 4 {
            return Err(ArpCacheParseError::MissingCell(ArpCell::HwAddress, 3));
        }
        proof {
            assert(w@[3]@ == ascii_words(cs@)[3]);
        }
        let cell = string_of(w[3].as_slice());
        let hardware_address = match MacAddr6Boxed::from_str(cell.as_str()) {
            Err(e) => {
                return Err(ArpCacheParseError::InvalidHardwareAddess(e));
            },
            Ok(m) => m,
        };
        proof {
            assert(hardware_address == mac_of(hardware_address@));
        }
        Ok(ArpCacheEntry { ip_address: ip, hardware_type, flags, hardware_address })
    }

    /// Whether this entry is complete (has the `ATF_COM` flag) and describes an
    /// Ethernet device.
    pub fn is_complete_ethernet_entry(&self) -> (r: bool)
        ensures
            r == (self.hardware_type == ArpHardwareType::Known(ArpKnownHardwareType::Ether)
                && self.flags.bits & ArpCacheEntryFlags::ATF_COM == ArpCacheEntryFlags::ATF_COM),
    {
        let ether = match self.hardware_type {
            ArpHardwareType::Known(ArpKnownHardwareType::Ether) => true,
            ArpHardwareType::Unknown(_) => false,
        };
        ether && self.flags.contains(ArpCacheEntryFlags::ATF_COM)
    }
}

/// Parse the contents of the ARP cache: every line after the heading line is
/// parsed as an entry.
pub fn read_arp_cache(contents: &str) -> (r: Vec<Result<ArpCacheEntry, ArpCacheParseError>>)
    ensures
        r@.len() == if text_lines(contents@).len() == 0 {
            0
        } else {
            text_lines(contents@).len() - 1
        },
        forall|k: int|
            0 <= k < r@.len() ==> #[trigger] r@[k] == parse_arp_entry(text_lines(contents@)[k + 1]),
{
    let cs = chars_of(contents);
    let lines = split_lines(cs.as_slice());
    let mut r: Vec<Result<ArpCacheEntry, ArpCacheParseError>> = Vec::new();
    if lines.len() == 0 {
        return r;
    }
    let mut i: usize = 1;
    while i < lines.len()
        invariant
            1 <= i <= lines@.len(),
            lines@.len() == text_lines(contents@).len(),
            forall|k: int| 0 <= k < lines@.len() ==> #[trigger] lines@[k]@ == text_lines(contents@)[k],
            r@.len() == i - 1,
            forall|k: int|
                0 <= k < r@.len() ==> #[trigger] r@[k] == parse_arp_entry(
                    text_lines(contents@)[k + 1],
                ),
        decreases lines.len() - i,
    {
        let entry = ArpCacheEntry::from_chars(lines[i].as_slice());
        r.push(entry);
        i = i + 1;
    }
    r
}

/// The path of the Linux ARP cache.
pub fn default_arp_cache_path() -> (r: &'static str)
    ensures
        r@ == "/proc/net/arp"@,
{
    "/proc/net/arp"
}

impl MacParseError {
    /// Append the message the `macaddr` crate displays for this error.
    pub fn push_message(&self, out: &mut String)
        ensures
            final(out)@ == old(out)@ + mac_parse_error_message(*self),
    {
        match self {
            MacParseError::InvalidLength(n) => {
                push_str(out, "Invalid length of ");
                push_decimal(out, *n as u64);
                push_str(out, " characters");
            },
            MacParseError::InvalidCharacter(c, n) => {
                push_str(out, "Unexpected character '");
                push_char(out, *c);
                push_str(out, "' at position ");
                push_decimal(out, *n as u64);
            },
        }
        assert(out@ =~= old(out)@ + mac_parse_error_message(*self));
    }
}

/// The message of a hardware address parse error.
pub open spec fn mac_parse_error_message(e: MacParseError) -> Seq<char> {
    match e {
        MacParseError::InvalidLength(n) => "Invalid length of "@ + crate::text::dec_string(
            n as nat,
        ) + " characters"@,
        MacParseError::InvalidCharacter(c, n) => "Unexpected character '"@ + seq![c]
            + "' at position "@ + crate::text::dec_string(n as nat),
    }
}

impl ArpCacheParseError {
    /// The message describing this error, as its `Display` writes it.
    pub fn to_string(&self) -> (r: String)
        ensures
            r@ == arp_error_message(*self),
    {
        let mut out = String::new();
        match self {
            ArpCacheParseError::MissingCell(cell, index) => {
                push_str(&mut out, "Missing cell ");
                push_str(&mut out, cell.name());
                push_str(&mut out, " at index ");
                push_decimal(&mut out, *index as u64);
            },
            ArpCacheParseError::InvalidIpAddress(e) => {
                push_str(&mut out, "Failed to parse IP address: ");
                push_str(&mut out, e.message());
            },
            ArpCacheParseError::InvalidHardwareType(e) => {
                push_str(&mut out, "Invalid hardware type: ");
                push_str(&mut out, e.message());
            },
            ArpCacheParseError::InvalidFlags(e) => {
                push_str(&mut out, "Invalid flags: ");
                push_str(&mut out, e.message());
            },
            ArpCacheParseError::InvalidHardwareAddess(e) => {
                push_str(&mut out, "Failed to parse hardware address: ");
                e.push_message(&mut out);
            },
        }
        assert(out@ =~= arp_error_message(*self));
        out
    }
}

/// The name of a cell.
pub open spec fn cell_name(c: ArpCell) -> Seq<char> {
    match c {
        ArpCell::IpAddress => "IP address"@,
        ArpCell::HwType => "HW type"@,
        ArpCell::Flags => "Flags"@,
        ArpCell::HwAddress => "HW address"@,
    }
}

/// The message of an integer parse error.
pub open spec fn int_error_message(k: IntErrorKind) -> Seq<char> {
    match k {
        IntErrorKind::Empty => "cannot parse integer from empty string"@,
        IntErrorKind::InvalidDigit => "invalid digit found in string"@,
        IntErrorKind::PosOverflow => "number too large to fit in target type"@,
    }
}

/// The message of an address parse error.
pub open spec fn addr_error_message(k: AddrKind) -> Seq<char> {
    match k {
        AddrKind::Ip => "invalid IP address syntax"@,
        AddrKind::Ipv4 => "invalid IPv4 address syntax"@,
        AddrKind::SocketV4 => "invalid IPv4 socket address syntax"@,
    }
}

/// The message of an ARP cache parse error.
pub open spec fn arp_error_message(e: ArpCacheParseError) -> Seq<char> {
    match e {
        ArpCacheParseError::MissingCell(cell, index) => "Missing cell "@ + cell_name(cell)
            + " at index "@ + crate::text::dec_string(index as nat),
        ArpCacheParseError::InvalidIpAddress(a) => "Failed to parse IP address: "@
            + addr_error_message(a.kind),
        ArpCacheParseError::InvalidHardwareType(p) => "Invalid hardware type: "@
            + int_error_message(p.kind),
        ArpCacheParseError::InvalidFlags(p) => "Invalid flags: "@ + int_error_message(p.kind),
        ArpCacheParseError::InvalidHardwareAddess(m) => "Failed to parse hardware address: "@
            + mac_parse_error_message(m),
    }
}

} // verus!
