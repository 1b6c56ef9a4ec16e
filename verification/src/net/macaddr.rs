//! EUI-48 hardware (MAC) addresses.
//!
//! Parsing and display go through the `macaddr` crate; this module holds the
//! address as six plain bytes so that the rest of the crate can reason about it.
use std::str::FromStr;

use vstd::prelude::*;

use crate::text::{digit_value, hex_byte_string, hex_upper_char};

verus! {

/// Why a string is not a MAC address.
///
/// Mirrors the two kinds of parse errors of the `macaddr` crate.
#[derive(Clone, Copy, Debug, PartialEq, Eq, Structural)]
pub enum MacParseError {
    /// The string is too short or too long; holds the position or length reported.
    InvalidLength(usize),
    /// An unexpected character at the given position.
    InvalidCharacter(char, usize),
}

/// The error `macaddr::MacAddr6::from_str` reports for a string `s` it refuses.
pub uninterp spec fn spec_mac6_parse_error(s: Seq<char>) -> MacParseError;

/// Whether `c` separates the byte pairs of a hardware address.
pub open spec fn is_mac_delimiter(c: char) -> bool {
    c == '-' || c == ':' || c == '.'
}

/// The bytes of `k` pairs of hexadecimal digits (either case) that make up
/// `s`, each pair optionally preceded by a delimiter, all delimiters alike;
/// `delim` is the delimiter seen so far.  `None` where `s` is not of that form.
pub open spec fn mac_pairs(s: Seq<char>, k: nat, delim: Option<char>) -> Option<Seq<u8>>
    decreases k,
{
    if k == 0 {
        if s.len() == 0 {
            Some(Seq::empty())
        } else {
            None
        }
    } else if s.len() > 0 && is_mac_delimiter(s[0]) && delim is Some && delim != Some(s[0]) {
        None
    } else {
        let t = if s.len() > 0 && is_mac_delimiter(s[0]) {
            s.drop_first()
        } else {
            s
        };
        let d = if s.len() > 0 && is_mac_delimiter(s[0]) {
            Some(s[0])
        } else {
            delim
        };
        if t.len() >= 2 && digit_value(t[0], 16) is Some && digit_value(t[1], 16) is Some {
            match mac_pairs(t.skip(2), (k - 1) as nat, d) {
                Some(rest) => Some(
                    seq![(digit_value(t[0], 16)->0 * 16 + digit_value(t[1], 16)->0) as u8] + rest,
                ),
                None => None,
            }
        } else {
            None
        }
    }
}

/// The six bytes of a hardware address written as `s`, by the grammar of
/// `macaddr::MacAddr6::from_str`: six pairs of hexadecimal digits, each
/// optionally preceded by one of `-`, `:` and `.`, the same throughout.
pub open spec fn mac6_grammar(s: Seq<char>) -> Option<Seq<u8>> {
    mac_pairs(s, 6, None)
}

/// What `macaddr::MacAddr6::from_str` returns for the string `s`: the six bytes
/// of the address, or the reported error.
pub open spec fn spec_mac6_from_str(s: Seq<char>) -> Result<Seq<u8>, MacParseError> {
    match mac6_grammar(s) {
        Some(b) => Ok(b),
        None => Err(spec_mac6_parse_error(s)),
    }
}

/// Whether `macaddr::MacAddr::from_str` accepts the string `s` as an EUI-48 or an
/// EUI-64 address: six or eight pairs of the grammar of `mac_pairs`.
pub open spec fn spec_mac_any_accepts(s: Seq<char>) -> bool {
    mac_pairs(s, 6, None) is Some || mac_pairs(s, 8, None) is Some
}

/// The canonical display of a six byte address: upper-case hexadecimal byte
/// pairs separated by colons, as in `2E:E3:50:A3:E2:F7`.
pub open spec fn mac_display(b: Seq<u8>) -> Seq<char> {
    hex_byte_string(b[0]) + seq![':'] + hex_byte_string(b[1]) + seq![':'] + hex_byte_string(b[2])
        + seq![':'] + hex_byte_string(b[3]) + seq![':'] + hex_byte_string(b[4]) + seq![':']
        + hex_byte_string(b[5])
}

/// The bytes of a parse result, as a sequence.
pub open spec fn mac_result_view(r: Result<[u8; 6], MacParseError>) -> Result<Seq<u8>, MacParseError> {
    match r {
        Ok(b) => Ok(b@),
        Err(e) => Err(e),
    }
}

/// Whether `s` is the canonical display of some six byte address.
pub open spec fn is_mac_display(s: Seq<char>) -> bool {
    exists|b: Seq<u8>| b.len() == 6 && s == #[trigger] mac_display(b)
}

/// Parse `s` with `macaddr::MacAddr6::from_str`.
///
/// The parser reads six pairs of hexadecimal digits, each optionally preceded
/// by one consistent separator out of `-`, `:` and `.`, and then requires the
/// end of input (`mac6_grammar`); the address is then the bytes of the pairs.
/// It accepts in particular the canonical display `mac_display(b)` of every
/// address `b`.  Which error it reports for a refused string (kind and
/// position) is named by `spec_mac6_parse_error`, not stated.
#[verifier::external_body]
fn mac6_from_str(s: &str) -> (r: Result<[u8; 6], MacParseError>)
    ensures
        mac6_grammar(s@) is Some ==> r is Ok && r->Ok_0@ == mac6_grammar(s@)->0,
        mac6_grammar(s@) is None ==> r is Err && r->Err_0 == spec_mac6_parse_error(s@),
        is_mac_display(s@) ==> r is Ok && mac_display(r->Ok_0@) == s@,
{
    match macaddr::MacAddr6::from_str(s) {
        Ok(addr) => Ok(addr.into_array()),
        Err(macaddr::ParseError::InvalidLength(n)) => Err(MacParseError::InvalidLength(n)),
        Err(macaddr::ParseError::InvalidCharacter(c, n)) => Err(MacParseError::InvalidCharacter(c, n)),
    }
}

/// Whether `macaddr::MacAddr::from_str` parses `s`, as an EUI-48 or EUI-64
/// address: it reads six pairs, and where that fails for the length only, it
/// reads eight pairs of the same grammar from the start.  A string of eight
/// pairs fails the first reading for its length, so it accepts exactly the
/// strings of six or of eight pairs (`spec_mac_any_accepts`).
#[verifier::external_body]
pub(crate) fn mac_any_accepts(s: &str) -> (r: bool)
    ensures
        r == spec_mac_any_accepts(s@),
{
    macaddr::MacAddr::from_str(s).is_ok()
}

/// Render six bytes with the `Display` implementation of `macaddr::MacAddr6`,
/// which writes upper-case hex pairs joined by colons (`mac_display`).
#[verifier::external_body]
fn mac6_to_string(b: [u8; 6]) -> (r: String)
    ensures
        r@ == mac_display(b@),
{
    macaddr::MacAddr6::from(b).to_string()
}

proof fn lemma_hex_char_injective(x: nat, y: nat)
    requires
        x < 16,
        y < 16,
        hex_upper_char(x) == hex_upper_char(y),
    ensures
        x == y,
{
}

proof fn lemma_hex_byte_injective(a: u8, b: u8)
    requires
        hex_byte_string(a) == hex_byte_string(b),
    ensures
        a == b,
{
    assert(hex_byte_string(a)[0] == hex_byte_string(b)[0]);
    assert(hex_byte_string(a)[1] == hex_byte_string(b)[1]);
    lemma_hex_char_injective((a / 16) as nat, (b / 16) as nat);
    lemma_hex_char_injective((a % 16) as nat, (b % 16) as nat);
}

/// Two addresses with the same display are the same address.
pub proof fn lemma_mac_display_injective(a: Seq<u8>, b: Seq<u8>)
    requires
        a.len() == 6,
        b.len() == 6,
        mac_display(a) == mac_display(b),
    ensures
        a == b,
{
    let da = mac_display(a);
    let db = mac_display(b);
    assert forall|i: int| 0 <= i < 6 implies a[i] == b[i] by {
        assert(da[3 * i] == db[3 * i]);
        assert(da[3 * i + 1] == db[3 * i + 1]);
        assert(hex_byte_string(a[i]) =~= da.subrange(3 * i, 3 * i + 2));
        assert(hex_byte_string(b[i]) =~= db.subrange(3 * i, 3 * i + 2));
        lemma_hex_byte_injective(a[i], b[i]);
    }
    assert(a =~= b);
}

/// A six byte hardware address.
#[derive(Clone, Copy, Debug, PartialEq, Eq, Structural, PartialOrd, Ord, Hash)]
pub struct MacAddr6Boxed {
    pub b0: u8,
    pub b1: u8,
    pub b2: u8,
    pub b3: u8,
    pub b4: u8,
    pub b5: u8,
}

impl View for MacAddr6Boxed {
    type V = Seq<u8>;

    open spec fn view(&self) -> Seq<u8> {
        seq![self.b0, self.b1, self.b2, self.b3, self.b4, self.b5]
    }
}

impl MacAddr6Boxed {
    /// The address with the six given bytes.
    pub fn new(a: u8, b: u8, c: u8, d: u8, e: u8, f: u8) -> (r: Self)
        ensures
            r@ == seq![a, b, c, d, e, f],
    {
        MacAddr6Boxed { b0: a, b1: b, b2: c, b3: d, b4: e, b5: f }
    }

    /// The address made of `bytes`.
    pub fn from_bytes(bytes: [u8; 6]) -> (r: Self)
        ensures
            r@ == bytes@,
    {
        let r = MacAddr6Boxed {
            b0: bytes[0],
            b1: bytes[1],
            b2: bytes[2],
            b3: bytes[3],
            b4: bytes[4],
            b5: bytes[5],
        };
        assert(r@ =~= bytes@);
        r
    }

    /// The all-zero address.
    pub fn nil() -> (r: Self)
        ensures
            r@ == seq![0u8, 0u8, 0u8, 0u8, 0u8, 0u8],
    {
        Self::new(0, 0, 0, 0, 0, 0)
    }

    /// The six bytes of the address.
    pub fn bytes(&self) -> (r: [u8; 6])
        ensures
            r@ == self@,
    {
        let r = [self.b0, self.b1, self.b2, self.b3, self.b4, self.b5];
        assert(r@ =~= self@);
        r
    }

    /// Parse a MAC address with `macaddr`'s parser.
    pub fn from_str(s: &str) -> (r: Result<Self, MacParseError>)
        ensures
            r matches Ok(m) ==> spec_mac6_from_str(s@) == Ok::<Seq<u8>, MacParseError>(m@),
            r matches Err(e) ==> spec_mac6_from_str(s@) == Err::<Seq<u8>, MacParseError>(e),
            forall|b: Seq<u8>|
                b.len() == 6 && s@ == #[trigger] mac_display(b) ==> (r matches Ok(m) && m@ == b),
    {
        proof {
            assert forall|b: Seq<u8>| b.len() == 6 && s@ == #[trigger] mac_display(b) implies
                is_mac_display(s@) by {}
        }
        let r = mac6_from_str(s);
        proof {
            assert forall|b: Seq<u8>| b.len() == 6 && s@ == #[trigger] mac_display(b) implies
                (r matches Ok(m) && m@ == b) by {
                if let Ok(m) = r {
                    lemma_mac_display_injective(m@, b);
                }
            }
        }
        match r {
            Ok(bytes) => Ok(MacAddr6Boxed::from_bytes(bytes)),
            Err(e) => Err(e),
        }
    }

    /// The canonical display of the address, e.g. `2E:E3:50:A3:E2:F7`.
    pub fn to_string(&self) -> (r: String)
        ensures
            r@ == mac_display(self@),
    {
        mac6_to_string(self.bytes())
    }
}

impl Default for MacAddr6Boxed {
    /// The nil address.
    fn default() -> (r: Self)
        ensures
            r@ == seq![0u8, 0u8, 0u8, 0u8, 0u8, 0u8],
    {
        Self::nil()
    }
}

} // verus!
