//! The dot-decimal grammar of IPv4 addresses and IPv4 socket addresses.
//!
//! An IPv4 address is four decimal octets separated by `.`; each octet has one
//! to three ASCII digits, no leading zero unless it is `0` itself, and a value of
//! at most 255.  A socket address appends `:` and a decimal port (any number of
//! digits, leading zeros allowed, value at most 65535).  Nothing else may follow.
use vstd::prelude::*;

use crate::text::{dec_char, dec_string, digit_value, is_dec_digit};

verus! {

/// The number of ASCII digits at the start of `s`.
pub open spec fn digit_run(s: Seq<char>) -> nat
    decreases s.len(),
{
    if s.len() > 0 && is_dec_digit(s[0]) {
        1 + digit_run(s.drop_first())
    } else {
        0
    }
}

/// The value of a string of decimal digits.
pub open spec fn dec_value(s: Seq<char>) -> nat
    decreases s.len(),
{
    if s.len() == 0 {
        0
    } else {
        dec_value(s.drop_last()) * 10 + (((s.last() as nat) - ('0' as nat)) as nat)
    }
}

/// Whether the digit string `d` is a valid octet.
pub open spec fn octet_ok(d: Seq<char>) -> bool {
    &&& 1 <= d.len() <= 3
    &&& !(d.len() > 1 && d[0] == '0')
    &&& dec_value(d) <= 255
}

/// Read `k` dot-separated octets from the start of `s`; on success give the
/// octets and what follows them.
pub open spec fn read_octets(s: Seq<char>, k: nat) -> Option<(Seq<u8>, Seq<char>)>
    decreases k,
{
    if k == 0 {
        None
    } else {
        let n = digit_run(s);
        let d = s.take(n as int);
        let rest = s.skip(n as int);
        if !octet_ok(d) {
            None
        } else if k == 1 {
            Some((seq![dec_value(d) as u8], rest))
        } else if rest.len() > 0 && rest[0] == '.' {
            match read_octets(rest.drop_first(), (k - 1) as nat) {
                Some((t, r)) => Some((seq![dec_value(d) as u8] + t, r)),
                None => None,
            }
        } else {
            None
        }
    }
}

/// The octets of the IPv4 address `s`, if `s` is one.
pub open spec fn parse_ipv4(s: Seq<char>) -> Option<Seq<u8>> {
    match read_octets(s, 4) {
        Some((o, rest)) => if rest.len() == 0 {
            Some(o)
        } else {
            None
        },
        None => None,
    }
}

/// Whether `p` is a decimal port: at least one digit, only digits, at most 65535.
pub open spec fn port_ok(p: Seq<char>) -> bool {
    &&& p.len() >= 1
    &&& digit_run(p) == p.len()
    &&& dec_value(p) <= 65535
}

/// The address and port of the IPv4 socket address `s`, if `s` is one.
pub open spec fn parse_socket_v4(s: Seq<char>) -> Option<(Seq<u8>, u16)> {
    match read_octets(s, 4) {
        Some((o, rest)) => if rest.len() > 0 && rest[0] == ':' && port_ok(rest.drop_first()) {
            Some((o, dec_value(rest.drop_first()) as u16))
        } else {
            None
        },
        None => None,
    }
}

proof fn lemma_digit_run(s: Seq<char>, i: int, j: int)
    requires
        0 <= i <= j <= s.len(),
        forall|k: int| i <= k < j ==> is_dec_digit(#[trigger] s[k]),
        j == s.len() || !is_dec_digit(s[j]),
    ensures
        digit_run(s.skip(i)) == j - i,
    decreases j - i,
{
    if i < j {
        assert(s.skip(i).drop_first() =~= s.skip(i + 1));
        lemma_digit_run(s, i + 1, j);
    }
}

proof fn lemma_dec_value_step(s: Seq<char>, i: int, j: int)
    requires
        0 <= i <= j < s.len(),
    ensures
        dec_value(s.subrange(i, j + 1)) == dec_value(s.subrange(i, j)) * 10 + (((s[j] as nat) - (
        '0' as nat)) as nat),
{
    assert(s.subrange(i, j + 1).drop_last() =~= s.subrange(i, j));
}

/// Read a run of decimal digits of `cs` from position `i`: give the end of the
/// run and its value, where the value saturates at `cap + 1` once it exceeds `cap`.
fn read_digits(cs: &[char], i: usize, cap: u64) -> (r: (usize, u64))
    requires
        i <= cs@.len(),
        cap < 1_000_000,
    ensures
        i <= r.0 <= cs@.len(),
        r.0 - i == digit_run(cs@.skip(i as int)),
        dec_value(cs@.subrange(i as int, r.0 as int)) <= cap ==> r.1 == dec_value(
            cs@.subrange(i as int, r.0 as int),
        ),
        dec_value(cs@.subrange(i as int, r.0 as int)) > cap ==> r.1 == cap + 1,
{
    let mut j = i;
    let mut v: u64 = 0;
    while j < cs.len() && '0' <= cs[j] && cs[j] <= '9'
        invariant
            i <= j <= cs@.len(),
            cap < 1_000_000,
            forall|k: int| i <= k < j ==> is_dec_digit(#[trigger] cs@[k]),
            dec_value(cs@.subrange(i as int, j as int)) <= cap ==> v == dec_value(
                cs@.subrange(i as int, j as int),
            ),
            dec_value(cs@.subrange(i as int, j as int)) > cap ==> v == cap + 1,
        decreases cs.len() - j,
    {
        let d = (cs[j] as u32 - '0' as u32) as u64;
        proof {
            lemma_dec_value_step(cs@, i as int, j as int);
        }
        if v > cap {
            v = cap + 1;
        } else {
            let w = v * 10 + d;
            if w > cap {
                v = cap + 1;
            } else {
                v = w;
            }
        }
        j = j + 1;
    }
    proof {
        lemma_digit_run(cs@, i as int, j as int);
    }
    (j, v)
}

/// Read `k` dot-separated octets from position `i` of `cs`; give the octets and
/// the position after them.
fn read_octets_at(cs: &[char], i: usize, k: usize) -> (r: Option<(Vec<u8>, usize)>)
    requires
        i <= cs@.len(),
        1 <= k <= 4,
    ensures
        match read_octets(cs@.skip(i as int), k as nat) {
            Some((o, rest)) => r matches Some((v, j)) && v@ == o && j <= cs@.len() && rest
                == cs@.skip(j as int),
            None => r is None,
        },
    decreases k,
{
    let ghost s = cs@.skip(i as int);
    let (j, v) = read_digits(cs, i, 255);
    let n = j - i;
    proof {
        assert(s.take(n as int) =~= cs@.subrange(i as int, j as int));
        assert(s.skip(n as int) =~= cs@.skip(j as int));
    }
    let ok = 1 <= n && n <= 3 && !(n > 1 && cs[i] == '0') && v <= 255;
    if !ok {
        return None;
    }
    let octet = v as u8;
    if k == 1 {
        let mut out = Vec::new();
        out.push(octet);
        return Some((out, j));
    }
    if j < cs.len() && cs[j] == '.' {
        proof {
            assert(cs@.skip(j as int).drop_first() =~= cs@.skip(j + 1));
        }
        match read_octets_at(cs, j + 1, k - 1) {
            Some((rest, e)) => {
                let mut out = Vec::new();
                out.push(octet);
                let mut m: usize = 0;
                while m < rest.len()
                    invariant
                        m <= rest@.len(),
                        out@ == seq![octet] + rest@.subrange(0, m as int),
                    decreases rest.len() - m,
                {
                    out.push(rest[m]);
                    m = m + 1;
                    assert(out@ =~= seq![octet] + rest@.subrange(0, m as int));
                }
                assert(rest@.subrange(0, rest@.len() as int) =~= rest@);
                Some((out, e))
            },
            None => None,
        }
    } else {
        None
    }
}

/// Parse an IPv4 address from `cs`.
pub fn parse_ipv4_chars(cs: &[char]) -> (r: Option<[u8; 4]>)
    ensures
        match parse_ipv4(cs@) {
            Some(o) => r matches Some(a) && a@ == o,
            None => r is None,
        },
{
    proof {
        assert(cs@.skip(0) =~= cs@);
    }
    match read_octets_at(cs, 0, 4) {
        Some((o, j)) => {
            proof {
                lemma_read_octets_len(cs@, 4);
            }
            if j == cs.len() {
                let a = [o[0], o[1], o[2], o[3]];
                assert(a@ =~= o@);
                Some(a)
            } else {
                None
            }
        },
        None => None,
    }
}

/// Read a port from position `i` to the end of `cs`.
fn read_port(cs: &[char], i: usize) -> (r: Option<u16>)
    requires
        i <= cs@.len(),
    ensures
        port_ok(cs@.skip(i as int)) ==> r == Some(dec_value(cs@.skip(i as int)) as u16),
        !port_ok(cs@.skip(i as int)) ==> r is None,
{
    let (e, v) = read_digits(cs, i, 65535);
    proof {
        let p = cs@.skip(i as int);
        if e == cs.len() {
            assert(p =~= cs@.subrange(i as int, e as int));
        }
    }
    if e == cs.len() && e > i && v <= 65535 {
        Some(v as u16)
    } else {
        None
    }
}

/// Parse an IPv4 socket address from `cs`.
pub fn parse_socket_v4_chars(cs: &[char]) -> (r: Option<([u8; 4], u16)>)
    ensures
        match parse_socket_v4(cs@) {
            Some((o, p)) => r matches Some((a, q)) && a@ == o && q == p,
            None => r is None,
        },
{
    proof {
        assert(cs@.skip(0) =~= cs@);
    }
    match read_octets_at(cs, 0, 4) {
        Some((o, j)) => {
            proof {
                lemma_read_octets_len(cs@, 4);
            }
            if j < cs.len() && cs[j] == ':' {
                proof {
                    assert(cs@.skip(j as int).drop_first() =~= cs@.skip(j + 1));
                }
                match read_port(cs, j + 1) {
                    Some(port) => {
                        let a = [o[0], o[1], o[2], o[3]];
                        assert(a@ =~= o@);
                        Some((a, port))
                    },
                    None => None,
                }
            } else {
                None
            }
        },
        None => None,
    }
}

proof fn lemma_read_octets_len(s: Seq<char>, k: nat)
    ensures
        read_octets(s, k) matches Some((o, _)) ==> o.len() == k,
    decreases k,
{
    if k > 1 {
        let n = digit_run(s);
        let rest = s.skip(n as int);
        if rest.len() > 0 && rest[0] == '.' {
            lemma_read_octets_len(rest.drop_first(), (k - 1) as nat);
        }
    }
}

/// The dot-separated decimal rendering of the octets `o`.
pub open spec fn dotted(o: Seq<u8>) -> Seq<char>
    decreases o.len(),
{
    if o.len() <= 1 {
        dec_string(o[0] as nat)
    } else {
        dec_string(o[0] as nat) + seq!['.'] + dotted(o.drop_first())
    }
}

proof fn lemma_dec_string_facts(n: nat)
    ensures
        forall|i: int| 0 <= i < dec_string(n).len() ==> is_dec_digit(#[trigger] dec_string(n)[i]),
        dec_string(n).len() >= 1,
        dec_value(dec_string(n)) == n,
        n < 10 ==> dec_string(n).len() == 1,
        10 <= n < 100 ==> dec_string(n).len() == 2,
        100 <= n < 1000 ==> dec_string(n).len() == 3,
        n >= 10 ==> dec_string(n)[0] != '0',
        n < 10 ==> (dec_string(n)[0] == '0' <==> n == 0),
    decreases n,
{
    assert((dec_char(n % 10) as nat) == ('0' as nat) + n % 10);
    if n < 10 {
        assert(dec_string(n).drop_last() =~= Seq::<char>::empty());
        assert(n % 10 == n);
        assert(dec_string(n).last() == dec_char(n));
        assert(dec_value(Seq::<char>::empty()) == 0);
        assert(dec_value(dec_string(n)) == dec_value(dec_string(n).drop_last()) * 10 + (((
        dec_string(n).last() as nat) - ('0' as nat)) as nat));
    }
    if n >= 10 {
        lemma_dec_string_facts(n / 10);
        let t = dec_string(n / 10);
        assert(dec_string(n).drop_last() =~= t);
        assert(dec_string(n)[0] == t[0]);
        assert(is_dec_digit(dec_char(n % 10)));
        assert((n / 10) * 10 + n % 10 == n) by (nonlinear_arith);
        assert(dec_string(n).last() == dec_char(n % 10));
        assert(dec_value(dec_string(n)) == dec_value(t) * 10 + (n % 10));
        assert forall|i: int| 0 <= i < dec_string(n).len() implies is_dec_digit(
            #[trigger] dec_string(n)[i],
        ) by {
            if i < t.len() {
                assert(dec_string(n)[i] == t[i]);
            }
        }
    }
}

proof fn lemma_digit_run_concat(d: Seq<char>, t: Seq<char>)
    requires
        forall|i: int| 0 <= i < d.len() ==> is_dec_digit(#[trigger] d[i]),
        t.len() == 0 || !is_dec_digit(t[0]),
    ensures
        digit_run(d + t) == d.len(),
    decreases d.len(),
{
    if d.len() == 0 {
        assert(d + t =~= t);
    } else {
        assert((d + t).drop_first() =~= d.drop_first() + t);
        assert((d + t)[0] == d[0]);
        lemma_digit_run_concat(d.drop_first(), t);
    }
}

proof fn lemma_read_dotted(o: Seq<u8>, rest: Seq<char>)
    requires
        1 <= o.len() <= 4,
        rest.len() == 0 || !is_dec_digit(rest[0]),
    ensures
        read_octets(dotted(o) + rest, o.len()) == Some((o, rest)),
    decreases o.len(),
{
    let d = dec_string(o[0] as nat);
    lemma_dec_string_facts(o[0] as nat);
    let x = if o.len() == 1 {
        rest
    } else {
        seq!['.'] + dotted(o.drop_first()) + rest
    };
    assert(dotted(o) + rest =~= d + x);
    assert(x.len() == 0 || !is_dec_digit(x[0]));
    lemma_digit_run_concat(d, x);
    assert((d + x).take(d.len() as int) =~= d);
    assert((d + x).skip(d.len() as int) =~= x);
    assert(octet_ok(d));
    if o.len() > 1 {
        assert(x.drop_first() =~= dotted(o.drop_first()) + rest);
        lemma_read_dotted(o.drop_first(), rest);
        assert(seq![o[0]] + o.drop_first() =~= o);
    } else {
        assert(seq![o[0]] =~= o);
    }
}

proof fn lemma_dotted4(o: Seq<u8>)
    requires
        o.len() == 4,
    ensures
        dotted(o) == crate::net::ip::ipv4_display(o),
{
    let o1 = o.drop_first();
    let o2 = o1.drop_first();
    let o3 = o2.drop_first();
    assert(o1[0] == o[1] && o2[0] == o[2] && o3[0] == o[3]);
    assert(dotted(o3) == dec_string(o[3] as nat));
    assert(dotted(o2) == dec_string(o[2] as nat) + seq!['.'] + dotted(o3));
    assert(dotted(o1) == dec_string(o[1] as nat) + seq!['.'] + dotted(o2));
    assert(dotted(o) =~= crate::net::ip::ipv4_display(o));
}

/// The dot-decimal display of an IPv4 address parses back to the address.
pub proof fn lemma_parse_ipv4_display(o: Seq<u8>)
    requires
        o.len() == 4,
    ensures
        parse_ipv4(crate::net::ip::ipv4_display(o)) == Some(o),
{
    let e = Seq::<char>::empty();
    assert(crate::net::ip::ipv4_display(o) =~= dotted(o) + e) by {
        lemma_dotted4(o);
    }
    lemma_read_dotted(o, e);
}

/// The display of an IPv4 socket address parses back to the address and port.
pub proof fn lemma_parse_socket_v4_display(o: Seq<u8>, port: u16)
    requires
        o.len() == 4,
    ensures
        parse_socket_v4(crate::net::boxed::socket_v4_display(o, port)) == Some((o, port)),
{
    let p = dec_string(port as nat);
    let rest = seq![':'] + p;
    assert(crate::net::boxed::socket_v4_display(o, port) =~= dotted(o) + rest) by {
        lemma_dotted4(o);
    }
    lemma_read_dotted(o, rest);
    lemma_dec_string_facts(port as nat);
    assert(rest.drop_first() =~= p);
    lemma_digit_run_concat(p, Seq::<char>::empty());
    assert(p + Seq::<char>::empty() =~= p);
}

/// Why a string is not an unsigned integer; the kinds of `std::num::ParseIntError`
/// that unsigned parsing produces.
#[derive(Clone, Copy, Debug, PartialEq, Eq, Structural)]
pub enum IntErrorKind {
    /// The string was empty.
    Empty,
    /// A character is not a digit of the radix.
    InvalidDigit,
    /// The value does not fit the target type.
    PosOverflow,
}

/// An unsigned integer did not parse.
#[derive(Clone, Copy, Debug, PartialEq, Eq, Structural)]
pub struct ParseIntError {
    pub kind: IntErrorKind,
}

impl ParseIntError {
    /// The message `std::num::ParseIntError` displays for this kind.
    pub fn message(&self) -> (r: &'static str)
        ensures
            self.kind == IntErrorKind::Empty ==> r@ == "cannot parse integer from empty string"@,
            self.kind == IntErrorKind::InvalidDigit ==> r@ == "invalid digit found in string"@,
            self.kind == IntErrorKind::PosOverflow ==> r@
                == "number too large to fit in target type"@,
    {
        match self.kind {
            IntErrorKind::Empty => "cannot parse integer from empty string",
            IntErrorKind::InvalidDigit => "invalid digit found in string",
            IntErrorKind::PosOverflow => "number too large to fit in target type",
        }
    }
}

/// Accumulate the digits of `s` in base `radix` onto `acc`, from left to right,
/// failing at the first character that is no digit or makes the value exceed `max`.
pub open spec fn accumulate_digits(s: Seq<char>, radix: nat, max: nat, acc: nat) -> Result<
    nat,
    IntErrorKind,
>
    decreases s.len(),
{
    if s.len() == 0 {
        Ok(acc)
    } else {
        match digit_value(s[0], radix) {
            None => Err(IntErrorKind::InvalidDigit),
            Some(d) => if acc * radix + d > max {
                Err(IntErrorKind::PosOverflow)
            } else {
                accumulate_digits(s.drop_first(), radix, max, acc * radix + d)
            },
        }
    }
}

/// The value of `s` as an unsigned integer of at most `max` in base `radix`, as
/// `from_str_radix` of an unsigned type gives it: an optional leading `+`, then
/// at least one digit.
pub open spec fn parse_uint(s: Seq<char>, radix: nat, max: nat) -> Result<nat, IntErrorKind> {
    if s.len() == 0 {
        Err(IntErrorKind::Empty)
    } else if s.len() == 1 && (s[0] == '+' || s[0] == '-') {
        Err(IntErrorKind::InvalidDigit)
    } else if s[0] == '+' {
        accumulate_digits(s.drop_first(), radix, max, 0)
    } else {
        accumulate_digits(s, radix, max, 0)
    }
}

proof fn lemma_accumulate_bound(s: Seq<char>, radix: nat, max: nat, acc: nat)
    requires
        acc <= max,
    ensures
        accumulate_digits(s, radix, max, acc) matches Ok(v) ==> v <= max,
    decreases s.len(),
{
    if s.len() > 0 {
        match digit_value(s[0], radix) {
            None => {},
            Some(d) => if acc * radix + d <= max {
                lemma_accumulate_bound(s.drop_first(), radix, max, acc * radix + d);
            },
        }
    }
}

proof fn lemma_accumulate_concat(s: Seq<char>, t: Seq<char>, radix: nat, max: nat, acc: nat)
    ensures
        accumulate_digits(s + t, radix, max, acc) == match accumulate_digits(s, radix, max, acc) {
            Ok(v) => accumulate_digits(t, radix, max, v),
            Err(e) => Err(e),
        },
    decreases s.len(),
{
    if s.len() == 0 {
        assert(s + t =~= t);
    } else {
        assert((s + t)[0] == s[0]);
        assert((s + t).drop_first() =~= s.drop_first() + t);
        match digit_value(s[0], radix) {
            None => {},
            Some(d) => if acc * radix + d <= max {
                lemma_accumulate_concat(s.drop_first(), t, radix, max, acc * radix + d);
            },
        }
    }
}

proof fn lemma_accumulate_dec_string(n: nat, max: nat)
    requires
        n <= max,
    ensures
        accumulate_digits(dec_string(n), 10, max, 0) == Ok::<nat, IntErrorKind>(n),
    decreases n,
{
    let c = dec_char(n % 10);
    assert((c as nat) == ('0' as nat) + n % 10);
    assert(digit_value(c, 10) == Some(n % 10));
    assert(seq![c].drop_first() =~= Seq::<char>::empty());
    assert(accumulate_digits(Seq::<char>::empty(), 10, max, n) == Ok::<nat, IntErrorKind>(n));
    if n < 10 {
        assert(n % 10 == n);
        assert(dec_string(n) == seq![c]);
        assert(accumulate_digits(seq![c], 10, max, 0) == accumulate_digits(
            Seq::<char>::empty(),
            10,
            max,
            n,
        ));
    } else {
        lemma_accumulate_dec_string(n / 10, max);
        lemma_accumulate_concat(dec_string(n / 10), seq![c], 10, max, 0);
        assert(dec_string(n) =~= dec_string(n / 10) + seq![c]);
        assert((n / 10) * 10 + n % 10 == n) by (nonlinear_arith);
        assert(accumulate_digits(seq![c], 10, max, n / 10) == accumulate_digits(
            Seq::<char>::empty(),
            10,
            max,
            n,
        ));
    }
}

/// The decimal rendering of a number parses back to it, as long as it is within
/// the bound.
pub proof fn lemma_parse_uint_dec_string(n: nat, max: nat)
    requires
        n <= max,
    ensures
        parse_uint(dec_string(n), 10, max) == Ok::<nat, IntErrorKind>(n),
{
    lemma_dec_string_facts(n);
    lemma_accumulate_dec_string(n, max);
    assert(is_dec_digit(dec_string(n)[0]));
}

/// The value of the digit `c` in base `radix` (10 or 16), if it is one.
fn digit_of(c: char, radix: u64) -> (r: Option<u64>)
    requires
        radix == 10 || radix == 16,
    ensures
        match digit_value(c, radix as nat) {
            Some(d) => r == Some(d as u64),
            None => r is None,
        },
{
    if '0' <= c && c <= '9' {
        Some((c as u32 - '0' as u32) as u64)
    } else if radix == 16 && 'a' <= c && c <= 'f' {
        Some((c as u32 - 'a' as u32 + 10) as u64)
    } else if radix == 16 && 'A' <= c && c <= 'F' {
        Some((c as u32 - 'A' as u32 + 10) as u64)
    } else {
        None
    }
}

/// Parse an unsigned integer of at most `max` in base `radix` from `cs`.
pub fn parse_uint_chars(cs: &[char], radix: u64, max: u64) -> (r: Result<u64, IntErrorKind>)
    requires
        radix == 10 || radix == 16,
        max <= 0xFFFF_FFFF,
    ensures
        match parse_uint(cs@, radix as nat, max as nat) {
            Ok(v) => r == Ok::<u64, IntErrorKind>(v as u64),
            Err(e) => r == Err::<u64, IntErrorKind>(e),
        },
        r matches Ok(v) ==> v <= max,
        parse_uint(cs@, radix as nat, max as nat) matches Ok(v) ==> v <= max,
{
    if cs.len() == 0 {
        return Err(IntErrorKind::Empty);
    }
    if cs.len() == 1 && (cs[0] == '+' || cs[0] == '-') {
        return Err(IntErrorKind::InvalidDigit);
    }
    proof {
        lemma_accumulate_bound(cs@, radix as nat, max as nat, 0);
        lemma_accumulate_bound(cs@.drop_first(), radix as nat, max as nat, 0);
    }
    let start: usize = if cs[0] == '+' { 1 } else { 0 };
    let ghost digits = cs@.skip(start as int);
    proof {
        if start == 1 {
            assert(digits =~= cs@.drop_first());
        } else {
            assert(digits =~= cs@);
        }
    }
    let mut i = start;
    let mut acc: u64 = 0;
    while i < cs.len()
        invariant
            start <= i <= cs@.len(),
            radix == 10 || radix == 16,
            max <= 0xFFFF_FFFF,
            acc <= max,
            accumulate_digits(digits, radix as nat, max as nat, 0) == accumulate_digits(
                cs@.skip(i as int),
                radix as nat,
                max as nat,
                acc as nat,
            ),
            digits == cs@.skip(start as int),
            parse_uint(cs@, radix as nat, max as nat) == accumulate_digits(
                digits,
                radix as nat,
                max as nat,
                0,
            ),
        decreases cs.len() - i,
    {
        let ghost t = cs@.skip(i as int);
        proof {
            assert(t.drop_first() =~= cs@.skip(i + 1));
            assert(t[0] == cs@[i as int]);
        }
        match digit_of(cs[i], radix) {
            None => {
                assert(accumulate_digits(t, radix as nat, max as nat, acc as nat) == Err::<
                    nat,
                    IntErrorKind,
                >(IntErrorKind::InvalidDigit));
                return Err(IntErrorKind::InvalidDigit);
            },
            Some(d) => {
                let next = acc * radix + d;
                if next > max {
                    assert(accumulate_digits(t, radix as nat, max as nat, acc as nat) == Err::<
                        nat,
                        IntErrorKind,
                    >(IntErrorKind::PosOverflow));
                    return Err(IntErrorKind::PosOverflow);
                }
                acc = next;
            },
        }
        i = i + 1;
    }
    proof {
        assert(cs@.skip(i as int).len() == 0);
        lemma_accumulate_bound(digits, radix as nat, max as nat, 0);
    }
    Ok(acc)
}

/// Drop every leading `0x` from `s`, as `str::trim_start_matches("0x")` does.
pub open spec fn trim_hex_prefix(s: Seq<char>) -> Seq<char>
    decreases s.len(),
{
    if s.len() >= 2 && s[0] == '0' && s[1] == 'x' {
        trim_hex_prefix(s.skip(2))
    } else {
        s
    }
}

/// The characters of `cs` after every leading `0x`.
pub fn trim_hex_prefix_chars(cs: &[char]) -> (r: Vec<char>)
    ensures
        r@ == trim_hex_prefix(cs@),
{
    let mut i: usize = 0;
    proof {
        assert(cs@.skip(0) =~= cs@);
    }
    while cs.len() - i >= 2 && cs[i] == '0' && cs[i + 1] == 'x'
        invariant
            i <= cs@.len(),
            trim_hex_prefix(cs@) == trim_hex_prefix(cs@.skip(i as int)),
        decreases cs.len() - i,
    {
        proof {
            let t = cs@.skip(i as int);
            assert(t[0] == cs@[i as int] && t[1] == cs@[i + 1]);
            assert(t.skip(2) =~= cs@.skip(i + 2));
            assert(trim_hex_prefix(t) == trim_hex_prefix(t.skip(2)));
        }
        i = i + 2;
    }
    proof {
        let t = cs@.skip(i as int);
        if t.len() >= 2 {
            assert(t[0] == cs@[i as int] && t[1] == cs@[i + 1]);
        }
        assert(trim_hex_prefix(t) == t);
    }
    let mut r: Vec<char> = Vec::new();
    let mut j = i;
    while j < cs.len()
        invariant
            i <= j <= cs@.len(),
            r@ == cs@.subrange(i as int, j as int),
        decreases cs.len() - j,
    {
        r.push(cs[j]);
        j = j + 1;
        assert(r@ =~= cs@.subrange(i as int, j as int));
    }
    assert(r@ =~= cs@.skip(i as int));
    r
}

} // verus!
