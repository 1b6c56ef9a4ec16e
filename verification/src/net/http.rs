//! HTTP schemes of devices, and the order in which hosts are probed for them.
use vstd::prelude::*;

use crate::text::{push_char, push_str};

verus! {

/// A scheme a device may serve a web interface on.
#[derive(Clone, Copy, Debug, PartialEq, Eq, Structural)]
pub enum HttpScheme {
    Http,
    Https,
}

/// The scheme with its colon, as in `https:`.
pub open spec fn scheme_str(s: HttpScheme) -> Seq<char> {
    match s {
        HttpScheme::Http => "http:"@,
        HttpScheme::Https => "https:"@,
    }
}

/// The URL of `host` with `scheme`; IPv6 addresses go in brackets.
pub open spec fn scheme_url(scheme: HttpScheme, host: Seq<char>, host_is_ipv6: bool) -> Seq<char> {
    if host_is_ipv6 {
        scheme_str(scheme) + "//"@ + seq!['['] + host + seq![']']
    } else {
        scheme_str(scheme) + "//"@ + host
    }
}

impl HttpScheme {
    /// The scheme with its colon.
    pub fn as_str(self) -> (r: &'static str)
        ensures
            r@ == scheme_str(self),
    {
        match self {
            HttpScheme::Http => "http:",
            HttpScheme::Https => "https:",
        }
    }

    /// The standard port of the scheme.
    pub fn port(self) -> (r: u16)
        ensures
            self == HttpScheme::Http ==> r == 80,
            self == HttpScheme::Https ==> r == 443,
    {
        match self {
            HttpScheme::Http => 80,
            HttpScheme::Https => 443,
        }
    }

    /// The URL of `host` with this scheme; `host_is_ipv6` tells whether `host`
    /// parses as an IPv6 address, which then goes in brackets.
    pub fn to_url(self, host: &str, host_is_ipv6: bool) -> (r: String)
        ensures
            r@ == scheme_url(self, host@, host_is_ipv6),
    {
        let mut r = String::new();
        push_str(&mut r, self.as_str());
        push_str(&mut r, "//");
        if host_is_ipv6 {
            push_char(&mut r, '[');
            push_str(&mut r, host);
            push_char(&mut r, ']');
        } else {
            push_str(&mut r, host);
        }
        assert(r@ =~= scheme_url(self, host@, host_is_ipv6));
        r
    }

    /// The display of the scheme, the same as `as_str`.
    pub fn to_string(self) -> (r: String)
        ensures
            r@ == scheme_str(self),
    {
        let mut r = String::new();
        push_str(&mut r, self.as_str());
        assert(r@ =~= scheme_str(self));
        r
    }
}

/// The next step of probing a host for HTTP support.
#[derive(Clone, Copy, Debug, PartialEq, Eq, Structural)]
pub enum ProbeStep {
    /// Try to connect with this scheme.
    Try(HttpScheme),
    /// Probing is over, with the supported scheme if any.
    Done(Option<HttpScheme>),
}

/// The step after trying `last` (none before the first step), which connected
/// or not: HTTPS is tried first, then HTTP; the first scheme that connects is
/// the answer.
pub fn probe_next(last: Option<(HttpScheme, bool)>) -> (r: ProbeStep)
    ensures
        last is None ==> r == ProbeStep::Try(HttpScheme::Https),
        last matches Some((s, true)) ==> r == ProbeStep::Done(Some(s)),
        last == Some((HttpScheme::Https, false)) ==> r == ProbeStep::Try(HttpScheme::Http),
        last == Some((HttpScheme::Http, false)) ==> r == ProbeStep::Done(None),
{
    match last {
        None => ProbeStep::Try(HttpScheme::Https),
        Some((s, true)) => ProbeStep::Done(Some(s)),
        Some((HttpScheme::Https, false)) => ProbeStep::Try(HttpScheme::Http),
        Some((HttpScheme::Http, false)) => ProbeStep::Done(None),
    }
}

} // verus!
