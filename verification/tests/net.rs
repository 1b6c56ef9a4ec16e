use turnon::net::boxed::SocketAddrV4Boxed;
use turnon::net::http::{probe_next, HttpScheme, ProbeStep};
use turnon::net::ip::{AddrKind, AddrParseError, IpAddr, Ipv4Addr, Ipv6Addr};
use turnon::net::macaddr::{MacAddr6Boxed, MacParseError};
use turnon::net::monitor::{
    ping_timeout_millis, MonitorAction, MonitorState, PingSchedule, PING_INTERVAL_MILLIS,
};
use turnon::net::ping::{
    addresses_from_lookup, check_echo_reply, check_echo_write, echo_request_for, first_address,
    first_reply, unreachable_message, EchoError, PingDestination, ResolveError, SocketNotReady,
    ECHO_PACKET_LEN,
};
use turnon::net::wol::{magic_packet_for, wol_default_target_address};

#[test]
fn ipv4_addresses_parse_and_display() {
    let a = Ipv4Addr::from_str("192.168.2.100").unwrap();
    assert_eq!(a, Ipv4Addr::new(192, 168, 2, 100));
    assert_eq!(a.to_string(), "192.168.2.100");
    assert_eq!(a.octets(), [192, 168, 2, 100]);
    for bad in ["", "1.2.3", "1.2.3.4.5", "256.1.1.1", "01.2.3.4", "1.2.3.4 ", "a.b.c.d"] {
        assert_eq!(
            Ipv4Addr::from_str(bad),
            Err(AddrParseError {
                kind: AddrKind::Ipv4
            }),
            "{bad}"
        );
    }
    assert_eq!(Ipv4Addr::broadcast().to_string(), "255.255.255.255");
    assert_eq!(Ipv4Addr::unspecified().to_string(), "0.0.0.0");
    assert_eq!(
        AddrParseError {
            kind: AddrKind::Ipv4
        }
        .message(),
        "invalid IPv4 address syntax"
    );
}

#[test]
fn socket_addresses_parse_and_display() {
    let a = SocketAddrV4Boxed::from_str("192.168.2.3:9").unwrap();
    assert_eq!(a, SocketAddrV4Boxed::new(Ipv4Addr::new(192, 168, 2, 3), 9));
    assert_eq!(a.to_string(), "192.168.2.3:9");
    assert_eq!(a.port(), 9);
    assert_eq!(a.ip(), Ipv4Addr::new(192, 168, 2, 3));
    assert!(SocketAddrV4Boxed::from_str("192.168.2.3").is_err());
    assert!(SocketAddrV4Boxed::from_str("192.168.2.3:65536").is_err());
    assert!(SocketAddrV4Boxed::from_str("192.168.2.3:").is_err());
    assert_eq!(
        SocketAddrV4Boxed::from_str("x:1").unwrap_err().kind,
        AddrKind::SocketV4
    );
    assert_eq!(SocketAddrV4Boxed::default().to_string(), "0.0.0.0:0");
}

#[test]
fn ipv6_addresses() {
    let l = Ipv6Addr::localhost();
    assert_eq!(l.segments(), [0, 0, 0, 0, 0, 0, 0, 1]);
    assert_eq!(Ipv6Addr::from_segments([1, 2, 3, 4, 5, 6, 7, 8]).segments(), [1, 2, 3, 4, 5, 6, 7, 8]);
    assert!(IpAddr::V6(l).is_ipv6());
    assert!(!IpAddr::V4(Ipv4Addr::new(1, 2, 3, 4)).is_ipv6());
}

#[test]
fn mac_addresses_parse_and_display() {
    let m = MacAddr6Boxed::from_str("2E:E3:50:A3:E2:F7").unwrap();
    assert_eq!(m, MacAddr6Boxed::new(0x2e, 0xe3, 0x50, 0xa3, 0xe2, 0xf7));
    assert_eq!(m.to_string(), "2E:E3:50:A3:E2:F7");
    assert_eq!(MacAddr6Boxed::from_str("2e-e3-50-a3-e2-f7").unwrap(), m);
    assert_eq!(m.bytes(), [0x2e, 0xe3, 0x50, 0xa3, 0xe2, 0xf7]);
    assert_eq!(MacAddr6Boxed::from_bytes([1, 2, 3, 4, 5, 6]).to_string(), "01:02:03:04:05:06");
    assert_eq!(MacAddr6Boxed::nil().to_string(), "00:00:00:00:00:00");
    assert_eq!(MacAddr6Boxed::default(), MacAddr6Boxed::nil());
    assert!(matches!(
        MacAddr6Boxed::from_str("2E:E3"),
        Err(MacParseError::InvalidLength(_))
    ));
    assert!(matches!(
        MacAddr6Boxed::from_str("zz:E3:50:A3:E2:F7"),
        Err(MacParseError::InvalidCharacter('z', _))
    ));
}

#[test]
fn magic_packet_repeats_address() {
    let mac = MacAddr6Boxed::new(0x0e, 0x12, 0x13, 0x14, 0x15, 0x16);
    let packet = magic_packet_for(&mac);
    assert_eq!(&packet[..6], &[0xff; 6]);
    for k in 0..16 {
        assert_eq!(&packet[6 + 6 * k..12 + 6 * k], &[0x0e, 0x12, 0x13, 0x14, 0x15, 0x16]);
    }
    let target = wol_default_target_address();
    assert_eq!(target.to_string(), "255.255.255.255:9");
}

#[test]
fn echo_requests_carry_sequence_number() {
    let v4 = IpAddr::V4(Ipv4Addr::new(127, 0, 0, 1));
    let v6 = IpAddr::V6(Ipv6Addr::localhost());
    let request = echo_request_for(&v4, 0x0102);
    assert_eq!(request.len(), ECHO_PACKET_LEN);
    assert_eq!(&request[..8], &[8, 0, 0, 0, 0, 0, 1, 2]);
    assert_eq!(&request[8..], b"turnon-ping\nturnon-ping\nturnon-ping\nturnon-ping\n");
    assert_eq!(echo_request_for(&v6, 4)[0], 128);
    assert_eq!(check_echo_write(56), Ok(()));
    assert_eq!(check_echo_write(55), Err(EchoError::IncompleteWrite));
}

#[test]
fn echo_replies_are_checked() {
    let v4 = IpAddr::V4(Ipv4Addr::new(127, 0, 0, 1));
    let v6 = IpAddr::V6(Ipv6Addr::localhost());
    let mut reply = echo_request_for(&v4, 300);
    reply[0] = 0;
    assert_eq!(check_echo_reply(&v4, 300, &reply, 56), Ok(()));
    assert_eq!(check_echo_reply(&v4, 300, &reply, 40), Err(EchoError::IncompleteRead));
    assert_eq!(
        check_echo_reply(&v4, 301, &reply, 56),
        Err(EchoError::OutOfOrder {
            received: 300,
            expected: 301
        })
    );
    assert_eq!(
        check_echo_reply(&v6, 300, &reply, 56),
        Err(EchoError::UnexpectedType(0))
    );
    reply[0] = 129;
    assert_eq!(check_echo_reply(&v6, 300, &reply, 56), Ok(()));
}

#[test]
fn ping_messages() {
    assert_eq!(
        EchoError::OutOfOrder {
            received: 3,
            expected: 4
        }
        .message("10.0.0.1"),
        "Received out of order sequence number 3, expected 4"
    );
    assert_eq!(
        EchoError::UnexpectedType(3).message("10.0.0.1"),
        "Received unexpected response of type 3"
    );
    assert_eq!(
        EchoError::IncompleteWrite.message("10.0.0.1"),
        "Failed to write full ICMP echo request to 10.0.0.1 to socket"
    );
    assert_eq!(
        EchoError::IncompleteRead.message("::1"),
        "Failed to read full ICMP echo reply from ::1 from socket"
    );
    assert_eq!(
        SocketNotReady::Write.message("10.0.0.1"),
        "Socket for 10.0.0.1 not ready to write"
    );
    assert_eq!(
        SocketNotReady::Read.message("10.0.0.1"),
        "Socket for 10.0.0.1 not ready to read"
    );
    assert_eq!(
        unreachable_message("nas"),
        "Target nas had no reachable addresses"
    );
    assert_eq!(ResolveError::NoAddresses.message(), "No addresses found");
}

#[test]
fn ping_destinations() {
    let a = IpAddr::V4(Ipv4Addr::new(10, 0, 0, 1));
    let d = PingDestination::from_host("10.0.0.1".to_string(), Some(a));
    assert!(matches!(d, PingDestination::Addr(x) if x == a));
    assert_eq!(d.resolved(), Some(vec![a]));
    let d = PingDestination::from_host("nas".to_string(), None);
    assert!(matches!(&d, PingDestination::Dns(h) if h == "nas"));
    assert_eq!(d.resolved(), None);
    assert_eq!(addresses_from_lookup(vec![]), Err(ResolveError::NoAddresses));
    assert_eq!(addresses_from_lookup(vec![a]), Ok(vec![a]));
    assert_eq!(first_address(&[]), Err(ResolveError::NoAddresses));
    assert_eq!(first_address(&[a]), Ok(a));
    let b = IpAddr::V6(Ipv6Addr::localhost());
    assert_eq!(first_reply(&[(a, None), (b, Some(4)), (a, Some(2))]), Some((b, 4)));
    assert_eq!(first_reply(&[(a, None)]), None);
    assert_eq!(first_reply(&[]), None);
}

#[test]
fn monitor_pings_cached_address_after_reply() {
    let a = IpAddr::V4(Ipv4Addr::new(10, 0, 0, 1));
    let mut m = MonitorState::new();
    assert_eq!(m.start_tick(), MonitorAction::PingDestination(0));
    m.finish_tick(Some(a));
    assert_eq!(m.start_tick(), MonitorAction::PingCached(a, 1));
    m.finish_tick(None);
    assert_eq!(m.start_tick(), MonitorAction::PingDestination(2));
    let mut m = MonitorState {
        cached: None,
        tick: 65535,
        pending: None,
    };
    assert_eq!(m.start_tick(), MonitorAction::PingDestination(0));
    assert_eq!(ping_timeout_millis(PING_INTERVAL_MILLIS), 2500);
}

#[test]
fn ping_schedule_starts_once() {
    let mut s = PingSchedule::new();
    assert!(s.start());
    assert!(!s.start());
    assert!(s.stop());
    assert!(!s.stop());
}

#[test]
fn http_schemes() {
    assert_eq!(HttpScheme::Https.as_str(), "https:");
    assert_eq!(HttpScheme::Http.to_string(), "http:");
    assert_eq!(HttpScheme::Http.port(), 80);
    assert_eq!(HttpScheme::Https.port(), 443);
    assert_eq!(HttpScheme::Https.to_url("nas.local", false), "https://nas.local");
    assert_eq!(HttpScheme::Http.to_url("fe80::1", true), "http://[fe80::1]");
    assert_eq!(probe_next(None), ProbeStep::Try(HttpScheme::Https));
    assert_eq!(
        probe_next(Some((HttpScheme::Https, false))),
        ProbeStep::Try(HttpScheme::Http)
    );
    assert_eq!(
        probe_next(Some((HttpScheme::Https, true))),
        ProbeStep::Done(Some(HttpScheme::Https))
    );
    assert_eq!(probe_next(Some((HttpScheme::Http, false))), ProbeStep::Done(None));
}
