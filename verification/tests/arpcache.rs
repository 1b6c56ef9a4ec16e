use turnon::net::arpcache::{
    read_arp_cache, ArpCacheEntry, ArpCacheEntryFlags, ArpCacheParseError, ArpCell,
    ArpHardwareType, ArpKnownHardwareType,
};
use turnon::net::ip::Ipv4Addr;
use turnon::net::macaddr::MacAddr6Boxed;
use turnon::net::parse::{IntErrorKind, ParseIntError};

#[test]
pub fn test_arp_cache_entry_from_str() {
    let entry = ArpCacheEntry::from_str(
        "192.168.178.130  0x1         0x2         b6:a3:b0:48:80:f1     *        wlp4s0
",
    )
    .unwrap();
    assert_eq!(entry.ip_address, Ipv4Addr::new(192, 168, 178, 130));
    assert_eq!(
        entry.hardware_type,
        ArpHardwareType::Known(ArpKnownHardwareType::Ether)
    );
    assert_eq!(
        entry.flags,
        ArpCacheEntryFlags {
            bits: ArpCacheEntryFlags::ATF_COM
        }
    );
    assert_eq!(
        entry.hardware_address,
        MacAddr6Boxed::new(0xb6, 0xa3, 0xb0, 0x48, 0x80, 0xf1)
    );
}

#[test]
fn arp_entry_missing_cells() {
    assert_eq!(
        ArpCacheEntry::from_str("   "),
        Err(ArpCacheParseError::MissingCell(ArpCell::IpAddress, 0))
    );
    assert_eq!(
        ArpCacheEntry::from_str("10.0.0.1"),
        Err(ArpCacheParseError::MissingCell(ArpCell::HwType, 1))
    );
    assert_eq!(
        ArpCacheEntry::from_str("10.0.0.1 0x1"),
        Err(ArpCacheParseError::MissingCell(ArpCell::Flags, 2))
    );
    assert_eq!(
        ArpCacheEntry::from_str("10.0.0.1 0x1 0x2"),
        Err(ArpCacheParseError::MissingCell(ArpCell::HwAddress, 3))
    );
}

#[test]
fn arp_entry_invalid_cells() {
    assert!(matches!(
        ArpCacheEntry::from_str("10.0.0.256 0x1 0x2 b6:a3:b0:48:80:f1"),
        Err(ArpCacheParseError::InvalidIpAddress(_))
    ));
    assert_eq!(
        ArpCacheEntry::from_str("10.0.0.1 0xzz 0x2 b6:a3:b0:48:80:f1"),
        Err(ArpCacheParseError::InvalidHardwareType(ParseIntError {
            kind: IntErrorKind::InvalidDigit
        }))
    );
    assert_eq!(
        ArpCacheEntry::from_str("10.0.0.1 0x1 0x b6:a3:b0:48:80:f1"),
        Err(ArpCacheParseError::InvalidFlags(ParseIntError {
            kind: IntErrorKind::Empty
        }))
    );
    assert_eq!(
        ArpCacheEntry::from_str("10.0.0.1 0x1 0x999 b6:a3:b0:48:80:f1"),
        Err(ArpCacheParseError::InvalidFlags(ParseIntError {
            kind: IntErrorKind::PosOverflow
        }))
    );
    assert!(matches!(
        ArpCacheEntry::from_str("10.0.0.1 0x1 0x2 b6:a3:b0:48:80"),
        Err(ArpCacheParseError::InvalidHardwareAddess(_))
    ));
}

#[test]
fn arp_entry_unknown_hardware_type_and_flags() {
    let entry = ArpCacheEntry::from_str("10.0.0.1 0x18 0x6 00:11:22:33:44:55 * eth0").unwrap();
    assert_eq!(entry.hardware_type, ArpHardwareType::Unknown(0x18));
    // Flags are hexadecimal after stripping the prefix; unknown bits are dropped.
    assert_eq!(entry.flags.bits, 6);
    assert!(entry.flags.contains(ArpCacheEntryFlags::ATF_COM));
    assert!(!entry.is_complete_ethernet_entry());
    let entry = ArpCacheEntry::from_str("10.0.0.1 0x1 0x81 00:11:22:33:44:55").unwrap();
    assert_eq!(entry.flags.bits, 0x81 & 0x7e);
    assert!(!entry.flags.contains(ArpCacheEntryFlags::ATF_COM));
    assert!(!entry.is_complete_ethernet_entry());
    let entry = ArpCacheEntry::from_str("192.168.1.1 0x1 0x10 b6:a3:b0:48:80:f1 * eth0").unwrap();
    assert_eq!(entry.flags.bits, ArpCacheEntryFlags::ATF_USETRAILERS);
    let entry = ArpCacheEntry::from_str("192.168.1.1 0x1 0xC b6:a3:b0:48:80:f1 * eth0").unwrap();
    assert_eq!(entry.flags.bits, ArpCacheEntryFlags::ATF_PERM | ArpCacheEntryFlags::ATF_PUBL);
    assert!(ArpCacheEntry::from_str("192.168.1.1 0x1 0x100 b6:a3:b0:48:80:f1").is_err());
}

#[test]
fn read_arp_cache_skips_heading() {
    let contents = "IP address       HW type     Flags       HW address            Mask     Device\n\
192.168.178.130  0x1         0x2         b6:a3:b0:48:80:f1     *        wlp4s0\r\n\
10.0.0.1\n";
    let entries = read_arp_cache(contents);
    assert_eq!(entries.len(), 2);
    let first = entries[0].as_ref().unwrap();
    assert_eq!(first.ip_address, Ipv4Addr::new(192, 168, 178, 130));
    assert!(first.is_complete_ethernet_entry());
    assert_eq!(
        entries[1],
        Err(ArpCacheParseError::MissingCell(ArpCell::HwType, 1))
    );
    assert!(read_arp_cache("").is_empty());
    assert!(read_arp_cache("only a heading").is_empty());
}

#[test]
fn arp_error_messages() {
    assert_eq!(
        ArpCacheParseError::MissingCell(ArpCell::HwType, 1).to_string(),
        "Missing cell HW type at index 1"
    );
    let err = ArpCacheEntry::from_str("10.0.0.1 0x1 0x2 zz:a3:b0:48:80:f1").unwrap_err();
    assert_eq!(
        err.to_string(),
        "Failed to parse hardware address: Unexpected character 'z' at position 1"
    );
    let err = ArpCacheEntry::from_str("1.2.3 0x1 0x2 zz:a3:b0:48:80:f1").unwrap_err();
    assert_eq!(
        err.to_string(),
        "Failed to parse IP address: invalid IPv4 address syntax"
    );
}
