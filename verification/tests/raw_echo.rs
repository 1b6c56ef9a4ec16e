use turnon::net::raw_echo::{echo_request, is_echo_reply, wakeup_ping_payload, PacketLenError};

/// Sum of big-endian 16 bit words, an odd trailing byte padded with zero.
fn word_sum(bytes: &[u8]) -> u32 {
    bytes
        .chunks(2)
        .map(|c| {
            let hi = u32::from(c[0]) << 8;
            let lo = if c.len() > 1 { u32::from(c[1]) } else { 0 };
            hi | lo
        })
        .sum()
}

fn fold(mut sum: u32) -> u16 {
    while sum > 0xffff {
        sum = (sum & 0xffff) + (sum >> 16);
    }
    sum as u16
}

#[test]
fn payload_is_four_wakeup_pings() {
    assert_eq!(
        wakeup_ping_payload(),
        b"wakeup-ping wakeup-ping wakeup-ping wakeup-ping".to_vec()
    );
}

#[test]
fn echo_request_v4_has_valid_checksum() {
    let packet = echo_request(false);
    assert_eq!(packet.len(), 55);
    assert_eq!(&packet[0..2], &[8, 0]);
    assert_eq!(&packet[4..8], &[0, 42, 0, 23]);
    assert_eq!(&packet[8..], b"wakeup-ping wakeup-ping wakeup-ping wakeup-ping");
    assert_ne!(&packet[2..4], &[0, 0]);
    assert_eq!(fold(word_sum(&packet)), 0xffff);
}

#[test]
fn echo_request_v6_has_valid_checksum() {
    let packet = echo_request(true);
    assert_eq!(packet.len(), 55);
    assert_eq!(&packet[0..2], &[128, 0]);
    assert_eq!(&packet[4..8], &[0, 42, 0, 23]);
    assert_eq!(&packet[8..], b"wakeup-ping wakeup-ping wakeup-ping wakeup-ping");
    // Pseudo header of unspecified addresses: next header 58, length 55.
    let pseudo = 58 + 55;
    assert_eq!(fold(word_sum(&packet) + pseudo), 0xffff);
}

#[test]
fn replies_are_recognized() {
    let mut buffer = [0u8; 128];
    assert_eq!(is_echo_reply(false, &buffer, 8), Ok(true));
    buffer[0] = 8;
    assert_eq!(is_echo_reply(false, &buffer, 8), Ok(false));
    buffer[0] = 0;
    buffer[1] = 1;
    assert_eq!(is_echo_reply(false, &buffer, 8), Ok(false));
    assert_eq!(
        is_echo_reply(false, &buffer, 5),
        Err(PacketLenError {
            required_len: 8,
            len: 5
        })
    );
    buffer[0] = 13;
    buffer[1] = 0;
    assert_eq!(
        is_echo_reply(false, &buffer, 8),
        Err(PacketLenError {
            required_len: 20,
            len: 8
        })
    );
    assert_eq!(is_echo_reply(false, &buffer, 20), Ok(false));
    buffer[0] = 129;
    assert_eq!(is_echo_reply(true, &buffer, 16), Ok(true));
    buffer[0] = 0;
    assert_eq!(is_echo_reply(true, &buffer, 16), Ok(false));
    assert_eq!(
        is_echo_reply(true, &buffer, 0),
        Err(PacketLenError {
            required_len: 8,
            len: 0
        })
    );
}
