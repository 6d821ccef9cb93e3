use surge_ping::addr::IpAddr;
use surge_ping::checksum::{internet_checksum, verify_checksum};
use surge_ping::error::{MalformedPacketError, SurgeError};
use surge_ping::icmp::{decode_icmpv4, decode_icmpv6, make_icmpv4_echo_packet,
    make_icmpv6_echo_packet};

fn cycled_payload(len: usize) -> Vec<u8> {
    (b'A'..=b'Z').cycle().take(len).collect()
}

fn canonical_header(src: [u8; 4]) -> Vec<u8> {
    vec![
        0x45, 0, 0, 0, 0, 0, 0, 0, 0x40, 1, 0, 0, src[0], src[1], src[2], src[3], 0, 0, 0, 0,
    ]
}

#[test]
fn checksum_two_words() {
    // 0x0001 + 0xf203 = 0xf204, no carry, complement 0x0dfb.
    assert_eq!(internet_checksum(&vec![0x00, 0x01, 0xf2, 0x03]), 0x0dfb);
}

#[test]
fn checksum_odd_length_pads_zero() {
    // A single byte is the high half of one word: 0x0100, complement 0xfeff.
    assert_eq!(internet_checksum(&vec![0x01]), 0xfeff);
}

#[test]
fn checksum_end_around_carry() {
    // 0xffff + 0xffff = 0x1fffe folds to 0xffff, complement 0.
    assert_eq!(internet_checksum(&vec![0xff, 0xff, 0xff, 0xff]), 0);
}

#[test]
fn encode_v4_header_layout() {
    // Identifier 4242 = 0x1092 and sequence 1, both big-endian.
    let payload = cycled_payload(56);
    let bytes = make_icmpv4_echo_packet(4242, 1, &payload).unwrap();
    assert_eq!(bytes.len(), 64);
    assert_eq!(bytes[0], 8);
    assert_eq!(bytes[1], 0);
    assert_eq!(bytes[4], 0x10);
    assert_eq!(bytes[5], 0x92);
    assert_eq!(bytes[6], 0);
    assert_eq!(bytes[7], 1);
    assert_eq!(&bytes[8..], &payload[..]);
    assert!(verify_checksum(&bytes));
}

#[test]
fn encode_v4_checksum_is_internet_checksum() {
    let payload = cycled_payload(4);
    let bytes = make_icmpv4_echo_packet(7, 9, &payload).unwrap();
    let mut zeroed = bytes.clone();
    zeroed[2] = 0;
    zeroed[3] = 0;
    let expected = internet_checksum(&zeroed);
    let stored = (bytes[2] as u16) * 0x100 + bytes[3] as u16;
    assert_eq!(stored, expected);
}

#[test]
fn corrupted_message_fails_checksum() {
    let payload = cycled_payload(8);
    let mut bytes = make_icmpv4_echo_packet(3, 4, &payload).unwrap();
    assert!(verify_checksum(&bytes));
    bytes[10] ^= 0x01;
    assert!(!verify_checksum(&bytes));
}

#[test]
fn encode_v6_layout_zero_checksum() {
    let payload = cycled_payload(10);
    let bytes = make_icmpv6_echo_packet(300, 2, &payload).unwrap();
    assert_eq!(bytes.len(), 18);
    assert_eq!(bytes[0], 128);
    assert_eq!(bytes[1], 0);
    assert_eq!(bytes[2], 0);
    assert_eq!(bytes[3], 0);
    assert_eq!(bytes[4], 0x01);
    assert_eq!(bytes[5], 0x2c);
    assert_eq!(bytes[6], 0);
    assert_eq!(bytes[7], 2);
    assert_eq!(&bytes[8..], &payload[..]);
}

#[test]
fn encode_rejects_oversized_payload() {
    let payload = vec![0u8; 1017];
    assert_eq!(
        make_icmpv4_echo_packet(1, 1, &payload),
        Err(SurgeError::IncorrectBufferSize)
    );
    assert_eq!(
        make_icmpv6_echo_packet(1, 1, &payload),
        Err(SurgeError::IncorrectBufferSize)
    );
}

#[test]
fn encode_accepts_largest_payload() {
    let payload = vec![0u8; 1016];
    assert!(make_icmpv4_echo_packet(1, 1, &payload).is_ok());
}

#[test]
fn round_trip_v4_preserves_fields() {
    let payload = cycled_payload(56);
    let msg = make_icmpv4_echo_packet(4242, 7, &payload).unwrap();
    let mut datagram = canonical_header([127, 0, 0, 1]);
    datagram.extend_from_slice(&msg);
    let packet = decode_icmpv4(&datagram).unwrap();
    assert_eq!(packet.source, IpAddr::V4(127, 0, 0, 1));
    assert_eq!(packet.icmp_type, 8);
    assert_eq!(packet.code, 0);
    assert_eq!(packet.identifier, 4242);
    assert_eq!(packet.sequence, 7);
    assert_eq!(packet.payload, payload);
    // The checksum of the carried message still validates.
    assert!(verify_checksum(&msg));
}

#[test]
fn round_trip_v6_preserves_fields() {
    let payload = cycled_payload(12);
    let msg = make_icmpv6_echo_packet(77, 9, &payload).unwrap();
    let source = IpAddr::V6(1);
    let packet = decode_icmpv6(&msg, &source).unwrap();
    assert_eq!(packet.source, source);
    assert_eq!(packet.icmp_type, 128);
    assert_eq!(packet.identifier, 77);
    assert_eq!(packet.sequence, 9);
    assert_eq!(packet.payload, payload);
}

#[test]
fn decode_truncated_v4_reports_lengths() {
    // A three-byte prefix of an IPv4 datagram: version nibble 4, header
    // length 20, so a whole Echo message needs at least 28 bytes.
    let err = decode_icmpv4(&vec![0x45, 0, 0]).unwrap_err();
    assert_eq!(
        err,
        SurgeError::MalformedPacket(MalformedPacketError::PayloadTooShort { got: 3, want: 28 })
    );
}

#[test]
fn decode_empty_v4_reports_lengths() {
    let err = decode_icmpv4(&vec![]).unwrap_err();
    assert_eq!(
        err,
        SurgeError::MalformedPacket(MalformedPacketError::PayloadTooShort { got: 0, want: 28 })
    );
}

#[test]
fn decode_v4_rejects_wrong_version() {
    let err = decode_icmpv4(&vec![0x60; 28]).unwrap_err();
    assert_eq!(
        err,
        SurgeError::MalformedPacket(MalformedPacketError::NotIpv4Packet)
    );
}

#[test]
fn decode_v4_rejects_wrong_protocol() {
    let mut datagram = canonical_header([10, 0, 0, 1]);
    datagram[9] = 6;
    datagram.extend_from_slice(&[0u8; 8]);
    let err = decode_icmpv4(&datagram).unwrap_err();
    assert_eq!(
        err,
        SurgeError::MalformedPacket(MalformedPacketError::NotIcmpv4Packet)
    );
}

#[test]
fn decode_v4_skips_longer_ip_header() {
    // Header length nibble 6: a 24-byte IP header before the message.
    let payload = cycled_payload(3);
    let msg = make_icmpv4_echo_packet(5, 6, &payload).unwrap();
    let mut datagram = canonical_header([192, 168, 0, 7]);
    datagram[0] = 0x46;
    datagram.extend_from_slice(&[0, 0, 0, 0]);
    datagram.extend_from_slice(&msg);
    let packet = decode_icmpv4(&datagram).unwrap();
    assert_eq!(packet.source, IpAddr::V4(192, 168, 0, 7));
    assert_eq!(packet.identifier, 5);
    assert_eq!(packet.sequence, 6);
    assert_eq!(packet.payload, payload);
}

#[test]
fn decode_v6_too_short_reports_lengths() {
    let err = decode_icmpv6(&vec![129, 0, 0], &IpAddr::V6(1)).unwrap_err();
    assert_eq!(
        err,
        SurgeError::MalformedPacket(MalformedPacketError::PayloadTooShort { got: 3, want: 8 })
    );
}

#[test]
fn decode_v6_rejects_v4_source() {
    let err = decode_icmpv6(&vec![129, 0, 0, 0, 0, 0, 0, 0], &IpAddr::V4(1, 2, 3, 4)).unwrap_err();
    assert_eq!(
        err,
        SurgeError::MalformedPacket(MalformedPacketError::NotIpv6Packet)
    );
}
