use surge_ping::addr::{IpAddr, PingIdentifier, PingSequence};
use surge_ping::error::SurgeError;
use surge_ping::icmp::{Icmpv4Packet, IcmpPacket};
use surge_ping::router::{handle_datagram, IntakeOutcome, Reply, ReplyMap};
use surge_ping::session::{finish_recv, Pinger};
use surge_ping::stats::Answer;

fn reply_packet(source: IpAddr, identifier: u16, sequence: u16) -> IcmpPacket {
    IcmpPacket::V4(Icmpv4Packet {
        source,
        icmp_type: 0,
        code: 0,
        checksum: 0,
        identifier,
        sequence,
        payload: Vec::new(),
    })
}

#[test]
fn second_register_is_duplicate() {
    let mut map = ReplyMap::new();
    let host = IpAddr::V4(10, 0, 0, 1);
    let first = map.new_waiter(host, None, PingSequence(5));
    assert!(first.is_ok());
    let second = map.new_waiter(host, None, PingSequence(5));
    match second {
        Err(SurgeError::IdenticalRequests { host: h, ident, seq }) => {
            assert_eq!(h, IpAddr::V4(10, 0, 0, 1));
            assert_eq!(ident, None);
            assert_eq!(seq, PingSequence(5));
        }
        other => panic!("expected a duplicate-request error, got {:?}", other.err()),
    }
}

#[test]
fn register_distinct_keys_coexist() {
    let mut map = ReplyMap::new();
    let host = IpAddr::V4(10, 0, 0, 1);
    assert!(map.new_waiter(host, None, PingSequence(5)).is_ok());
    assert!(map.new_waiter(host, None, PingSequence(6)).is_ok());
    assert!(map.new_waiter(host, Some(PingIdentifier(5)), PingSequence(5)).is_ok());
}

#[test]
fn deregister_absent_is_noop() {
    let mut map = ReplyMap::new();
    let host = IpAddr::V4(10, 0, 0, 2);
    assert!(!map.remove(host, None, PingSequence(9)));
    // The registry still works, and the key is free.
    assert!(map.new_waiter(host, None, PingSequence(9)).is_ok());
    assert!(map.remove(host, None, PingSequence(9)));
    assert!(!map.remove(host, None, PingSequence(9)));
}

#[test]
fn dispatch_fulfills_exactly_one_waiter() {
    let mut map = ReplyMap::new();
    let host = IpAddr::V4(9, 9, 9, 9);
    let mut rx = map
        .new_waiter(host, Some(PingIdentifier(7)), PingSequence(3))
        .unwrap();
    assert!(map.dispatch(reply_packet(host, 7, 3), 1000));
    let reply = rx.try_recv().expect("the waiter must hold the reply");
    assert_eq!(reply.timestamp_nanos, 1000);
    assert_eq!(reply.packet.get_identifier(), 7);
    assert_eq!(reply.packet.get_sequence(), 3);
    // A duplicate inbound reply finds no waiter and is dropped.
    assert!(!map.dispatch(reply_packet(host, 7, 3), 2000));
}

#[test]
fn dispatch_leaves_unrelated_entries() {
    let mut map = ReplyMap::new();
    let host = IpAddr::V4(9, 9, 9, 9);
    let _rx_a = map
        .new_waiter(host, Some(PingIdentifier(7)), PingSequence(3))
        .unwrap();
    let mut rx_b = map
        .new_waiter(host, Some(PingIdentifier(7)), PingSequence(4))
        .unwrap();
    assert!(map.dispatch(reply_packet(host, 7, 3), 100));
    // The other sequence is still outstanding and can be fulfilled.
    assert!(map.dispatch(reply_packet(host, 7, 4), 200));
    assert_eq!(rx_b.try_recv().unwrap().timestamp_nanos, 200);
}

#[test]
fn dispatch_ignores_echo_request() {
    let mut map = ReplyMap::new();
    let host = IpAddr::V4(9, 9, 9, 9);
    let _rx = map
        .new_waiter(host, Some(PingIdentifier(7)), PingSequence(3))
        .unwrap();
    let request = IcmpPacket::V4(Icmpv4Packet {
        source: host,
        icmp_type: 8,
        code: 0,
        checksum: 0,
        identifier: 7,
        sequence: 3,
        payload: Vec::new(),
    });
    assert!(!map.dispatch(request, 500));
    // The entry is still outstanding.
    assert!(map.remove(host, Some(PingIdentifier(7)), PingSequence(3)));
}

#[test]
fn dispatch_matches_identifierless_entry() {
    let mut map = ReplyMap::new();
    let host = IpAddr::V4(8, 8, 8, 8);
    let mut rx = map.new_waiter(host, None, PingSequence(2)).unwrap();
    // The kernel rewrote the identifier; the reply carries its substitute.
    assert!(map.dispatch(reply_packet(host, 555, 2), 42));
    assert!(rx.try_recv().is_ok());
}

#[test]
fn dispatch_unmatched_reply_is_dropped() {
    let mut map = ReplyMap::new();
    let host = IpAddr::V4(8, 8, 4, 4);
    let _rx = map.new_waiter(host, Some(PingIdentifier(1)), PingSequence(1)).unwrap();
    assert!(!map.dispatch(reply_packet(host, 1, 2), 42));
    assert!(!map.dispatch(reply_packet(IpAddr::V4(1, 1, 1, 1), 1, 1), 42));
}

#[test]
fn intake_step_decodes_and_delivers() {
    let mut map = ReplyMap::new();
    let host = IpAddr::V4(1, 2, 3, 4);
    let mut rx = map
        .new_waiter(host, Some(PingIdentifier(99)), PingSequence(2))
        .unwrap();
    // An Echo Reply from 1.2.3.4 framed in a 20-byte IPv4 header.
    let datagram = vec![
        0x45, 0, 0, 0, 0, 0, 0, 0, 0x40, 1, 0, 0, 1, 2, 3, 4, 0, 0, 0, 0, // IP header
        0, 0, 0, 0, 0, 99, 0, 2, // ICMP echo reply, ident 99, seq 2
    ];
    let socket_source = IpAddr::V4(0, 0, 0, 0);
    assert_eq!(
        handle_datagram(&mut map, &datagram, socket_source, 7_000),
        IntakeOutcome::Delivered
    );
    let reply = rx.try_recv().unwrap();
    assert_eq!(reply.timestamp_nanos, 7_000);
    assert_eq!(reply.packet.get_source(), host);
    // The same datagram again: the entry is gone, the duplicate is dropped.
    assert_eq!(
        handle_datagram(&mut map, &datagram, socket_source, 8_000),
        IntakeOutcome::Dropped
    );
}

#[test]
fn intake_step_discards_garbage() {
    let mut map = ReplyMap::new();
    assert_eq!(
        handle_datagram(&mut map, &vec![0x45, 0, 0], IpAddr::V4(0, 0, 0, 0), 1),
        IntakeOutcome::Malformed
    );
    assert_eq!(
        handle_datagram(&mut map, &vec![1, 2], IpAddr::V6(1), 1),
        IntakeOutcome::Malformed
    );
}

#[test]
fn sequence_zero_is_rejected() {
    let mut map = ReplyMap::new();
    let pinger = Pinger::new(IpAddr::V4(127, 0, 0, 1), PingIdentifier(4242), true);
    let err = pinger
        .prepare_send(&mut map, PingSequence(0), &vec![1, 2, 3])
        .unwrap_err();
    assert_eq!(err, SurgeError::UnsupportedSeqNum);
}

#[test]
fn identity_follows_socket_kind() {
    let with_ident = Pinger::new(IpAddr::V4(1, 1, 1, 1), PingIdentifier(7), true);
    assert_eq!(with_ident.ident, Some(PingIdentifier(7)));
    let without = Pinger::new(IpAddr::V4(1, 1, 1, 1), PingIdentifier(7), false);
    assert_eq!(without.ident, None);
}

#[test]
fn send_encodes_configured_identity() {
    // A session to 127.0.0.1 with identifier 4242 sends type 8, code 0,
    // identifier and sequence big-endian, a valid checksum, the payload.
    let mut map = ReplyMap::new();
    let pinger = Pinger::new(IpAddr::V4(127, 0, 0, 1), PingIdentifier(4242), true);
    let payload: Vec<u8> = (b'A'..=b'Z').cycle().take(56).collect();
    let (bytes, _rx) = pinger
        .prepare_send(&mut map, PingSequence(1), &payload)
        .unwrap();
    assert_eq!(bytes.len(), 64);
    assert_eq!(bytes[0], 8);
    assert_eq!(bytes[1], 0);
    assert_eq!((bytes[4], bytes[5]), (0x10, 0x92));
    assert_eq!((bytes[6], bytes[7]), (0, 1));
    assert_eq!(&bytes[8..], &payload[..]);
    assert!(surge_ping::checksum::verify_checksum(&bytes));
}

#[test]
fn duplicate_send_rolls_back_nothing_and_reports_key() {
    let mut map = ReplyMap::new();
    let pinger = Pinger::new(IpAddr::V4(10, 0, 0, 1), PingIdentifier(1), false);
    let first = pinger.prepare_send(&mut map, PingSequence(5), &vec![0]);
    assert!(first.is_ok());
    let err = pinger
        .prepare_send(&mut map, PingSequence(5), &vec![0])
        .unwrap_err();
    assert_eq!(
        err,
        SurgeError::IdenticalRequests {
            host: IpAddr::V4(10, 0, 0, 1),
            ident: None,
            seq: PingSequence(5),
        }
    );
}

#[test]
fn oversized_send_rolls_back_entry() {
    let mut map = ReplyMap::new();
    let pinger = Pinger::new(IpAddr::V4(10, 0, 0, 1), PingIdentifier(1), true);
    let err = pinger
        .prepare_send(&mut map, PingSequence(4), &vec![0u8; 2000])
        .unwrap_err();
    assert_eq!(err, SurgeError::IncorrectBufferSize);
    // The rolled-back key is free again.
    assert!(pinger.prepare_send(&mut map, PingSequence(4), &vec![0]).is_ok());
}

#[test]
fn failed_transmission_rollback_frees_key() {
    let mut map = ReplyMap::new();
    let pinger = Pinger::new(IpAddr::V6(0x2001), PingIdentifier(3), true);
    let (_bytes, mut rx) = pinger
        .prepare_send(&mut map, PingSequence(1), &vec![9])
        .unwrap();
    // The transmission failed: roll the entry back.
    pinger.rollback_send(&mut map, PingSequence(1));
    // The channel closed without a value; the key is free again.
    assert!(rx.try_recv().is_err());
    assert!(pinger.prepare_send(&mut map, PingSequence(1), &vec![9]).is_ok());
}

#[test]
fn teardown_closes_outstanding_waiter() {
    let mut map = ReplyMap::new();
    let mut pinger = Pinger::new(IpAddr::V4(10, 1, 1, 1), PingIdentifier(5), true);
    let (_bytes, mut rx) = pinger
        .prepare_send(&mut map, PingSequence(8), &vec![1])
        .unwrap();
    pinger.commit_send(PingSequence(8));
    // The session is discarded with sequence 8 outstanding.
    pinger.teardown(&mut map);
    // Its channel closed without a value ...
    match rx.try_recv() {
        Err(tokio::sync::oneshot::error::TryRecvError::Closed) => {}
        other => panic!("expected a closed channel, got {:?}", other.is_ok()),
    }
    // ... which the awaiting call reports as a network error.
    let err = finish_recv(None, 123).unwrap_err();
    assert_eq!(err, SurgeError::NetworkError);
    // And the reply that arrives later finds no waiter.
    assert!(!map.dispatch(reply_packet(IpAddr::V4(10, 1, 1, 1), 5, 8), 999));
}

#[test]
fn teardown_before_any_send_is_noop() {
    let mut map = ReplyMap::new();
    let other = Pinger::new(IpAddr::V4(10, 1, 1, 2), PingIdentifier(6), true);
    let _rx = other.prepare_send(&mut map, PingSequence(1), &vec![1]).unwrap();
    let fresh = Pinger::new(IpAddr::V4(10, 1, 1, 1), PingIdentifier(5), true);
    fresh.teardown(&mut map);
    // The other session's entry is untouched.
    assert!(map.remove(IpAddr::V4(10, 1, 1, 2), Some(PingIdentifier(6)), PingSequence(1)));
}

#[test]
fn duration_is_floored_at_zero() {
    let packet = reply_packet(IpAddr::V4(1, 1, 1, 1), 1, 1);
    // The arrival timestamp precedes the send timestamp: clock noise.
    let (_p, duration) = finish_recv(
        Some(Reply { packet, timestamp_nanos: 50 }),
        100,
    )
    .unwrap();
    assert_eq!(duration, 0);
}

#[test]
fn duration_is_exact_difference() {
    let packet = reply_packet(IpAddr::V4(1, 1, 1, 1), 1, 1);
    let (_p, duration) = finish_recv(
        Some(Reply { packet, timestamp_nanos: 450 }),
        100,
    )
    .unwrap();
    assert_eq!(duration, 350);
}

#[test]
fn unexpected_packet_shape_is_reported() {
    let request = IcmpPacket::V4(Icmpv4Packet {
        source: IpAddr::V4(1, 1, 1, 1),
        icmp_type: 8,
        code: 0,
        checksum: 0,
        identifier: 1,
        sequence: 1,
        payload: Vec::new(),
    });
    assert_eq!(request.ensure_echo_reply(), Err(SurgeError::EchoRequestPacket));
    let reply = reply_packet(IpAddr::V4(1, 1, 1, 1), 1, 1);
    assert!(reply.ensure_echo_reply().is_ok());
}

#[test]
fn answer_counts_replies_and_losses() {
    let mut answer = Answer::new(String::from("example"), 5);
    assert_eq!(answer.transmitted, 5);
    assert_eq!(answer.received, 0);
    answer.update(Some(10));
    answer.update(None);
    answer.update(Some(4));
    answer.update(Some(25));
    assert_eq!(answer.received, 3);
    assert_eq!(answer.durations, vec![10, 4, 25]);
    assert_eq!(answer.min_duration(), Some(4));
    assert_eq!(answer.max_duration(), Some(25));
    assert_eq!(answer.sum_durations(), 39);
}

#[test]
fn answer_empty_has_no_extremes() {
    let answer = Answer::new(String::from("example"), 1);
    assert_eq!(answer.min_duration(), None);
    assert_eq!(answer.max_duration(), None);
    assert_eq!(answer.sum_durations(), 0);
}
