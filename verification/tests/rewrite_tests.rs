use icmp_echo::checksum::checksum;
use icmp_echo::ipv4::IPv4Packet;
use icmp_echo::rewrite::{build_echo_reply, handle_packet, PacketAction};

/// A minimal 28-byte ICMP Echo Request: 20-byte IPv4 header (IHL 5, total
/// length 28, protocol 1, 10.0.0.2 -> 10.0.0.1) and an 8-byte ICMP header
/// (type 8, code 0, identifier 1, sequence 1), with both checksums filled.
fn echo_request_28() -> Vec<u8> {
    let mut buf = vec![
        0x45u8, 0x00, // version 4, IHL 5
        0x00, 0x1c, // total length 28
        0x12, 0x34, // identification 0x1234
        0x40, 0x00, // flags, fragment offset
        0x40, 0x01, // TTL 64, protocol 1 (ICMP)
        0x00, 0x00, // header checksum (filled below)
        0x0a, 0x00, 0x00, 0x02, // source 10.0.0.2
        0x0a, 0x00, 0x00, 0x01, // destination 10.0.0.1
        0x08, 0x00, // ICMP type 8 (Echo Request), code 0
        0x00, 0x00, // ICMP checksum (filled below)
        0x00, 0x01, // identifier 1
        0x00, 0x01, // sequence number 1
    ];
    let ic = checksum(&buf[20..28]);
    buf[22] = (ic >> 8) as u8;
    buf[23] = (ic & 0xff) as u8;
    let hc = checksum(&buf[0..20]);
    buf[10] = (hc >> 8) as u8;
    buf[11] = (hc & 0xff) as u8;
    buf
}

#[test]
fn echo_request_yields_reply_with_swapped_addresses() {
    let req = echo_request_28();
    let reply = match handle_packet(&req) {
        PacketAction::Reply(v) => v,
        _ => panic!("expected a reply"),
    };
    assert_eq!(reply.len(), 28);
    let p = IPv4Packet::new(&reply).unwrap();
    assert_eq!(p.version(), 4);
    assert_eq!(p.header_length(), 5);
    assert_eq!(p.total_length(), 28);
    assert_eq!(p.ttl(), 64);
    assert_eq!(p.protocol(), 1);
    assert_eq!(p.source_address(), 0x0a000001);
    assert_eq!(p.destination_address(), 0x0a000002);
    // ICMP side: Echo Reply with identifier and sequence echoed.
    assert_eq!(reply[20], 0);
    assert_eq!(reply[21], 0);
    assert_eq!(&reply[24..26], &[0x00, 0x01]);
    assert_eq!(&reply[26..28], &[0x00, 0x01]);
    // Both checksums verify: recomputing over the completed bytes gives 0.
    assert_eq!(checksum(&reply[0..20]), 0);
    assert_eq!(checksum(&reply[20..28]), 0);
}

#[test]
fn reply_identification_is_masked() {
    // Identification 0x1234 is rewritten to 0x1234 & 0xf8ff == 0x1034.
    let req = echo_request_28();
    let reply = match handle_packet(&req) {
        PacketAction::Reply(v) => v,
        _ => panic!("expected a reply"),
    };
    let p = IPv4Packet::new(&reply).unwrap();
    assert_eq!(p.identification(), 0x1034);
}

#[test]
fn reply_echoes_payload_and_trims_trailing_garbage() {
    // Four opaque data bytes; the physical buffer carries four extra bytes
    // beyond the declared total length, which must not be echoed.
    let mut req = echo_request_28();
    req[3] = 32; // total length 32
    req.extend_from_slice(&[0xde, 0xad, 0xbe, 0xef]);
    req.extend_from_slice(&[0x99, 0x99, 0x99, 0x99]); // trailing garbage
    let ic = checksum(&req[20..32]);
    req[22] = (ic >> 8) as u8;
    req[23] = (ic & 0xff) as u8;
    let reply = match handle_packet(&req) {
        PacketAction::Reply(v) => v,
        _ => panic!("expected a reply"),
    };
    assert_eq!(reply.len(), 32);
    assert_eq!(&reply[28..32], &[0xde, 0xad, 0xbe, 0xef]);
    assert_eq!(checksum(&reply[20..32]), 0);
}

#[test]
fn udp_packet_passes_through_unchanged() {
    let mut req = echo_request_28();
    req[9] = 17; // protocol UDP
    match handle_packet(&req) {
        PacketAction::PassThrough => {}
        _ => panic!("expected pass-through"),
    }
}

#[test]
fn icmp_destination_unreachable_passes_through() {
    let mut req = echo_request_28();
    req[20] = 3; // ICMP type 3
    match handle_packet(&req) {
        PacketAction::PassThrough => {}
        _ => panic!("expected pass-through"),
    }
}

#[test]
fn ten_byte_buffer_is_discarded() {
    let buf = vec![0x45u8; 10];
    match handle_packet(&buf) {
        PacketAction::Discard => {}
        _ => panic!("expected discard"),
    }
}

#[test]
fn icmp_without_full_header_is_discarded() {
    // Protocol says ICMP but only 4 payload bytes follow the IPv4 header.
    let mut req = echo_request_28();
    req.truncate(24);
    match handle_packet(&req) {
        PacketAction::Discard => {}
        _ => panic!("expected discard"),
    }
}

#[test]
fn echo_request_with_options_is_discarded() {
    // IHL 6 (one option word) cannot be answered: replies carry no options.
    let req = vec![
        0x46u8, 0x00, // version 4, IHL 6
        0x00, 0x20, // total length 32
        0x12, 0x34, 0x40, 0x00, 0x40, 0x01, 0x00, 0x00, // id, frag, TTL, ICMP, checksum
        0x0a, 0x00, 0x00, 0x02, 0x0a, 0x00, 0x00, 0x01, // addresses
        0x00, 0x00, 0x00, 0x00, // one option word
        0x08, 0x00, 0x00, 0x00, 0x00, 0x01, 0x00, 0x01, // Echo Request
    ];
    match handle_packet(&req) {
        PacketAction::Discard => {}
        _ => panic!("expected discard"),
    }
}

#[test]
fn echo_request_with_overlong_total_length_is_discarded() {
    // Declared total length beyond the buffer actually read.
    let mut req = echo_request_28();
    req[3] = 64;
    match handle_packet(&req) {
        PacketAction::Discard => {}
        _ => panic!("expected discard"),
    }
}

#[test]
fn echo_request_with_undersized_total_length_is_discarded() {
    // Declared total length below the 28-byte minimum for a reply.
    let mut req = echo_request_28();
    req[3] = 24;
    match handle_packet(&req) {
        PacketAction::Discard => {}
        _ => panic!("expected discard"),
    }
}

#[test]
fn build_echo_reply_matches_handle_packet() {
    let req = echo_request_28();
    let direct = build_echo_reply(&req);
    match handle_packet(&req) {
        PacketAction::Reply(v) => assert_eq!(v, direct),
        _ => panic!("expected a reply"),
    }
}
