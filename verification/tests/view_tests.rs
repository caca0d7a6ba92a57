use icmp_echo::icmp::{ICMPPacket, MutICMPPacket};
use icmp_echo::ipv4::{IPv4Packet, MutIPv4Packet};

fn sample_header() -> Vec<u8> {
    vec![
        0x45u8, 0x00, // version 4, IHL 5, TOS 0
        0x00, 0x54, // total length 0x0054
        0x1c, 0x46, // identification 0x1c46
        0x40, 0x00, // flags, fragment offset
        0x40, 0x11, // TTL 64, protocol 17 (UDP)
        0xb1, 0xe6, // header checksum
        0x0a, 0x00, 0x00, 0x02, // source 10.0.0.2
        0x0a, 0x00, 0x00, 0x01, // destination 10.0.0.1
    ]
}

#[test]
fn ipv4_view_rejects_nineteen_bytes_accepts_twenty() {
    let short = vec![0u8; 19];
    assert!(IPv4Packet::new(&short).is_none());
    assert!(MutIPv4Packet::new(short).is_none());
    let ok = vec![0u8; 20];
    assert!(IPv4Packet::new(&ok).is_some());
    assert!(MutIPv4Packet::new(ok).is_some());
}

#[test]
fn icmp_view_rejects_seven_bytes_accepts_eight() {
    let short = vec![0u8; 7];
    assert!(ICMPPacket::new(&short).is_none());
    assert!(MutICMPPacket::new(short).is_none());
    let ok = vec![0u8; 8];
    assert!(ICMPPacket::new(&ok).is_some());
    assert!(MutICMPPacket::new(ok).is_some());
}

#[test]
fn ipv4_getters_decode_big_endian_fields() {
    let buf = sample_header();
    let p = IPv4Packet::new(&buf).unwrap();
    assert_eq!(p.version(), 4);
    assert_eq!(p.header_length(), 5);
    assert_eq!(p.total_length(), 0x0054);
    assert_eq!(p.identification(), 0x1c46);
    assert_eq!(p.ttl(), 64);
    assert_eq!(p.protocol(), 17);
    assert_eq!(p.header_checksum(), 0xb1e6);
    assert_eq!(p.source_address(), 0x0a000002);
    assert_eq!(p.destination_address(), 0x0a000001);
}

#[test]
fn ipv4_payload_starts_after_declared_header() {
    let mut buf = sample_header();
    buf.extend_from_slice(&[0xaa, 0xbb, 0xcc, 0xdd]);
    let p = IPv4Packet::new(&buf).unwrap();
    assert_eq!(p.payload(), &[0xaa, 0xbb, 0xcc, 0xdd]);
}

#[test]
fn ihl_setter_round_trips_and_preserves_version() {
    for v in 0u8..=15 {
        let mut p = MutIPv4Packet::new(sample_header()).unwrap();
        p.set_header_length(v);
        let q = p.as_immutable();
        assert_eq!(q.header_length(), v);
        assert_eq!(q.version(), 4);
    }
}

#[test]
fn ihl_setter_uses_low_nibble_only() {
    let mut p = MutIPv4Packet::new(sample_header()).unwrap();
    p.set_header_length(0xf7);
    let q = p.as_immutable();
    assert_eq!(q.header_length(), 7);
    assert_eq!(q.version(), 4);
}

#[test]
fn ipv4_setters_write_big_endian_fields() {
    let mut p = MutIPv4Packet::new(sample_header()).unwrap();
    p.set_identification(0xbeef);
    p.set_header_checksum(0x1234);
    p.set_source_address(0xc0a80101);
    p.set_destination_address(0xc0a80102);
    let buf = p.into_vec();
    assert_eq!(&buf[4..6], &[0xbe, 0xef]);
    assert_eq!(&buf[10..12], &[0x12, 0x34]);
    assert_eq!(&buf[12..16], &[0xc0, 0xa8, 0x01, 0x01]);
    assert_eq!(&buf[16..20], &[0xc0, 0xa8, 0x01, 0x02]);
    let p = IPv4Packet::new(&buf).unwrap();
    assert_eq!(p.identification(), 0xbeef);
    assert_eq!(p.header_checksum(), 0x1234);
    assert_eq!(p.source_address(), 0xc0a80101);
    assert_eq!(p.destination_address(), 0xc0a80102);
}

#[test]
fn ipv4_set_payload_replaces_everything_after_header() {
    let mut buf = sample_header();
    buf.extend_from_slice(&[0u8; 4]);
    let mut p = MutIPv4Packet::new(buf).unwrap();
    p.set_payload(&[1, 2, 3, 4]);
    let out = p.into_vec();
    assert_eq!(&out[..20], &sample_header()[..]);
    assert_eq!(&out[20..], &[1, 2, 3, 4]);
}

#[test]
fn icmp_getters_decode_big_endian_fields() {
    let buf = vec![0x08u8, 0x00, 0xab, 0xcd, 0x12, 0x34, 0x00, 0x07, 0xff];
    let p = ICMPPacket::new(&buf).unwrap();
    assert_eq!(p.icmp_type(), 8);
    assert_eq!(p.icmp_code(), 0);
    assert_eq!(p.header_checksum(), 0xabcd);
    assert_eq!(p.identifier(), 0x1234);
    assert_eq!(p.sequence_number(), 0x0007);
    assert_eq!(p.data(), &buf[..]);
}

#[test]
fn icmp_setters_write_fields_in_place() {
    let mut p = MutICMPPacket::new(vec![0xffu8; 10]).unwrap();
    p.set_icmp_type(0);
    p.set_icmp_code(0);
    p.set_header_checksum(0x0102);
    p.set_echo_data(&[9, 8, 7, 6, 5, 4]);
    let out = p.into_vec();
    assert_eq!(out, vec![0x00, 0x00, 0x01, 0x02, 9, 8, 7, 6, 5, 4]);
}
