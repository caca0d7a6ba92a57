use icmp_echo::checksum::checksum;

#[test]
fn empty_buffer_yields_identity_checksum() {
    let buf: Vec<u8> = Vec::new();
    assert_eq!(checksum(&buf), 0xffff);
}

#[test]
fn single_word_checksum() {
    // One big-endian word 0x1234; its complement is 0xedcb.
    let buf = vec![0x12u8, 0x34u8];
    assert_eq!(checksum(&buf), 0xedcb);
}

#[test]
fn odd_length_final_byte_is_high_byte() {
    // Words: 0x1234 and 0x5600 (trailing byte as high byte); sum 0x6834.
    let buf = vec![0x12u8, 0x34u8, 0x56u8];
    assert_eq!(checksum(&buf), !0x6834u16);
}

#[test]
fn carries_fold_end_around() {
    // Sum 0x1fffe folds to 0xffff, whose complement is zero.
    let buf = vec![0xffu8, 0xffu8, 0xffu8, 0xffu8];
    assert_eq!(checksum(&buf), 0x0000);
}

#[test]
fn carries_fold_with_remainder() {
    // 0xf000 + 0xf000 = 0x1e000 folds to 0xe001.
    let buf = vec![0xf0u8, 0x00u8, 0xf0u8, 0x00u8];
    assert_eq!(checksum(&buf), !0xe001u16);
}

#[test]
fn round_trip_over_header_yields_zero() {
    // An IPv4-like header with its checksum field (offset 10) zeroed.
    let mut buf = vec![
        0x45u8, 0x00, 0x00, 0x54, 0x1c, 0x46, 0x40, 0x00, 0x40, 0x01, 0x00, 0x00, 0x0a, 0x00,
        0x00, 0x02, 0x0a, 0x00, 0x00, 0x01,
    ];
    let c = checksum(&buf);
    buf[10] = (c >> 8) as u8;
    buf[11] = (c & 0xff) as u8;
    assert_eq!(checksum(&buf), 0);
}

#[test]
fn round_trip_over_odd_length_buffer_yields_zero() {
    let mut buf = vec![0x08u8, 0x00, 0x00, 0x00, 0x12, 0x34, 0x00, 0x01, 0xab];
    let c = checksum(&buf);
    buf[2] = (c >> 8) as u8;
    buf[3] = (c & 0xff) as u8;
    assert_eq!(checksum(&buf), 0);
}
