use packet_play::model::Error;
use packet_play::pcap::{parse_pcap_file, PcapMagicNumber};

fn push_u16_le(buf: &mut Vec<u8>, v: u16) {
    buf.push((v & 0xFF) as u8);
    buf.push((v >> 8) as u8);
}

fn push_u16_be(buf: &mut Vec<u8>, v: u16) {
    buf.push((v >> 8) as u8);
    buf.push((v & 0xFF) as u8);
}

fn push_u32_le(buf: &mut Vec<u8>, v: u32) {
    buf.push((v & 0xFF) as u8);
    buf.push(((v >> 8) & 0xFF) as u8);
    buf.push(((v >> 16) & 0xFF) as u8);
    buf.push((v >> 24) as u8);
}

fn push_u32_be(buf: &mut Vec<u8>, v: u32) {
    buf.push((v >> 24) as u8);
    buf.push(((v >> 16) & 0xFF) as u8);
    buf.push(((v >> 8) & 0xFF) as u8);
    buf.push((v & 0xFF) as u8);
}

/// A little-endian (microsecond) header with the given versions, snap
/// length and link type.
fn le_header(major: u16, minor: u16, snap_len: u32, link_type: u32) -> Vec<u8> {
    let mut buf = Vec::new();
    push_u32_le(&mut buf, 0xA1B2_C3D4);
    push_u16_le(&mut buf, major);
    push_u16_le(&mut buf, minor);
    buf.extend_from_slice(&[0u8; 8]);
    push_u32_le(&mut buf, snap_len);
    push_u32_le(&mut buf, link_type);
    buf
}

fn le_record(buf: &mut Vec<u8>, secs: u32, frac: u32, orig_len: u32, payload: &[u8]) {
    push_u32_le(buf, secs);
    push_u32_le(buf, frac);
    push_u32_le(buf, payload.len() as u32);
    push_u32_le(buf, orig_len);
    buf.extend_from_slice(payload);
}

#[test]
fn magic_le_selects_micros_and_decodes_header() {
    // Top nibble of the link type is 0xA; bit 27 is set.
    let mut buf = le_header(2, 4, 65535, 0xA800_0007);
    le_record(&mut buf, 1, 2, 5, &[0xAA, 0xBB, 0xCC]);

    let pcap = parse_pcap_file(&buf).expect("a well-formed buffer must parse");
    assert_eq!(pcap.header.magic_number, PcapMagicNumber::LeMicros);
    assert_eq!(pcap.header.major_version, 2);
    assert_eq!(pcap.header.minor_version, 4);
    assert_eq!(pcap.header.snap_len, 65535);
    assert_eq!(pcap.header.link_type, 0xA800_0007);
    assert_eq!(pcap.header.frame_cyclic_sequence, 0xA);
    assert!(pcap.header.f_bit);
    assert_eq!(pcap.packets.len(), 1);
    assert_eq!(pcap.packets[0].ts_secs, 1);
    assert_eq!(pcap.packets[0].ts_secs_fraction, 2);
    assert_eq!(pcap.packets[0].captured_packet_length, 3);
    assert_eq!(pcap.packets[0].original_packet_length, 5);
    assert_eq!(pcap.packets[0].packet_data, vec![0xAA, 0xBB, 0xCC]);
}

#[test]
fn magic_be_selects_nanos_and_decodes_header() {
    let mut buf = Vec::new();
    push_u32_be(&mut buf, 0xA1B2_3C4D);
    push_u16_be(&mut buf, 2);
    push_u16_be(&mut buf, 4);
    buf.extend_from_slice(&[0u8; 8]);
    push_u32_be(&mut buf, 1024);
    push_u32_be(&mut buf, 0x3000_0001);
    push_u32_be(&mut buf, 9);
    push_u32_be(&mut buf, 777);
    push_u32_be(&mut buf, 2);
    push_u32_be(&mut buf, 2);
    buf.extend_from_slice(&[0x01, 0x02]);

    let pcap = parse_pcap_file(&buf).expect("a well-formed buffer must parse");
    assert_eq!(pcap.header.magic_number, PcapMagicNumber::BeNanos);
    assert_eq!(pcap.header.major_version, 2);
    assert_eq!(pcap.header.minor_version, 4);
    assert_eq!(pcap.header.snap_len, 1024);
    assert_eq!(pcap.header.link_type, 0x3000_0001);
    assert_eq!(pcap.header.frame_cyclic_sequence, 3);
    assert!(!pcap.header.f_bit);
    assert_eq!(pcap.packets.len(), 1);
    assert_eq!(pcap.packets[0].ts_secs, 9);
    assert_eq!(pcap.packets[0].ts_secs_fraction, 777);
    assert_eq!(pcap.packets[0].packet_data, vec![0x01, 0x02]);
}

#[test]
fn magic_classifier_matches_the_buffer_rule() {
    assert_eq!(PcapMagicNumber::from(0xA1B2_C3D4), PcapMagicNumber::LeMicros);
    assert_eq!(PcapMagicNumber::from(0xA1B2_3C4D), PcapMagicNumber::BeNanos);
    // Any value other than the microsecond magic selects the nanosecond
    // variant.
    assert_eq!(PcapMagicNumber::from(0), PcapMagicNumber::BeNanos);
    assert_eq!(PcapMagicNumber::from(0xDEAD_BEEF), PcapMagicNumber::BeNanos);
}

#[test]
fn unknown_magic_is_treated_as_big_endian_nanos() {
    let mut buf = vec![0u8; 24];
    // First four bytes read little-endian are 0, which is not the
    // microsecond magic, so the whole file is big-endian nanoseconds.
    let pcap = parse_pcap_file(&buf).expect("an all-zero header still parses");
    assert_eq!(pcap.header.magic_number, PcapMagicNumber::BeNanos);
    buf[23] = 1;
    let pcap = parse_pcap_file(&buf).expect("an all-zero header still parses");
    assert_eq!(pcap.header.link_type, 1);
}

#[test]
fn payload_extraction_advances_cursor() {
    // Two back-to-back records: the second decodes correctly only if the
    // first consumed exactly its fixed part plus its declared payload.
    let mut buf = le_header(2, 4, 100, 0);
    le_record(&mut buf, 10, 20, 4, &[1, 2, 3, 4]);
    le_record(&mut buf, 30, 40, 0, &[]);

    let pcap = parse_pcap_file(&buf).expect("a well-formed buffer must parse");
    assert_eq!(pcap.packets.len(), 2);
    assert_eq!(pcap.packets[0].captured_packet_length, 4);
    assert_eq!(pcap.packets[0].packet_data, vec![1, 2, 3, 4]);
    assert_eq!(pcap.packets[1].ts_secs, 30);
    assert_eq!(pcap.packets[1].ts_secs_fraction, 40);
    assert_eq!(pcap.packets[1].captured_packet_length, 0);
    assert_eq!(pcap.packets[1].packet_data, Vec::<u8>::new());
}

#[test]
fn truncated_last_record_rejected() {
    let mut buf = le_header(2, 4, 100, 0);
    le_record(&mut buf, 10, 20, 4, &[1, 2, 3, 4]);
    // Declares 10 payload bytes but only 3 remain.
    push_u32_le(&mut buf, 1);
    push_u32_le(&mut buf, 2);
    push_u32_le(&mut buf, 10);
    push_u32_le(&mut buf, 10);
    buf.extend_from_slice(&[7, 8, 9]);

    let result = parse_pcap_file(&buf);
    assert!(matches!(result, Err(Error::ParsePcapError)));
}

#[test]
fn truncated_fixed_part_rejected() {
    let mut buf = le_header(2, 4, 100, 0);
    // Only half of a record's fixed part.
    buf.extend_from_slice(&[0u8; 8]);
    let result = parse_pcap_file(&buf);
    assert!(matches!(result, Err(Error::ParsePcapError)));
}

#[test]
fn short_header_rejected() {
    let buf = vec![0xD4, 0xC3, 0xB2, 0xA1, 0, 0];
    let result = parse_pcap_file(&buf);
    assert!(matches!(result, Err(Error::ParsePcapError)));
    let result = parse_pcap_file(&[]);
    assert!(matches!(result, Err(Error::ParsePcapError)));
}

#[test]
fn zero_packets_is_a_valid_recording() {
    let buf = le_header(2, 4, 100, 0);
    let pcap = parse_pcap_file(&buf).expect("a bare header is an empty recording");
    assert_eq!(pcap.packets.len(), 0);
}
