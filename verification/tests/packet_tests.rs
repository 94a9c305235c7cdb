use ntp_time::packet::{NtpPacket, CLIENT_FLAGS, MODE_CLIENT, NTP_VERSION, PACKET_LEN};
use ntp_time::timestamp::NtpTimestamp;

fn sample_packet() -> NtpPacket {
    NtpPacket {
        flags: 0x24,
        stratum: 2,
        poll: -6,
        precision: -23,
        root_delay: 0x0102_0304,
        root_dispersion: 0x0506_0708,
        reference_id: 0x4750_5300,
        reference: NtpTimestamp { seconds: 0x1112_1314, fraction: 0x1516_1718 },
        origin: NtpTimestamp { seconds: 0x2122_2324, fraction: 0x2526_2728 },
        receive: NtpTimestamp { seconds: 0x3132_3334, fraction: 0x3536_3738 },
        transmit: NtpTimestamp { seconds: 0xf1f2_f3f4, fraction: 0xf5f6_f7f8 },
    }
}

#[test]
fn client_request_has_client_flags_and_zero_fields() {
    let transmit = NtpTimestamp { seconds: 0x83aa_8268, fraction: 0 };
    let p = NtpPacket::client_request(transmit);
    assert_eq!(p.flags, 0x23);
    assert_eq!(CLIENT_FLAGS, 0x23);
    assert_eq!(p.leap_indicator(), 0);
    assert_eq!(p.version(), NTP_VERSION);
    assert_eq!(p.version(), 4);
    assert_eq!(p.mode(), MODE_CLIENT);
    assert_eq!(p.mode(), 3);
    assert_eq!(p.stratum, 0);
    assert_eq!(p.poll, 0);
    assert_eq!(p.precision, 0);
    assert_eq!(p.root_delay, 0);
    assert_eq!(p.root_dispersion, 0);
    assert_eq!(p.reference_id, 0);
    let zero = NtpTimestamp { seconds: 0, fraction: 0 };
    assert_eq!(p.reference, zero);
    assert_eq!(p.origin, zero);
    assert_eq!(p.receive, zero);
    assert_eq!(p.transmit, transmit);
}

#[test]
fn client_request_encodes_to_the_expected_bytes() {
    let transmit = NtpTimestamp { seconds: 0x83aa_8268, fraction: 0x0003_46dd };
    let bytes = NtpPacket::client_request(transmit).encode();
    let mut expected = vec![0u8; 48];
    expected[0] = 0x23;
    expected[40] = 0x83;
    expected[41] = 0xaa;
    expected[42] = 0x82;
    expected[43] = 0x68;
    expected[44] = 0x00;
    expected[45] = 0x03;
    expected[46] = 0x46;
    expected[47] = 0xdd;
    assert_eq!(bytes, expected);
}

#[test]
fn encode_writes_every_field_big_endian() {
    let bytes = sample_packet().encode();
    assert_eq!(bytes.len(), PACKET_LEN);
    assert_eq!(bytes.len(), 48);
    let expected: Vec<u8> = vec![
        0x24, 0x02, 0xfa, 0xe9, 0x01, 0x02, 0x03, 0x04, 0x05, 0x06, 0x07, 0x08, 0x47, 0x50, 0x53,
        0x00, 0x11, 0x12, 0x13, 0x14, 0x15, 0x16, 0x17, 0x18, 0x21, 0x22, 0x23, 0x24, 0x25, 0x26,
        0x27, 0x28, 0x31, 0x32, 0x33, 0x34, 0x35, 0x36, 0x37, 0x38, 0xf1, 0xf2, 0xf3, 0xf4, 0xf5,
        0xf6, 0xf7, 0xf8,
    ];
    assert_eq!(bytes, expected);
}

#[test]
fn decode_reads_back_what_encode_wrote() {
    let p = sample_packet();
    assert_eq!(NtpPacket::decode(&p.encode()), Some(p));
}

#[test]
fn encode_writes_back_what_decode_read() {
    let mut bytes = vec![0u8; 48];
    let mut i: usize = 0;
    while i < 48 {
        bytes[i] = (i as u8).wrapping_mul(37).wrapping_add(201);
        i += 1;
    }
    let p = NtpPacket::decode(&bytes).unwrap();
    assert_eq!(p.encode(), bytes);
}

#[test]
fn decode_refuses_every_length_but_48() {
    assert_eq!(NtpPacket::decode(&[]), None);
    assert_eq!(NtpPacket::decode(&[0u8; 47]), None);
    assert_eq!(NtpPacket::decode(&[0u8; 49]), None);
    assert!(NtpPacket::decode(&[0u8; 48]).is_some());
}

#[test]
fn decode_reads_signed_poll_and_precision() {
    let mut bytes = [0u8; 48];
    bytes[2] = 0x80;
    bytes[3] = 0xff;
    let p = NtpPacket::decode(&bytes).unwrap();
    assert_eq!(p.poll, -128);
    assert_eq!(p.precision, -1);
    bytes[2] = 0x7f;
    bytes[3] = 0x00;
    let p = NtpPacket::decode(&bytes).unwrap();
    assert_eq!(p.poll, 127);
    assert_eq!(p.precision, 0);
}

#[test]
fn flags_split_into_leap_version_and_mode() {
    let mut p = sample_packet();
    p.flags = 0xe4;
    assert_eq!(p.leap_indicator(), 3);
    assert_eq!(p.version(), 4);
    assert_eq!(p.mode(), 4);
    p.flags = 0x1d;
    assert_eq!(p.leap_indicator(), 0);
    assert_eq!(p.version(), 3);
    assert_eq!(p.mode(), 5);
}
