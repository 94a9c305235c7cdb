use ntp_time::timestamp::{NtpTimestamp, Timestamp, NTP_UNIX_DELTA};

#[test]
fn from_parts_accepts_a_normal_reading() {
    let t = Timestamp::from_parts(1_700_000_000, 123_456).unwrap();
    assert_eq!(t.seconds, 1_700_000_000);
    assert_eq!(t.micros, 123_456);
    assert_eq!(t.as_unix_micros(), 1_700_000_000_123_456);
}

#[test]
fn from_parts_refuses_a_full_second_of_micros() {
    assert_eq!(Timestamp::from_parts(10, 1_000_000), None);
    assert!(Timestamp::from_parts(10, 999_999).is_some());
}

#[test]
fn from_parts_refuses_seconds_beyond_32_bits() {
    assert_eq!(Timestamp::from_parts(4_294_967_296, 0), None);
    assert!(Timestamp::from_parts(4_294_967_295, 0).is_some());
}

#[test]
fn unix_epoch_encodes_to_the_ntp_delta() {
    let t = Timestamp { seconds: 0, micros: 0 };
    assert_eq!(t.to_ntp(), NtpTimestamp { seconds: NTP_UNIX_DELTA, fraction: 0 });
    assert_eq!(NTP_UNIX_DELTA, 2_208_988_800);
}

#[test]
fn half_a_second_encodes_to_half_the_fraction_range() {
    let t = Timestamp { seconds: 1_700_000_000, micros: 500_000 };
    let n = t.to_ntp();
    assert_eq!(n.seconds, 3_908_988_800);
    assert_eq!(n.fraction, 0x8000_0000);
}

#[test]
fn fraction_is_rounded_up_to_the_next_unit() {
    assert_eq!(Timestamp { seconds: 0, micros: 50 }.to_ntp().fraction, 214_749);
    assert_eq!(Timestamp { seconds: 0, micros: 60 }.to_ntp().fraction, 257_699);
    assert_eq!(Timestamp { seconds: 0, micros: 999_999 }.to_ntp().fraction, 4_294_963_002);
}

#[test]
fn decoding_truncates_to_whole_microseconds() {
    assert_eq!(NtpTimestamp { seconds: 0, fraction: 0 }.to_subsec_micros(), 0);
    assert_eq!(NtpTimestamp { seconds: 0, fraction: 1 }.to_subsec_micros(), 0);
    assert_eq!(NtpTimestamp { seconds: 0, fraction: 4_295 }.to_subsec_micros(), 1);
    assert_eq!(NtpTimestamp { seconds: 0, fraction: 0x8000_0000 }.to_subsec_micros(), 500_000);
    assert_eq!(NtpTimestamp { seconds: 0, fraction: u32::MAX }.to_subsec_micros(), 999_999);
}

#[test]
fn encoding_and_decoding_keeps_every_sampled_microsecond() {
    let mut micros: u32 = 0;
    while micros < 1_000_000 {
        let t = Timestamp { seconds: 1_234_567, micros };
        let n = t.to_ntp();
        assert_eq!(n.to_unix_seconds(), 1_234_567);
        assert_eq!(n.to_subsec_micros(), micros);
        assert_eq!(n.as_unix_micros(), t.as_unix_micros());
        micros += 7_919;
    }
}

#[test]
fn ntp_seconds_wrap_at_the_era_boundary() {
    let last = Timestamp { seconds: 2_085_978_495, micros: 0 }.to_ntp();
    assert_eq!(last.seconds, u32::MAX);
    let first = Timestamp { seconds: 2_085_978_496, micros: 0 }.to_ntp();
    assert_eq!(first.seconds, 0);
    assert_eq!(first.to_unix_seconds(), 2_085_978_496);
    assert_eq!(NtpTimestamp { seconds: u32::MAX, fraction: 0 }.to_unix_seconds(), 2_085_978_495);
    assert_eq!(
        NtpTimestamp { seconds: NTP_UNIX_DELTA - 1, fraction: 0 }.to_unix_seconds(),
        u32::MAX
    );
}

#[test]
fn micros_beyond_a_second_carry_into_the_seconds() {
    let t = Timestamp { seconds: 10, micros: 2_500_000 };
    assert_eq!(t.as_unix_micros(), 12_500_000);
    let n = t.to_ntp();
    assert_eq!(n.seconds, NTP_UNIX_DELTA + 12);
    assert_eq!(n.fraction, 0x8000_0000);
}
