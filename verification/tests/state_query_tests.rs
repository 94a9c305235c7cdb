use ntp_time::endpoint::{Endpoint, HostAddress, DEFAULT_TIMEOUT_MILLIS, NTP_PORT};
use ntp_time::query::{current_time_text, format_sample, format_snapshot};
use ntp_time::sample::TimeSample;
use ntp_time::state::SharedTimeState;

fn sample(seconds: u32, seconds_fraction: u32) -> TimeSample {
    TimeSample { seconds, seconds_fraction, roundtrip_micros: 0, offset_micros: 0 }
}

#[test]
fn snapshot_before_any_publish_is_absent() {
    let state = SharedTimeState::new();
    assert_eq!(state.snapshot(), None);
    assert_eq!(current_time_text(&state), "NTP time: unavailable");
}

#[test]
fn text_after_publish_shows_seconds_and_padded_fraction() {
    let mut state = SharedTimeState::new();
    state.publish(sample(1_700_000_000, 500_000));
    assert_eq!(current_time_text(&state), "NTP time: 1700000000.500000");
}

#[test]
fn snapshot_returns_the_whole_published_sample() {
    let mut state = SharedTimeState::new();
    let first = TimeSample {
        seconds: 1,
        seconds_fraction: 2,
        roundtrip_micros: 3,
        offset_micros: -4,
    };
    let second = TimeSample {
        seconds: 10,
        seconds_fraction: 20,
        roundtrip_micros: 30,
        offset_micros: 40,
    };
    state.publish(first);
    assert_eq!(state.snapshot(), Some(first));
    state.publish(second);
    assert_eq!(state.snapshot(), Some(second));
    assert_eq!(state.snapshot(), Some(second));
}

#[test]
fn independent_states_do_not_share_samples() {
    let mut a = SharedTimeState::new();
    let b = SharedTimeState::new();
    a.publish(sample(5, 6));
    assert_eq!(a.snapshot(), Some(sample(5, 6)));
    assert_eq!(b.snapshot(), None);
}

#[test]
fn fraction_is_padded_to_six_digits() {
    assert_eq!(format_sample(&sample(7, 42)), "NTP time: 7.000042");
    assert_eq!(format_sample(&sample(0, 0)), "NTP time: 0.000000");
    assert_eq!(format_sample(&sample(12, 999_999)), "NTP time: 12.999999");
    assert_eq!(format_sample(&sample(12, 100_000)), "NTP time: 12.100000");
}

#[test]
fn fraction_longer_than_six_digits_is_not_cut() {
    assert_eq!(format_sample(&sample(1, 1_000_000)), "NTP time: 1.1000000");
    assert_eq!(format_sample(&sample(u32::MAX, u32::MAX)), "NTP time: 4294967295.4294967295");
}

#[test]
fn text_matches_the_standard_formatter() {
    let values: [u32; 9] = [0, 1, 9, 10, 99_999, 100_000, 999_999, 1_000_000, 4_294_967_295];
    for seconds in values {
        for fraction in values {
            let expected = format!("NTP time: {}.{:06}", seconds, fraction);
            assert_eq!(format_sample(&sample(seconds, fraction)), expected);
        }
    }
}

#[test]
fn format_snapshot_covers_both_cases() {
    assert_eq!(format_snapshot(None), "NTP time: unavailable");
    assert_eq!(format_snapshot(Some(sample(3, 14))), "NTP time: 3.000014");
}

#[test]
fn endpoint_refuses_a_zero_timeout() {
    assert!(Endpoint::new(HostAddress::V4(0x7f00_0001), NTP_PORT, 0).is_none());
}

#[test]
fn endpoint_keeps_what_it_was_made_with() {
    let e = Endpoint::new(HostAddress::V4(0xd8ef_2300), NTP_PORT, DEFAULT_TIMEOUT_MILLIS).unwrap();
    assert_eq!(e.address(), HostAddress::V4(0xd8ef_2300));
    assert_eq!(e.port(), 123);
    assert_eq!(e.timeout_millis(), 2_000);
    let v6 = Endpoint::new(HostAddress::V6(1), 1234, 1).unwrap();
    assert_eq!(v6.address(), HostAddress::V6(1));
    assert_eq!(v6.port(), 1234);
    assert_eq!(v6.timeout_millis(), 1);
}
