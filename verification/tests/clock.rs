use packet_play::clock::{duration_from_timestamp, interval};
use packet_play::duration::PlayDuration;
use packet_play::pcap::{PcapMagicNumber, PcapPacketRecord};

fn record(secs: u32, frac: u32) -> PcapPacketRecord {
    PcapPacketRecord {
        ts_secs: secs,
        ts_secs_fraction: frac,
        captured_packet_length: 0,
        original_packet_length: 0,
        packet_data: Vec::new(),
    }
}

#[test]
fn micros_fraction_scales_to_nanos() {
    let d = duration_from_timestamp(&PcapMagicNumber::LeMicros, &record(3, 500_000));
    assert_eq!(d, PlayDuration { secs: 3, nanos: 500_000_000 });
}

#[test]
fn micros_fraction_overflow_carries_one_second() {
    // 4_300_000 * 1000 = 4_300_000_000, which overflows 32 bits; the
    // wrapped remainder is 4_300_000_000 - 4_294_967_296 = 5_032_704.
    let d = duration_from_timestamp(&PcapMagicNumber::LeMicros, &record(7, 4_300_000));
    assert_eq!(d, PlayDuration { secs: 8, nanos: 5_032_704 });
}

#[test]
fn micros_overflow_remainder_above_a_second_carries_again() {
    // 5_300_000 * 1000 wraps to 1_005_032_704 nanoseconds: one second of
    // carry from the overflow, one more from normalisation.
    let d = duration_from_timestamp(&PcapMagicNumber::LeMicros, &record(0, 5_300_000));
    assert_eq!(d, PlayDuration { secs: 2, nanos: 5_032_704 });
}

#[test]
fn nanos_fraction_is_used_unmodified() {
    let d = duration_from_timestamp(&PcapMagicNumber::BeNanos, &record(3, 500_000));
    assert_eq!(d, PlayDuration { secs: 3, nanos: 500_000 });
    // A fraction of a whole second or more is carried, never multiplied.
    let d = duration_from_timestamp(&PcapMagicNumber::BeNanos, &record(3, 1_500_000_000));
    assert_eq!(d, PlayDuration { secs: 4, nanos: 500_000_000 });
}

#[test]
fn interval_is_the_timestamp_difference() {
    let d = interval(&PcapMagicNumber::BeNanos, &record(1, 200), &record(3, 100));
    assert_eq!(d, PlayDuration { secs: 1, nanos: 999_999_900 });
}

#[test]
fn interval_floors_at_zero() {
    // The later packet carries an earlier timestamp: the wait is zero,
    // never negative.
    let d = interval(&PcapMagicNumber::BeNanos, &record(2, 0), &record(1, 999_999_999));
    assert_eq!(d, PlayDuration { secs: 0, nanos: 0 });
    // Equal timestamps also give zero.
    let d = interval(&PcapMagicNumber::LeMicros, &record(2, 5), &record(2, 5));
    assert_eq!(d, PlayDuration { secs: 0, nanos: 0 });
}

#[test]
fn duration_new_normalises() {
    assert_eq!(PlayDuration::new(1, 2_000_000_001), PlayDuration { secs: 3, nanos: 1 });
    assert_eq!(PlayDuration::zero(), PlayDuration { secs: 0, nanos: 0 });
}

#[test]
fn duration_saturating_sub() {
    let a = PlayDuration { secs: 2, nanos: 100 };
    let b = PlayDuration { secs: 1, nanos: 200 };
    assert_eq!(a.saturating_sub(&b), PlayDuration { secs: 0, nanos: 999_999_900 });
    assert_eq!(b.saturating_sub(&a), PlayDuration { secs: 0, nanos: 0 });
    assert_eq!(a.saturating_sub(&a), PlayDuration { secs: 0, nanos: 0 });
}
