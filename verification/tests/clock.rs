use std::time::{Duration, SystemTime, UNIX_EPOCH};

use autoloop_engine::clock::{now_unix_millis, unix_millis, unix_millis_of_reading};

fn std_millis() -> u64 {
    SystemTime::now().duration_since(UNIX_EPOCH).unwrap().as_millis() as u64
}

#[test]
fn the_clock_reads_unix_milliseconds() {
    let before = std_millis();
    let now = now_unix_millis();
    let after = std_millis();
    assert!(before <= now && now <= after, "{before} {now} {after}");
}

#[test]
fn a_clock_before_the_epoch_reads_zero() {
    assert_eq!(unix_millis(None), 0);
}

#[test]
fn a_count_keeps_its_low_bits() {
    assert_eq!(unix_millis(Some(0)), 0);
    assert_eq!(unix_millis(Some(1_700_000_000_123)), 1_700_000_000_123);
    assert_eq!(unix_millis(Some(u128::from(u64::MAX))), u64::MAX);
    assert_eq!(unix_millis(Some(u128::from(u64::MAX) + 6)), 5);
}

#[test]
fn a_reading_tells_its_whole_milliseconds() {
    let at = |nanos| unix_millis_of_reading(UNIX_EPOCH + Duration::from_nanos(nanos));
    assert_eq!(at(0), 0);
    assert_eq!(at(999_999), 0);
    assert_eq!(at(1_000_000), 1);
    assert_eq!(at(1_700_000_000_123_999_999), 1_700_000_000_123);
    assert_eq!(unix_millis_of_reading(UNIX_EPOCH - Duration::from_millis(5)), 0);
}

#[test]
fn a_later_reading_gives_no_smaller_time() {
    let readings = [
        UNIX_EPOCH - Duration::from_secs(1),
        UNIX_EPOCH,
        UNIX_EPOCH + Duration::from_nanos(1_999_999),
        UNIX_EPOCH + Duration::from_nanos(2_000_000),
        UNIX_EPOCH + Duration::from_secs(1_700_000_000),
    ];
    for pair in readings.windows(2) {
        assert!(unix_millis_of_reading(pair[0]) <= unix_millis_of_reading(pair[1]));
    }
}

#[test]
fn time_passes_by_the_millisecond() {
    let start = UNIX_EPOCH + Duration::from_nanos(1_700_000_000_123_456_789);
    for millis in [0, 1, 37, 86_400_000] {
        assert_eq!(
            unix_millis_of_reading(start + Duration::from_millis(millis)),
            unix_millis_of_reading(start) + millis
        );
    }
}
