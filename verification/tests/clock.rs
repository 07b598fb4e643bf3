use pump_sniper::clock::{elapsed_millis, log_stamp, low_millis, now, same_day, time_column, unix_ms, unix_ms_of};

#[test]
fn the_time_column_is_utc() {
    assert_eq!(time_column(0), "00:00:00");
    assert_eq!(time_column(1_700_000_000), "22:13:20");
    assert_eq!(time_column(-1), "23:59:59");
    assert_eq!(time_column(86_399), "23:59:59");
    assert_eq!(time_column(i64::MAX), "");
    assert_eq!(time_column(i64::MIN), "");
}

#[test]
fn the_edges_of_the_calendar() {
    assert_eq!(time_column(8_210_266_876_799), "23:59:59");
    assert_eq!(time_column(8_210_266_876_800), "");
    assert_eq!(time_column(-8_334_601_228_800), "00:00:00");
    assert_eq!(time_column(-8_334_601_228_801), "");
}

#[test]
fn days_change_at_midnight_utc() {
    let midnight = 1_700_006_400;
    assert!(same_day(midnight, midnight + 86_399));
    assert!(!same_day(midnight - 1, midnight));
    assert!(!same_day(midnight, midnight + 86_400));
    assert!(same_day(i64::MAX, midnight));
}

#[test]
fn the_clock_runs() {
    assert!(now() > 1_600_000_000);
    assert!(unix_ms() > 1_600_000_000_000);
    let stamp = log_stamp();
    assert_eq!(stamp.len(), 8);
    assert_eq!(&stamp[2..3], ":");
    assert_eq!(&stamp[5..6], ":");
    let start = std::time::Instant::now();
    assert!(elapsed_millis(&start) < 60_000);
}

#[test]
fn milliseconds_are_cut_to_their_low_bits() {
    assert_eq!(low_millis(5), 5);
    assert_eq!(low_millis(u64::MAX as u128), u64::MAX);
    assert_eq!(low_millis(u64::MAX as u128 + 3), 2);
}

#[test]
fn a_clock_before_the_epoch_reads_zero() {
    assert_eq!(unix_ms_of(None), 0);
    assert_eq!(unix_ms_of(Some(0)), 0);
    assert_eq!(unix_ms_of(Some(1_700_000_000_123)), 1_700_000_000_123);
    assert_eq!(unix_ms_of(Some(u64::MAX as u128 + 3)), 2);
}

#[test]
fn milliseconds_since_an_instant() {
    let now = std::time::Instant::now();
    let hour = std::time::Duration::from_secs(3_600);
    if let Some(past) = now.checked_sub(std::time::Duration::from_millis(1_500)) {
        let ms = elapsed_millis(&past);
        assert!(ms >= 1_500 && ms < 60_000);
    }
    assert_eq!(elapsed_millis(&(now + hour)), 0);
}

#[test]
fn milliseconds_of_the_system_time() {
    let read = || std::time::SystemTime::now().duration_since(std::time::UNIX_EPOCH).unwrap().as_millis() as u64;
    let before = read();
    let ms = unix_ms();
    assert!(before <= ms && ms <= read());
}
