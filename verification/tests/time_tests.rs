use space_looter::infrastructure::time::{
    format_duration, future_timestamp, has_elapsed_since, reading_reached, rfc3339_of_millis, timestamp_after, Stopwatch,
    TimeService, Timer,
};
use space_looter::clock::{signed_millis, utc_now_millis};
use space_looter::infrastructure::InfrastructureError;

#[test]
fn time_service_now_works() {
    let now = TimeService::now_millis().unwrap();
    assert!(now > 0);
}

#[test]
fn format_duration_works() {
    assert_eq!(format_duration(1500), "1.5s");
    assert_eq!(format_duration(65 * 1000), "1m 5s");
    assert_eq!(format_duration(3661 * 1000), "1h 1m 1s");
}

#[test]
fn future_timestamp_works() {
    let future = future_timestamp(10 * 1000).unwrap();
    let now = TimeService::now_millis().unwrap();
    assert!(future > now);
    assert!(future - now >= 10000);
}

#[test]
fn stopwatch_works() {
    let mut stopwatch = Stopwatch::new();
    stopwatch.start("test1".to_string()).unwrap();
    stopwatch.start("test2".to_string()).unwrap();
    stopwatch.stop().unwrap();

    let measurements = stopwatch.measurements();
    assert_eq!(measurements.len(), 2);
    assert_eq!(measurements[0].0, "test1");
    assert_eq!(measurements[1].0, "test2");
    assert_eq!(stopwatch.stop().unwrap(), None);
    assert!(stopwatch.total_time() < 60_000);
    stopwatch.clear();
    assert!(stopwatch.measurements().is_empty());
}

#[test]
fn durations_below_a_second_and_at_the_boundaries() {
    assert_eq!(format_duration(0), "0ms");
    assert_eq!(format_duration(250), "250ms");
    assert_eq!(format_duration(1000), "1.0s");
    assert_eq!(format_duration(59_999), "59.9s");
    assert_eq!(format_duration(60_000), "1m 0s");
    assert_eq!(format_duration(3_600_000), "1h 0m 0s");
}

#[test]
fn clock_readings_and_elapsed_time() {
    assert_eq!(TimeService::millis_since_epoch(42), Ok(42));
    assert_eq!(
        TimeService::millis_since_epoch(-1),
        Err(InfrastructureError::TimeError("System time error: clock before the Unix epoch".to_string()))
    );
    assert_eq!(TimeService::elapsed_between(100, 250), 150);
    assert_eq!(TimeService::elapsed_between(250, 100), 0);
    let timer = Timer::started_at("t".to_string(), 0);
    assert_eq!(timer.name(), "t");
    assert!(timer.elapsed().unwrap() > 0);
    assert!(has_elapsed_since(0, 1000).unwrap());
    assert!(future_timestamp(u64::MAX).is_err());
}

#[test]
fn timestamps_after_a_reading() {
    assert_eq!(timestamp_after(1_000, 500).unwrap(), 1_500);
    assert_eq!(timestamp_after(u64::MAX - 1, 1).unwrap(), u64::MAX);
    match timestamp_after(u64::MAX, 1) {
        Err(InfrastructureError::TimeError(m)) => assert_eq!(m, "Timestamp out of range"),
        other => panic!("unexpected {:?}", other),
    }
}

#[test]
fn elapsed_against_a_reading() {
    assert!(reading_reached(1_000, 1_500, 500));
    assert!(!reading_reached(1_000, 1_499, 500));
    assert!(!reading_reached(2_000, 1_000, 1));
    assert!(reading_reached(2_000, 1_000, 0));
}

#[test]
fn clock_readings_as_signed_millis() {
    assert_eq!(signed_millis(false, 1_234), 1_234);
    assert_eq!(signed_millis(true, 1_234), -1_234);
    assert_eq!(signed_millis(false, u128::MAX), i64::MAX);
    assert_eq!(signed_millis(true, u128::MAX), i64::MIN);
    assert!(utc_now_millis() > 0);
}

#[test]
fn readings_in_rfc3339() {
    assert_eq!(rfc3339_of_millis(0).unwrap(), "1970-01-01T00:00:00+00:00");
    assert_eq!(rfc3339_of_millis(1_431_648_000_500).unwrap(), "2015-05-15T00:00:00.500+00:00");
    assert!(rfc3339_of_millis(u64::MAX).is_none());
}
