use focus_service::service::windows_service::WindowsService;
use focus_service::timestamp::Timestamp;
use focus_service::timestamp::MAX_SECS;
use focus_service::timestamp::MIN_SECS;
use focus_service::timestamp::NANOS_PER_MILLI;
use focus_service::timestamp::NANOS_PER_SEC;

#[test]
fn timestamp_keeps_its_parts() {
    let moment = Timestamp::new(1_700_000_000, 123_456_789).unwrap();
    assert_eq!(moment.secs(), 1_700_000_000);
    assert_eq!(moment.subsec_nanos(), 123_456_789);
    let before_epoch = Timestamp::new(-1, 999_999_999).unwrap();
    assert_eq!(before_epoch.secs(), -1);
    assert_eq!(before_epoch.subsec_nanos(), 999_999_999);
}

#[test]
fn timestamp_refuses_a_second_of_nanoseconds() {
    assert!(Timestamp::new(0, NANOS_PER_SEC - 1).is_some());
    assert!(Timestamp::new(0, NANOS_PER_SEC).is_none());
    assert!(Timestamp::new(59, 1_500_000_000).is_none());
    assert!(Timestamp::new(0, u32::MAX).is_none());
}

#[test]
fn timestamp_range_ends_where_it_says() {
    assert!(Timestamp::new(MIN_SECS, 0).is_some());
    assert!(Timestamp::new(MIN_SECS - 1, 999_999_999).is_none());
    assert!(Timestamp::new(MAX_SECS, 999_999_999).is_some());
    assert!(Timestamp::new(MAX_SECS + 1, 0).is_none());
    assert!(Timestamp::new(i64::MIN, 0).is_none());
    assert!(Timestamp::new(i64::MAX, 0).is_none());
}

#[test]
fn timestamp_range_is_the_range_of_chrono() {
    let first = chrono::DateTime::<chrono::Utc>::MIN_UTC;
    let last = chrono::DateTime::<chrono::Utc>::MAX_UTC;
    assert_eq!(first.timestamp(), MIN_SECS);
    assert_eq!(first.timestamp_subsec_nanos(), 0);
    assert_eq!(last.timestamp(), MAX_SECS);
    assert_eq!(last.timestamp_subsec_nanos(), 999_999_999);
    assert!(chrono::DateTime::from_timestamp(MIN_SECS, 0).is_some());
    assert!(chrono::DateTime::from_timestamp(MIN_SECS - 1, 0).is_none());
    assert!(chrono::DateTime::from_timestamp(MAX_SECS, 999_999_999).is_some());
    assert!(chrono::DateTime::from_timestamp(MAX_SECS + 1, 0).is_none());
}

#[test]
fn timestamps_compare_by_their_parts() {
    assert_eq!(Timestamp::new(5, 6), Timestamp::new(5, 6));
    assert_ne!(Timestamp::new(5, 6), Timestamp::new(5, 7));
    assert_ne!(Timestamp::new(5, 6), Timestamp::new(6, 6));
}

#[test]
fn units_are_what_they_say() {
    assert_eq!(NANOS_PER_SEC, 1_000_000_000);
    assert_eq!(NANOS_PER_MILLI, 1_000_000);
}

#[test]
fn startup_is_now_less_uptime_to_the_millisecond() {
    let now = Timestamp::new(1_700_000_000, 123_456_789).unwrap();
    assert_eq!(
        WindowsService::get_startup_timestamp(&now, 3_600_000),
        Timestamp::new(1_699_996_400, 123_000_000)
    );
    assert_eq!(
        WindowsService::get_startup_timestamp(&now, 0),
        Timestamp::new(1_700_000_000, 123_000_000)
    );
    assert_eq!(
        WindowsService::get_startup_timestamp(&now, 124),
        Timestamp::new(1_699_999_999, 999_000_000)
    );
}

#[test]
fn startup_before_the_epoch_counts_backwards() {
    let now = Timestamp::new(0, 1_999_999).unwrap();
    assert_eq!(WindowsService::get_startup_timestamp(&now, 2), Timestamp::new(-1, 999_000_000));
    assert_eq!(WindowsService::get_startup_timestamp(&now, 1), Timestamp::new(0, 0));
    let earlier = Timestamp::new(-2, 500_000).unwrap();
    assert_eq!(
        WindowsService::get_startup_timestamp(&earlier, 1_500),
        Timestamp::new(-4, 500_000_000)
    );
}

#[test]
fn startup_out_of_range_is_none() {
    let first = Timestamp::new(MIN_SECS, 0).unwrap();
    assert_eq!(WindowsService::get_startup_timestamp(&first, 0), Timestamp::new(MIN_SECS, 0));
    assert_eq!(WindowsService::get_startup_timestamp(&first, 1), None);
    let now = Timestamp::new(1_700_000_000, 0).unwrap();
    assert_eq!(WindowsService::get_startup_timestamp(&now, u64::MAX), None);
    assert_eq!(WindowsService::get_startup_timestamp(&now, 1 << 63), None);
    let last = Timestamp::new(MAX_SECS, 999_999_999).unwrap();
    assert_eq!(
        WindowsService::get_startup_timestamp(&last, 0),
        Timestamp::new(MAX_SECS, 999_000_000)
    );
}

#[test]
fn startup_matches_chrono() {
    let now = chrono::DateTime::from_timestamp(1_234_567_890, 987_654_321).unwrap();
    let uptime: u64 = 86_400_123;
    let expected =
        chrono::DateTime::from_timestamp_millis(now.timestamp_millis() - uptime as i64).unwrap();
    let given = Timestamp::new(now.timestamp(), now.timestamp_subsec_nanos()).unwrap();
    let started = WindowsService::get_startup_timestamp(&given, uptime).unwrap();
    assert_eq!(started.secs(), expected.timestamp());
    assert_eq!(started.subsec_nanos(), expected.timestamp_subsec_nanos());
}

#[test]
fn milliseconds_between_two_instants_are_rounded_towards_zero() {
    let at = |secs, nanos| Timestamp::new(secs, nanos).unwrap();
    assert_eq!(at(10, 0).millis_until(&at(11, 250_000_000)), 1250);
    assert_eq!(at(11, 250_000_000).millis_until(&at(10, 0)), -1250);
    assert_eq!(at(0, 999_999).millis_until(&at(1, 0)), 999);
    assert_eq!(at(1, 0).millis_until(&at(0, 999_999)), -999);
    assert_eq!(at(0, 0).millis_until(&at(0, 999_999)), 0);
    assert_eq!(at(0, 999_999).millis_until(&at(0, 0)), 0);
    assert_eq!(at(5, 5).millis_until(&at(5, 5)), 0);
    assert_eq!(at(-1, 500_000_000).millis_until(&at(0, 1_500_000)), 501);
}

#[test]
fn milliseconds_across_the_whole_range() {
    let first = Timestamp::new(MIN_SECS, 0).unwrap();
    let last = Timestamp::new(MAX_SECS, 999_999_999).unwrap();
    assert_eq!(first.millis_until(&last), 16_544_868_105_599_999);
    assert_eq!(last.millis_until(&first), -16_544_868_105_599_999);
    let span = chrono::DateTime::<chrono::Utc>::MAX_UTC - chrono::DateTime::<chrono::Utc>::MIN_UTC;
    assert_eq!(first.millis_until(&last), span.num_milliseconds());
}

#[test]
fn milliseconds_since_the_epoch_are_rounded_towards_the_past() {
    let at = |secs, nanos| Timestamp::new(secs, nanos).unwrap();
    assert_eq!(at(0, 0).unix_millis(), 0);
    assert_eq!(at(1, 444_999_999).unix_millis(), 1_444);
    assert_eq!(at(1_000_000_000, 555_000_000).unix_millis(), 1_000_000_000_555);
    assert_eq!(at(-1, 999_999_999).unix_millis(), -1);
    assert_eq!(at(-1, 0).unix_millis(), -1_000);
    assert_eq!(at(-2, 500_000).unix_millis(), -2_000);
    assert_eq!(at(MIN_SECS, 0).unix_millis(), -8_334_601_228_800_000);
    assert_eq!(at(MAX_SECS, 999_999_999).unix_millis(), 8_210_266_876_799_999);
}

#[test]
fn instant_of_milliseconds_since_the_epoch() {
    assert_eq!(Timestamp::from_unix_millis(0), Timestamp::new(0, 0));
    assert_eq!(Timestamp::from_unix_millis(947_638_923_004), Timestamp::new(947_638_923, 4_000_000));
    assert_eq!(Timestamp::from_unix_millis(-1), Timestamp::new(-1, 999_000_000));
    assert_eq!(Timestamp::from_unix_millis(-1_000), Timestamp::new(-1, 0));
    assert_eq!(Timestamp::from_unix_millis(-1_001), Timestamp::new(-2, 999_000_000));
    assert_eq!(
        Timestamp::from_unix_millis(MIN_SECS * 1000),
        Timestamp::new(MIN_SECS, 0)
    );
    assert_eq!(Timestamp::from_unix_millis(MIN_SECS * 1000 - 1), None);
    assert_eq!(
        Timestamp::from_unix_millis(MAX_SECS * 1000 + 999),
        Timestamp::new(MAX_SECS, 999_000_000)
    );
    assert_eq!(Timestamp::from_unix_millis(MAX_SECS * 1000 + 1000), None);
    assert_eq!(Timestamp::from_unix_millis(i64::MIN), None);
    assert_eq!(Timestamp::from_unix_millis(i64::MAX), None);
}

#[test]
fn milliseconds_round_trip() {
    for millis in [0i64, 1, -1, 999, 1_000, -999, -1_000, 1_700_000_000_123, -62_135_596_800_000] {
        assert_eq!(Timestamp::from_unix_millis(millis).unwrap().unix_millis(), millis);
    }
}
