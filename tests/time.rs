use artichoke_time::offset::{LocalTimeType, Offset};
use artichoke_time::time::{Time, TimeError};

#[test]
fn timespec_round_trips_through_accessors() {
    for (seconds, nanos) in [(0i64, 0u32), (1_000_000_000, 999_999_999), (-1, 1), (i32::MAX as i64, 5)] {
        for offset in [Offset::utc(), Offset::fixed(0), Offset::fixed(-3600), Offset::fixed(19_800)] {
            let time = Time::with_timespec_and_offset(seconds, nanos, offset).unwrap();
            assert_eq!(time.to_int(), seconds);
            assert_eq!(time.nanoseconds(), nanos);
        }
    }
}

#[test]
fn nanoseconds_out_of_range_are_refused() {
    let err = Time::with_timespec_and_offset(0, 1_000_000_000, Offset::utc()).unwrap_err();
    assert_eq!(err, TimeError::NanosecondsOutOfRange);
    assert!(Time::with_timespec_and_offset(0, 999_999_999, Offset::utc()).is_ok());
}

#[test]
fn seconds_outside_the_calendar_are_refused() {
    let err = Time::with_timespec_and_offset(i64::MAX, 0, Offset::utc()).unwrap_err();
    assert_eq!(err, TimeError::TimestampOutOfRange);
    let err = Time::with_timespec_and_offset(i64::MIN, 0, Offset::fixed(3600)).unwrap_err();
    assert_eq!(err, TimeError::TimestampOutOfRange);
    assert!(Time::with_timespec_and_offset(67_767_976_233_532_799, 0, Offset::utc()).is_ok());
    assert!(Time::with_timespec_and_offset(67_767_976_233_532_799, 0, Offset::fixed(1)).is_err());
    assert!(Time::with_timespec_and_offset(-67_768_100_567_971_200, 0, Offset::utc()).is_ok());
    assert!(Time::with_timespec_and_offset(-67_768_100_567_971_201, 0, Offset::utc()).is_err());
}

#[test]
fn epoch_in_utc_is_thursday_first_of_january() {
    let time = Time::with_timespec_and_offset(0, 0, Offset::utc()).unwrap();
    assert_eq!(time.year(), 1970);
    assert_eq!(time.month(), 1);
    assert_eq!(time.day(), 1);
    assert_eq!(time.hour(), 0);
    assert_eq!(time.minute(), 0);
    assert_eq!(time.second(), 0);
    assert_eq!(time.day_of_week(), 4);
    assert_eq!(time.day_of_year(), 1);
    assert!(time.is_utc());
    assert!(!time.is_dst());
    assert_eq!(time.utc_offset(), 0);
}

#[test]
fn billennium_under_a_fixed_offset() {
    // 2001-09-09 01:46:40 UTC is 2001-09-09 11:16:40 at +0930.
    let offset = Offset::fixed(9 * 3600 + 30 * 60);
    let time = Time::with_timespec_and_offset(1_000_000_000, 123_456_789, offset).unwrap();
    assert_eq!(time.year(), 2001);
    assert_eq!(time.month(), 9);
    assert_eq!(time.day(), 9);
    assert_eq!(time.hour(), 11);
    assert_eq!(time.minute(), 16);
    assert_eq!(time.second(), 40);
    assert_eq!(time.day_of_week(), 0);
    assert_eq!(time.day_of_year(), 252);
    assert_eq!(time.microseconds(), 123_456);
    assert_eq!(time.utc_offset(), 34_200);
    assert!(!time.is_utc());
}

#[test]
fn negative_offset_moves_to_previous_day() {
    let time = Time::with_timespec_and_offset(0, 0, Offset::fixed(-3600)).unwrap();
    assert_eq!(time.year(), 1969);
    assert_eq!(time.month(), 12);
    assert_eq!(time.day(), 31);
    assert_eq!(time.hour(), 23);
    assert_eq!(time.day_of_week(), 3);
    assert_eq!(time.day_of_year(), 365);
}

#[test]
fn to_utc_keeps_the_instant() {
    let time = Time::with_timespec_and_offset(1_234_567_890, 42, Offset::fixed(-18_000)).unwrap();
    let utc = time.to_utc().unwrap();
    assert_eq!(utc.to_int(), 1_234_567_890);
    assert_eq!(utc.nanoseconds(), 42);
    assert!(utc.is_utc());
    assert!(!time.is_utc());
    assert_eq!(utc.hour(), 23);
    assert_eq!(time.hour(), 18);
}

#[test]
fn set_utc_keeps_the_instant() {
    let mut time = Time::with_timespec_and_offset(86_399, 7, Offset::fixed(3600)).unwrap();
    assert_eq!(time.day(), 2);
    time.set_utc().unwrap();
    assert!(time.is_utc());
    assert_eq!(time.to_int(), 86_399);
    assert_eq!(time.nanoseconds(), 7);
    assert_eq!(time.day(), 1);
}

#[test]
fn instants_outside_the_calendar_are_refused_whatever_the_offset() {
    let err = Time::with_timespec_and_offset(67_767_976_233_532_800, 0, Offset::fixed(-1)).unwrap_err();
    assert_eq!(err, TimeError::TimestampOutOfRange);
    let mut time = Time::with_timespec_and_offset(67_767_976_233_532_799, 0, Offset::fixed(-3600)).unwrap();
    assert_eq!(time.set_utc(), Ok(()));
    assert!(time.is_utc());
    assert_eq!(time.to_int(), 67_767_976_233_532_799);
}

#[test]
fn with_local_type_uses_the_given_answer() {
    let zone = match Offset::local() {
        Offset::Tz(zone) => zone,
        _ => unreachable!(),
    };
    let local = LocalTimeType { ut_offset: -36_000, is_dst: false, designation: String::from("HST") };
    let time = Time::with_local_type(0, 1, Offset::zone(zone), local.clone()).unwrap();
    assert_eq!(time.utc_offset(), -36_000);
    assert_eq!(time.hour(), 14);
    assert_eq!(time.day(), 31);
    assert_eq!(
        Time::with_local_type(0, 1_000_000_000, Offset::zone(zone), local.clone()).unwrap_err(),
        TimeError::NanosecondsOutOfRange
    );
    assert_eq!(
        Time::with_local_type(-67_768_100_567_971_200, 0, Offset::zone(zone), local).unwrap_err(),
        TimeError::TimestampOutOfRange
    );
}

#[test]
fn equality_ignores_the_offset() {
    let a = Time::with_timespec_and_offset(500, 9, Offset::utc()).unwrap();
    let b = Time::with_timespec_and_offset(500, 9, Offset::fixed(7200)).unwrap();
    let c = Time::with_timespec_and_offset(500, 10, Offset::utc()).unwrap();
    assert!(a == b);
    assert!(a != c);
    assert_eq!(a.compare(&b), std::cmp::Ordering::Equal);
    assert_eq!(a.compare(&c), std::cmp::Ordering::Less);
    assert_eq!(c.compare(&b), std::cmp::Ordering::Greater);
}

#[test]
fn copied_time_is_the_same() {
    let a = Time::with_timespec_and_offset(77, 1, Offset::fixed(60)).unwrap();
    let b = a.copied();
    assert!(a == b);
    assert_eq!(b.utc_offset(), 60);
    assert!(matches!(b.offset(), Offset::Fixed(_)));
}
