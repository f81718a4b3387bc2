use artichoke_time::offset::{LocalTimeType, Offset};
use artichoke_time::time::Time;
use artichoke_time::trampoline;
use artichoke_time::value::{ErrorKind, Handle, Heap, Native, NativeTag, Value};

fn sym(s: &str) -> Value {
    Value::Symbol(String::from(s))
}

fn text(s: &str) -> Value {
    Value::Str(String::from(s))
}

fn options(entries: Vec<(Value, Value)>) -> Value {
    Value::Hash(entries)
}

fn in_utc() -> Value {
    options(vec![(sym("in"), text("UTC"))])
}

fn time_of(heap: &Heap, v: &Value) -> (i64, u32, bool, i32) {
    let t = heap.retrieve_time(v).unwrap();
    (t.to_int(), t.nanoseconds(), t.is_utc(), t.utc_offset())
}

fn fixnum(r: Result<Value, artichoke_time::value::Error>) -> i64 {
    match r.unwrap() {
        Value::Fixnum(n) => n,
        other => panic!("expected an integer, got {:?}", other),
    }
}

fn boolean(r: Result<Value, artichoke_time::value::Error>) -> bool {
    match r.unwrap() {
        Value::Bool(b) => b,
        other => panic!("expected a boolean, got {:?}", other),
    }
}

#[test]
fn at_nanoseconds_just_below_a_second() {
    let mut heap = Heap::new();
    let v = trampoline::at(&mut heap, Value::Fixnum(10), Some(Value::Fixnum(999_999_999)), Some(sym("nanoseconds")), Some(in_utc())).unwrap();
    assert_eq!(time_of(&heap, &v), (10, 999_999_999, true, 0));
    let v = trampoline::at(&mut heap, Value::Fixnum(10), Some(Value::Fixnum(999_999_999)), Some(sym("nsec")), None).unwrap();
    assert_eq!(time_of(&heap, &v).1, 999_999_999);
}

#[test]
fn at_a_whole_second_of_nanoseconds_is_a_range_error() {
    let mut heap = Heap::new();
    let err = trampoline::at(&mut heap, Value::Fixnum(10), Some(Value::Fixnum(1_000_000_000)), Some(sym("nanoseconds")), None).unwrap_err();
    assert_eq!(err.kind, ErrorKind::RangeError);
    assert_eq!(err.message, "subseconds outside of range");
    assert_eq!(heap.len(), 0);
}

#[test]
fn at_negative_subseconds_has_its_own_message() {
    let mut heap = Heap::new();
    let err = trampoline::at(&mut heap, Value::Fixnum(10), Some(Value::Fixnum(-1)), Some(sym("nsec")), None).unwrap_err();
    assert_eq!(err.kind, ErrorKind::ArgumentError);
    assert_eq!(err.message, "subseconds needs to be > 0");
    let too_large = trampoline::at(&mut heap, Value::Fixnum(10), Some(Value::Fixnum(1_000_000_000)), Some(sym("nsec")), None).unwrap_err();
    assert_ne!(err.message, too_large.message);
}

#[test]
fn at_units_multiply_the_subsecond_count() {
    let mut heap = Heap::new();
    let ms = trampoline::at(&mut heap, Value::Fixnum(1), Some(Value::Fixnum(250)), Some(sym("milliseconds")), Some(in_utc())).unwrap();
    assert_eq!(time_of(&heap, &ms).1, 250_000_000);
    let us = trampoline::at(&mut heap, Value::Fixnum(1), Some(Value::Fixnum(250)), Some(sym("usec")), Some(in_utc())).unwrap();
    assert_eq!(time_of(&heap, &us).1, 250_000);
    let default = trampoline::at(&mut heap, Value::Fixnum(1), Some(Value::Fixnum(250)), None, None).unwrap();
    assert_eq!(time_of(&heap, &default).1, 250_000);
    let err = trampoline::at(&mut heap, Value::Fixnum(1), Some(Value::Fixnum(1)), Some(sym("fortnights")), None).unwrap_err();
    assert_eq!(err.kind, ErrorKind::ArgumentError);
    assert_eq!(err.message, "unexpected unit. expects :milliseconds, :usec, :nsec");
}

#[test]
fn at_subsecond_overflow_is_a_range_error() {
    let mut heap = Heap::new();
    let err = trampoline::at(&mut heap, Value::Fixnum(1), Some(Value::Fixnum(i64::MAX / 2)), Some(sym("milliseconds")), None).unwrap_err();
    assert_eq!(err.kind, ErrorKind::RangeError);
    assert_eq!(err.message, "Time too large");
}

#[test]
fn at_unknown_option_key_is_an_argument_error() {
    let mut heap = Heap::new();
    let err = trampoline::at(&mut heap, Value::Fixnum(0), Some(options(vec![(sym("foo"), Value::Fixnum(1))])), None, None).unwrap_err();
    assert_eq!(err.kind, ErrorKind::ArgumentError);
    assert_eq!(err.message, "unknown keyword");
    let err = trampoline::at(&mut heap, Value::Fixnum(0), Some(options(vec![(text("in"), Value::Fixnum(1))])), None, None).unwrap_err();
    assert_eq!(err.kind, ErrorKind::ArgumentError);
    assert_eq!(err.message, "unknown keyword");
    let err = trampoline::at(&mut heap, Value::Fixnum(0), Some(options(vec![(Value::Fixnum(1), Value::Fixnum(0))])), None, None).unwrap_err();
    assert_eq!(err.kind, ErrorKind::ArgumentError);
    assert_eq!(err.message, "unknown keyword");
    assert_eq!(heap.len(), 0);
}

#[test]
fn at_positional_offset_beside_in_is_refused() {
    let mut heap = Heap::new();
    let err = trampoline::at(&mut heap, Value::Fixnum(0), Some(text("+0900")), Some(in_utc()), None).unwrap_err();
    assert_eq!(err.kind, ErrorKind::ArgumentError);
    assert_eq!(err.message, "invalid arguments");
    let twice = options(vec![(sym("in"), text("Z")), (sym("in"), text("A"))]);
    let err = trampoline::at(&mut heap, Value::Fixnum(0), Some(twice), None, None).unwrap_err();
    assert_eq!(err.kind, ErrorKind::ArgumentError);
    assert_eq!(err.message, "unknown keyword");
    let err = trampoline::at(&mut heap, Value::Fixnum(0), Some(options(vec![])), None, None).unwrap_err();
    assert_eq!(err.message, "unknown keyword");
}

#[test]
fn at_argument_layouts() {
    let mut heap = Heap::new();
    let err = trampoline::at(&mut heap, Value::Fixnum(0), Some(text("x")), None, None).unwrap_err();
    assert_eq!(err.message, "expected a number");
    let err = trampoline::at(&mut heap, Value::Fixnum(0), Some(Value::Fixnum(1)), Some(Value::Fixnum(2)), None).unwrap_err();
    assert_eq!(err.message, "expected one of [:milliseconds, :usec, :nsec]");
    let err = trampoline::at(&mut heap, Value::Fixnum(0), None, Some(Value::Fixnum(2)), None).unwrap_err();
    assert_eq!(err.message, "invalid arguments");
    let err = trampoline::at(&mut heap, Value::Nil, None, None, None).unwrap_err();
    assert_eq!(err.kind, ErrorKind::TypeError);
    assert_eq!(err.message, "no implicit conversion of nil into Integer");
    assert_eq!(heap.len(), 0);
}

#[test]
fn at_in_offsets() {
    let mut heap = Heap::new();
    let v = trampoline::at(&mut heap, Value::Fixnum(0), Some(options(vec![(sym("in"), Value::Fixnum(-3600))])), None, None).unwrap();
    assert_eq!(time_of(&heap, &v), (0, 0, false, -3600));
    let v = trampoline::at(&mut heap, Value::Fixnum(0), Some(options(vec![(sym("in"), text("+0061"))])), None, None).unwrap();
    assert_eq!(time_of(&heap, &v), (0, 0, false, 3660));
    let v = trampoline::at(&mut heap, Value::Fixnum(0), Some(options(vec![(sym("in"), text("M"))])), None, None).unwrap();
    assert_eq!(time_of(&heap, &v).3, 43_200);
    let err = trampoline::at(&mut heap, Value::Fixnum(0), Some(options(vec![(sym("in"), text("J"))])), None, None).unwrap_err();
    assert_eq!(err.kind, ErrorKind::ArgumentError);
    assert_eq!(err.message, "+HH:MM, -HH:MM, UTC, or A..I,K..Z expected for utc_offset");
    let err = trampoline::at(&mut heap, Value::Fixnum(0), Some(options(vec![(sym("in"), Value::Fixnum(1 << 40))])), None, None).unwrap_err();
    assert_eq!(err.message, "invalid offset");
    let err = trampoline::at(&mut heap, Value::Fixnum(0), Some(options(vec![(sym("in"), Value::Nil)])), None, None).unwrap_err();
    assert_eq!(err.message, "+HH:MM, -HH:MM, UTC, A..I,K..Z, or a signed number of seconds expected for utc_offset");
    let err = trampoline::at(&mut heap, Value::Fixnum(i64::MAX), Some(in_utc()), None, None).unwrap_err();
    assert_eq!(err.kind, ErrorKind::RangeError);
    assert_eq!(err.message, "Time too large");
}

#[test]
fn retrieval_trusts_the_payload_not_the_claimed_class() {
    let mut heap = Heap::new();
    let container = heap.allocate(Native::Container(15));
    let time = heap.allocate(Native::Time(Time::with_timespec_and_offset(5, 0, Offset::utc()).unwrap()));
    assert_eq!(heap.retrieve_container(&container).unwrap(), 15);
    assert!(heap.retrieve_time(&time).is_ok());
    let forged = Value::Object(Handle { id: 0, class: NativeTag::Time });
    let err = heap.retrieve_time(&forged).unwrap_err();
    assert_eq!(err.kind, ErrorKind::TypeError);
    let err = heap.retrieve_time(&container).unwrap_err();
    assert_eq!(err.kind, ErrorKind::TypeError);
    let dangling = Value::Object(Handle { id: 99, class: NativeTag::Time });
    assert_eq!(heap.retrieve_time(&dangling).unwrap_err().kind, ErrorKind::TypeError);
    assert_eq!(heap.retrieve_time(&Value::Fixnum(1)).unwrap_err().kind, ErrorKind::TypeError);
    let forged_container = Value::Object(Handle { id: 1, class: NativeTag::Container });
    assert_eq!(heap.retrieve_container(&forged_container).unwrap_err().kind, ErrorKind::TypeError);
    assert_eq!(trampoline::second(&heap, container).unwrap_err().kind, ErrorKind::TypeError);
}

#[test]
fn accessors_through_handles() {
    let mut heap = Heap::new();
    let v = trampoline::at(&mut heap, Value::Fixnum(1_000_000_000), Some(Value::Fixnum(123_456_789)), Some(sym("nsec")), Some(in_utc())).unwrap();
    let h = match &v { Value::Object(h) => *h, _ => unreachable!() };
    let o = || Value::Object(h);
    assert_eq!(fixnum(trampoline::to_int(&heap, o())), 1_000_000_000);
    assert_eq!(fixnum(trampoline::year(&heap, o())), 2001);
    assert_eq!(fixnum(trampoline::month(&heap, o())), 9);
    assert_eq!(fixnum(trampoline::day(&heap, o())), 9);
    assert_eq!(fixnum(trampoline::hour(&heap, o())), 1);
    assert_eq!(fixnum(trampoline::minute(&heap, o())), 46);
    assert_eq!(fixnum(trampoline::second(&heap, o())), 40);
    assert_eq!(fixnum(trampoline::weekday(&heap, o())), 0);
    assert_eq!(fixnum(trampoline::year_day(&heap, o())), 252);
    assert_eq!(fixnum(trampoline::microsecond(&heap, o())), 123_456);
    assert_eq!(fixnum(trampoline::nanosecond(&heap, o())), 123_456_789);
    assert!(boolean(trampoline::is_utc(&heap, o())));
    assert!(!boolean(trampoline::is_dst(&heap, o())));
    assert!(boolean(trampoline::is_sunday(&heap, o())));
    assert!(!boolean(trampoline::is_monday(&heap, o())));
    assert!(!boolean(trampoline::is_tuesday(&heap, o())));
    assert!(!boolean(trampoline::is_wednesday(&heap, o())));
    assert!(!boolean(trampoline::is_thursday(&heap, o())));
    assert!(!boolean(trampoline::is_friday(&heap, o())));
    assert!(!boolean(trampoline::is_saturday(&heap, o())));
}

#[test]
fn cmp_and_eql_compare_instants() {
    let mut heap = Heap::new();
    let a = trampoline::at(&mut heap, Value::Fixnum(100), Some(in_utc()), None, None).unwrap();
    let b = trampoline::at(&mut heap, Value::Fixnum(100), Some(options(vec![(sym("in"), text("+0900"))])), None, None).unwrap();
    let c = trampoline::at(&mut heap, Value::Fixnum(101), Some(in_utc()), None, None).unwrap();
    let (ha, hb, hc) = match (&a, &b, &c) {
        (Value::Object(x), Value::Object(y), Value::Object(z)) => (*x, *y, *z),
        _ => unreachable!(),
    };
    assert_eq!(fixnum(trampoline::cmp(&heap, Value::Object(ha), Value::Object(hb))), 0);
    assert_eq!(fixnum(trampoline::cmp(&heap, Value::Object(ha), Value::Object(hc))), -1);
    assert_eq!(fixnum(trampoline::cmp(&heap, Value::Object(hc), Value::Object(hb))), 1);
    assert!(boolean(trampoline::eql(&heap, Value::Object(ha), Value::Object(hb))));
    assert!(!boolean(trampoline::eql(&heap, Value::Object(ha), Value::Object(hc))));
    let err = trampoline::eql(&heap, Value::Object(ha), Value::Fixnum(100)).unwrap_err();
    assert_eq!(err.kind, ErrorKind::TypeError);
    assert_eq!(err.message, "comparison of Time with Integer failed");
    let err = trampoline::eql(&heap, Value::Object(ha), text("x")).unwrap_err();
    assert_eq!(err.message, "comparison of Time with String failed");
    let err = trampoline::cmp(&heap, Value::Object(ha), Value::Fixnum(3)).unwrap_err();
    assert_eq!(err.kind, ErrorKind::TypeError);
    assert_eq!(err.message, "comparison of Time with Integer failed");
}

#[test]
fn utc_conversions_keep_the_instant() {
    let mut heap = Heap::new();
    let v = trampoline::at(&mut heap, Value::Fixnum(3600), Some(Value::Fixnum(5)), Some(options(vec![(sym("in"), text("-0100"))])), None).unwrap();
    let h = match &v { Value::Object(h) => *h, _ => unreachable!() };
    assert_eq!(fixnum(trampoline::hour(&heap, Value::Object(h))), 0);
    let utc = trampoline::as_utc(&mut heap, Value::Object(h)).unwrap();
    assert_eq!(time_of(&heap, &utc), (3600, 5000, true, 0));
    assert_eq!(time_of(&heap, &v), (3600, 5000, false, -3600));
    let same = trampoline::mutate_to_utc(&mut heap, Value::Object(h)).unwrap();
    assert!(matches!(same, Value::Object(x) if x == h));
    assert_eq!(time_of(&heap, &v), (3600, 5000, true, 0));
    assert_eq!(fixnum(trampoline::hour(&heap, Value::Object(h))), 1);
}

#[test]
fn initialize_copy_overwrites_the_target() {
    let mut heap = Heap::new();
    let from = trampoline::at(&mut heap, Value::Fixnum(42), Some(in_utc()), None, None).unwrap();
    let target = heap.allocate(Native::Container(7));
    let copied = trampoline::initialize_copy(&mut heap, target, from).unwrap();
    assert_eq!(time_of(&heap, &copied), (42, 0, true, 0));
    assert_eq!(heap.len(), 2);
    let err = trampoline::initialize_copy(&mut heap, Value::Nil, Value::Fixnum(1)).unwrap_err();
    assert_eq!(err.kind, ErrorKind::TypeError);
}

#[test]
fn now_uses_the_clock_reading() {
    let mut heap = Heap::new();
    let v = trampoline::now(&mut heap, Some((1_700_000_000, 12))).unwrap();
    let (seconds, nanos, utc, _) = time_of(&heap, &v);
    assert_eq!((seconds, nanos, utc), (1_700_000_000, 12, false));
    let err = trampoline::now(&mut heap, None).unwrap_err();
    assert_eq!(err.kind, ErrorKind::RuntimeError);
    assert_eq!(err.message, "now is not available");
}

#[test]
fn deferred_operations_report_not_implemented() {
    let heap = Heap::new();
    let t = || Value::Nil;
    let results = vec![
        trampoline::mkutc(&heap, vec![]),
        trampoline::mktime(&heap, vec![]),
        trampoline::to_rational(&heap, t()),
        trampoline::hash(&heap, t()),
        trampoline::initialize(&heap, t(), vec![]),
        trampoline::mutate_to_local(&heap, t(), None),
        trampoline::as_local(&heap, t(), None),
        trampoline::asctime(&heap, t()),
        trampoline::to_string(&heap, t()),
        trampoline::to_array(&heap, t()),
        trampoline::plus(&heap, t(), Value::Fixnum(1)),
        trampoline::minus(&heap, t(), Value::Fixnum(1)),
        trampoline::succ(&heap, t()),
        trampoline::round(&heap, t(), None),
        trampoline::timezone(&heap, t()),
        trampoline::utc_offset(&heap, t()),
        trampoline::subsec(&heap, t()),
        trampoline::strftime(&heap, t(), text("%Y")),
    ];
    for r in results {
        let err = r.unwrap_err();
        assert_eq!(err.kind, ErrorKind::NotImplementedError);
    }
}

#[test]
fn subsec_nanos_bounds() {
    assert_eq!(trampoline::subsec_nanos(999_999, 1000).unwrap(), 999_999_000);
    assert_eq!(trampoline::subsec_nanos(0, 1_000_000).unwrap(), 0);
    assert_eq!(trampoline::subsec_nanos(1000, 1_000_000).unwrap_err().kind, ErrorKind::RangeError);
    assert_eq!(trampoline::subsec_nanos(-1, 1000).unwrap_err().kind, ErrorKind::ArgumentError);
    assert_eq!(trampoline::subsec_nanos(i64::MIN, 1000).unwrap_err().message, "Time too large");
}

#[test]
fn offset_from_options_takes_one_in_key() {
    let o = trampoline::offset_from_options(vec![(sym("in"), text("Z"))]).unwrap();
    assert!(o.is_utc());
    let o = trampoline::offset_from_options(vec![(sym("in"), Value::Fixnum(0))]).unwrap();
    assert!(!o.is_utc());
    let err = trampoline::offset_from_options(vec![(sym("in"), text("Z")), (sym("foo"), Value::Nil)]).unwrap_err();
    assert_eq!(err.message, "unknown keyword");
}

#[test]
fn box_time_follows_the_zone_answer() {
    let mut heap = Heap::new();
    let answer = LocalTimeType { ut_offset: 7200, is_dst: true, designation: String::from("CEST") };
    let zone = match Offset::local() {
        Offset::Tz(zone) => zone,
        _ => unreachable!(),
    };
    let v = trampoline::box_time(&mut heap, 1000, 3, Offset::zone(zone), Some(answer.clone())).unwrap();
    assert_eq!(time_of(&heap, &v), (1000, 3, false, 7200));
    assert!(boolean(trampoline::is_dst(&heap, Value::Object(match v { Value::Object(h) => h, _ => unreachable!() }))));
    let err = trampoline::box_time(&mut heap, 1000, 3, Offset::zone(zone), None).unwrap_err();
    assert_eq!(err.kind, ErrorKind::RuntimeError);
    assert_eq!(err.message, "no local time type for the instant");
    let err = trampoline::box_time(&mut heap, i64::MAX, 0, Offset::zone(zone), Some(answer.clone())).unwrap_err();
    assert_eq!(err.kind, ErrorKind::RangeError);
    assert_eq!(err.message, "Time too large");
    let late = LocalTimeType { ut_offset: 1, is_dst: false, designation: String::from("LATE") };
    let err = trampoline::box_time(&mut heap, 67_767_976_233_532_799, 0, Offset::zone(zone), Some(late)).unwrap_err();
    assert_eq!(err.kind, ErrorKind::RangeError);
    assert_eq!(heap.len(), 1);
}

#[test]
fn at_and_now_refuse_instants_outside_the_calendar() {
    let mut heap = Heap::new();
    let err = trampoline::at(&mut heap, Value::Fixnum(i64::MAX), None, None, None).unwrap_err();
    assert_eq!(err.kind, ErrorKind::RangeError);
    assert_eq!(err.message, "Time too large");
    let err = trampoline::now(&mut heap, Some((i64::MIN, 0))).unwrap_err();
    assert_eq!(err.kind, ErrorKind::RangeError);
    let err = trampoline::now(&mut heap, Some((0, 1_000_000_000))).unwrap_err();
    assert_eq!(err.message, "now is not available");
    assert_eq!(heap.len(), 0);
}
