//! Entry points that the interpreter dispatches to for the `Time` class: they
//! validate and convert dynamic arguments, call into `Time`, and convert back.

use vstd::prelude::*;
use vstd::string::*;

use crate::calendar::{civil_date_of, in_calendar_range, second_of_day, week_day_of};
use crate::offset::{fixed_offset_of_text, is_fixed_offset, is_utc_name, LocalTimeType, Offset};
use crate::time::{offset_admits, Time, NANOS_IN_SECOND};
use crate::value::{class_name, fails_as, fails_with, Error, ErrorKind, Heap, Native, Value};

verus! {

/// The largest nanosecond count below a whole second.
pub const MAX_NANOS: i64 = 999_999_999;

/// How the optional arguments of `at` are laid out.
#[derive(Debug, Clone, Copy, PartialEq, Eq, Structural)]
pub enum AtShape {
    Bare,
    Options,
    Subsec,
    SubsecOptions,
    SubsecUnit,
    SubsecUnitOptions,
}

/// Which layout the optional arguments of `at` have, or why they have none.
pub open spec fn at_shape(o1: Option<Value>, o2: Option<Value>, o3: Option<Value>) -> Result<
    AtShape,
    Seq<char>,
> {
    match (o1, o2, o3) {
        (None, None, None) => Ok(AtShape::Bare),
        (Some(Value::Hash(_)), None, None) => Ok(AtShape::Options),
        (Some(Value::Fixnum(_)), None, None) => Ok(AtShape::Subsec),
        (Some(_), None, None) => Err("expected a number"@),
        (Some(Value::Fixnum(_)), Some(Value::Hash(_)), None) => Ok(AtShape::SubsecOptions),
        (Some(Value::Fixnum(_)), Some(Value::Symbol(_)), None) => Ok(AtShape::SubsecUnit),
        (Some(Value::Fixnum(_)), Some(_), None) => Err(
            "expected one of [:milliseconds, :usec, :nsec]"@,
        ),
        (Some(Value::Fixnum(_)), Some(Value::Symbol(_)), Some(Value::Hash(_))) => Ok(
            AtShape::SubsecUnitOptions,
        ),
        _ => Err("invalid arguments"@),
    }
}

/// The nanoseconds in one unit of a subsecond count: milliseconds, microseconds
/// (also the default) or nanoseconds.
pub open spec fn unit_multiplier(unit: Option<Value>) -> Option<int> {
    match unit {
        None => Some(1000),
        Some(Value::Symbol(s)) => if s@ == "milliseconds"@ {
            Some(1_000_000)
        } else if s@ == "usec"@ || s@ == "microseconds"@ {
            Some(1000)
        } else if s@ == "nsec"@ || s@ == "nanoseconds"@ {
            Some(1)
        } else {
            None
        },
        Some(_) => None,
    }
}

/// The nanoseconds that `count` units of `multiplier` nanoseconds make, or why
/// they are refused.
pub open spec fn subsec_nanos_of(count: int, multiplier: int) -> Result<int, (ErrorKind, Seq<char>)> {
    let nanos = count * multiplier;
    if nanos < i64::MIN || nanos > i64::MAX {
        Err((ErrorKind::RangeError, "Time too large"@))
    } else if nanos < 0 {
        Err((ErrorKind::ArgumentError, "subseconds needs to be > 0"@))
    } else if nanos > MAX_NANOS {
        Err((ErrorKind::RangeError, "subseconds outside of range"@))
    } else {
        Ok(nanos)
    }
}

/// The one key that the options of `at` accept: the symbol `in`.
pub open spec fn is_in_keyword(k: Value) -> bool {
    k matches Value::Symbol(s) && s@ == "in"@
}

/// What an offset request asks for: `None` is UTC, `Some(n)` the fixed offset of
/// `n` seconds.
pub open spec fn offset_fulfils(o: Offset, request: Option<int>) -> bool {
    match request {
        None => o is Utc,
        Some(n) => is_fixed_offset(o, n),
    }
}

/// The offset that the value of `in:` asks for: an integer is a number of
/// seconds, text goes through the offset grammar.
pub open spec fn offset_request(v: Value) -> Result<Option<int>, (ErrorKind, Seq<char>)> {
    match v {
        Value::Fixnum(n) => if i32::MIN <= n <= i32::MAX {
            Ok(Some(n as int))
        } else {
            Err((ErrorKind::ArgumentError, "invalid offset"@))
        },
        Value::Str(s) => if is_utc_name(s@) {
            Ok(None)
        } else {
            match fixed_offset_of_text(s@) {
                Some(n) => Ok(Some(n)),
                None => Err(
                    (
                        ErrorKind::ArgumentError,
                        "+HH:MM, -HH:MM, UTC, or A..I,K..Z expected for utc_offset"@,
                    ),
                ),
            }
        },
        _ => Err(
            (
                ErrorKind::ArgumentError,
                "+HH:MM, -HH:MM, UTC, A..I,K..Z, or a signed number of seconds expected for utc_offset"@,
            ),
        ),
    }
}

/// The offset that the options hash of `at` asks for, or why it is refused: every
/// key must be the symbol `in`, and there must be exactly one.
pub open spec fn options_request(entries: Seq<(Value, Value)>) -> Result<
    Option<int>,
    (ErrorKind, Seq<char>),
> {
    if entries.len() != 1 || exists|j: int| 0 <= j < entries.len() && !is_in_keyword(
        #[trigger] entries[j].0,
    ) {
        Err((ErrorKind::ArgumentError, "unknown keyword"@))
    } else {
        offset_request(entries[0].1)
    }
}

fn text_is(s: &str, lit: &str) -> (r: bool)
    ensures
        r == (s@ == lit@),
{
    let n = s.unicode_len();
    if n != lit.unicode_len() {
        return false;
    }
    let mut i: usize = 0;
    while i < n
        invariant
            n == s@.len(),
            n == lit@.len(),
            i <= n,
            forall|j: int| 0 <= j < i ==> s@[j] == lit@[j],
        decreases n - i,
    {
        if s.get_char(i) != lit.get_char(i) {
            return false;
        }
        i = i + 1;
    }
    assert(s@ =~= lit@);
    true
}

/// The nanoseconds in one unit of the subsecond count; the default unit is the
/// microsecond.
fn subsec_multiplier(unit: &Option<Value>) -> (r: Result<i64, Error>)
    ensures
        unit_multiplier(*unit) matches Some(m) ==> r == Ok::<i64, Error>(m as i64),
        (unit_multiplier(*unit) is None && unit matches Some(Value::Symbol(_))) ==> fails_with(
            r,
            ErrorKind::ArgumentError,
            "unexpected unit. expects :milliseconds, :usec, :nsec"@,
        ),
        (unit_multiplier(*unit) is None && !(unit matches Some(Value::Symbol(_)))) ==> fails_as(
            r,
            ErrorKind::TypeError,
        ),
{
    match unit {
        None => Ok(1000),
        Some(Value::Symbol(s)) => {
            if text_is(s.as_str(), "milliseconds") {
                Ok(1_000_000)
            } else if text_is(s.as_str(), "usec") || text_is(s.as_str(), "microseconds") {
                Ok(1000)
            } else if text_is(s.as_str(), "nsec") || text_is(s.as_str(), "nanoseconds") {
                Ok(1)
            } else {
                Err(
                    Error::with_message(
                        ErrorKind::ArgumentError,
                        "unexpected unit. expects :milliseconds, :usec, :nsec",
                    ),
                )
            }
        },
        Some(_) => Err(Error::with_message(ErrorKind::TypeError, "expected a Symbol unit")),
    }
}

/// Nanoseconds from a subsecond count and a multiplier, refused when the product
/// overflows, is negative, or reaches a whole second.
pub fn subsec_nanos(count: i64, multiplier: i64) -> (r: Result<u32, Error>)
    ensures
        subsec_nanos_of(count as int, multiplier as int) matches Ok(n) ==> r == Ok::<u32, Error>(
            n as u32,
        ),
        subsec_nanos_of(count as int, multiplier as int) matches Err((k, m)) ==> fails_with(
            r,
            k,
            m,
        ),
{
    match count.checked_mul(multiplier) {
        None => Err(Error::with_message(ErrorKind::RangeError, "Time too large")),
        Some(nanos) => {
            if nanos < 0 {
                Err(Error::with_message(ErrorKind::ArgumentError, "subseconds needs to be > 0"))
            } else if nanos > MAX_NANOS {
                Err(Error::with_message(ErrorKind::RangeError, "subseconds outside of range"))
            } else {
                Ok(nanos as u32)
            }
        },
    }
}

/// Seconds since the epoch, nanoseconds, and the offset that `at` is asked to
/// build a time from (`None`: the local zone; `Some(q)`: see `offset_fulfils`),
/// or the error it raises, in the order in which the arguments are examined.
pub open spec fn at_request(seconds: Value, o1: Option<Value>, o2: Option<Value>, o3: Option<Value>) -> Result<
    (int, int, Option<Option<int>>),
    (ErrorKind, Seq<char>),
> {
    match at_shape(o1, o2, o3) {
        Err(m) => Err((ErrorKind::ArgumentError, m)),
        Ok(shape) => match seconds {
            Value::Fixnum(s) => {
                let subsec = match shape {
                    AtShape::Bare | AtShape::Options => None,
                    _ => o1,
                };
                let unit = match shape {
                    AtShape::SubsecUnit | AtShape::SubsecUnitOptions => o2,
                    _ => None,
                };
                let options = match shape {
                    AtShape::Options => o1,
                    AtShape::SubsecOptions => o2,
                    AtShape::SubsecUnitOptions => o3,
                    _ => None,
                };
                let nanos = match subsec {
                    Some(Value::Fixnum(c)) => match unit_multiplier(unit) {
                        Some(m) => subsec_nanos_of(c as int, m),
                        None => Err(
                            (
                                ErrorKind::ArgumentError,
                                "unexpected unit. expects :milliseconds, :usec, :nsec"@,
                            ),
                        ),
                    },
                    _ => Ok(0),
                };
                match nanos {
                    Err(e) => Err(e),
                    Ok(n) => match options {
                        Some(Value::Hash(entries)) => match options_request(entries@) {
                            Err(e) => Err(e),
                            Ok(q) => Ok((s as int, n, Some(q))),
                        },
                        _ => Ok((s as int, n, None)),
                    },
                }
            },
            _ => Err(
                (
                    ErrorKind::TypeError,
                    "no implicit conversion of "@ + class_name(seconds) + " into Integer"@,
                ),
            ),
        },
    }
}

/// Seconds east of UTC of a fixed or UTC offset request.
pub open spec fn requested_seconds(q: Option<int>) -> int {
    match q {
        None => 0,
        Some(n) => n,
    }
}

/// The time that a call added to the heap as its last object, where `v` is the
/// handle of that object.
pub open spec fn new_time(before: Seq<Native>, after: Seq<Native>, v: Value) -> Option<Time> {
    if after.len() == before.len() + 1 && after.drop_last() == before && v == Value::Object(
        crate::value::Handle { id: before.len() as usize, class: crate::value::NativeTag::Time },
    ) {
        match after.last() {
            Native::Time(t) => Some(t),
            _ => None,
        }
    } else {
        None
    }
}

fn offset_from_value(v: Value) -> (r: Result<Offset, Error>)
    ensures
        offset_request(v) matches Ok(q) ==> (r matches Ok(o) && offset_fulfils(o, q)),
        offset_request(v) matches Err((k, m)) ==> fails_with(r, k, m),
{
    match v {
        Value::Fixnum(n) => {
            if i32::MIN as i64 <= n && n <= i32::MAX as i64 {
                Ok(Offset::fixed(n as i32))
            } else {
                Err(Error::with_message(ErrorKind::ArgumentError, "invalid offset"))
            }
        },
        Value::Str(s) => match Offset::parse(s.as_str()) {
            Ok(o) => Ok(o),
            Err(_) => Err(
                Error::with_message(
                    ErrorKind::ArgumentError,
                    "+HH:MM, -HH:MM, UTC, or A..I,K..Z expected for utc_offset",
                ),
            ),
        },
        _ => Err(
            Error::with_message(
                ErrorKind::ArgumentError,
                "+HH:MM, -HH:MM, UTC, A..I,K..Z, or a signed number of seconds expected for utc_offset",
            ),
        ),
    }
}

/// The offset that the options of `at` select with their one `in:` key.
pub fn offset_from_options(options: Vec<(Value, Value)>) -> (r: Result<Offset, Error>)
    ensures
        options_request(options@) matches Ok(q) ==> (r matches Ok(o) && offset_fulfils(o, q)),
        options_request(options@) matches Err((k, m)) ==> fails_with(r, k, m),
{
    let ghost given = options@;
    let mut entries = options;
    let n = entries.len();
    let mut i: usize = 0;
    while i < n
        invariant
            entries@ == given,
            given == options@,
            n == given.len(),
            i <= n,
            forall|j: int| 0 <= j < i ==> is_in_keyword(#[trigger] given[j].0),
        decreases n - i,
    {
        let is_in = match &entries[i].0 {
            Value::Symbol(s) => text_is(s.as_str(), "in"),
            _ => false,
        };
        if !is_in {
            return Err(Error::with_message(ErrorKind::ArgumentError, "unknown keyword"));
        }
        i = i + 1;
    }
    if n != 1 {
        return Err(Error::with_message(ErrorKind::ArgumentError, "unknown keyword"));
    }
    let (_, v) = entries.remove(0);
    offset_from_value(v)
}

/// A new object holding the time at an instant under an offset, given what the
/// offset gives at that instant (`None`: the zone has no rule for it). Fails with
/// a range error when the instant or its local time falls outside the calendar.
pub fn box_time(
    heap: &mut Heap,
    seconds: i64,
    nanoseconds: u32,
    offset: Offset,
    local: Option<LocalTimeType>,
) -> (r: Result<Value, Error>)
    requires
        old(heap).payloads().len() < usize::MAX,
        nanoseconds < NANOS_IN_SECOND,
        local matches Some(l) ==> offset_admits(offset, l),
    ensures
        !in_calendar_range(seconds as int) ==> (fails_with(
            r,
            ErrorKind::RangeError,
            "Time too large"@,
        ) && final(heap).payloads() == old(heap).payloads()),
        (in_calendar_range(seconds as int) && local is None) ==> (fails_with(
            r,
            ErrorKind::RuntimeError,
            "no local time type for the instant"@,
        ) && final(heap).payloads() == old(heap).payloads()),
        local matches Some(l) ==> (in_calendar_range(seconds as int) ==> if in_calendar_range(
            seconds + l.ut_offset,
        ) {
            r matches Ok(v) && new_time(old(heap).payloads(), final(heap).payloads(), v) matches Some(t)
                && t.unix_seconds() == seconds && t.subsec_nanos() == nanoseconds
                && t.offset_spec() == offset && t.local_type() == l
        } else {
            fails_with(r, ErrorKind::RangeError, "Time too large"@) && final(heap).payloads()
                == old(heap).payloads()
        }),
{
    if seconds < crate::calendar::MIN_LOCAL_SECONDS || seconds > crate::calendar::MAX_LOCAL_SECONDS {
        return Err(Error::with_message(ErrorKind::RangeError, "Time too large"));
    }
    let local = match local {
        Some(l) => l,
        None => {
            return Err(
                Error::with_message(ErrorKind::RuntimeError, "no local time type for the instant"),
            );
        },
    };
    match Time::with_local_type(seconds, nanoseconds, offset, local) {
        Ok(time) => {
            let ghost before = heap.payloads();
            let v = heap.allocate(Native::Time(time));
            proof {
                assert(heap.payloads().drop_last() =~= before);
            }
            Ok(v)
        },
        Err(_) => Err(Error::with_message(ErrorKind::RangeError, "Time too large")),
    }
}

/// `Time.at(seconds, subsec = nil, unit = :microsecond, in: nil)`: a new time at
/// `seconds` plus a subsecond count in milliseconds, microseconds or nanoseconds,
/// shown under the offset given with `in:` or else the local zone.
pub fn at(
    heap: &mut Heap,
    seconds: Value,
    opt1: Option<Value>,
    opt2: Option<Value>,
    opt3: Option<Value>,
) -> (r: Result<Value, Error>)
    requires
        old(heap).payloads().len() < usize::MAX,
    ensures
        at_request(seconds, opt1, opt2, opt3) matches Err((k, m)) ==> (fails_with(r, k, m)
            && final(heap).payloads() == old(heap).payloads()),
        at_request(seconds, opt1, opt2, opt3) matches Ok((s, n, q)) ==> {
            &&& !in_calendar_range(s) ==> (fails_with(r, ErrorKind::RangeError, "Time too large"@)
                && final(heap).payloads() == old(heap).payloads())
            &&& q matches Some(q) ==> (in_calendar_range(s) ==> if in_calendar_range(
                s + requested_seconds(q),
            ) {
                r matches Ok(v) && new_time(old(heap).payloads(), final(heap).payloads(), v) matches Some(t)
                    && t.unix_seconds() == s && t.subsec_nanos() == n && offset_fulfils(t.offset_spec(), q)
            } else {
                fails_with(r, ErrorKind::RangeError, "Time too large"@) && final(heap).payloads()
                    == old(heap).payloads()
            })
            &&& q is None ==> (r matches Ok(v) ==> (new_time(old(heap).payloads(), final(heap).payloads(), v) matches Some(t)
                && t.unix_seconds() == s && t.subsec_nanos() == n && t.offset_spec() is Tz))
            &&& q is None ==> (r is Err ==> (final(heap).payloads() == old(heap).payloads() && (
            fails_with(r, ErrorKind::RangeError, "Time too large"@) || fails_with(
                r,
                ErrorKind::RuntimeError,
                "no local time type for the instant"@,
            ))))
        },
{
    let shape = match (&opt1, &opt2, &opt3) {
        (None, None, None) => AtShape::Bare,
        (Some(Value::Hash(_)), None, None) => AtShape::Options,
        (Some(Value::Fixnum(_)), None, None) => AtShape::Subsec,
        (Some(_), None, None) => {
            return Err(Error::with_message(ErrorKind::ArgumentError, "expected a number"));
        },
        (Some(Value::Fixnum(_)), Some(Value::Hash(_)), None) => AtShape::SubsecOptions,
        (Some(Value::Fixnum(_)), Some(Value::Symbol(_)), None) => AtShape::SubsecUnit,
        (Some(Value::Fixnum(_)), Some(_), None) => {
            return Err(
                Error::with_message(
                    ErrorKind::ArgumentError,
                    "expected one of [:milliseconds, :usec, :nsec]",
                ),
            );
        },
        (Some(Value::Fixnum(_)), Some(Value::Symbol(_)), Some(Value::Hash(_))) => {
            AtShape::SubsecUnitOptions
        },
        _ => {
            return Err(Error::with_message(ErrorKind::ArgumentError, "invalid arguments"));
        },
    };
    let (subsec, unit, options) = match shape {
        AtShape::Bare => (None, None, None),
        AtShape::Options => (None, None, opt1),
        AtShape::Subsec => (opt1, None, None),
        AtShape::SubsecOptions => (opt1, None, opt2),
        AtShape::SubsecUnit => (opt1, opt2, None),
        AtShape::SubsecUnitOptions => (opt1, opt2, opt3),
    };
    let seconds = match seconds.to_int() {
        Ok(s) => s,
        Err(e) => return Err(e),
    };
    let nanos: u32 = match subsec {
        Some(Value::Fixnum(count)) => {
            let multiplier = match subsec_multiplier(&unit) {
                Ok(m) => m,
                Err(e) => return Err(e),
            };
            match subsec_nanos(count, multiplier) {
                Ok(n) => n,
                Err(e) => return Err(e),
            }
        },
        _ => 0,
    };
    let offset = match options {
        Some(Value::Hash(entries)) => match offset_from_options(entries) {
            Ok(o) => o,
            Err(e) => return Err(e),
        },
        _ => Offset::local(),
    };
    let local = offset.resolve(seconds);
    box_time(heap, seconds, nanos, offset, local)
}

/// Whole seconds since the epoch.
pub fn to_int(heap: &Heap, time: Value) -> (r: Result<Value, Error>)
    ensures
        heap.time_of(time) matches Some(t) ==> r == Ok::<Value, Error>(Value::Fixnum(t.unix_seconds() as i64)),
        heap.time_of(time) is None ==> fails_as(r, ErrorKind::TypeError),
{
    let t = match heap.retrieve_time(&time) {
        Ok(t) => t,
        Err(e) => return Err(e),
    };
    Ok(Value::Fixnum(t.to_int()))
}

/// Seconds past the minute on the local wall clock.
pub fn second(heap: &Heap, time: Value) -> (r: Result<Value, Error>)
    ensures
        heap.time_of(time) matches Some(t) ==> r == Ok::<Value, Error>(Value::Fixnum((t.local_seconds() % 60) as i64)),
        heap.time_of(time) is None ==> fails_as(r, ErrorKind::TypeError),
{
    let t = match heap.retrieve_time(&time) {
        Ok(t) => t,
        Err(e) => return Err(e),
    };
    Ok(Value::Fixnum(t.second() as i64))
}

/// Minutes past the hour on the local wall clock.
pub fn minute(heap: &Heap, time: Value) -> (r: Result<Value, Error>)
    ensures
        heap.time_of(time) matches Some(t) ==> r == Ok::<Value, Error>(Value::Fixnum(((t.local_seconds() % 3600) / 60) as i64)),
        heap.time_of(time) is None ==> fails_as(r, ErrorKind::TypeError),
{
    let t = match heap.retrieve_time(&time) {
        Ok(t) => t,
        Err(e) => return Err(e),
    };
    Ok(Value::Fixnum(t.minute() as i64))
}

/// Hours past local midnight.
pub fn hour(heap: &Heap, time: Value) -> (r: Result<Value, Error>)
    ensures
        heap.time_of(time) matches Some(t) ==> r == Ok::<Value, Error>(Value::Fixnum((second_of_day(t.local_seconds()) / 3600) as i64)),
        heap.time_of(time) is None ==> fails_as(r, ErrorKind::TypeError),
{
    let t = match heap.retrieve_time(&time) {
        Ok(t) => t,
        Err(e) => return Err(e),
    };
    Ok(Value::Fixnum(t.hour() as i64))
}

/// Day of the month in the local calendar.
pub fn day(heap: &Heap, time: Value) -> (r: Result<Value, Error>)
    ensures
        heap.time_of(time) matches Some(t) ==> r == Ok::<Value, Error>(Value::Fixnum(civil_date_of(t.local_seconds()).2 as i64)),
        heap.time_of(time) is None ==> fails_as(r, ErrorKind::TypeError),
{
    let t = match heap.retrieve_time(&time) {
        Ok(t) => t,
        Err(e) => return Err(e),
    };
    Ok(Value::Fixnum(t.day() as i64))
}

/// Month of the local calendar.
pub fn month(heap: &Heap, time: Value) -> (r: Result<Value, Error>)
    ensures
        heap.time_of(time) matches Some(t) ==> r == Ok::<Value, Error>(Value::Fixnum(civil_date_of(t.local_seconds()).1 as i64)),
        heap.time_of(time) is None ==> fails_as(r, ErrorKind::TypeError),
{
    let t = match heap.retrieve_time(&time) {
        Ok(t) => t,
        Err(e) => return Err(e),
    };
    Ok(Value::Fixnum(t.month() as i64))
}

/// Year of the local calendar.
pub fn year(heap: &Heap, time: Value) -> (r: Result<Value, Error>)
    ensures
        heap.time_of(time) matches Some(t) ==> r == Ok::<Value, Error>(Value::Fixnum(civil_date_of(t.local_seconds()).0 as i64)),
        heap.time_of(time) is None ==> fails_as(r, ErrorKind::TypeError),
{
    let t = match heap.retrieve_time(&time) {
        Ok(t) => t,
        Err(e) => return Err(e),
    };
    Ok(Value::Fixnum(t.year() as i64))
}

/// Days since Sunday in the local calendar.
pub fn weekday(heap: &Heap, time: Value) -> (r: Result<Value, Error>)
    ensures
        heap.time_of(time) matches Some(t) ==> r == Ok::<Value, Error>(Value::Fixnum(week_day_of(t.local_seconds()) as i64)),
        heap.time_of(time) is None ==> fails_as(r, ErrorKind::TypeError),
{
    let t = match heap.retrieve_time(&time) {
        Ok(t) => t,
        Err(e) => return Err(e),
    };
    Ok(Value::Fixnum(t.day_of_week() as i64))
}

/// Day of the year in the local calendar, from 1.
pub fn year_day(heap: &Heap, time: Value) -> (r: Result<Value, Error>)
    ensures
        heap.time_of(time) matches Some(t) ==> r == Ok::<Value, Error>(Value::Fixnum((civil_date_of(t.local_seconds()).3 + 1) as i64)),
        heap.time_of(time) is None ==> fails_as(r, ErrorKind::TypeError),
{
    let t = match heap.retrieve_time(&time) {
        Ok(t) => t,
        Err(e) => return Err(e),
    };
    Ok(Value::Fixnum(t.day_of_year() as i64))
}

/// Whether daylight saving is in effect.
pub fn is_dst(heap: &Heap, time: Value) -> (r: Result<Value, Error>)
    ensures
        heap.time_of(time) matches Some(t) ==> r == Ok::<Value, Error>(Value::Bool(t.local_type().is_dst)),
        heap.time_of(time) is None ==> fails_as(r, ErrorKind::TypeError),
{
    let t = match heap.retrieve_time(&time) {
        Ok(t) => t,
        Err(e) => return Err(e),
    };
    Ok(Value::Bool(t.is_dst()))
}

/// Whether the time is shown in true UTC.
pub fn is_utc(heap: &Heap, time: Value) -> (r: Result<Value, Error>)
    ensures
        heap.time_of(time) matches Some(t) ==> r == Ok::<Value, Error>(Value::Bool(t.offset_spec() is Utc)),
        heap.time_of(time) is None ==> fails_as(r, ErrorKind::TypeError),
{
    let t = match heap.retrieve_time(&time) {
        Ok(t) => t,
        Err(e) => return Err(e),
    };
    Ok(Value::Bool(t.is_utc()))
}

/// Whole microseconds past the second.
pub fn microsecond(heap: &Heap, time: Value) -> (r: Result<Value, Error>)
    ensures
        heap.time_of(time) matches Some(t) ==> r == Ok::<Value, Error>(Value::Fixnum((t.subsec_nanos() / 1000) as i64)),
        heap.time_of(time) is None ==> fails_as(r, ErrorKind::TypeError),
{
    let t = match heap.retrieve_time(&time) {
        Ok(t) => t,
        Err(e) => return Err(e),
    };
    Ok(Value::Fixnum(t.microseconds() as i64))
}

/// Nanoseconds past the second.
pub fn nanosecond(heap: &Heap, time: Value) -> (r: Result<Value, Error>)
    ensures
        heap.time_of(time) matches Some(t) ==> r == Ok::<Value, Error>(Value::Fixnum(t.subsec_nanos() as i64)),
        heap.time_of(time) is None ==> fails_as(r, ErrorKind::TypeError),
{
    let t = match heap.retrieve_time(&time) {
        Ok(t) => t,
        Err(e) => return Err(e),
    };
    Ok(Value::Fixnum(t.nanoseconds() as i64))
}

/// Whether the local day is a Sunday.
pub fn is_sunday(heap: &Heap, time: Value) -> (r: Result<Value, Error>)
    ensures
        heap.time_of(time) matches Some(t) ==> r == Ok::<Value, Error>(Value::Bool(week_day_of(t.local_seconds()) == 0)),
        heap.time_of(time) is None ==> fails_as(r, ErrorKind::TypeError),
{
    let t = match heap.retrieve_time(&time) {
        Ok(t) => t,
        Err(e) => return Err(e),
    };
    Ok(Value::Bool(t.day_of_week() == 0))
}

/// Whether the local day is a Monday.
pub fn is_monday(heap: &Heap, time: Value) -> (r: Result<Value, Error>)
    ensures
        heap.time_of(time) matches Some(t) ==> r == Ok::<Value, Error>(Value::Bool(week_day_of(t.local_seconds()) == 1)),
        heap.time_of(time) is None ==> fails_as(r, ErrorKind::TypeError),
{
    let t = match heap.retrieve_time(&time) {
        Ok(t) => t,
        Err(e) => return Err(e),
    };
    Ok(Value::Bool(t.day_of_week() == 1))
}

/// Whether the local day is a Tuesday.
pub fn is_tuesday(heap: &Heap, time: Value) -> (r: Result<Value, Error>)
    ensures
        heap.time_of(time) matches Some(t) ==> r == Ok::<Value, Error>(Value::Bool(week_day_of(t.local_seconds()) == 2)),
        heap.time_of(time) is None ==> fails_as(r, ErrorKind::TypeError),
{
    let t = match heap.retrieve_time(&time) {
        Ok(t) => t,
        Err(e) => return Err(e),
    };
    Ok(Value::Bool(t.day_of_week() == 2))
}

/// Whether the local day is a Wednesday.
pub fn is_wednesday(heap: &Heap, time: Value) -> (r: Result<Value, Error>)
    ensures
        heap.time_of(time) matches Some(t) ==> r == Ok::<Value, Error>(Value::Bool(week_day_of(t.local_seconds()) == 3)),
        heap.time_of(time) is None ==> fails_as(r, ErrorKind::TypeError),
{
    let t = match heap.retrieve_time(&time) {
        Ok(t) => t,
        Err(e) => return Err(e),
    };
    Ok(Value::Bool(t.day_of_week() == 3))
}

/// Whether the local day is a Thursday.
pub fn is_thursday(heap: &Heap, time: Value) -> (r: Result<Value, Error>)
    ensures
        heap.time_of(time) matches Some(t) ==> r == Ok::<Value, Error>(Value::Bool(week_day_of(t.local_seconds()) == 4)),
        heap.time_of(time) is None ==> fails_as(r, ErrorKind::TypeError),
{
    let t = match heap.retrieve_time(&time) {
        Ok(t) => t,
        Err(e) => return Err(e),
    };
    Ok(Value::Bool(t.day_of_week() == 4))
}

/// Whether the local day is a Friday.
pub fn is_friday(heap: &Heap, time: Value) -> (r: Result<Value, Error>)
    ensures
        heap.time_of(time) matches Some(t) ==> r == Ok::<Value, Error>(Value::Bool(week_day_of(t.local_seconds()) == 5)),
        heap.time_of(time) is None ==> fails_as(r, ErrorKind::TypeError),
{
    let t = match heap.retrieve_time(&time) {
        Ok(t) => t,
        Err(e) => return Err(e),
    };
    Ok(Value::Bool(t.day_of_week() == 5))
}

/// Whether the local day is a Saturday.
pub fn is_saturday(heap: &Heap, time: Value) -> (r: Result<Value, Error>)
    ensures
        heap.time_of(time) matches Some(t) ==> r == Ok::<Value, Error>(Value::Bool(week_day_of(t.local_seconds()) == 6)),
        heap.time_of(time) is None ==> fails_as(r, ErrorKind::TypeError),
{
    let t = match heap.retrieve_time(&time) {
        Ok(t) => t,
        Err(e) => return Err(e),
    };
    Ok(Value::Bool(t.day_of_week() == 6))
}

/// `Time.utc` from calendar fields. Not implemented yet: always fails with `NotImplementedError`.
pub fn mkutc(_heap: &Heap, _args: Vec<Value>) -> (r: Result<Value, Error>)
    ensures
        fails_with(r, ErrorKind::NotImplementedError, "not implemented"@),
{
    Err(Error::not_implemented())
}

/// `Time.local` from calendar fields. Not implemented yet: always fails with `NotImplementedError`.
pub fn mktime(_heap: &Heap, _args: Vec<Value>) -> (r: Result<Value, Error>)
    ensures
        fails_with(r, ErrorKind::NotImplementedError, "not implemented"@),
{
    Err(Error::not_implemented())
}

/// The instant as a rational number. Not implemented yet: always fails with `NotImplementedError`.
pub fn to_rational(_heap: &Heap, _time: Value) -> (r: Result<Value, Error>)
    ensures
        fails_with(r, ErrorKind::NotImplementedError, "not implemented"@),
{
    Err(Error::not_implemented())
}

/// A hash of the instant. Not implemented yet: always fails with `NotImplementedError`.
pub fn hash(_heap: &Heap, _time: Value) -> (r: Result<Value, Error>)
    ensures
        fails_with(r, ErrorKind::NotImplementedError, "not implemented"@),
{
    Err(Error::not_implemented())
}

/// `Time.new` from calendar fields. Not implemented yet: always fails with `NotImplementedError`.
pub fn initialize(_heap: &Heap, _time: Value, _args: Vec<Value>) -> (r: Result<Value, Error>)
    ensures
        fails_with(r, ErrorKind::NotImplementedError, "not implemented"@),
{
    Err(Error::not_implemented())
}

/// Shows the time in the local zone, in place. Not implemented yet: always fails with `NotImplementedError`.
pub fn mutate_to_local(_heap: &Heap, _time: Value, _offset: Option<Value>) -> (r: Result<Value, Error>)
    ensures
        fails_with(r, ErrorKind::NotImplementedError, "not implemented"@),
{
    Err(Error::not_implemented())
}

/// The time shown in the local zone. Not implemented yet: always fails with `NotImplementedError`.
pub fn as_local(_heap: &Heap, _time: Value, _offset: Option<Value>) -> (r: Result<Value, Error>)
    ensures
        fails_with(r, ErrorKind::NotImplementedError, "not implemented"@),
{
    Err(Error::not_implemented())
}

/// The time in `asctime` form. Not implemented yet: always fails with `NotImplementedError`.
pub fn asctime(_heap: &Heap, _time: Value) -> (r: Result<Value, Error>)
    ensures
        fails_with(r, ErrorKind::NotImplementedError, "not implemented"@),
{
    Err(Error::not_implemented())
}

/// The time rendered as text. Not implemented yet: always fails with `NotImplementedError`.
pub fn to_string(_heap: &Heap, _time: Value) -> (r: Result<Value, Error>)
    ensures
        fails_with(r, ErrorKind::NotImplementedError, "not implemented"@),
{
    Err(Error::not_implemented())
}

/// The time as an array of its fields. Not implemented yet: always fails with `NotImplementedError`.
pub fn to_array(_heap: &Heap, _time: Value) -> (r: Result<Value, Error>)
    ensures
        fails_with(r, ErrorKind::NotImplementedError, "not implemented"@),
{
    Err(Error::not_implemented())
}

/// The time moved forward. Not implemented yet: always fails with `NotImplementedError`.
pub fn plus(_heap: &Heap, _time: Value, _other: Value) -> (r: Result<Value, Error>)
    ensures
        fails_with(r, ErrorKind::NotImplementedError, "not implemented"@),
{
    Err(Error::not_implemented())
}

/// The time moved back, or the difference of two times. Not implemented yet: always fails with `NotImplementedError`.
pub fn minus(_heap: &Heap, _time: Value, _other: Value) -> (r: Result<Value, Error>)
    ensures
        fails_with(r, ErrorKind::NotImplementedError, "not implemented"@),
{
    Err(Error::not_implemented())
}

/// The time one second later. Not implemented yet: always fails with `NotImplementedError`.
pub fn succ(_heap: &Heap, _time: Value) -> (r: Result<Value, Error>)
    ensures
        fails_with(r, ErrorKind::NotImplementedError, "not implemented"@),
{
    Err(Error::not_implemented())
}

/// The time rounded to a number of digits. Not implemented yet: always fails with `NotImplementedError`.
pub fn round(_heap: &Heap, _time: Value, _num_digits: Option<Value>) -> (r: Result<Value, Error>)
    ensures
        fails_with(r, ErrorKind::NotImplementedError, "not implemented"@),
{
    Err(Error::not_implemented())
}

/// The name of the zone. Not implemented yet: always fails with `NotImplementedError`.
pub fn timezone(_heap: &Heap, _time: Value) -> (r: Result<Value, Error>)
    ensures
        fails_with(r, ErrorKind::NotImplementedError, "not implemented"@),
{
    Err(Error::not_implemented())
}

/// The offset from UTC in seconds. Not implemented yet: always fails with `NotImplementedError`.
pub fn utc_offset(_heap: &Heap, _time: Value) -> (r: Result<Value, Error>)
    ensures
        fails_with(r, ErrorKind::NotImplementedError, "not implemented"@),
{
    Err(Error::not_implemented())
}

/// The fraction of the second as a rational number. Not implemented yet: always fails with `NotImplementedError`.
pub fn subsec(_heap: &Heap, _time: Value) -> (r: Result<Value, Error>)
    ensures
        fails_with(r, ErrorKind::NotImplementedError, "not implemented"@),
{
    Err(Error::not_implemented())
}

/// The time formatted by a directive string. Not implemented yet: always fails with `NotImplementedError`.
pub fn strftime(_heap: &Heap, _time: Value, _format: Value) -> (r: Result<Value, Error>)
    ensures
        fails_with(r, ErrorKind::NotImplementedError, "not implemented"@),
{
    Err(Error::not_implemented())
}

/// `Time.now`: a new time at the instant that the system clock gave, shown in the
/// local zone. `clock` is that reading, or `None` where the clock could not be read.
pub fn now(heap: &mut Heap, clock: Option<(i64, u32)>) -> (r: Result<Value, Error>)
    requires
        old(heap).payloads().len() < usize::MAX,
    ensures
        !(clock matches Some((_, n)) && n < NANOS_IN_SECOND) ==> (fails_with(
            r,
            ErrorKind::RuntimeError,
            "now is not available"@,
        ) && final(heap).payloads() == old(heap).payloads()),
        clock matches Some((s, n)) ==> (n < NANOS_IN_SECOND ==> {
            &&& !in_calendar_range(s as int) ==> (fails_with(
                r,
                ErrorKind::RangeError,
                "Time too large"@,
            ) && final(heap).payloads() == old(heap).payloads())
            &&& r matches Ok(v) ==> (new_time(old(heap).payloads(), final(heap).payloads(), v) matches Some(t)
                && t.unix_seconds() == s && t.subsec_nanos() == n && t.offset_spec() is Tz)
            &&& r is Err ==> (final(heap).payloads() == old(heap).payloads() && (fails_with(
                r,
                ErrorKind::RangeError,
                "Time too large"@,
            ) || fails_with(r, ErrorKind::RuntimeError, "no local time type for the instant"@)))
        }),
{
    let (seconds, nanos) = match clock {
        Some(reading) => reading,
        None => return Err(Error::with_message(ErrorKind::RuntimeError, "now is not available")),
    };
    if nanos >= NANOS_IN_SECOND {
        return Err(Error::with_message(ErrorKind::RuntimeError, "now is not available"));
    }
    let offset = Offset::local();
    let local = offset.resolve(seconds);
    box_time(heap, seconds, nanos, offset, local)
}

/// `time <=> other`: -1, 0 or 1 as `time`'s instant is earlier, the same or later.
/// Comparing with anything but a time is a type error naming its class.
pub fn cmp(heap: &Heap, time: Value, other: Value) -> (r: Result<Value, Error>)
    ensures
        heap.time_of(time) is None ==> fails_as(r, ErrorKind::TypeError),
        heap.time_of(time) matches Some(t) ==> match heap.time_of(other) {
            Some(o) => r == Ok::<Value, Error>(
                Value::Fixnum(
                    if t.total_nanos() < o.total_nanos() {
                        -1i64
                    } else if t.total_nanos() == o.total_nanos() {
                        0i64
                    } else {
                        1i64
                    },
                ),
            ),
            None => fails_with(
                r,
                ErrorKind::TypeError,
                "comparison of Time with "@ + class_name(other) + " failed"@,
            ),
        },
{
    let t = match heap.retrieve_time(&time) {
        Ok(t) => t,
        Err(e) => return Err(e),
    };
    match heap.retrieve_time(&other) {
        Ok(o) => {
            let order: i64 = match t.compare(o) {
                core::cmp::Ordering::Less => -1,
                core::cmp::Ordering::Equal => 0,
                core::cmp::Ordering::Greater => 1,
            };
            Ok(Value::Fixnum(order))
        },
        Err(_) => {
            let mut message = String::from_str("comparison of Time with ");
            message.append(other.class_name());
            message.append(" failed");
            Err(Error { kind: ErrorKind::TypeError, message })
        },
    }
}

/// `time.eql?(other)`: whether `other` is a time at the same instant. Comparing
/// with anything but a time is a type error naming its class.
pub fn eql(heap: &Heap, time: Value, other: Value) -> (r: Result<Value, Error>)
    ensures
        heap.time_of(time) is None ==> fails_as(r, ErrorKind::TypeError),
        heap.time_of(time) matches Some(t) ==> match heap.time_of(other) {
            Some(o) => r == Ok::<Value, Error>(Value::Bool(t.total_nanos() == o.total_nanos())),
            None => fails_with(
                r,
                ErrorKind::TypeError,
                "comparison of Time with "@ + class_name(other) + " failed"@,
            ),
        },
{
    let t = match heap.retrieve_time(&time) {
        Ok(t) => t,
        Err(e) => return Err(e),
    };
    match heap.retrieve_time(&other) {
        Ok(o) => {
            let same = match t.compare(o) {
                core::cmp::Ordering::Equal => true,
                _ => false,
            };
            Ok(Value::Bool(same))
        },
        Err(_) => {
            let mut message = String::from_str("comparison of Time with ");
            message.append(other.class_name());
            message.append(" failed");
            Err(Error { kind: ErrorKind::TypeError, message })
        },
    }
}

/// `time.initialize_copy(from)`: `time`'s object takes a copy of `from`'s time.
pub fn initialize_copy(heap: &mut Heap, time: Value, from: Value) -> (r: Result<Value, Error>)
    ensures
        old(heap).time_of(from) is None ==> (fails_as(r, ErrorKind::TypeError) && final(heap).payloads() == old(heap).payloads()),
        old(heap).time_of(from) matches Some(t) ==> if old(heap).payload_of(time) is Some {
            r == Ok::<Value, Error>(time) && final(heap).payloads() == old(heap).payloads().update(
                time->Object_0.id as int,
                Native::Time(t),
            )
        } else {
            fails_as(r, ErrorKind::TypeError) && final(heap).payloads() == old(heap).payloads()
        },
{
    let copy = match heap.retrieve_time(&from) {
        Ok(t) => t.copied(),
        Err(e) => return Err(e),
    };
    match heap.overwrite(Native::Time(copy), &time) {
        Ok(()) => Ok(time),
        Err(e) => Err(e),
    }
}

/// `time.utc`: shows the time in UTC, in place, keeping its instant.
pub fn mutate_to_utc(heap: &mut Heap, time: Value) -> (r: Result<Value, Error>)
    ensures
        old(heap).time_of(time) is None ==> (fails_as(r, ErrorKind::TypeError) && final(heap).payloads()
            == old(heap).payloads()),
        old(heap).time_of(time) matches Some(t) ==> {
            &&& r == Ok::<Value, Error>(time)
            &&& final(heap).payloads().len() == old(heap).payloads().len()
            &&& final(heap).time_of(time) matches Some(u) && u.unix_seconds() == t.unix_seconds()
                && u.subsec_nanos() == t.subsec_nanos() && u.offset_spec() is Utc
            &&& forall|i: int|
                0 <= i < old(heap).payloads().len() && i != time->Object_0.id ==> final(heap).payloads()[i] == old(heap).payloads()[i]
        },
{
    let mut copy = match heap.retrieve_time(&time) {
        Ok(t) => t.copied(),
        Err(e) => return Err(e),
    };
    match copy.set_utc() {
        Ok(()) => {},
        Err(_) => {
            return Err(Error::with_message(ErrorKind::RangeError, "could not convert to utc"));
        },
    }
    match heap.overwrite(Native::Time(copy), &time) {
        Ok(()) => Ok(time),
        Err(e) => Err(e),
    }
}

/// `time.getutc`: a new time at the same instant, shown in UTC.
pub fn as_utc(heap: &mut Heap, time: Value) -> (r: Result<Value, Error>)
    requires
        old(heap).payloads().len() < usize::MAX,
    ensures
        old(heap).time_of(time) is None ==> (fails_as(r, ErrorKind::TypeError) && final(heap).payloads()
            == old(heap).payloads()),
        old(heap).time_of(time) matches Some(t) ==> (r matches Ok(v) && new_time(
            old(heap).payloads(),
            final(heap).payloads(),
            v,
        ) matches Some(u) && u.unix_seconds() == t.unix_seconds() && u.subsec_nanos()
            == t.subsec_nanos() && u.offset_spec() is Utc),
{
    let utc = match heap.retrieve_time(&time) {
        Ok(t) => match t.to_utc() {
            Ok(u) => u,
            Err(_) => {
                return Err(
                    Error::with_message(ErrorKind::RangeError, "could not convert to utc"),
                );
            },
        },
        Err(e) => return Err(e),
    };
    let ghost before = heap.payloads();
    let v = heap.allocate(Native::Time(utc));
    proof {
        assert(heap.payloads().drop_last() =~= before);
    }
    Ok(v)
}

} // verus!
