//! Offsets from UTC: the textual grammar, fixed offsets and named zones.

use vstd::prelude::*;
use vstd::string::*;

verus! {

/// A zone of the timezone database, carried through as an opaque reference.
#[verifier::external_type_specification]
#[verifier::external_body]
pub struct ExTimeZoneRef<'a>(tz::timezone::TimeZoneRef<'a>);

/// Relies on the derived `Clone` of `tz::TimeZoneRef`, a `Copy` type: the clone
/// is the same reference.
pub assume_specification<'a>[ <tz::TimeZoneRef<'a> as Clone>::clone ](
    z: &tz::TimeZoneRef<'a>,
) -> (r: tz::TimeZoneRef<'a>)
    ensures
        r == *z,
;

/// Seconds in a minute.
pub const SECONDS_IN_MINUTE: i32 = 60;

/// Seconds in an hour.
pub const SECONDS_IN_HOUR: i32 = 3600;

/// The decimal digit `d` as a character.
pub open spec fn digit_char(d: nat) -> char {
    seq!['0', '1', '2', '3', '4', '5', '6', '7', '8', '9'][d as int]
}

/// The decimal rendering of `n`, without leading zeros.
pub open spec fn decimal(n: nat) -> Seq<char>
    decreases n,
{
    if n < 10 {
        seq![digit_char(n)]
    } else {
        decimal(n / 10).push(digit_char(n % 10))
    }
}

/// `n` rendered in decimal, zero-padded to a width of at least two.
pub open spec fn pad2(n: nat) -> Seq<char> {
    if n < 10 {
        seq!['0', digit_char(n)]
    } else {
        decimal(n)
    }
}

/// The magnitude of `x`.
pub open spec fn abs(x: int) -> nat {
    if x < 0 {
        (-x) as nat
    } else {
        x as nat
    }
}

/// The `±HHMM` designation of a fixed offset: the sign of `seconds`, then the
/// whole hours and remaining minutes of its magnitude; leftover seconds are dropped.
pub open spec fn hhmm_designation(seconds: int) -> Seq<char> {
    let minutes = abs(seconds) / 60;
    seq![if seconds < 0 { '-' } else { '+' }] + pad2(minutes / 60) + pad2(minutes % 60)
}

fn digit_str(d: u64) -> (r: &'static str)
    requires
        d < 10,
    ensures
        r@ == seq![digit_char(d as nat)],
{
    proof {
        reveal_strlit("0");
        reveal_strlit("1");
        reveal_strlit("2");
        reveal_strlit("3");
        reveal_strlit("4");
        reveal_strlit("5");
        reveal_strlit("6");
        reveal_strlit("7");
        reveal_strlit("8");
        reveal_strlit("9");
    }
    let r = match d {
        0 => "0",
        1 => "1",
        2 => "2",
        3 => "3",
        4 => "4",
        5 => "5",
        6 => "6",
        7 => "7",
        8 => "8",
        _ => "9",
    };
    proof {
        assert(r@ =~= seq![digit_char(d as nat)]);
    }
    r
}

fn push_decimal(out: &mut String, n: u64)
    ensures
        final(out)@ == old(out)@ + decimal(n as nat),
    decreases n,
{
    if n >= 10 {
        push_decimal(out, n / 10);
    }
    out.append(digit_str(n % 10));
    proof {
        assert(final(out)@ =~= old(out)@ + decimal(n as nat));
    }
}

fn push_pad2(out: &mut String, n: u64)
    ensures
        final(out)@ == old(out)@ + pad2(n as nat),
{
    if n < 10 {
        out.append("0");
    }
    push_decimal(out, n);
    proof {
        reveal_strlit("0");
        assert(final(out)@ =~= old(out)@ + pad2(n as nat));
    }
}

/// Renders a number of seconds as a `[+-]HHMM` designation.
pub fn offset_hhmm_from_seconds(seconds: i32) -> (r: String)
    ensures
        r@ == hhmm_designation(seconds as int),
{
    let wide: i64 = seconds as i64;
    let magnitude: u64 = if wide < 0 { (-wide) as u64 } else { wide as u64 };
    let minutes: u64 = magnitude / 60;
    let hours: u64 = minutes / 60;
    let offset_minutes: u64 = minutes - hours * 60;
    let mut r = if seconds < 0 { String::from_str("-") } else { String::from_str("+") };
    proof {
        reveal_strlit("-");
        reveal_strlit("+");
    }
    push_pad2(&mut r, hours);
    push_pad2(&mut r, offset_minutes);
    proof {
        assert(r@ =~= hhmm_designation(seconds as int));
    }
    r
}


/// The error for text that names no offset; it carries the text.
#[derive(Debug, Clone)]
pub struct TzStringError(pub String);

impl TzStringError {
    /// The human-readable message: `invalid timezone <text>`.
    pub fn message(&self) -> (r: String)
        ensures
            r@ == "invalid timezone "@ + self.0@,
    {
        let mut r = String::from_str("invalid timezone ");
        r.append(self.0.as_str());
        r
    }
}

/// What one offset gives at one instant: seconds east of UTC, whether daylight
/// saving is in effect, and the designation shown for the zone.
#[derive(Debug, Clone)]
pub struct LocalTimeType {
    pub ut_offset: i32,
    pub is_dst: bool,
    pub designation: String,
}

/// An offset from UTC: true UTC, a fixed number of seconds, or a zone of the
/// timezone database. A fixed offset of zero is not UTC.
#[derive(Debug, Clone)]
pub enum Offset {
    /// UTC offset, zero offset, Zulu time.
    Utc,
    /// A fixed offset from UTC, with its `±HHMM` designation.
    Fixed(LocalTimeType),
    /// A time zone based offset.
    Tz(tz::timezone::TimeZoneRef<'static>),
}

/// The local time type of true UTC: no offset, no daylight saving, no designation.
pub open spec fn is_utc_type(l: LocalTimeType) -> bool {
    l.ut_offset == 0 && !l.is_dst && l.designation@.len() == 0
}

/// `o` is the fixed offset of `seconds`, designated by its `±HHMM` rendering.
pub open spec fn is_fixed_offset(o: Offset, seconds: int) -> bool {
    match o {
        Offset::Fixed(l) => l.ut_offset == seconds && !l.is_dst && l.designation@
            == hhmm_designation(seconds),
        _ => false,
    }
}

/// The whole hours that a military zone letter stands for: `A`–`I` are +1 to +9,
/// `K`–`M` are +10 to +12, `N`–`Y` are -1 to -12; any other character gives 0.
pub open spec fn letter_hours(c: char) -> int {
    let u = c as u32;
    if 65 <= u <= 73 {
        u - 64
    } else if 75 <= u <= 77 {
        u - 65
    } else if 78 <= u <= 89 {
        77 - u
    } else {
        0
    }
}

/// `0` to `9`.
pub open spec fn is_ascii_digit(c: char) -> bool {
    48 <= c as u32 <= 57
}

/// The value of an ASCII digit.
pub open spec fn digit_value(c: char) -> int {
    c as u32 - 48
}

/// Text of the form `[+-]HHMM`, with four ASCII digits.
pub open spec fn is_hhmm(s: Seq<char>) -> bool {
    s.len() == 5 && (s[0] == '+' || s[0] == '-') && is_ascii_digit(s[1]) && is_ascii_digit(s[2])
        && is_ascii_digit(s[3]) && is_ascii_digit(s[4])
}

/// The seconds that `[+-]HHMM` stands for; the minutes are not bounded by 59.
pub open spec fn hhmm_seconds(s: Seq<char>) -> int {
    let hours = digit_value(s[1]) * 10 + digit_value(s[2]);
    let minutes = digit_value(s[3]) * 10 + digit_value(s[4]);
    let magnitude = hours * 3600 + minutes * 60;
    if s[0] == '+' {
        magnitude
    } else {
        -magnitude
    }
}

/// `Z` and `UTC` name true UTC.
pub open spec fn is_utc_name(s: Seq<char>) -> bool {
    s == seq!['Z'] || s == seq!['U', 'T', 'C']
}

/// The fixed offset, in seconds, that the text names, if it names one.
pub open spec fn fixed_offset_of_text(s: Seq<char>) -> Option<int> {
    if s.len() == 1 && letter_hours(s[0]) != 0 {
        Some(letter_hours(s[0]) * 3600)
    } else if is_hhmm(s) {
        Some(hhmm_seconds(s))
    } else {
        None
    }
}

/// A fixed offset of zero shows the same zero offset as UTC, yet is not UTC.
pub proof fn lemma_fixed_zero_is_not_utc(fixed: Offset, utc: LocalTimeType)
    requires
        is_fixed_offset(fixed, 0),
        is_utc_type(utc),
    ensures
        fixed matches Offset::Fixed(l) && l.ut_offset == utc.ut_offset,
        !(fixed is Utc),
{
}

fn zone_letter_hours(c: char) -> (r: i32)
    ensures
        r == letter_hours(c),
        -12 <= r <= 12,
{
    let u = c as u32;
    if 65 <= u && u <= 73 {
        (u - 64) as i32
    } else if 75 <= u && u <= 77 {
        (u - 65) as i32
    } else if 78 <= u && u <= 89 {
        77 - (u as i32)
    } else {
        0
    }
}

fn two_digits(a: char, b: char) -> (r: Option<i32>)
    ensures
        r matches Some(v) <==> is_ascii_digit(a) && is_ascii_digit(b),
        r matches Some(v) ==> v == digit_value(a) * 10 + digit_value(b),
{
    let x = a as u32;
    let y = b as u32;
    if 48 <= x && x <= 57 && 48 <= y && y <= 57 {
        Some(((x - 48) * 10 + (y - 48)) as i32)
    } else {
        None
    }
}

/// The local zone that the database gives for this system, or `GMT` where it gives
/// none: a zero offset that, unlike UTC, carries a designation.
fn local_time_zone() -> (r: Offset)
    ensures
        r is Tz,
{
    zone_or_gmt(system_zone(), gmt_zone())
}

/// The zone that was found, or else the `GMT` zone.
pub fn zone_or_gmt(
    found: Option<tz::timezone::TimeZoneRef<'static>>,
    gmt: tz::timezone::TimeZoneRef<'static>,
) -> (r: Offset)
    ensures
        found matches Some(z) ==> r == Offset::Tz(z),
        found is None ==> r == Offset::Tz(gmt),
{
    match found {
        Some(zone) => Offset::Tz(zone),
        None => Offset::Tz(gmt),
    }
}

/// Relies on `tzdb::local_tz`: the zone configured for this system, if the
/// database knows it.
#[verifier::external_body]
fn system_zone() -> (r: Option<tz::timezone::TimeZoneRef<'static>>) {
    tzdb::local_tz()
}

/// Relies on `tzdb::time_zone::etc::GMT`: the database's `GMT` zone.
#[verifier::external_body]
fn gmt_zone() -> (r: tz::timezone::TimeZoneRef<'static>) {
    tzdb::time_zone::etc::GMT
}

/// Relies on `tz::timezone::TimeZoneRef::find_local_time_type`: the rule of the
/// zone in force at `unix_time`, or `None` where the zone has none for it.
#[verifier::external_body]
fn zone_local_time_type(zone: &tz::timezone::TimeZoneRef<'static>, unix_time: i64) -> (r: Option<
    LocalTimeType,
>) {
    match zone.find_local_time_type(unix_time) {
        Ok(l) => Some(
            LocalTimeType {
                ut_offset: l.ut_offset(),
                is_dst: l.is_dst(),
                designation: l.time_zone_designation().to_string(),
            },
        ),
        Err(_) => None,
    }
}

impl LocalTimeType {
    /// A copy of this local time type.
    pub fn copied(&self) -> (r: LocalTimeType)
        ensures
            r == *self,
    {
        LocalTimeType {
            ut_offset: self.ut_offset,
            is_dst: self.is_dst,
            designation: self.designation.clone(),
        }
    }

    /// The local time type of true UTC.
    pub fn utc() -> (r: LocalTimeType)
        ensures
            is_utc_type(r),
    {
        LocalTimeType { ut_offset: 0, is_dst: false, designation: String::new() }
    }
}

impl Offset {
    /// Generate a UTC based offset.
    pub fn utc() -> (r: Offset)
        ensures
            r == Offset::Utc,
    {
        Offset::Utc
    }

    /// Generate an offset based on the detected local time zone of the system;
    /// where detection fails, the `GMT` zone.
    pub fn local() -> (r: Offset)
        ensures
            r is Tz,
    {
        local_time_zone()
    }

    /// Generate an offset with a number of seconds from UTC.
    pub fn fixed(offset: i32) -> (r: Offset)
        ensures
            is_fixed_offset(r, offset as int),
    {
        let designation = offset_hhmm_from_seconds(offset);
        Offset::Fixed(LocalTimeType { ut_offset: offset, is_dst: false, designation })
    }

    /// Generate an offset based on a zone of the timezone database.
    pub fn zone(zone: tz::timezone::TimeZoneRef<'static>) -> (r: Offset)
        ensures
            r == Offset::Tz(zone),
    {
        Offset::Tz(zone)
    }

    /// A copy of this offset.
    pub fn copied(&self) -> (r: Offset)
        ensures
            r == *self,
    {
        match self {
            Offset::Utc => Offset::Utc,
            Offset::Fixed(l) => Offset::Fixed(l.copied()),
            Offset::Tz(zone) => Offset::Tz(zone.clone()),
        }
    }

    /// Whether this is true UTC (a fixed offset of zero is not).
    pub fn is_utc(&self) -> (r: bool)
        ensures
            r == (*self is Utc),
    {
        match self {
            Offset::Utc => true,
            _ => false,
        }
    }

    /// Parses `Z` or `UTC`, a military zone letter (`A`–`I`, `K`–`Y`), or `[+-]HHMM`.
    pub fn parse(input: &str) -> (r: Result<Offset, TzStringError>)
        ensures
            is_utc_name(input@) ==> r == Ok::<Offset, TzStringError>(Offset::Utc),
            !is_utc_name(input@) ==> match fixed_offset_of_text(input@) {
                Some(seconds) => (r matches Ok(o) && is_fixed_offset(o, seconds)),
                None => (r matches Err(e) && e.0@ == input@),
            },
    {
        proof {
            reveal_strlit("Z");
        }
        let len = input.unicode_len();
        if len == 1 {
            let c = input.get_char(0);
            if c == 'Z' {
                assert(input@ =~= seq!['Z']);
                return Ok(Offset::Utc);
            }
            let hours = zone_letter_hours(c);
            if hours != 0 {
                return Ok(Offset::fixed(hours * SECONDS_IN_HOUR));
            }
        } else if len == 3 {
            if input.get_char(0) == 'U' && input.get_char(1) == 'T' && input.get_char(2) == 'C' {
                assert(input@ =~= seq!['U', 'T', 'C']);
                return Ok(Offset::Utc);
            }
        } else if len == 5 {
            let sign = input.get_char(0);
            if sign == '+' || sign == '-' {
                let hours = two_digits(input.get_char(1), input.get_char(2));
                let minutes = two_digits(input.get_char(3), input.get_char(4));
                if let (Some(h), Some(m)) = (hours, minutes) {
                    let magnitude = h * SECONDS_IN_HOUR + m * SECONDS_IN_MINUTE;
                    let seconds = if sign == '+' { magnitude } else { -magnitude };
                    return Ok(Offset::fixed(seconds));
                }
            }
        }
        Err(TzStringError(input.to_string()))
    }

    /// The local time type in force at `unix_time`: constant for UTC and a fixed
    /// offset; for a zone, the database's rule for that instant, if it has one.
    pub fn resolve(&self, unix_time: i64) -> (r: Option<LocalTimeType>)
        ensures
            *self is Utc ==> (r matches Some(l) && is_utc_type(l)),
            *self matches Offset::Fixed(l) ==> r == Some(l),
    {
        match self {
            Offset::Utc => Some(LocalTimeType::utc()),
            Offset::Fixed(l) => Some(l.copied()),
            Offset::Tz(zone) => zone_local_time_type(zone, unix_time),
        }
    }
}

} // verus!
