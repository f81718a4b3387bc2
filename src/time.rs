//! An instant paired with an offset, and what it shows on a wall clock.

use vstd::prelude::*;
use vstd::std_specs::cmp::PartialEqSpec;

use crate::calendar::{
    civil_date_of, in_calendar_range, project_local, second_of_day, week_day_of,
};
use crate::offset::{is_utc_type, LocalTimeType, Offset};

verus! {

/// Nanoseconds in a second.
pub const NANOS_IN_SECOND: u32 = 1_000_000_000;

/// Nanoseconds in a microsecond.
pub const MICROS_IN_NANO: u32 = 1_000;

/// `local` can be what `offset` gives at some instant: UTC gives the UTC local
/// time type, and a fixed offset gives its own.
pub open spec fn offset_admits(offset: Offset, local: LocalTimeType) -> bool {
    &&& offset is Utc ==> is_utc_type(local)
    &&& offset matches Offset::Fixed(l) ==> local == l
}

/// Why a `Time` could not be built.
#[derive(Debug, Clone, Copy, PartialEq, Eq, Structural)]
pub enum TimeError {
    /// The nanoseconds are not in `[0, 1_000_000_000)`.
    NanosecondsOutOfRange,
    /// The local time falls outside the calendar's range.
    TimestampOutOfRange,
    /// The zone has no rule for the instant.
    ZoneUnavailable,
}

/// An instant (whole seconds since the epoch and nanoseconds) shown under an
/// offset. Equality and ordering compare the instant alone.
#[derive(Debug)]
pub struct Time {
    seconds: i64,
    nanoseconds: u32,
    offset: Offset,
    local: LocalTimeType,
}

impl Time {
    #[verifier::type_invariant]
    spec fn well_formed(self) -> bool {
        &&& self.nanoseconds < NANOS_IN_SECOND
        &&& in_calendar_range(self.seconds as int)
        &&& in_calendar_range(self.seconds + self.local.ut_offset)
        &&& offset_admits(self.offset, self.local)
    }

    /// Whole seconds since the epoch.
    pub closed spec fn unix_seconds(self) -> int {
        self.seconds as int
    }

    /// Nanoseconds past the whole second.
    pub closed spec fn subsec_nanos(self) -> int {
        self.nanoseconds as int
    }

    /// The offset the instant is shown under.
    pub closed spec fn offset_spec(self) -> Offset {
        self.offset
    }

    /// What the offset gives at this instant.
    pub closed spec fn local_type(self) -> LocalTimeType {
        self.local
    }

    /// Seconds since the epoch on the local wall clock.
    pub open spec fn local_seconds(self) -> int {
        self.unix_seconds() + self.local_type().ut_offset
    }

    /// The instant as one count of nanoseconds, the key of equality and order.
    pub open spec fn total_nanos(self) -> int {
        self.unix_seconds() * 1_000_000_000 + self.subsec_nanos()
    }

    /// Builds a time from an instant, an offset and what the offset gives at that
    /// instant. Fails when the nanoseconds are out of range, or when the instant or
    /// its local time falls outside the calendar.
    pub fn with_local_type(
        seconds: i64,
        nanoseconds: u32,
        offset: Offset,
        local: LocalTimeType,
    ) -> (r: Result<Time, TimeError>)
        requires
            offset_admits(offset, local),
        ensures
            nanoseconds >= NANOS_IN_SECOND ==> r == Err::<Time, TimeError>(
                TimeError::NanosecondsOutOfRange,
            ),
            nanoseconds < NANOS_IN_SECOND ==> if in_calendar_range(seconds as int)
                && in_calendar_range(seconds + local.ut_offset) {
                r matches Ok(t) && t.unix_seconds() == seconds && t.subsec_nanos() == nanoseconds
                    && t.offset_spec() == offset && t.local_type() == local
            } else {
                r == Err::<Time, TimeError>(TimeError::TimestampOutOfRange)
            },
    {
        if nanoseconds >= NANOS_IN_SECOND {
            return Err(TimeError::NanosecondsOutOfRange);
        }
        if seconds < crate::calendar::MIN_LOCAL_SECONDS || seconds
            > crate::calendar::MAX_LOCAL_SECONDS {
            return Err(TimeError::TimestampOutOfRange);
        }
        let wide: i128 = seconds as i128 + local.ut_offset as i128;
        if wide < crate::calendar::MIN_LOCAL_SECONDS as i128 || wide
            > crate::calendar::MAX_LOCAL_SECONDS as i128 {
            return Err(TimeError::TimestampOutOfRange);
        }
        Ok(Time { seconds, nanoseconds, offset, local })
    }

    /// Builds a time from an instant and an offset. Fails when the nanoseconds are
    /// out of range, when the instant falls outside the calendar, when the zone has
    /// no rule for the instant, or when the local time falls outside the calendar.
    pub fn with_timespec_and_offset(seconds: i64, nanoseconds: u32, offset: Offset) -> (r: Result<
        Time,
        TimeError,
    >)
        ensures
            nanoseconds >= NANOS_IN_SECOND ==> r == Err::<Time, TimeError>(
                TimeError::NanosecondsOutOfRange,
            ),
            nanoseconds < NANOS_IN_SECOND && !in_calendar_range(seconds as int) ==> r == Err::<
                Time,
                TimeError,
            >(TimeError::TimestampOutOfRange),
            nanoseconds < NANOS_IN_SECOND && offset is Utc ==> (in_calendar_range(seconds as int)
                ==> r is Ok),
            offset matches Offset::Fixed(l) ==> ((nanoseconds < NANOS_IN_SECOND
                && in_calendar_range(seconds as int)) ==> if in_calendar_range(seconds + l.ut_offset) {
                r is Ok
            } else {
                r == Err::<Time, TimeError>(TimeError::TimestampOutOfRange)
            }),
            offset is Tz && nanoseconds < NANOS_IN_SECOND ==> (r is Ok || r == Err::<Time, TimeError>(
                TimeError::ZoneUnavailable,
            ) || r == Err::<Time, TimeError>(TimeError::TimestampOutOfRange)),
            r matches Ok(t) ==> (t.unix_seconds() == seconds && t.subsec_nanos() == nanoseconds
                && t.offset_spec() == offset),
    {
        if nanoseconds >= NANOS_IN_SECOND {
            return Err(TimeError::NanosecondsOutOfRange);
        }
        if seconds < crate::calendar::MIN_LOCAL_SECONDS || seconds
            > crate::calendar::MAX_LOCAL_SECONDS {
            return Err(TimeError::TimestampOutOfRange);
        }
        let local = match offset.resolve(seconds) {
            Some(l) => l,
            None => return Err(TimeError::ZoneUnavailable),
        };
        Time::with_local_type(seconds, nanoseconds, offset, local)
    }

    /// Whole seconds since the epoch.
    pub fn to_int(&self) -> (r: i64)
        ensures
            r == self.unix_seconds(),
    {
        self.seconds
    }

    /// Nanoseconds past the whole second, in `[0, 999_999_999]`.
    pub fn nanoseconds(&self) -> (r: u32)
        ensures
            r == self.subsec_nanos(),
            r < NANOS_IN_SECOND,
    {
        proof {
            use_type_invariant(self);
        }
        self.nanoseconds
    }

    /// Whole microseconds past the whole second, in `[0, 999_999]`.
    pub fn microseconds(&self) -> (r: u32)
        ensures
            r == self.subsec_nanos() / 1000,
            r < 1_000_000,
    {
        proof {
            use_type_invariant(self);
        }
        self.nanoseconds / MICROS_IN_NANO
    }

    /// The offset this time is shown under.
    pub fn offset(&self) -> (r: &Offset)
        ensures
            *r == self.offset_spec(),
    {
        &self.offset
    }

    /// Seconds east of UTC that the offset gives at this instant.
    pub fn utc_offset(&self) -> (r: i32)
        ensures
            r == self.local_type().ut_offset,
    {
        self.local.ut_offset
    }

    /// Whether daylight saving is in effect at this instant.
    pub fn is_dst(&self) -> (r: bool)
        ensures
            r == self.local_type().is_dst,
    {
        self.local.is_dst
    }

    /// Whether this time is shown in true UTC; a fixed zero offset is not.
    pub fn is_utc(&self) -> (r: bool)
        ensures
            r == (self.offset_spec() is Utc),
    {
        self.offset.is_utc()
    }

    /// Orders two times by their instants; the offsets play no part.
    pub fn compare(&self, other: &Time) -> (r: core::cmp::Ordering)
        ensures
            (r == core::cmp::Ordering::Less) == (self.total_nanos() < other.total_nanos()),
            (r == core::cmp::Ordering::Equal) == (self.total_nanos() == other.total_nanos()),
            (r == core::cmp::Ordering::Greater) == (self.total_nanos() > other.total_nanos()),
    {
        proof {
            use_type_invariant(self);
            use_type_invariant(other);
        }
        if self.seconds < other.seconds {
            core::cmp::Ordering::Less
        } else if self.seconds > other.seconds {
            core::cmp::Ordering::Greater
        } else if self.nanoseconds < other.nanoseconds {
            core::cmp::Ordering::Less
        } else if self.nanoseconds > other.nanoseconds {
            core::cmp::Ordering::Greater
        } else {
            core::cmp::Ordering::Equal
        }
    }

    /// A copy of this time.
    pub fn copied(&self) -> (r: Time)
        ensures
            r == *self,
    {
        proof {
            use_type_invariant(self);
        }
        Time {
            seconds: self.seconds,
            nanoseconds: self.nanoseconds,
            offset: self.offset.copied(),
            local: self.local.copied(),
        }
    }

    /// The same instant shown in UTC. Every time's instant lies in the calendar, so
    /// this never fails.
    pub fn to_utc(&self) -> (r: Result<Time, TimeError>)
        ensures
            r matches Ok(t) && t.unix_seconds() == self.unix_seconds() && t.subsec_nanos()
                == self.subsec_nanos() && t.offset_spec() == Offset::Utc && is_utc_type(
                t.local_type(),
            ),
    {
        proof {
            use_type_invariant(self);
        }
        Time::with_local_type(self.seconds, self.nanoseconds, Offset::utc(), LocalTimeType::utc())
    }

    /// Shows this time in UTC, in place, keeping the instant. Never fails.
    pub fn set_utc(&mut self) -> (r: Result<(), TimeError>)
        ensures
            r is Ok,
            final(self).unix_seconds() == old(self).unix_seconds(),
            final(self).subsec_nanos() == old(self).subsec_nanos(),
            final(self).offset_spec() == Offset::Utc,
    {
        match self.to_utc() {
            Ok(t) => {
                *self = t;
                Ok(())
            },
            Err(e) => Err(e),
        }
    }

    /// Seconds past the minute on the local wall clock, in `[0, 59]`.
    pub fn second(&self) -> (r: u8)
        ensures
            r == self.local_seconds() % 60,
    {
        let c = self.civil();
        c.second
    }

    /// Minutes past the hour on the local wall clock, in `[0, 59]`.
    pub fn minute(&self) -> (r: u8)
        ensures
            r == (self.local_seconds() % 3600) / 60,
    {
        let c = self.civil();
        c.minute
    }

    /// Hours past local midnight, in `[0, 23]`.
    pub fn hour(&self) -> (r: u8)
        ensures
            r == second_of_day(self.local_seconds()) / 3600,
    {
        let c = self.civil();
        c.hour
    }

    /// Day of the month in the local calendar, in `[1, 31]`.
    pub fn day(&self) -> (r: u8)
        ensures
            r == civil_date_of(self.local_seconds()).2,
            1 <= r <= 31,
    {
        let c = self.civil();
        c.month_day
    }

    /// Month of the local calendar, in `[1, 12]`.
    pub fn month(&self) -> (r: u8)
        ensures
            r == civil_date_of(self.local_seconds()).1,
            1 <= r <= 12,
    {
        let c = self.civil();
        c.month
    }

    /// Year of the local calendar.
    pub fn year(&self) -> (r: i32)
        ensures
            r == civil_date_of(self.local_seconds()).0,
    {
        let c = self.civil();
        c.year
    }

    /// Days since Sunday in the local calendar, in `[0, 6]`.
    pub fn day_of_week(&self) -> (r: u8)
        ensures
            r == week_day_of(self.local_seconds()),
    {
        let c = self.civil();
        c.week_day
    }

    /// Day of the year in the local calendar, counted from 1 for January 1, in
    /// `[1, 366]`.
    pub fn day_of_year(&self) -> (r: u16)
        ensures
            r == civil_date_of(self.local_seconds()).3 + 1,
            1 <= r <= 366,
    {
        let c = self.civil();
        c.year_day + 1
    }

    /// The wall-clock fields of this time.
    fn civil(&self) -> (r: crate::calendar::CivilTime)
        ensures
            crate::calendar::is_civil_time_of(r, self.local_seconds()),
    {
        proof {
            use_type_invariant(self);
        }
        let local_seconds: i64 = self.seconds + self.local.ut_offset as i64;
        match project_local(local_seconds) {
            Some(c) => c,
            None => {
                assert(false);
                crate::calendar::CivilTime {
                    year: 0,
                    month: 1,
                    month_day: 1,
                    hour: 0,
                    minute: 0,
                    second: 0,
                    week_day: 0,
                    year_day: 0,
                }
            },
        }
    }
}

/// Two times at the same instant are equal and order as equal, whatever offsets
/// they are shown under.
pub proof fn lemma_equality_ignores_offset(a: Time, b: Time)
    requires
        a.unix_seconds() == b.unix_seconds(),
        a.subsec_nanos() == b.subsec_nanos(),
    ensures
        a.eq_spec(&b),
        a.total_nanos() == b.total_nanos(),
{
}

impl PartialEq for Time {
    fn eq(&self, other: &Time) -> (r: bool) {
        self.seconds == other.seconds && self.nanoseconds == other.nanoseconds
    }
}

impl vstd::std_specs::cmp::PartialEqSpecImpl for Time {
    open spec fn obeys_eq_spec() -> bool {
        true
    }

    open spec fn eq_spec(&self, other: &Time) -> bool {
        self.unix_seconds() == other.unix_seconds() && self.subsec_nanos() == other.subsec_nanos()
    }
}

} // verus!
