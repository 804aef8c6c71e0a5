//! Times of day, and the whole milliseconds between two of them.

use vstd::prelude::*;

verus! {

/// Seconds in a day.
pub const SECS_PER_DAY: u32 = 86_400;

/// Nanoseconds in a second.
pub const NANOS_PER_SEC: u32 = 1_000_000_000;

/// Nanoseconds in a millisecond.
pub const NANOS_PER_MILLI: u32 = 1_000_000;

/// Milliseconds in a second.
pub const MILLIS_PER_SEC: i64 = 1_000;

/// Milliseconds in a day.
pub const MILLIS_PER_DAY: i64 = 86_400_000;

/// No two times of one day are this many milliseconds apart: a day and a
/// leap second.
pub const MAX_SPAN_MILLIS: i64 = 86_401_000;

/// Whether `secs` seconds since midnight and `frac` nanoseconds into that
/// second denote a time of day. A `frac` of a second or more stands for a
/// leap second, which can only follow the last second of a minute.
pub open spec fn is_time_of_day(secs: u32, frac: u32) -> bool {
    &&& secs < SECS_PER_DAY
    &&& frac < 2 * NANOS_PER_SEC
    &&& (frac >= NANOS_PER_SEC ==> secs % 60 == 59)
}

/// A time of day with nanosecond precision and no date.
#[derive(Clone, Copy, Debug, PartialEq, Eq)]
pub struct TimeOfDay {
    secs: u32,
    frac: u32,
}

impl TimeOfDay {
    #[verifier::type_invariant]
    spec fn inv(self) -> bool {
        is_time_of_day(self.secs, self.frac)
    }

    /// Seconds since midnight.
    pub closed spec fn secs_spec(&self) -> u32 {
        self.secs
    }

    /// Nanoseconds since the last whole second.
    pub closed spec fn frac_spec(&self) -> u32 {
        self.frac
    }

    /// The time of day `secs` seconds after midnight and `frac` nanoseconds
    /// on, where there is one.
    pub fn new(secs: u32, frac: u32) -> (r: Option<TimeOfDay>)
        ensures
            r.is_some() <==> is_time_of_day(secs, frac),
            r matches Some(t) ==> t.secs_spec() == secs && t.frac_spec() == frac,
    {
        if secs < SECS_PER_DAY && frac < 2 * NANOS_PER_SEC && (frac < NANOS_PER_SEC || secs % 60
            == 59) {
            Some(TimeOfDay { secs, frac })
        } else {
            None
        }
    }

    /// Seconds since midnight.
    #[verifier::when_used_as_spec(secs_spec)]
    pub fn secs(&self) -> (r: u32)
        ensures
            r == self.secs_spec(),
            is_time_of_day(r, self.frac_spec()),
    {
        proof {
            use_type_invariant(self);
        }
        self.secs
    }

    /// Nanoseconds since the last whole second.
    #[verifier::when_used_as_spec(frac_spec)]
    pub fn frac(&self) -> (r: u32)
        ensures
            r == self.frac_spec(),
            is_time_of_day(self.secs_spec(), r),
    {
        proof {
            use_type_invariant(self);
        }
        self.frac
    }

    /// The whole milliseconds from this time of day to `later`; negative
    /// where `later` is the earlier of the two.
    pub fn millis_until(&self, later: &TimeOfDay) -> (r: i64)
        ensures
            r == span_millis(*self, *later),
            -MAX_SPAN_MILLIS < r < MAX_SPAN_MILLIS,
    {
        proof {
            use_type_invariant(self);
            use_type_invariant(later);
            lemma_span_bounds(*self, *later);
        }
        millis_between(*self, *later)
    }

    /// The milliseconds that pass from this time of day until the clock
    /// next shows `later`, never negative: the whole milliseconds between
    /// the two, and a day more where `later` is the earlier of the two and so
    /// stands for a time of the following day. With the day added, a part of
    /// a millisecond counts as a whole one.
    pub fn elapsed_until(&self, later: &TimeOfDay) -> (r: i64)
        ensures
            r == elapsed_millis(*self, *later),
            0 <= r < MAX_SPAN_MILLIS,
    {
        proof {
            use_type_invariant(self);
            use_type_invariant(later);
            lemma_elapsed_bounds(*self, *later);
        }
        let span = self.millis_until(later);
        if span >= 0 {
            span
        } else if self.secs == SECS_PER_DAY - 1 && self.frac >= NANOS_PER_SEC {
            span + MILLIS_PER_DAY + MILLIS_PER_SEC
        } else {
            span + MILLIS_PER_DAY
        }
    }
}

/// One if a leap second that `from` stands in lies between the two seconds,
/// minus one if `to` stands in it and is the earlier second, else zero.
pub open spec fn leap_adjust(from: TimeOfDay, to: TimeOfDay) -> int {
    if to.secs() > from.secs() && from.frac() >= NANOS_PER_SEC {
        1
    } else if to.secs() < from.secs() && to.frac() >= NANOS_PER_SEC {
        -1
    } else {
        0
    }
}

/// The nanoseconds from `from` to `to`, both taken on one day.
pub open spec fn span_nanos(from: TimeOfDay, to: TimeOfDay) -> int {
    (to.secs() - from.secs() + leap_adjust(from, to)) * (NANOS_PER_SEC as int) + (to.frac()
        - from.frac())
}

/// The whole milliseconds from `from` to `to`, rounded towards zero.
pub open spec fn span_millis(from: TimeOfDay, to: TimeOfDay) -> int {
    let nanos = span_nanos(from, to);
    if nanos >= 0 {
        nanos / (NANOS_PER_MILLI as int)
    } else {
        -((-nanos) / (NANOS_PER_MILLI as int))
    }
}

/// The milliseconds of the day that `from` stands in: a second more than
/// other days have where `from` stands in a leap second that ends the day.
pub open spec fn day_millis(from: TimeOfDay) -> int {
    if from.secs() == SECS_PER_DAY - 1 && from.frac() >= NANOS_PER_SEC {
        MILLIS_PER_DAY + MILLIS_PER_SEC
    } else {
        MILLIS_PER_DAY as int
    }
}

/// The milliseconds that pass from `from` until the clock next shows `to`:
/// their span in whole milliseconds, and the day of `from` more where `to` is
/// the earlier of the two.
pub open spec fn elapsed_millis(from: TimeOfDay, to: TimeOfDay) -> int {
    let span = span_millis(from, to);
    if span >= 0 {
        span
    } else {
        span + day_millis(from)
    }
}

/// Two times of one day are less than a day and a leap second apart.
pub proof fn lemma_span_bounds(from: TimeOfDay, to: TimeOfDay)
    requires
        is_time_of_day(from.secs(), from.frac()),
        is_time_of_day(to.secs(), to.frac()),
    ensures
        -MAX_SPAN_MILLIS < span_millis(from, to) < MAX_SPAN_MILLIS,
{
    let nanos = span_nanos(from, to);
    let whole = to.secs() - from.secs() + leap_adjust(from, to);
    assert(whole * (NANOS_PER_SEC as int) == whole * 1_000_000_000);
    assert(-86_401 * 1_000_000_000 < nanos < 86_401 * 1_000_000_000);
}

/// The time that passes between two times of day is not negative, and
/// less than a day and a leap second.
pub proof fn lemma_elapsed_bounds(from: TimeOfDay, to: TimeOfDay)
    requires
        is_time_of_day(from.secs(), from.frac()),
        is_time_of_day(to.secs(), to.frac()),
    ensures
        0 <= elapsed_millis(from, to) < MAX_SPAN_MILLIS,
{
    lemma_span_bounds(from, to);
    let whole = to.secs() - from.secs() + leap_adjust(from, to);
    assert(whole * (NANOS_PER_SEC as int) == whole * 1_000_000_000);
}

/// The time of day in UTC, where the system clock can be read as one:
/// `std::time::SystemTime::now` as the time since 1970, and
/// `chrono::DateTime::from_timestamp` of it, of which the time of day is
/// kept. There is no reading where the clock stands before 1970 or beyond
/// the dates that chrono holds. Nothing is claimed of a reading but that it
/// is a time of day: two readings may differ in any way.
#[verifier::external_body]
pub(crate) fn read_clock() -> (reading: Option<TimeOfDay>)
    ensures
        reading matches Some(now) ==> is_time_of_day(now.secs(), now.frac()),
{
    let since = std::time::SystemTime::now().duration_since(std::time::UNIX_EPOCH).ok()?;
    let secs = i64::try_from(since.as_secs()).ok()?;
    let at = chrono::DateTime::from_timestamp(secs, since.subsec_nanos())?.time();
    Some(TimeOfDay {
        secs: chrono::Timelike::num_seconds_from_midnight(&at),
        frac: chrono::Timelike::nanosecond(&at),
    })
}

/// `chrono::NaiveTime`'s subtraction and `chrono::TimeDelta::num_milliseconds`
/// on the two times of day: the nanoseconds between them, with a leap second
/// counted where one of them stands in it, cut down to whole milliseconds.
/// Both must be times of day, which is what chrono takes as a `NaiveTime`.
#[verifier::external_body]
fn millis_between(from: TimeOfDay, to: TimeOfDay) -> (r: i64)
    requires
        is_time_of_day(from.secs(), from.frac()),
        is_time_of_day(to.secs(), to.frac()),
    ensures
        r == span_millis(from, to),
{
    let start = chrono::NaiveTime::from_num_seconds_from_midnight_opt(from.secs, from.frac).unwrap();
    let end = chrono::NaiveTime::from_num_seconds_from_midnight_opt(to.secs, to.frac).unwrap();
    (end - start).num_milliseconds()
}

} // verus!
