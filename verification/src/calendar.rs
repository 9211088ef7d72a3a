//! Calendar dates and points in time as plain numbers.

use vstd::prelude::*;

verus! {

/// Seconds in a day.
pub const SECONDS_PER_DAY: i64 = 86_400;

/// A point in time lies less than this many seconds from the epoch, so that
/// its day fits 32 bits.
pub const DATETIME_LIMIT_SECONDS: i64 = 185_542_587_187_200;

/// A calendar day, counted from 1970-01-01, which is day 0.
#[derive(Clone, Copy, Debug, PartialEq, Eq)]
pub struct Date {
    pub epoch_days: i32,
}

/// The text of a calendar day as `chrono` writes it (year, month and day,
/// separated by hyphens), or nothing for a day outside of its calendar.
pub uninterp spec fn date_text(epoch_days: i32) -> Option<Seq<char>>;

/// Calls `chrono::NaiveDate::from_epoch_days` and `to_string` on the date it
/// gives. The result is a function of the day alone; there is none where
/// `chrono` has no such date.
#[verifier::external_body]
fn date_to_text(epoch_days: i32) -> (text: Option<String>)
    ensures
        text is Some <==> date_text(epoch_days) is Some,
        text matches Some(t) ==> date_text(epoch_days) == Some(t@),
{
    match chrono::NaiveDate::from_epoch_days(epoch_days) {
        Some(date) => Some(date.to_string()),
        None => None,
    }
}

impl Date {
    /// The text of the day, where the calendar has the day.
    pub fn to_text(&self) -> (text: Option<String>)
        ensures
            text is Some <==> date_text(self.epoch_days) is Some,
            text matches Some(t) ==> date_text(self.epoch_days) == Some(t@),
    {
        date_to_text(self.epoch_days)
    }

    /// The second at which the given time of this day begins, counted from
    /// the epoch.
    pub open spec fn spec_second_of(self, hour: u8, minute: u8, second: u8) -> int {
        self.epoch_days * SECONDS_PER_DAY + hour * 3600 + minute * 60 + second
    }

    /// The second at which the given time of this day begins, counted from
    /// the epoch.
    pub fn second_of(&self, hour: u8, minute: u8, second: u8) -> (at: i64)
        ensures
            at == self.spec_second_of(hour, minute, second),
    {
        self.epoch_days as i64 * SECONDS_PER_DAY + hour as i64 * 3600 + minute as i64 * 60
            + second as i64
    }
}

/// A point in time: whole seconds since the epoch and the nanoseconds into
/// the second.
#[derive(Clone, Copy, Debug, PartialEq, Eq)]
pub struct DateTime {
    seconds: i64,
    nanos: u32,
}

/// Seconds and nanoseconds that make a point in time.
pub open spec fn datetime_in_range(seconds: i64, nanos: u32) -> bool {
    -DATETIME_LIMIT_SECONDS <= seconds < DATETIME_LIMIT_SECONDS && nanos < 1_000_000_000
}

impl DateTime {
    /// Whole seconds since the epoch.
    pub closed spec fn seconds(self) -> i64 {
        self.seconds
    }

    /// Nanoseconds into the second.
    pub closed spec fn nanos(self) -> u32 {
        self.nanos
    }

    /// The point in time `nanos` nanoseconds after second `seconds`.
    pub closed spec fn at(seconds: i64, nanos: u32) -> DateTime {
        DateTime { seconds, nanos }
    }

    /// A point in time is its seconds and nanoseconds, and nothing else.
    pub proof fn lemma_at(seconds: i64, nanos: u32)
        ensures
            Self::at(seconds, nanos).seconds() == seconds,
            Self::at(seconds, nanos).nanos() == nanos,
            forall|t: DateTime|
                t.seconds() == seconds && t.nanos() == nanos ==> t == Self::at(seconds, nanos),
    {
    }

    /// The day on which the point lies.
    pub open spec fn spec_date(self) -> Date {
        Date { epoch_days: (self.seconds() as int / SECONDS_PER_DAY as int) as i32 }
    }

    #[verifier::type_invariant]
    pub open spec fn wf(self) -> bool {
        datetime_in_range(self.seconds(), self.nanos())
    }

    /// The point in time `nanos` nanoseconds after second `seconds`, where
    /// the two are in range.
    pub fn new(seconds: i64, nanos: u32) -> (at: Option<DateTime>)
        ensures
            at is Some <==> datetime_in_range(seconds, nanos),
            at matches Some(t) ==> t == Self::at(seconds, nanos) && t.seconds() == seconds
                && t.nanos() == nanos && t.wf(),
    {
        if -DATETIME_LIMIT_SECONDS <= seconds && seconds < DATETIME_LIMIT_SECONDS && nanos
            < 1_000_000_000 {
            Some(DateTime { seconds, nanos })
        } else {
            None
        }
    }

    /// The epoch itself.
    pub fn epoch() -> (at: DateTime)
        ensures
            at == Self::at(0, 0),
            at.seconds() == 0,
            at.nanos() == 0,
            at.wf(),
    {
        DateTime { seconds: 0, nanos: 0 }
    }

    /// Whole seconds since the epoch.
    pub fn timestamp(&self) -> (seconds: i64)
        ensures
            seconds == self.seconds(),
            -DATETIME_LIMIT_SECONDS <= seconds < DATETIME_LIMIT_SECONDS,
    {
        proof {
            use_type_invariant(self);
        }
        self.seconds
    }

    /// Nanoseconds into the second.
    pub fn subsec_nanos(&self) -> (nanos: u32)
        ensures
            nanos == self.nanos(),
            nanos < 1_000_000_000,
    {
        proof {
            use_type_invariant(self);
        }
        self.nanos
    }

    /// The day on which the point lies.
    pub fn date(&self) -> (day: Date)
        ensures
            day == self.spec_date(),
            day.epoch_days as int == self.seconds() as int / SECONDS_PER_DAY as int,
    {
        proof {
            use_type_invariant(self);
        }
        let days: i64 = if self.seconds >= 0 {
            self.seconds / SECONDS_PER_DAY
        } else {
            -((SECONDS_PER_DAY - 1 - self.seconds) / SECONDS_PER_DAY)
        };
        Date { epoch_days: days as i32 }
    }
}

} // verus!
