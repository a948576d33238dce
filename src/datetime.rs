//! Instants and calendar days, both in UTC.
use vstd::prelude::*;

verus! {

/// Number of seconds in a UTC calendar day.
pub const SECONDS_PER_DAY: i64 = 86400;

/// Number of seconds in an hour.
pub const SECONDS_PER_HOUR: i64 = 3600;

/// The calendar day (days since 1970-01-01) that holds the instant `t`,
/// given in seconds since the Unix epoch.
pub open spec fn day_of(t: int) -> int {
    t / (SECONDS_PER_DAY as int)
}

/// Seconds elapsed since the midnight that starts the day of `t`.
pub open spec fn seconds_into_day(t: int) -> int {
    t % (SECONDS_PER_DAY as int)
}

/// An instant in UTC, as whole seconds since the Unix epoch.
#[derive(Clone, Copy, Debug, PartialEq, Eq, Structural)]
pub struct DateTimeDerived(pub i64);

impl DateTimeDerived {
    /// Reads an RFC 3339 date and time (`2024-03-01T10:00:00Z`,
    /// `1996-12-19T16:39:57-08:00`) as an instant; `None` when `s` is not one.
    /// Fractions of a second are dropped.
    pub fn parse(s: &str) -> (r: Option<DateTimeDerived>)
        ensures
            match rfc3339_seconds(s@) {
                Some(t) => r == Some(DateTimeDerived(t as i64)),
                None => r is None,
            },
    {
        match parse_rfc3339_seconds(s) {
            Some(t) => Some(DateTimeDerived(t)),
            None => None,
        }
    }

    pub open spec fn day_spec(self) -> int {
        day_of(self.0 as int)
    }

    /// The calendar day of this instant.
    pub fn day(&self) -> (r: i64)
        ensures
            r == self.day_spec(),
    {
        match self.0.checked_div_euclid(SECONDS_PER_DAY) {
            Some(d) => d,
            None => 0,
        }
    }

    /// Seconds from the midnight that starts this instant's day up to the instant.
    pub fn seconds_from_midnight(&self) -> (r: i64)
        ensures
            r == seconds_into_day(self.0 as int),
            0 <= r < SECONDS_PER_DAY,
    {
        match self.0.checked_rem_euclid(SECONDS_PER_DAY) {
            Some(s) => s,
            None => 0,
        }
    }

    /// Seconds from this instant up to the next midnight.
    pub fn seconds_until_next_day(&self) -> (r: i64)
        ensures
            r == SECONDS_PER_DAY - seconds_into_day(self.0 as int),
            0 < r <= SECONDS_PER_DAY,
    {
        SECONDS_PER_DAY - self.seconds_from_midnight()
    }

    /// Signed number of seconds from `from` to `to`.
    pub fn seconds_between(from: &DateTimeDerived, to: &DateTimeDerived) -> (r: i128)
        ensures
            r == to.0 - from.0,
    {
        to.0 as i128 - from.0 as i128
    }
}

/// The instant, in whole seconds since the Unix epoch, that
/// `chrono::DateTime::parse_from_rfc3339` reads from `s`; `None` when it
/// refuses `s`.
pub uninterp spec fn rfc3339_seconds(s: Seq<char>) -> Option<int>;

/// Relies on `chrono::DateTime::parse_from_rfc3339` to read the text, and on
/// `DateTime::timestamp` for the instant's seconds since the Unix epoch.
#[verifier::external_body]
fn parse_rfc3339_seconds(s: &str) -> (r: Option<i64>)
    ensures
        match r {
            Some(t) => rfc3339_seconds(s@) == Some(t as int),
            None => rfc3339_seconds(s@) is None,
        },
{
    match chrono::DateTime::parse_from_rfc3339(s) {
        Ok(d) => Some(d.timestamp()),
        Err(_) => None,
    }
}

} // verus!
