//! Points in time, read from their text, and the minutes between two of them.

use vstd::prelude::*;

verus! {

/// A point in time: the count of seconds since the start of 1970 in UTC, leap
/// seconds not counted, and the nanoseconds past that second. During a leap
/// second the nanoseconds run on past a full second.
#[derive(Clone, Copy, Debug, PartialEq, Eq, Structural)]
pub struct Instant {
    pub seconds: i64,
    pub nanos: u32,
}

/// Nanoseconds in a minute.
pub const NANOS_PER_MINUTE: i128 = 60_000_000_000;

/// Nanoseconds in a second.
pub const NANOS_PER_SECOND: i128 = 1_000_000_000;

/// What the text of a date and time denotes, as chrono reads a timestamp in
/// UTC from it; `None` for a text that it rejects.
pub uninterp spec fn parsed_instant(text: Seq<char>) -> Option<Instant>;

/// The nanoseconds from the start of 1970 to `t`.
pub open spec fn nanos_since_epoch(t: Instant) -> int {
    t.seconds * 1_000_000_000 + t.nanos
}

/// The quotient of `numerator` by a positive `denominator`, rounded toward
/// zero.
pub open spec fn toward_zero(numerator: int, denominator: int) -> int
    recommends
        denominator > 0,
{
    if numerator >= 0 {
        numerator / denominator
    } else {
        -((-numerator) / denominator)
    }
}

/// The whole minutes that passed from `then` to `now`, rounded toward zero;
/// negative where `then` lies after `now`.
pub open spec fn elapsed_minutes(now: Instant, then: Instant) -> int {
    toward_zero(nanos_since_epoch(now) - nanos_since_epoch(then), 60_000_000_000)
}

/// Calls chrono's `FromStr` for `DateTime<Utc>`, which accepts a relaxed
/// RFC 3339 notation, and takes from the result `timestamp()` and
/// `timestamp_subsec_nanos()`. The contract only names the outcome: the same
/// text always reads as the same instant, or is always rejected.
#[verifier::external_body]
fn read_utc(text: &str) -> (instant: Option<Instant>)
    ensures
        instant == parsed_instant(text@),
{
    match text.parse::<chrono::DateTime<chrono::Utc>>() {
        Ok(moment) => Some(
            Instant { seconds: moment.timestamp(), nanos: moment.timestamp_subsec_nanos() },
        ),
        Err(_) => None,
    }
}

impl Instant {
    /// Reads an instant from its text; `None` for a malformed text.
    pub fn parse(text: &str) -> (instant: Option<Instant>)
        ensures
            instant == parsed_instant(text@),
    {
        read_utc(text)
    }

    /// The nanoseconds from the start of 1970 to this instant.
    fn nanos_since_epoch(&self) -> (n: i128)
        ensures
            n == nanos_since_epoch(*self),
    {
        (self.seconds as i128) * NANOS_PER_SECOND + (self.nanos as i128)
    }

    /// The whole minutes that passed from `earlier` to this instant, rounded
    /// toward zero.
    pub fn minutes_since(&self, earlier: &Instant) -> (minutes: i64)
        ensures
            minutes == elapsed_minutes(*self, *earlier),
    {
        let span: i128 = self.nanos_since_epoch() - earlier.nanos_since_epoch();
        if span >= 0 {
            let whole: i128 = span / NANOS_PER_MINUTE;
            whole as i64
        } else {
            let whole: i128 = (-span) / NANOS_PER_MINUTE;
            (-whole) as i64
        }
    }
}

} // verus!
