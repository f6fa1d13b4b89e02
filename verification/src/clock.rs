//! Points in time, as the clock of the host reports them.

use vstd::prelude::*;

verus! {

/// Seconds since the Unix epoch of the first moment of the year 0000.
pub const MIN_SECONDS: i64 = -62_167_219_200;

/// Seconds since the Unix epoch of the last second of the year 9999.
pub const MAX_SECONDS: i64 = 253_402_300_799;

/// Nanoseconds in a second.
pub const NANOS_PER_SECOND: u32 = 1_000_000_000;

/// A point in time: whole seconds since the Unix epoch, and the nanoseconds
/// into that second.
#[derive(Clone, Copy, Debug, PartialEq, Eq)]
pub struct Moment {
    seconds: i64,
    nanos: u32,
}

/// What a [`Moment`] holds.
pub struct MomentView {
    pub seconds: i64,
    pub nanos: u32,
}

/// Whether a point in time falls in a year of four digits, 0000 to 9999,
/// and not in a leap second.
pub open spec fn in_calendar(seconds: i64, nanos: u32) -> bool {
    MIN_SECONDS <= seconds <= MAX_SECONDS && nanos < NANOS_PER_SECOND
}

/// Milliseconds since the Unix epoch, rounded down.
pub open spec fn millis_of(at: MomentView) -> int {
    at.seconds * 1000 + at.nanos / 1_000_000
}

/// The date and time of `seconds` and `nanos` since the Unix epoch, in UTC,
/// as RFC 3339 writes it.
pub uninterp spec fn rfc3339_text(seconds: int, nanos: int) -> Seq<char>;

/// `chrono::DateTime::<Utc>::from_timestamp` followed by
/// `DateTime::to_rfc3339`.
///
/// The first is `None` where the date is beyond the years that chrono holds
/// (some 262,000 either side of the common era) or the nanoseconds are no
/// part of a second; the years 0000 to 9999 are within. The second writes
/// the date, the time and the offset `+00:00`, and depends on nothing else.
#[verifier::external_body]
fn format_rfc3339(seconds: i64, nanos: u32) -> (text: Option<String>)
    ensures
        in_calendar(seconds, nanos) ==> text is Some,
        text matches Some(t) ==> t@ == rfc3339_text(seconds as int, nanos as int),
{
    match chrono::DateTime::from_timestamp(seconds, nanos) {
        Some(at) => Some(at.to_rfc3339()),
        None => None,
    }
}

impl View for Moment {
    type V = MomentView;

    closed spec fn view(&self) -> MomentView {
        MomentView { seconds: self.seconds, nanos: self.nanos }
    }
}

impl Moment {
    /// Every moment is in the calendar.
    #[verifier::type_invariant]
    pub open spec fn in_range(self) -> bool {
        in_calendar(self@.seconds, self@.nanos)
    }

    /// The moment `nanos` nanoseconds after `seconds` seconds since the Unix
    /// epoch, if it is in the calendar.
    pub fn new(seconds: i64, nanos: u32) -> (at: Option<Moment>)
        ensures
            at is Some <==> in_calendar(seconds, nanos),
            at matches Some(m) ==> m@ == (MomentView { seconds, nanos }),
    {
        if MIN_SECONDS <= seconds && seconds <= MAX_SECONDS && nanos < NANOS_PER_SECOND {
            Some(Moment { seconds, nanos })
        } else {
            None
        }
    }

    /// Whole seconds since the Unix epoch.
    pub fn timestamp(&self) -> (seconds: i64)
        ensures
            seconds == self@.seconds,
    {
        self.seconds
    }

    /// Nanoseconds into the second.
    pub fn timestamp_subsec_nanos(&self) -> (nanos: u32)
        ensures
            nanos == self@.nanos,
    {
        self.nanos
    }

    /// Milliseconds since the Unix epoch.
    pub fn timestamp_millis(&self) -> (millis: i64)
        ensures
            millis == millis_of(self@),
    {
        proof {
            use_type_invariant(self);
        }
        self.seconds * 1000 + (self.nanos / 1_000_000) as i64
    }

    /// The moment as RFC 3339 writes it, such as `2024-05-01T12:00:00.250+00:00`.
    pub fn to_rfc3339(&self) -> (text: String)
        ensures
            text@ == rfc3339_text(self@.seconds as int, self@.nanos as int),
    {
        proof {
            use_type_invariant(self);
        }
        match format_rfc3339(self.seconds, self.nanos) {
            Some(text) => text,
            None => String::new(),
        }
    }
}

} // verus!
