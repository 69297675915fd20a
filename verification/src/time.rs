//! Instants on the UTC time line, with the range that chrono's `DateTime<Utc>` covers.

use vstd::prelude::*;

verus! {

/// Seconds since the Unix epoch of the earliest `DateTime<Utc>` (year -262143, January 1st).
pub const MIN_UTC_SECONDS: i64 = -8334601228800;

/// Seconds since the Unix epoch of the last second of the latest `DateTime<Utc>` (year 262142, December 31st).
pub const MAX_UTC_SECONDS: i64 = 8210266876799;

/// Seconds since the Unix epoch of the start of year 0, the first year RFC 3339 writes with four digits.
pub const FOUR_DIGIT_YEARS_START: i64 = -62167219200;

/// Seconds since the Unix epoch of the last second of year 9999, the last year RFC 3339 writes with four digits.
pub const FOUR_DIGIT_YEARS_END: i64 = 253402300799;

/// Seconds in one hour.
pub const SECONDS_PER_HOUR: i64 = 3600;

/// Seconds in one day.
pub const SECONDS_PER_DAY: i64 = 86400;

/// A point on the UTC time line: whole seconds since the Unix epoch and the
/// nanoseconds past that second.
#[derive(Clone, Copy, Debug, PartialEq, Eq, Structural)]
pub struct UtcInstant {
    pub seconds: i64,
    pub nanos: u32,
}

impl UtcInstant {
    /// The instant is one that `DateTime::<Utc>::from_timestamp` accepts: in
    /// chrono's range, with a fraction below one second, or below two seconds
    /// in the last second of a minute (a leap second, written `:60`).
    pub open spec fn wf(self) -> bool {
        &&& MIN_UTC_SECONDS <= self.seconds <= MAX_UTC_SECONDS
        &&& (self.nanos < 1_000_000_000 || (self.nanos < 2_000_000_000 && self.seconds % 60 == 59))
    }

    /// The instant falls in a leap second.
    pub open spec fn is_leap(self) -> bool {
        self.nanos >= 1_000_000_000
    }

    /// Chronological order (seconds first, then the fraction).
    pub open spec fn spec_le(self, other: UtcInstant) -> bool {
        self.seconds < other.seconds || (self.seconds == other.seconds && self.nanos <= other.nanos)
    }

    /// Strict chronological order.
    pub open spec fn spec_lt(self, other: UtcInstant) -> bool {
        self.seconds < other.seconds || (self.seconds == other.seconds && self.nanos < other.nanos)
    }

    /// The whole seconds of the instant `hours` hours later. A leap second
    /// moved by a whole number of hours leaves the leap: forwards it counts as
    /// the second before it, backwards as the second after it, as chrono does.
    pub open spec fn seconds_after_hours(self, hours: int) -> int {
        if self.is_leap() && hours < 0 {
            self.seconds + hours * 3600 + 1
        } else {
            self.seconds + hours * 3600
        }
    }

    /// The instant `hours` hours later (a negative count goes back), as
    /// `DateTime<Utc> + Duration::hours(hours)` computes it.
    pub open spec fn plus_hours(self, hours: int) -> UtcInstant {
        UtcInstant {
            seconds: self.seconds_after_hours(hours) as i64,
            nanos: if self.is_leap() && hours != 0 { (self.nanos - 1_000_000_000) as u32 } else { self.nanos },
        }
    }

    /// Whether adding `hours` hours stays inside chrono's range.
    pub open spec fn can_add_hours(self, hours: int) -> bool {
        MIN_UTC_SECONDS <= self.seconds_after_hours(hours) <= MAX_UTC_SECONDS
    }

    /// The UTC calendar day, counted in days since 1970-01-01 (rounding towards the past).
    pub open spec fn day(self) -> int {
        self.seconds as int / 86400
    }

    /// Builds an instant from a Unix timestamp, as `DateTime::from_timestamp`
    /// does; `None` where it refuses.
    pub fn from_unix(seconds: i64, nanos: u32) -> (r: Option<UtcInstant>)
        ensures
            r matches Some(t) ==> t.seconds == seconds && t.nanos == nanos && t.wf(),
            r is None <==> !(UtcInstant { seconds, nanos }.wf()),
    {
        if seconds < MIN_UTC_SECONDS || seconds > MAX_UTC_SECONDS {
            return None;
        }
        let shifted: u64 = (seconds + 8_640_000_000_000) as u64;
        proof {
            let s = seconds as int;
            assert((s + 8_640_000_000_000) % 60 == s % 60) by (nonlinear_arith);
        }
        if nanos < 1_000_000_000 || (nanos < 2_000_000_000 && shifted % 60 == 59) {
            Some(UtcInstant { seconds, nanos })
        } else {
            None
        }
    }

    /// Whether adding `hours` hours (at most a hundred million either way) stays in chrono's range.
    pub fn hours_fit(&self, hours: i64) -> (r: bool)
        requires
            self.wf(),
            -100_000_000 <= hours <= 100_000_000,
        ensures
            r == self.can_add_hours(hours as int),
    {
        let later = if self.nanos >= 1_000_000_000 && hours < 0 {
            self.seconds + hours * SECONDS_PER_HOUR + 1
        } else {
            self.seconds + hours * SECONDS_PER_HOUR
        };
        MIN_UTC_SECONDS <= later && later <= MAX_UTC_SECONDS
    }

    /// `self` is not earlier than `other`.
    pub fn is_at_or_after(&self, other: &UtcInstant) -> (r: bool)
        ensures
            r == other.spec_le(*self),
    {
        self.seconds > other.seconds || (self.seconds == other.seconds && self.nanos >= other.nanos)
    }

    /// The instant `hours` hours later, as `DateTime<Utc> + Duration::hours(hours)` computes it.
    pub fn add_hours(&self, hours: i64) -> (r: UtcInstant)
        requires
            self.wf(),
            -100_000_000 <= hours <= 100_000_000,
            self.can_add_hours(hours as int),
        ensures
            r == self.plus_hours(hours as int),
            r.wf(),
    {
        if self.nanos >= 1_000_000_000 && hours != 0 {
            let seconds = if hours < 0 {
                self.seconds + hours * SECONDS_PER_HOUR + 1
            } else {
                self.seconds + hours * SECONDS_PER_HOUR
            };
            UtcInstant { seconds, nanos: self.nanos - 1_000_000_000 }
        } else {
            proof {
                let s = self.seconds as int;
                let h = hours as int;
                assert((s + h * 3600) % 60 == s % 60) by (nonlinear_arith);
            }
            UtcInstant { seconds: self.seconds + hours * SECONDS_PER_HOUR, nanos: self.nanos }
        }
    }

    /// The UTC calendar day of the instant (what `date_naive()` tells apart).
    pub fn day_number(&self) -> (r: i64)
        requires
            self.wf(),
        ensures
            r == self.day(),
    {
        let shifted: u64 = (self.seconds + 8_640_000_000_000) as u64;
        let days: u64 = shifted / 86400;
        proof {
            let s = self.seconds as int;
            assert((s + 8_640_000_000_000) / 86400 == s / 86400 + 100_000_000) by (nonlinear_arith);
        }
        days as i64 - 100_000_000
    }
}

/// The current time, read from the system clock by `chrono::Utc::now`, which
/// builds it with `DateTime::from_timestamp` from the seconds and sub-second
/// nanoseconds since the epoch, so it lies in chrono's range with a fraction
/// below one second. chrono panics when the clock reads before 1970; that
/// depends on the machine, not on an argument, so no `requires` leaves it out.
#[verifier::external_body]
pub(crate) fn utc_now() -> (t: UtcInstant)
    ensures
        t.wf(),
{
    let now = chrono::Utc::now();
    UtcInstant { seconds: now.timestamp(), nanos: now.timestamp_subsec_nanos() }
}

/// The text `DateTime::<Utc>::to_rfc3339` writes for an instant.
pub uninterp spec fn rfc3339_text(seconds: i64, nanos: u32) -> Seq<char>;

/// `chrono::DateTime::<Utc>::to_rfc3339` of the instant (built with
/// `DateTime::from_timestamp`, which accepts every well-formed instant).
/// For years 0 to 9999 chrono writes the year in four digits, a leap second
/// as `:60`, the fraction to the nanosecond and the offset `+00:00`, all of
/// which `parse_from_rfc3339` reads back to the same instant; other years
/// carry a sign, which it refuses.
#[verifier::external_body]
fn format_rfc3339(t: UtcInstant) -> (r: String)
    requires
        t.wf(),
    ensures
        r@ == rfc3339_text(t.seconds, t.nanos),
        FOUR_DIGIT_YEARS_START <= t.seconds <= FOUR_DIGIT_YEARS_END
            ==> rfc3339_reading(r@) == Some((t.seconds, t.nanos)),
{
    match chrono::DateTime::from_timestamp(t.seconds, t.nanos) {
        Some(time) => time.to_rfc3339(),
        None => String::new(),
    }
}

/// The Unix seconds and nanoseconds of the instant an RFC 3339 text names,
/// `None` when `DateTime::parse_from_rfc3339` refuses it.
pub uninterp spec fn rfc3339_reading(text: Seq<char>) -> Option<(i64, u32)>;

/// `chrono::DateTime::parse_from_rfc3339`, taken to UTC by its `timestamp`
/// and `timestamp_subsec_nanos`.
#[verifier::external_body]
fn read_rfc3339(text: &str) -> (r: Option<(i64, u32)>)
    ensures
        r == rfc3339_reading(text@),
{
    match chrono::DateTime::parse_from_rfc3339(text) {
        Ok(time) => Some((time.timestamp(), time.timestamp_subsec_nanos())),
        Err(_) => None,
    }
}

/// The stored text of an instant. An instant of the years 0 to 9999 reads
/// back from its text unchanged.
pub fn timestamp_text(t: UtcInstant) -> (r: String)
    requires
        t.wf(),
    ensures
        r@ == rfc3339_text(t.seconds, t.nanos),
        FOUR_DIGIT_YEARS_START <= t.seconds <= FOUR_DIGIT_YEARS_END ==> stored_instant(r@) == Some(t),
{
    format_rfc3339(t)
}

/// The instant a stored text names, when it is an RFC 3339 date and time
/// (a leap second included) in chrono's range.
pub open spec fn stored_instant(text: Seq<char>) -> Option<UtcInstant> {
    match rfc3339_reading(text) {
        Some((seconds, nanos)) => if (UtcInstant { seconds, nanos }).wf() {
            Some(UtcInstant { seconds, nanos })
        } else {
            None
        },
        None => None,
    }
}

/// Reads a stored instant back.
pub fn parse_timestamp(text: &str) -> (r: Option<UtcInstant>)
    ensures
        r == stored_instant(text@),
        r matches Some(t) ==> t.wf(),
{
    match read_rfc3339(text) {
        Some((seconds, nanos)) => UtcInstant::from_unix(seconds, nanos),
        None => None,
    }
}

/// Reads a stored instant back, `fallback` when the text does not name one.
pub fn timestamp_or(text: &str, fallback: UtcInstant) -> (r: UtcInstant)
    ensures
        r == (match stored_instant(text@) {
            Some(t) => t,
            None => fallback,
        }),
{
    match parse_timestamp(text) {
        Some(t) => t,
        None => fallback,
    }
}

} // verus!
