//! Instants of the UTC calendar, to the nanosecond.
//!
//! An instant is the count of seconds since 1970-01-01 00:00:00 UTC, leap seconds not
//! counted, and the nanoseconds into that second. A leap second is the second before it
//! with the nanoseconds running on from one thousand million. The calendar reaches from
//! the first second of the year -262143 to the last of the year 262142.
use chrono::{DateTime, TimeDelta};
use vstd::prelude::*;

verus! {

/// The first second of the calendar.
pub const MIN_SECS: i64 = -8_334_601_228_800;

/// The last second of the calendar.
pub const MAX_SECS: i64 = 8_210_266_876_799;

/// Whether a second and its nanoseconds name an instant of the calendar.
pub open spec fn is_instant(secs: int, nanos: int) -> bool {
    &&& MIN_SECS <= secs <= MAX_SECS
    &&& 0 <= nanos < 2_000_000_000
    &&& nanos >= 1_000_000_000 ==> secs % 60 == 59
}

/// An instant of the UTC calendar.
#[derive(Clone, Copy, Debug, PartialEq, Eq, Structural)]
pub struct UtcTime {
    secs: i64,
    nanos: u32,
}

impl UtcTime {
    /// Seconds since 1970-01-01 00:00:00 UTC.
    pub closed spec fn secs(self) -> int {
        self.secs as int
    }

    /// Nanoseconds into the second; one thousand million or more in a leap second.
    pub closed spec fn nanos(self) -> int {
        self.nanos as int
    }

    #[verifier::type_invariant]
    pub open spec fn valid(self) -> bool {
        is_instant(self.secs(), self.nanos())
    }

    /// The instant with this second and these nanoseconds.
    pub closed spec fn at(secs: int, nanos: int) -> UtcTime {
        UtcTime { secs: secs as i64, nanos: nanos as u32 }
    }

    /// A number that orders instants: first by second, then by nanosecond.
    pub open spec fn rank(self) -> int {
        self.secs() * 4_294_967_296 + self.nanos()
    }

    /// The instant with this second and these nanoseconds, if the calendar has it.
    pub fn from_timestamp(secs: i64, nanos: u32) -> (at: Option<UtcTime>)
        ensures
            at is Some <==> is_instant(secs as int, nanos as int),
            at matches Some(t) ==> t.secs() == secs && t.nanos() == nanos,
    {
        if secs < MIN_SECS || MAX_SECS < secs || nanos >= 2_000_000_000 {
            return None;
        }
        let into_day: u64 = (secs - MIN_SECS) as u64;
        if nanos >= 1_000_000_000 && into_day % 60 != 59 {
            return None;
        }
        Some(UtcTime { secs, nanos })
    }

    /// Seconds since 1970-01-01 00:00:00 UTC.
    pub fn timestamp(self) -> (secs: i64)
        ensures
            secs == self.secs(),
    {
        self.secs
    }

    /// Nanoseconds into the second; one thousand million or more in a leap second.
    pub fn subsec_nanos(self) -> (nanos: u32)
        ensures
            nanos == self.nanos(),
    {
        self.nanos
    }

    /// Whether this instant is earlier than the other.
    pub fn before(self, other: UtcTime) -> (r: bool)
        ensures
            r == (self.rank() < other.rank()),
    {
        self.secs < other.secs || self.secs == other.secs && self.nanos < other.nanos
    }

    /// Whether this is the other instant.
    pub fn same_as(self, other: UtcTime) -> (r: bool)
        ensures
            r == (self == other),
            r == (self.secs() == other.secs() && self.nanos() == other.nanos()),
            r == (self.rank() == other.rank()),
    {
        proof {
            use_type_invariant(&self);
            use_type_invariant(&other);
        }
        self.secs == other.secs && self.nanos == other.nanos
    }

    /// The earlier of two instants.
    pub open spec fn spec_earlier(self, other: UtcTime) -> UtcTime {
        if other.rank() < self.rank() {
            other
        } else {
            self
        }
    }

    /// The later of two instants.
    pub open spec fn spec_later(self, other: UtcTime) -> UtcTime {
        if self.rank() < other.rank() {
            other
        } else {
            self
        }
    }

    /// The earlier of two instants.
    pub fn earlier(self, other: UtcTime) -> (r: UtcTime)
        ensures
            r == self.spec_earlier(other),
    {
        if other.before(self) {
            other
        } else {
            self
        }
    }

    /// The later of two instants.
    pub fn later(self, other: UtcTime) -> (r: UtcTime)
        ensures
            r == self.spec_later(other),
    {
        if self.before(other) {
            other
        } else {
            self
        }
    }

    /// The last instant before this one.
    pub fn predecessor(self) -> (r: UtcTime)
        requires
            self.secs() > MIN_SECS || self.nanos() > 0,
        ensures
            r.valid(),
            r.secs() == if self.nanos() == 0 {
                self.secs() - 1
            } else {
                self.secs()
            },
            r.nanos() == if self.nanos() == 0 {
                999_999_999
            } else {
                self.nanos() - 1
            },
    {
        proof {
            use_type_invariant(&self);
        }
        if self.nanos == 0 {
            UtcTime { secs: self.secs - 1, nanos: 999_999_999 }
        } else {
            UtcTime { secs: self.secs, nanos: self.nanos - 1 }
        }
    }

    /// The last multiple of so many seconds that is not later than this second.
    pub open spec fn floor_secs(self, step: int) -> int {
        self.secs() - self.secs() % step
    }

    /// The last whole half-hour that is not later than this instant.
    pub fn floor_half_hour(self) -> (r: UtcTime)
        ensures
            r.valid(),
            r.secs() == self.floor_secs(1800),
            r.nanos() == 0,
    {
        proof {
            use_type_invariant(&self);
        }
        let into: u64 = (self.secs - MIN_SECS) as u64;
        UtcTime { secs: self.secs - (into % 1800) as i64, nanos: 0 }
    }

    /// The start of the half-hour after the one that this instant lies in.
    pub fn next_half_hour(self) -> (r: UtcTime)
        requires
            self.floor_secs(1800) + 1800 <= MAX_SECS,
        ensures
            r.valid(),
            r.secs() == self.floor_secs(1800) + 1800,
            r.nanos() == 0,
    {
        let floor = self.floor_half_hour();
        proof {
            use_type_invariant(&floor);
        }
        UtcTime { secs: floor.secs + 1800, nanos: 0 }
    }

    /// The start of the minute that many minutes after the one this instant lies in.
    pub fn minute_after(self, minutes: u32) -> (r: UtcTime)
        requires
            self.floor_secs(60) + 60 * minutes <= MAX_SECS,
        ensures
            r.valid(),
            r.secs() == self.floor_secs(60) + 60 * minutes,
            r.nanos() == 0,
    {
        proof {
            use_type_invariant(&self);
        }
        let into: u64 = (self.secs - MIN_SECS) as u64;
        UtcTime { secs: self.secs - (into % 60) as i64 + 60 * minutes as i64, nanos: 0 }
    }

    /// The instant that many seconds later, if the calendar has it. This is
    /// `DateTime::checked_add_signed` on a whole number of seconds: from a leap second it
    /// counts as from the second before, and all else keeps its nanoseconds.
    #[verifier::external_body]
    pub(crate) fn plus_seconds(self, seconds: u32) -> (later: Option<UtcTime>)
        requires
            seconds > 0,
        ensures
            later is Some <==> self.secs() + seconds <= MAX_SECS,
            later matches Some(t) ==> {
                &&& t.valid()
                &&& t.secs() == self.secs() + seconds
                &&& t.nanos() == self.nanos() % 1_000_000_000
            },
    {
        let at = DateTime::from_timestamp(self.secs, self.nanos)?;
        let later = at.checked_add_signed(TimeDelta::seconds(i64::from(seconds)))?;
        Some(UtcTime { secs: later.timestamp(), nanos: later.timestamp_subsec_nanos() })
    }

    /// The instant that many seconds later, if the calendar has it.
    pub open spec fn spec_delayed(self, seconds: int) -> Option<UtcTime> {
        if self.secs() + seconds <= MAX_SECS {
            Some(UtcTime::at(self.secs() + seconds, self.nanos() % 1_000_000_000))
        } else {
            None
        }
    }

    /// The instant that many seconds later, if the calendar has it.
    pub fn delayed(self, seconds: u32) -> (later: Option<UtcTime>)
        requires
            seconds > 0,
        ensures
            later == self.spec_delayed(seconds as int),
    {
        self.plus_seconds(seconds)
    }

    /// The time from another instant to this one, in whole seconds and the nanoseconds
    /// left over, both of one sign. This is `DateTime::signed_duration_since`, with the
    /// `num_seconds` and `subsec_nanos` of what it returns.
    #[verifier::external_body]
    fn duration_since(self, from: UtcTime) -> (parts: (i64, i32))
        ensures
            parts.0 * 1_000_000_000 + parts.1 == elapsed_nanos(from, self),
            -1_000_000_000 < parts.1 < 1_000_000_000,
            parts.0 > 0 ==> parts.1 >= 0,
            parts.0 < 0 ==> parts.1 <= 0,
    {
        let start = DateTime::from_timestamp(from.secs, from.nanos).unwrap();
        let end = DateTime::from_timestamp(self.secs, self.nanos).unwrap();
        let duration = end.signed_duration_since(start);
        (duration.num_seconds(), duration.subsec_nanos())
    }

    /// The nanoseconds from another instant to this one.
    pub fn nanos_since(self, from: UtcTime) -> (r: i128)
        ensures
            r == elapsed_nanos(from, self),
    {
        let (secs, nanos) = self.duration_since(from);
        secs as i128 * 1_000_000_000 + nanos as i128
    }

    /// The whole milliseconds from another instant to this one; a part of one counts
    /// for nothing.
    pub fn millis_since(self, from: UtcTime) -> (r: i64)
        ensures
            r == elapsed_millis(from, self),
    {
        proof {
            use_type_invariant(&self);
            use_type_invariant(&from);
        }
        let nanos: i128 = self.nanos_since(from);
        if nanos >= 0 {
            ((nanos as u128) / 1_000_000) as i64
        } else {
            -(((-nanos) as u128 / 1_000_000) as i64)
        }
    }

    /// The instant as a pattern writes it. This is `DateTime::format` with the pattern, which
    /// has to be the one of queries: what `format` returns for a pattern that it cannot read
    /// must not be turned into a text.
    #[verifier::external_body]
    fn formatted(self, pattern: &str) -> (text: String)
        requires
            pattern@ == query_pattern(),
        ensures
            text@ == formatted_instant(pattern@, self.secs(), self.nanos()),
    {
        let at = DateTime::from_timestamp(self.secs, self.nanos).unwrap();
        at.format(pattern).to_string()
    }

    /// The instant as the query of a request writes it, such as `2026-09-01T00:00:00Z`.
    pub(crate) fn query_text(self) -> (text: String)
        ensures
            text@ == instant_in_query(self.secs(), self.nanos()),
    {
        self.formatted("%Y-%m-%dT%H:%M:%SZ")
    }

    /// The instant as a message shows it, such as `2026-09-01 00:00:00 UTC`. This is the
    /// `Display` of `DateTime<Utc>`.
    #[verifier::external_body]
    pub(crate) fn message_text(self) -> (text: String)
        ensures
            text@ == instant_in_message(self.secs(), self.nanos()),
    {
        DateTime::from_timestamp(self.secs, self.nanos).unwrap().to_string()
    }

    /// The instant that a text names in the notation of RFC 3339, if it names one. This is
    /// `DateTime::parse_from_rfc3339`; the offset that the text gives is taken off.
    #[verifier::external_body]
    fn parse_rfc3339(text: &str) -> (at: Option<UtcTime>)
        ensures
            at is Some <==> rfc3339_instant(text@) is Some,
            at matches Some(t) ==> t.valid() && rfc3339_instant(text@) == Some(
                (t.secs(), t.nanos()),
            ),
    {
        let at = DateTime::parse_from_rfc3339(text).ok()?;
        Some(UtcTime { secs: at.timestamp(), nanos: at.timestamp_subsec_nanos() })
    }

    /// The instant that a text names in the notation of RFC 3339, if it names one.
    pub fn parse(text: &str) -> (at: Option<UtcTime>)
        ensures
            at == rfc3339_time(text@),
    {
        UtcTime::parse_rfc3339(text)
    }
}

/// The instant that a text names in the notation of RFC 3339, if it names one.
pub open spec fn rfc3339_time(text: Seq<char>) -> Option<UtcTime> {
    match rfc3339_instant(text) {
        Some((secs, nanos)) => Some(UtcTime::at(secs, nanos)),
        None => None,
    }
}

/// The instant that a text names, where there is a text and it names one.
pub open spec fn time_of(text: Option<String>) -> Option<UtcTime> {
    match text {
        Some(text) => rfc3339_time(text@),
        None => None,
    }
}

/// The instant that a text names, where there is a text and it names one.
pub fn read_time(text: Option<String>) -> (at: Option<UtcTime>)
    ensures
        at == time_of(text),
{
    match text {
        Some(text) => UtcTime::parse(text.as_str()),
        None => None,
    }
}

/// What `DateTime::format` writes of an instant by a pattern.
pub uninterp spec fn formatted_instant(pattern: Seq<char>, secs: int, nanos: int) -> Seq<char>;

/// The pattern by which the query of a request writes an instant.
pub open spec fn query_pattern() -> Seq<char> {
    "%Y-%m-%dT%H:%M:%SZ"@
}

/// An instant as the query of a request writes it.
pub open spec fn instant_in_query(secs: int, nanos: int) -> Seq<char> {
    formatted_instant(query_pattern(), secs, nanos)
}

/// What the `Display` of `DateTime<Utc>` writes of an instant.
pub uninterp spec fn instant_in_message(secs: int, nanos: int) -> Seq<char>;

/// The second and nanoseconds that `DateTime::parse_from_rfc3339` reads in a text.
pub uninterp spec fn rfc3339_instant(text: Seq<char>) -> Option<(int, int)>;

/// The second of the day that an instant lies in.
pub open spec fn second_of_day(at: UtcTime) -> int {
    at.secs() % 86_400
}

/// A leap second at the end of a day.
pub open spec fn is_midnight_leap(at: UtcTime) -> bool {
    at.nanos() >= 1_000_000_000 && second_of_day(at) == 86_399
}

/// The nanoseconds from one instant to another. A leap second counts where the time of
/// day from which it is left, or to which it is reached, lies on its near side.
pub open spec fn elapsed_nanos(from: UtcTime, to: UtcTime) -> int {
    let leap = if second_of_day(from) < second_of_day(to) && from.nanos() >= 1_000_000_000 {
        1int
    } else if second_of_day(to) < second_of_day(from) && to.nanos() >= 1_000_000_000 {
        -1
    } else {
        0
    };
    (to.secs() - from.secs() + leap) * 1_000_000_000 + to.nanos() - from.nanos()
}

/// The whole milliseconds from one instant to another.
pub open spec fn elapsed_millis(from: UtcTime, to: UtcTime) -> int {
    if elapsed_nanos(from, to) >= 0 {
        elapsed_nanos(from, to) / 1_000_000
    } else {
        -((-elapsed_nanos(from, to)) / 1_000_000)
    }
}

/// The parts of the instant that is made of them.
pub proof fn lemma_at(secs: int, nanos: int)
    requires
        is_instant(secs, nanos),
    ensures
        UtcTime::at(secs, nanos).valid(),
        UtcTime::at(secs, nanos).secs() == secs,
        UtcTime::at(secs, nanos).nanos() == nanos,
{
}

/// Nanoseconds never weigh as much as a second in the rank.
pub proof fn lemma_nanos_are_counted(at: UtcTime)
    ensures
        0 <= at.nanos() < 4_294_967_296,
{
}

} // verus!
