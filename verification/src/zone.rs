//! Time zones of the IANA database, by their names.
use crate::utc::{UtcTime, MAX_SECS, MIN_SECS};
use chrono::{DateTime, Datelike};
use chrono_tz::Tz;
use vstd::prelude::*;

verus! {

/// Whether `chrono_tz::Tz` reads a text as the name of a zone.
pub uninterp spec fn is_zone_name(name: Seq<char>) -> bool;

/// The year, month and day that a zone's clocks show at an instant, as
/// `DateTime::with_timezone` and `DateTime::date_naive` give them.
pub uninterp spec fn date_in_zone(name: Seq<char>, secs: int, nanos: int) -> (int, int, int);

/// A day of the calendar.
#[derive(Clone, Copy, Debug, PartialEq, Eq, Structural)]
pub struct LocalDate {
    pub year: i32,
    pub month: u32,
    pub day: u32,
}

/// The date that a zone's clocks show at an instant.
pub open spec fn local_date(name: Seq<char>, at: UtcTime) -> LocalDate {
    let (year, month, day) = date_in_zone(name, at.secs(), at.nanos());
    LocalDate { year: year as i32, month: month as u32, day: day as u32 }
}

/// A time zone.
#[derive(Debug)]
pub struct Zone {
    name: String,
}

/// Whether a text names a zone. This is `Tz::from_str`, of whose result only the success
/// counts.
#[verifier::external_body]
fn names_zone(name: &str) -> (r: bool)
    ensures
        r == is_zone_name(name@),
{
    name.parse::<Tz>().is_ok()
}

/// An instant at least a day away from both ends of the calendar: every zone has a date for
/// it.
pub open spec fn has_local_date(at: UtcTime) -> bool {
    MIN_SECS + 86_400 <= at.secs() <= MAX_SECS - 86_400
}

/// Whether an instant is at least a day away from both ends of the calendar.
pub fn local_date_exists(at: UtcTime) -> (r: bool)
    ensures
        r == has_local_date(at),
{
    MIN_SECS + 86_400 <= at.timestamp() && at.timestamp() <= MAX_SECS - 86_400
}

impl Zone {
    /// The name of the zone.
    pub closed spec fn name(&self) -> Seq<char> {
        self.name@
    }

    #[verifier::type_invariant]
    closed spec fn is_known(&self) -> bool {
        is_zone_name(self.name@)
    }

    /// The zone of a name, if there is one.
    pub fn new(name: &str) -> (r: Option<Zone>)
        ensures
            r is Some <==> is_zone_name(name@),
            r matches Some(zone) ==> zone.name() == name@,
    {
        if names_zone(name) {
            Some(Zone { name: name.to_owned() })
        } else {
            None
        }
    }

    /// The date that the zone's clocks show at an instant. This is
    /// `DateTime::with_timezone`, then `DateTime::date_naive`, in the zone that `Tz` reads in
    /// the name.
    #[verifier::external_body]
    fn calendar_date(&self, at: UtcTime) -> (date: LocalDate)
        requires
            has_local_date(at),
        ensures
            date_in_zone(self.name(), at.secs(), at.nanos()) == (
                date.year as int,
                date.month as int,
                date.day as int,
            ),
    {
        let zone: Tz = self.name.parse().unwrap();
        let at = DateTime::from_timestamp(at.timestamp(), at.subsec_nanos()).unwrap();
        let date = at.with_timezone(&zone).date_naive();
        LocalDate { year: date.year(), month: date.month(), day: date.day() }
    }

    /// The date that the zone's clocks show at an instant.
    pub fn date_at(&self, at: UtcTime) -> (date: LocalDate)
        requires
            has_local_date(at),
        ensures
            date == local_date(self.name(), at),
    {
        self.calendar_date(at)
    }
}

} // verus!
