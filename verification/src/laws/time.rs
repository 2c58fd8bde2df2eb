//! Laws of instants, and of the boundaries around events.
use crate::dispatch::time::{handover_secs, has_handover, has_resume, resume_secs, second_rank};
use crate::events::AxleEvent;
use crate::utc::{
    elapsed_millis, elapsed_nanos, formatted_instant, instant_in_query, is_instant, lemma_at,
    lemma_nanos_are_counted, query_pattern, rfc3339_instant, rfc3339_time, time_of, UtcTime,
};
use crate::zone::has_local_date;
use vstd::prelude::*;

verus! {

/// The nanoseconds from the beginning of 1970 to an instant, leap seconds not counted.
pub open spec fn nanos_since_epoch(at: UtcTime) -> int {
    at.secs() * 1_000_000_000 + at.nanos()
}

/// The instant does not lie in a leap second.
pub open spec fn is_ordinary(at: UtcTime) -> bool {
    0 <= at.nanos() < 1_000_000_000
}

/// Instants are ordered by their seconds and then by their nanoseconds; of two, the earlier
/// and the later are these two.
pub proof fn law_instants_are_ordered_by_second_and_nanosecond(a: UtcTime, b: UtcTime)
    ensures
        a.rank() < b.rank() <==> a.secs() < b.secs() || a.secs() == b.secs() && a.nanos()
            < b.nanos(),
        a.rank() == b.rank() <==> a.secs() == b.secs() && a.nanos() == b.nanos(),
        a.spec_earlier(b).rank() <= a.rank(),
        a.spec_earlier(b).rank() <= b.rank(),
        a.spec_earlier(b) == a || a.spec_earlier(b) == b,
        a.spec_later(b).rank() >= a.rank(),
        a.spec_later(b).rank() >= b.rank(),
        a.spec_later(b) == a || a.spec_later(b) == b,
        forall|secs: int|
            #![trigger second_rank(secs)]
            second_rank(secs) <= a.rank() <==> secs <= a.secs(),
{
    lemma_nanos_are_counted(a);
    lemma_nanos_are_counted(b);
}

/// A delay adds its seconds; the fraction of the second stays, and from a leap second it is
/// that of the leap second.
pub proof fn law_delays_add_their_seconds(at: UtcTime, seconds: int)
    requires
        at.valid(),
        0 < seconds,
    ensures
        at.spec_delayed(seconds) is Some <==> at.secs() + seconds <= 8_210_266_876_799,
        at.spec_delayed(seconds) matches Some(later) ==> {
            &&& later.secs() == at.secs() + seconds
            &&& at.nanos() < 1_000_000_000 ==> later.nanos() == at.nanos()
            &&& at.nanos() >= 1_000_000_000 ==> later.nanos() == at.nanos() - 1_000_000_000
        },
{
    if at.secs() + seconds <= 8_210_266_876_799 {
        lemma_at(at.secs() + seconds, at.nanos() % 1_000_000_000);
    }
}

/// Between instants outside leap seconds time is the difference of their nanoseconds, and
/// whole milliseconds leave off less than one.
pub proof fn law_time_is_the_difference(a: UtcTime, b: UtcTime)
    requires
        is_ordinary(a),
        is_ordinary(b),
    ensures
        elapsed_nanos(a, b) == nanos_since_epoch(b) - nanos_since_epoch(a),
        nanos_since_epoch(a) <= nanos_since_epoch(b) ==> {
            &&& 0 <= elapsed_millis(a, b)
            &&& elapsed_millis(a, b) * 1_000_000 <= nanos_since_epoch(b) - nanos_since_epoch(a)
            &&& nanos_since_epoch(b) - nanos_since_epoch(a) < (elapsed_millis(a, b) + 1)
                * 1_000_000
        },
        elapsed_millis(b, a) == -elapsed_millis(a, b),
        a.rank() < b.rank() <==> nanos_since_epoch(a) < nanos_since_epoch(b),
{
}

/// Seconds and nanoseconds name an instant from the first second of the year -262143 to the last
/// of the year 262142, with nanoseconds below two thousand million, and those of a thousand
/// million or more only in the last second of a minute.
pub proof fn law_instants_lie_in_the_calendar(at: UtcTime, secs: int, nanos: int)
    ensures
        is_instant(secs, nanos) <==> {
            &&& -8_334_601_228_800 <= secs <= 8_210_266_876_799
            &&& 0 <= nanos < 2_000_000_000
            &&& nanos < 1_000_000_000 || (secs + 1) % 60 == 0
        },
        at.valid() <==> is_instant(at.secs(), at.nanos()),
        has_local_date(at) <==> -8_334_601_142_400 <= at.secs() <= 8_210_266_790_399,
{
}

/// Time runs backwards from the later instant as it runs forwards from the earlier, also through
/// leap seconds, and within one second it is the difference of the nanoseconds.
pub proof fn law_time_runs_both_ways(a: UtcTime, b: UtcTime)
    ensures
        elapsed_nanos(b, a) == -elapsed_nanos(a, b),
        elapsed_millis(b, a) == -elapsed_millis(a, b),
        a.secs() == b.secs() ==> elapsed_nanos(a, b) == b.nanos() - a.nanos(),
        b.secs() == a.secs() + 1 && a.secs() % 86_400 < 86_399 && is_leap(a) && is_ordinary(b)
            ==> elapsed_nanos(a, b) == 2_000_000_000 - a.nanos() + b.nanos(),
        a.secs() == b.secs() + 1 && b.secs() % 86_400 < 86_399 && is_leap(b) && is_ordinary(a)
            ==> elapsed_nanos(b, a) == 2_000_000_000 - b.nanos() + a.nanos(),
        is_ordinary(a) && is_leap(b) && a.secs() % 86_400 <= b.secs() % 86_400 ==> elapsed_nanos(
            a,
            b,
        ) == nanos_since_epoch(b) - nanos_since_epoch(a),
{
}

/// The instant lies in a leap second.
pub open spec fn is_leap(at: UtcTime) -> bool {
    1_000_000_000 <= at.nanos() < 2_000_000_000
}

/// Requests write an instant by the pattern of date, `T`, time and `Z`, without a fraction.
pub proof fn law_requests_write_whole_seconds(secs: int, nanos: int)
    ensures
        instant_in_query(secs, nanos) == formatted_instant(
            "%Y-%m-%dT%H:%M:%SZ"@,
            secs,
            nanos,
        ),
        ({
            let text = query_pattern();
            &&& text.len() == 18
            &&& text[8] == 'T'
            &&& text.last() == 'Z'
            &&& forall|c: char| c == 'f' || c == '.' ==> !(#[trigger] text.contains(c))
        }),
{
    reveal_strlit("%Y-%m-%dT%H:%M:%SZ");
}

/// A text names the instant that it is read as, and no text, or one that cannot be read, names
/// none.
pub proof fn law_texts_name_the_instant_that_is_read(text: String)
    requires
        rfc3339_instant(text@) matches Some((secs, nanos)) ==> is_instant(secs, nanos),
    ensures
        time_of(None) is None,
        time_of(Some(text)) == rfc3339_time(text@),
        rfc3339_time(text@) is Some <==> rfc3339_instant(text@) is Some,
        rfc3339_instant(text@) matches Some((secs, nanos)) ==> {
            &&& rfc3339_time(text@)->0.secs() == secs
            &&& rfc3339_time(text@)->0.nanos() == nanos
        },
{
    if let Some((secs, nanos)) = rfc3339_instant(text@) {
        lemma_at(secs, nanos);
    }
}

/// The floor of an instant is the one multiple of the step that is not later by less than a
/// step.
pub proof fn law_floors_are_multiples(at: UtcTime)
    ensures
        at.floor_secs(60) % 60 == 0,
        at.floor_secs(60) <= at.secs() < at.floor_secs(60) + 60,
        at.floor_secs(1800) % 1800 == 0,
        at.floor_secs(1800) <= at.secs() < at.floor_secs(1800) + 1800,
{
}

/// The handover lies on the half-hour boundary before the start: less than the start, and by
/// half an hour at most. Control resumes on the half-hour boundary that leaves five minutes
/// after the end and would not if it were the one before.
pub proof fn law_boundaries_are_the_nearest_half_hours(at: UtcTime)
    requires
        at.valid(),
    ensures
        handover_secs(at) % 1800 == 0,
        at.secs() - 1800 <= handover_secs(at) <= at.secs(),
        handover_secs(at) == at.secs() ==> at.nanos() > 0,
        handover_secs(at) == at.secs() - 1800 ==> at.nanos() == 0,
        resume_secs(at) % 1800 == 0,
        is_ordinary(at) ==> at.secs() + 300 <= resume_secs(at) <= at.secs() + 300 + 1800,
        is_ordinary(at) && resume_secs(at) == at.secs() + 300 ==> at.nanos() == 0,
        is_ordinary(at) && resume_secs(at) == at.secs() + 300 + 1800 ==> at.nanos() > 0,
        has_handover(at) <==> at.secs() > -8_334_601_228_800 || at.nanos() > 0,
        has_resume(at) <==> resume_secs(at) <= 8_210_266_876_799,
{
}

/// An event outside leap seconds is in order where it ends after it starts and within a day,
/// and is under way from its start until just before its end.
pub proof fn law_events_are_ordered_within_a_day(event: AxleEvent, now: UtcTime)
    requires
        is_ordinary(event.start_time),
        is_ordinary(event.end_time),
        is_ordinary(now),
    ensures
        event.is_ordered() <==> 0 < nanos_since_epoch(event.end_time) - nanos_since_epoch(
            event.start_time,
        ) <= 86_400 * 1_000_000_000,
        event.is_running(now) <==> nanos_since_epoch(event.start_time) <= nanos_since_epoch(now)
            < nanos_since_epoch(event.end_time),
{
}

} // verus!
