//! Laws of the reward ledger.
use crate::binary64::Binary64;
use crate::config::AxleConfig;
use crate::dispatch::rewards::{
    accounted, are_claims, called_off, configured_reward, confirmed, counted_from, counted_until, dated,
    event_id, is_claim, is_counted, is_entered, is_measured, lemma_position, net_kwh, new_row,
    position, previous_after, revised, status_of, status_word, with_row, AxleRewardTracker, Claim, RewardStatus,
    Row,
};
use crate::dispatch::Reading;
use crate::events::{AxleDirection, AxleEvent};
use crate::laws::dispatch::{is_recent, is_up_to};
use crate::laws::time::{is_ordinary, law_time_is_the_difference, nanos_since_epoch};
use crate::text::decimal;
use crate::utc::{elapsed_millis, UtcTime};
use crate::zone::{date_in_zone, LocalDate};
use vstd::prelude::*;

verus! {

/// What a row is of stays: only its end, its totals, its eligibility and its cancellation may
/// differ.
pub open spec fn is_of_the_same_event(a: Row, b: Row) -> bool {
    &&& a.id == b.id
    &&& a.start == b.start
    &&& a.direction == b.direction
    &&& a.local_date == b.local_date
    &&& a.reward_p_per_kwh == b.reward_p_per_kwh
    &&& a.accounted_until == b.accounted_until
}

/// An event announced again stands with the announced end and is not called off. An end that
/// is not before what was accounted for leaves the totals as they are, and also the instant
/// from which the row counts, unless it had been called off. Another end, or an end after it
/// had been called off, that lies before what was accounted for sets the totals to zero. A row
/// that was called off, or whose totals were set to zero, counts from now on, but not before
/// its start.
pub proof fn law_announcements_keep_totals_up_to_their_end(row: Row, event: AxleEvent, now: UtcTime)
    ensures
        ({
            let after = revised(row, event, now);
            let again = row.end == event.end_time && row.cancelled_at is None;
            let before = event.end_time.rank() < row.accounted_until.rank();
            let from = if now.rank() < row.start.rank() {
                row.start.rank()
            } else {
                now.rank()
            };
            &&& is_of_the_same_event(after, row)
            &&& after.end == event.end_time
            &&& after.cancelled_at is None
            &&& !before || again ==> {
                &&& after.net_grid_kwh == row.net_grid_kwh
                &&& after.coverage_seconds == row.coverage_seconds
                &&& row.cancelled_at is None ==> after.eligible_from == row.eligible_from
            }
            &&& before && !again ==> {
                &&& after.net_grid_kwh.bits == 0
                &&& after.coverage_seconds.bits == 0
                &&& after.eligible_from.rank() == from
            }
            &&& row.cancelled_at is Some ==> after.eligible_from.rank() == from
        }),
{
}

/// What another answer calls off is marked with now: the rows of another identity whose event
/// is not over and which were not called off before. No other row changes, and of a marked row
/// nothing else does.
pub proof fn law_other_events_are_called_off(
    rows: Seq<Row>,
    id: Option<Seq<char>>,
    now: UtcTime,
    i: int,
)
    requires
        0 <= i < rows.len(),
    ensures
        called_off(rows, id, now).len() == rows.len(),
        ({
            let row = called_off(rows, id, now)[i];
            let marked = (id is None || id->0 != rows[i].id) && now.rank() < rows[i].end.rank()
                && rows[i].cancelled_at is None;
            &&& !marked ==> row == rows[i]
            &&& marked ==> {
                &&& row.cancelled_at == Some(now)
                &&& is_of_the_same_event(row, rows[i])
                &&& row.end == rows[i].end
                &&& row.net_grid_kwh == rows[i].net_grid_kwh
                &&& row.coverage_seconds == rows[i].coverage_seconds
                &&& row.eligible_from == rows[i].eligible_from
            }
        }),
{
}

/// A new row is that of the event, with the configured reward of its direction, nothing
/// counted, and counts from its start, or from now where it has started.
pub proof fn law_new_rows_start_with_nothing(
    event: AxleEvent,
    local_date: LocalDate,
    now: UtcTime,
    cfg: AxleConfig,
)
    ensures
        ({
            let row = new_row(event, local_date, now, cfg);
            &&& row.id == event_id(event)
            &&& row.start == event.start_time
            &&& row.end == event.end_time
            &&& row.direction == event.direction
            &&& row.local_date == local_date
            &&& event.direction == AxleDirection::Export ==> row.reward_p_per_kwh
                == cfg.export_reward_p_per_kwh
            &&& event.direction == AxleDirection::Import ==> row.reward_p_per_kwh
                == cfg.import_reward_p_per_kwh
            &&& configured_reward(cfg, event.direction) == row.reward_p_per_kwh
            &&& row.net_grid_kwh.bits == 0
            &&& row.coverage_seconds.bits == 0
            &&& row.cancelled_at is None
            &&& now.rank() < event.start_time.rank() ==> row.eligible_from == event.start_time
            &&& event.start_time.rank() < now.rank() ==> row.eligible_from == now
            &&& event.start_time.rank() == now.rank() ==> row.eligible_from.rank() == now.rank()
            &&& row.accounted_until == row.eligible_from
        }),
        event_id(event) == "axle-"@ + decimal(event.start_time.secs()) + "-"@ + if event.direction
            == AxleDirection::Export {
            "export"@
        } else {
            "import"@
        },
{
}

/// An announcement goes with the date that the zone's clocks show at its start.
pub proof fn law_announcements_are_dated_by_their_start(event: AxleEvent, zone: Seq<char>)
    ensures
        dated(None, zone) is None,
        dated(Some(event), zone) is Some,
        (dated(Some(event), zone)->0).0 == event,
        ({
            let date = date_in_zone(zone, event.start_time.secs(), event.start_time.nanos());
            let local_date = (dated(Some(event), zone)->0).1;
            &&& local_date.year == date.0 as i32
            &&& local_date.month == date.1 as u32
            &&& local_date.day == date.2 as u32
        }),
{
}

/// The place of an identity is that of its first row, and behind all rows where it has none.
pub proof fn law_place_is_that_of_the_first_row(rows: Seq<Row>, id: Seq<char>, k: int)
    requires
        0 <= k <= rows.len(),
        forall|j: int| 0 <= j < k ==> (#[trigger] rows[j]).id != id,
        k < rows.len() ==> rows[k].id == id,
    ensures
        position(rows, id) == k,
    decreases rows.len(),
{
    if k > 0 {
        let rest = rows.drop_first();
        assert(rows[0].id != id);
        assert forall|j: int| 0 <= j < k - 1 implies (#[trigger] rest[j]).id != id by {
            assert(rest[j] == rows[j + 1]);
        }
        law_place_is_that_of_the_first_row(rest, id, k - 1);
    }
}

/// An event that the ledger has is revised in the first row of its identity, and the others
/// stay as calling off left them.
pub proof fn law_known_events_are_revised_in_place(
    rows: Seq<Row>,
    event: AxleEvent,
    local_date: LocalDate,
    now: UtcTime,
    cfg: AxleConfig,
    k: int,
)
    requires
        0 <= k < rows.len(),
        rows[k].id == event_id(event),
        forall|j: int| 0 <= j < k ==> (#[trigger] rows[j]).id != event_id(event),
    ensures
        is_entered(rows, event),
        ({
            let after = confirmed(rows, Some((event, local_date)), now, cfg);
            &&& after.len() == rows.len()
            &&& after[k] == revised(rows[k], event, now)
            &&& forall|j: int|
                0 <= j < rows.len() && j != k ==> #[trigger] after[j] == called_off(
                    rows,
                    Some(event_id(event)),
                    now,
                )[j]
        }),
{
    let id = event_id(event);
    let marked = called_off(rows, Some(id), now);
    lemma_position(rows, id);
    lemma_position(marked, id);
    assert forall|j: int| 0 <= j < rows.len() implies (#[trigger] marked[j]).id == rows[j].id by {}
    assert(marked[k].id == id);
    if position(marked, id) < k {
        assert(rows[position(marked, id)].id != id);
    }
    if position(rows, id) > k {
        assert(rows[k].id != id);
    }
    assert(marked[k] == rows[k]);
}

/// An event that the ledger does not have is entered behind the others. The ledger keeps two
/// hundred rows: where it has that many, the first one leaves.
pub proof fn law_unknown_events_are_entered_last(
    rows: Seq<Row>,
    event: AxleEvent,
    local_date: LocalDate,
    now: UtcTime,
    cfg: AxleConfig,
)
    requires
        forall|j: int| 0 <= j < rows.len() ==> (#[trigger] rows[j]).id != event_id(event),
    ensures
        !is_entered(rows, event),
        ({
            let after = confirmed(rows, Some((event, local_date)), now, cfg);
            let marked = called_off(rows, Some(event_id(event)), now);
            &&& rows.len() < 200 ==> after == marked.push(new_row(event, local_date, now, cfg))
            &&& rows.len() >= 200 ==> after.len() == rows.len() && after.last() == new_row(
                event,
                local_date,
                now,
                cfg,
            ) && forall|j: int|
                0 <= j < rows.len() - 1 ==> #[trigger] after[j] == marked[j + 1]
        }),
        confirmed(rows, None, now, cfg) == called_off(rows, None, now),
{
    let id = event_id(event);
    let marked = called_off(rows, Some(id), now);
    lemma_position(rows, id);
    lemma_position(marked, id);
    assert forall|j: int| 0 <= j < rows.len() implies (#[trigger] marked[j]).id == rows[j].id by {}
    let row = new_row(event, local_date, now, cfg);
    let after = with_row(marked, row);
    if rows.len() >= 200 {
        assert(after =~= marked.push(row).drop_first());
        assert(after.last() == row);
        assert forall|j: int| 0 <= j < rows.len() - 1 implies #[trigger] after[j] == marked[j
            + 1] by {}
    }
}

/// The stretch that a row counts runs from the latest of the first reading, the start, the
/// eligibility and what was accounted for, up to the earliest of the second reading, the end
/// and the cancellation. It is counted where it is not empty.
pub proof fn law_stretches_lie_between_the_bounds(row: Row, previous: UtcTime, at: UtcTime)
    ensures
        ({
            let from = counted_from(row, previous).rank();
            let to = counted_until(row, at).rank();
            &&& from >= previous.rank() && from >= row.start.rank() && from
                >= row.eligible_from.rank() && from >= row.accounted_until.rank()
            &&& from == previous.rank() || from == row.start.rank() || from
                == row.eligible_from.rank() || from == row.accounted_until.rank()
            &&& to <= at.rank() && to <= row.end.rank()
            &&& row.cancelled_at matches Some(cancelled) ==> to <= cancelled.rank()
            &&& to == at.rank() || to == row.end.rank() || row.cancelled_at is Some && to
                == row.cancelled_at->0.rank()
            &&& is_counted(row, previous, at) <==> from < to
        }),
{
}

/// Once it has been counted, a stretch is accounted for up to its end; nothing else of a row
/// changes, and nothing at all where nothing was counted.
pub proof fn law_counted_stretches_are_accounted_for(
    rows: Seq<Row>,
    previous: UtcTime,
    at: UtcTime,
    i: int,
)
    requires
        0 <= i < rows.len(),
    ensures
        accounted(rows, previous, at).len() == rows.len(),
        !is_counted(rows[i], previous, at) ==> accounted(rows, previous, at)[i] == rows[i],
        is_counted(rows[i], previous, at) ==> {
            let row = accounted(rows, previous, at)[i];
            &&& row.accounted_until == counted_until(rows[i], at)
            &&& row == (Row { accounted_until: row.accounted_until, ..rows[i] })
        },
{
}

/// Whole milliseconds from one instant to another that is not earlier, counted in nanoseconds.
pub open spec fn are_millis(millis: int, nanos: int) -> bool {
    millis * 1_000_000 <= nanos < (millis + 1) * 1_000_000
}

/// A claim holds, in whole milliseconds, the distances from the first reading to both ends of
/// the stretch and to the second reading, and the length of the stretch, with the powers of the
/// two readings in their order.
pub proof fn law_claims_measure_their_stretch(
    claim: Claim,
    row: Row,
    place: int,
    previous: (UtcTime, Binary64),
    next: (UtcTime, Binary64),
)
    requires
        is_claim(claim, row, place, previous, next),
        is_counted(row, previous.0, next.0),
        is_ordinary(previous.0),
        is_ordinary(next.0),
        is_ordinary(row.start),
        is_ordinary(row.end),
        is_ordinary(row.eligible_from),
        is_ordinary(row.accounted_until),
        row.cancelled_at matches Some(cancelled) ==> is_ordinary(cancelled),
    ensures
        ({
            let zero = nanos_since_epoch(previous.0);
            let from = nanos_since_epoch(counted_from(row, previous.0));
            let to = nanos_since_epoch(counted_until(row, next.0));
            &&& zero <= from < to <= nanos_since_epoch(next.0)
            &&& are_millis(claim.from_millis as int, from - zero)
            &&& are_millis(claim.to_millis as int, to - zero)
            &&& are_millis(claim.covered_millis as int, to - from)
            &&& are_millis(claim.span_millis as int, nanos_since_epoch(next.0) - zero)
        }),
        claim.row == place,
        claim.before_kw == previous.1,
        claim.after_kw == next.1,
{
    let from = counted_from(row, previous.0);
    let to = counted_until(row, next.0);
    law_time_is_the_difference(previous.0, from);
    law_time_is_the_difference(previous.0, to);
    law_time_is_the_difference(from, to);
    law_time_is_the_difference(previous.0, next.0);
    law_time_is_the_difference(to, next.0);
}

/// There is one claim for every row that counts some of the energy and none for any other, in
/// the order of the rows.
pub proof fn law_every_counted_row_claims_once(
    claims: Seq<Claim>,
    rows: Seq<Row>,
    previous: (UtcTime, Binary64),
    next: (UtcTime, Binary64),
    i: int,
)
    requires
        are_claims(claims, rows, previous, next),
        0 <= i < rows.len(),
    ensures
        is_counted(rows[i], previous.0, next.0) <==> exists|k: int|
            0 <= k < claims.len() && (#[trigger] claims[k]).row == i,
        forall|k: int|
            0 <= k < claims.len() && (#[trigger] claims[k]).row == i ==> is_claim(
                claims[k],
                rows[i],
                i,
                previous,
                next,
            ),
        forall|k: int, l: int|
            0 <= k < l < claims.len() ==> (#[trigger] claims[k]).row < (#[trigger] claims[l]).row,
        forall|k: int| 0 <= k < claims.len() ==> (#[trigger] claims[k]).row < rows.len(),
{
}

/// A reading is measured where it is of the last five seconds by either clock and all but its
/// battery power can be.
pub proof fn law_measured_readings_are_fresh(reading: Option<Reading>, now: UtcTime)
    ensures
        is_measured(reading, now) <==> {
            &&& reading is Some
            &&& is_recent(reading->0.at, now, 5_000_000_000)
            &&& reading->0.age_nanos <= 5_000_000_000
            &&& is_up_to(reading->0.soc_pct, 0x4059_0000_0000_0000)
            &&& is_up_to(reading->0.load_kw, 0x408f_4000_0000_0000)
            &&& is_up_to(reading->0.solar_kw, 0x408f_4000_0000_0000)
            &&& reading->0.grid_kw.spec_is_plausible_power()
        },
{
}

/// A measured reading is counted from the one before it, where it is later by a millisecond or
/// more and by no more than the longest gap. It is then the one to count from, unless it is not
/// later than the one before. Without a measured reading there is none to count from.
pub proof fn law_readings_are_counted_from_the_one_before(
    tracker: AxleRewardTracker,
    now: UtcTime,
    reading: Option<Reading>,
)
    ensures
        ({
            let after = previous_after(tracker.previous, now, reading);
            &&& !is_measured(reading, now) ==> after is None && !tracker.counts(now, reading)
            &&& is_measured(reading, now) ==> {
                let next = (reading->0.at, reading->0.grid_kw);
                &&& tracker.previous is None ==> after == Some(next) && !tracker.counts(
                    now,
                    reading,
                )
                &&& tracker.previous matches Some(previous) ==> {
                    &&& previous.0.rank() < next.0.rank() ==> after == Some(next)
                    &&& next.0.rank() <= previous.0.rank() ==> after == Some(previous)
                        && !tracker.counts(now, reading)
                    &&& previous.0.rank() < next.0.rank() ==> (tracker.counts(now, reading) <==> 0
                        < elapsed_millis(previous.0, next.0) <= tracker.max_gap_millis)
                }
            }
        }),
{
}

/// A row that was called off is cancelled whatever the time; any other is upcoming before its
/// start, active from its start until just before its end, and then completed.
pub proof fn law_progress_follows_the_clock(row: Row, now: UtcTime)
    ensures
        status_of(row, now) == RewardStatus::Cancelled <==> row.cancelled_at is Some,
        status_of(row, now) == RewardStatus::Upcoming <==> row.cancelled_at is None && now.rank()
            < row.start.rank(),
        status_of(row, now) == RewardStatus::Active <==> row.cancelled_at is None
            && row.start.rank() <= now.rank() < row.end.rank(),
        status_of(row, now) == RewardStatus::Completed <==> row.cancelled_at is None
            && row.start.rank() <= now.rank() && row.end.rank() <= now.rank(),
{
}

/// Every kind of progress has a word of its own.
pub proof fn law_progress_has_words(a: RewardStatus, b: RewardStatus)
    ensures
        status_word(a) == match a {
            RewardStatus::Cancelled => "cancelled"@,
            RewardStatus::Upcoming => "upcoming"@,
            RewardStatus::Active => "active"@,
            RewardStatus::Completed => "completed"@,
        },
        status_word(a) == status_word(b) <==> a == b,
{
    reveal_strlit("cancelled");
    reveal_strlit("upcoming");
    reveal_strlit("active");
    reveal_strlit("completed");
    let first = status_word(a);
    let second = status_word(b);
    if first == second {
        assert(first.len() == second.len());
        assert(first[1] == second[1]);
    }
}

/// The energy that an event wanted is what the grid gave in an import event, and the same with
/// the other sign in an export event; what is payable is not below zero.
pub proof fn law_payable_energy_is_that_of_the_direction(row: Row)
    ensures
        row.direction == AxleDirection::Import ==> net_kwh(row) == row.net_grid_kwh,
        row.direction == AxleDirection::Export ==> net_kwh(row) == row.net_grid_kwh.spec_negated(),
        row.direction == AxleDirection::Export && 0x8000_0000_0000_0000 < row.net_grid_kwh.bits
            <= 0xfff0_0000_0000_0000 ==> net_kwh(row).spec_floored_at_zero().bits
            == row.net_grid_kwh.bits - 0x8000_0000_0000_0000,
        row.direction == AxleDirection::Export && row.net_grid_kwh.bits < 0x8000_0000_0000_0000
            ==> net_kwh(row).spec_floored_at_zero().bits == 0,
        row.direction == AxleDirection::Import && 0 < row.net_grid_kwh.bits
            <= 0x7ff0_0000_0000_0000 ==> net_kwh(row).spec_floored_at_zero() == row.net_grid_kwh,
        row.direction == AxleDirection::Import && row.net_grid_kwh.bits >= 0x8000_0000_0000_0000
            ==> net_kwh(row).spec_floored_at_zero().bits == 0,
{
}

} // verus!
