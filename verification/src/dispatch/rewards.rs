//! Estimated Axle rewards from signed grid energy, separate from export tariffs.
//! A confirmed payment is reconciled on the server; nothing here claims settlement.
use crate::binary64::{Binary64, ZERO};
use crate::config::AxleConfig;
use crate::dispatch::{fresh_reading, is_fresh, Reading};
use crate::events::{AxleDirection, AxleEvent};
use crate::text::{decimal, decimal_text, law_decimal_notation_is_injective, same};
use crate::utc::{elapsed_millis, UtcTime};
use crate::zone::{has_local_date, local_date, LocalDate, Zone};
use vstd::prelude::*;

verus! {

/// The number of events that the ledger keeps.
pub const LEDGER_ROWS: usize = 200;

/// One event of the ledger.
#[derive(Debug)]
pub struct RewardEvent {
    pub id: String,
    pub start: UtcTime,
    pub end: UtcTime,
    pub direction: AxleDirection,
    pub local_date: LocalDate,
    pub reward_p_per_kwh: Binary64,
    pub net_grid_kwh: Binary64,
    pub coverage_seconds: Binary64,
    pub eligible_from: UtcTime,
    pub cancelled_at: Option<UtcTime>,
    pub accounted_until: UtcTime,
}

impl Clone for RewardEvent {
    fn clone(&self) -> (r: RewardEvent)
        ensures
            r == *self,
    {
        RewardEvent {
            id: self.id.clone(),
            start: self.start,
            end: self.end,
            direction: self.direction,
            local_date: self.local_date,
            reward_p_per_kwh: self.reward_p_per_kwh,
            net_grid_kwh: self.net_grid_kwh,
            coverage_seconds: self.coverage_seconds,
            eligible_from: self.eligible_from,
            cancelled_at: self.cancelled_at,
            accounted_until: self.accounted_until,
        }
    }
}

/// What a row of the ledger holds.
pub ghost struct Row {
    pub id: Seq<char>,
    pub start: UtcTime,
    pub end: UtcTime,
    pub direction: AxleDirection,
    pub local_date: LocalDate,
    pub reward_p_per_kwh: Binary64,
    pub net_grid_kwh: Binary64,
    pub coverage_seconds: Binary64,
    pub eligible_from: UtcTime,
    pub cancelled_at: Option<UtcTime>,
    pub accounted_until: UtcTime,
}

impl View for RewardEvent {
    type V = Row;

    open spec fn view(&self) -> Row {
        Row {
            id: self.id@,
            start: self.start,
            end: self.end,
            direction: self.direction,
            local_date: self.local_date,
            reward_p_per_kwh: self.reward_p_per_kwh,
            net_grid_kwh: self.net_grid_kwh,
            coverage_seconds: self.coverage_seconds,
            eligible_from: self.eligible_from,
            cancelled_at: self.cancelled_at,
            accounted_until: self.accounted_until,
        }
    }
}

/// What the rows of a ledger hold.
pub open spec fn rows(events: Seq<RewardEvent>) -> Seq<Row> {
    events.map_values(|event: RewardEvent| event@)
}

/// The word for a direction.
pub open spec fn direction_word(direction: AxleDirection) -> Seq<char> {
    match direction {
        AxleDirection::Export => "export"@,
        AxleDirection::Import => "import"@,
    }
}

/// The word for a direction.
pub fn direction_text(direction: AxleDirection) -> (r: &'static str)
    ensures
        r@ == direction_word(direction),
{
    match direction {
        AxleDirection::Export => "export",
        AxleDirection::Import => "import",
    }
}

/// The identity of an event: its start second and its direction.
pub open spec fn event_id(event: AxleEvent) -> Seq<char> {
    "axle-"@ + decimal(event.start_time.secs()) + "-"@ + direction_word(event.direction)
}

/// The identity of an event.
pub fn event_id_text(event: AxleEvent) -> (r: String)
    ensures
        r@ == event_id(event),
{
    let mut id = "axle-".to_owned();
    id.append(decimal_text(event.start_time.timestamp()).as_str());
    id.append("-");
    id.append(direction_text(event.direction));
    id
}

/// The configured reward of a direction.
pub open spec fn configured_reward(cfg: AxleConfig, direction: AxleDirection) -> Binary64 {
    match direction {
        AxleDirection::Export => cfg.export_reward_p_per_kwh,
        AxleDirection::Import => cfg.import_reward_p_per_kwh,
    }
}

/// The configured reward of a direction.
pub fn reward_for(cfg: &AxleConfig, direction: AxleDirection) -> (r: Binary64)
    ensures
        r == configured_reward(*cfg, direction),
{
    match direction {
        AxleDirection::Export => cfg.export_reward_p_per_kwh,
        AxleDirection::Import => cfg.import_reward_p_per_kwh,
    }
}

/// A row that another announcement calls off: it has another identity, is not over, and has
/// not been called off yet.
pub open spec fn is_called_off(row: Row, id: Option<Seq<char>>, now: UtcTime) -> bool {
    Some(row.id) != id && now.rank() < row.end.rank() && row.cancelled_at is None
}

/// The rows with those called off marked.
pub open spec fn called_off(rows: Seq<Row>, id: Option<Seq<char>>, now: UtcTime) -> Seq<Row> {
    rows.map_values(
        |row: Row|
            if is_called_off(row, id, now) {
                Row { cancelled_at: Some(now), ..row }
            } else {
                row
            },
    )
}

/// The event was announced again with an end before what the row has accounted for.
pub open spec fn is_withdrawn(row: Row, event: AxleEvent) -> bool {
    &&& row.end != event.end_time || row.cancelled_at is Some
    &&& event.end_time.rank() < row.accounted_until.rank()
}

/// A row after its event was announced again. A row that was called off counts from now on.
/// An end before what has been accounted for withdraws the estimate: a correction cannot be
/// worked out from cumulative samples.
pub open spec fn revised(row: Row, event: AxleEvent, now: UtcTime) -> Row {
    if row.end == event.end_time && row.cancelled_at is None {
        row
    } else {
        let withdrawn = is_withdrawn(row, event);
        Row {
            eligible_from: if row.cancelled_at is Some || withdrawn {
                now.spec_later(row.start)
            } else {
                row.eligible_from
            },
            net_grid_kwh: if withdrawn {
                Binary64 { bits: ZERO }
            } else {
                row.net_grid_kwh
            },
            coverage_seconds: if withdrawn {
                Binary64 { bits: ZERO }
            } else {
                row.coverage_seconds
            },
            end: event.end_time,
            cancelled_at: None,
            ..row
        }
    }
}

/// The row of an event that is new to the ledger, with the date of its start. It counts from
/// its start, or from now where it has started already.
pub open spec fn new_row(
    event: AxleEvent,
    local_date: LocalDate,
    now: UtcTime,
    cfg: AxleConfig,
) -> Row {
    Row {
        id: event_id(event),
        start: event.start_time,
        end: event.end_time,
        direction: event.direction,
        local_date,
        reward_p_per_kwh: configured_reward(cfg, event.direction),
        net_grid_kwh: Binary64 { bits: ZERO },
        coverage_seconds: Binary64 { bits: ZERO },
        eligible_from: now.spec_later(event.start_time),
        cancelled_at: None,
        accounted_until: now.spec_later(event.start_time),
    }
}

/// An announcement with the date that a zone's clocks show at its start.
pub open spec fn dated(event: Option<AxleEvent>, zone: Seq<char>) -> Option<(
    AxleEvent,
    LocalDate,
)> {
    match event {
        Some(e) => Some((e, local_date(zone, e.start_time))),
        None => None,
    }
}

/// The place of the first row with an identity, or the number of rows.
pub open spec fn position(rows: Seq<Row>, id: Seq<char>) -> int
    decreases rows.len(),
{
    if rows.len() == 0 {
        0
    } else if rows[0].id == id {
        0
    } else {
        1 + position(rows.drop_first(), id)
    }
}

/// The ledger has a row of an event.
pub open spec fn is_entered(rows: Seq<Row>, event: AxleEvent) -> bool {
    position(rows, event_id(event)) < rows.len()
}

/// The ledger with one more row: beyond its limit the oldest row leaves.
pub open spec fn with_row(rows: Seq<Row>, row: Row) -> Seq<Row> {
    if rows.len() + 1 > LEDGER_ROWS {
        rows.push(row).drop_first()
    } else {
        rows.push(row)
    }
}

/// The ledger after the feed answered: what it no longer announces is called off, and what
/// it announces is revised, or entered where it is new.
pub open spec fn confirmed(
    rows: Seq<Row>,
    event: Option<(AxleEvent, LocalDate)>,
    now: UtcTime,
    cfg: AxleConfig,
) -> Seq<Row> {
    match event {
        None => called_off(rows, None, now),
        Some((e, local_date)) => {
            let marked = called_off(rows, Some(event_id(e)), now);
            let place = position(marked, event_id(e));
            if place < marked.len() {
                marked.update(place, revised(marked[place], e, now))
            } else {
                with_row(marked, new_row(e, local_date, now, cfg))
            }
        },
    }
}

/// A fresh reading whose grid power can be.
pub open spec fn is_measured(reading: Option<Reading>, now: UtcTime) -> bool {
    reading matches Some(t) && is_fresh(t, now) && t.grid_kw.spec_is_plausible_power()
}

/// From when a row counts the energy between two readings: after all that was counted, and
/// not before the event or its eligibility.
pub open spec fn counted_from(row: Row, previous: UtcTime) -> UtcTime {
    previous.spec_later(row.start).spec_later(row.eligible_from).spec_later(row.accounted_until)
}

/// Until when a row counts the energy between two readings: not past the event, nor past
/// the instant at which it was called off.
pub open spec fn counted_until(row: Row, at: UtcTime) -> UtcTime {
    at.spec_earlier(row.end).spec_earlier(
        match row.cancelled_at {
            Some(cancelled) => cancelled,
            None => row.end,
        },
    )
}

/// The row counts some of the energy between two readings.
pub open spec fn is_counted(row: Row, previous: UtcTime, at: UtcTime) -> bool {
    counted_from(row, previous).rank() < counted_until(row, at).rank()
}

/// The stretch between two readings that one row counts. The power is taken to change
/// evenly from the first reading to the second. All times are whole milliseconds: from the
/// first reading to the start and to the end of the stretch, of the stretch, and from the
/// first reading to the second.
#[derive(Clone, Copy, Debug, PartialEq)]
pub struct Claim {
    pub row: usize,
    pub from_millis: i64,
    pub to_millis: i64,
    pub covered_millis: i64,
    pub span_millis: i64,
    pub before_kw: Binary64,
    pub after_kw: Binary64,
}

/// The claim of one row.
pub open spec fn is_claim(
    claim: Claim,
    row: Row,
    place: int,
    previous: (UtcTime, Binary64),
    next: (UtcTime, Binary64),
) -> bool {
    let from = counted_from(row, previous.0);
    let to = counted_until(row, next.0);
    &&& claim.row == place
    &&& claim.from_millis == elapsed_millis(previous.0, from)
    &&& claim.to_millis == elapsed_millis(previous.0, to)
    &&& claim.covered_millis == elapsed_millis(from, to)
    &&& claim.span_millis == elapsed_millis(previous.0, next.0)
    &&& claim.before_kw == previous.1
    &&& claim.after_kw == next.1
}

/// The claims are those of the rows that count some of the energy, in the ledger's order.
pub open spec fn are_claims(
    claims: Seq<Claim>,
    rows: Seq<Row>,
    previous: (UtcTime, Binary64),
    next: (UtcTime, Binary64),
) -> bool {
    &&& forall|k: int|
        0 <= k < claims.len() ==> {
            let claim = #[trigger] claims[k];
            &&& claim.row < rows.len()
            &&& is_counted(rows[claim.row as int], previous.0, next.0)
            &&& is_claim(claim, rows[claim.row as int], claim.row as int, previous, next)
        }
    &&& forall|k: int, l: int|
        0 <= k < l < claims.len() ==> (#[trigger] claims[k]).row < (#[trigger] claims[l]).row
    &&& forall|i: int|
        0 <= i < rows.len() && is_counted(#[trigger] rows[i], previous.0, next.0) ==> exists|
            k: int,
        |
            0 <= k < claims.len() && (#[trigger] claims[k]).row == i
}

/// The rows once the energy between two readings has been claimed.
pub open spec fn accounted(rows: Seq<Row>, previous: UtcTime, at: UtcTime) -> Seq<Row> {
    rows.map_values(
        |row: Row|
            if is_counted(row, previous, at) {
                Row { accounted_until: counted_until(row, at), ..row }
            } else {
                row
            },
    )
}

/// What a report says of a row's progress.
#[derive(Clone, Copy, Debug, PartialEq, Eq, Structural)]
pub enum RewardStatus {
    Cancelled,
    Upcoming,
    Active,
    Completed,
}

/// The word for a row's progress.
pub open spec fn status_word(status: RewardStatus) -> Seq<char> {
    match status {
        RewardStatus::Cancelled => "cancelled"@,
        RewardStatus::Upcoming => "upcoming"@,
        RewardStatus::Active => "active"@,
        RewardStatus::Completed => "completed"@,
    }
}

impl RewardStatus {
    /// The word for a row's progress.
    pub fn text(self) -> (r: &'static str)
        ensures
            r@ == status_word(self),
    {
        match self {
            RewardStatus::Cancelled => "cancelled",
            RewardStatus::Upcoming => "upcoming",
            RewardStatus::Active => "active",
            RewardStatus::Completed => "completed",
        }
    }
}

/// A row as it is reported. The estimate is `payable_kwh` times `reward_p_per_kwh`, in
/// pence; it is an estimate and never a settlement.
#[derive(Clone, Copy, Debug, PartialEq)]
pub struct RewardReport {
    pub net_kwh: Binary64,
    pub payable_kwh: Binary64,
    pub estimated: bool,
    pub settled: bool,
    pub status: RewardStatus,
}

/// The progress of a row.
pub open spec fn status_of(row: Row, now: UtcTime) -> RewardStatus {
    if row.cancelled_at is Some {
        RewardStatus::Cancelled
    } else if now.rank() < row.start.rank() {
        RewardStatus::Upcoming
    } else if now.rank() < row.end.rank() {
        RewardStatus::Active
    } else {
        RewardStatus::Completed
    }
}

/// The energy that an event wanted: what flowed out for an export, in for an import.
pub open spec fn net_kwh(row: Row) -> Binary64 {
    match row.direction {
        AxleDirection::Export => row.net_grid_kwh.spec_negated(),
        AxleDirection::Import => row.net_grid_kwh,
    }
}

impl RewardEvent {
    /// The row as it is reported. Imports within an export event, and exports within an
    /// import event, reduce what is payable, but never below zero.
    pub fn report(&self, now: UtcTime) -> (r: RewardReport)
        ensures
            r.net_kwh == net_kwh(self@),
            r.payable_kwh == net_kwh(self@).spec_floored_at_zero(),
            r.estimated,
            !r.settled,
            r.status == status_of(self@, now),
    {
        let net_kwh = match self.direction {
            AxleDirection::Export => self.net_grid_kwh.negated(),
            AxleDirection::Import => self.net_grid_kwh,
        };
        let status = if self.cancelled_at.is_some() {
            RewardStatus::Cancelled
        } else if now.before(self.start) {
            RewardStatus::Upcoming
        } else if now.before(self.end) {
            RewardStatus::Active
        } else {
            RewardStatus::Completed
        };
        RewardReport {
            net_kwh,
            payable_kwh: net_kwh.floored_at_zero(),
            estimated: true,
            settled: false,
            status,
        }
    }
}

/// The ledger and the last reading.
#[derive(Debug)]
pub struct AxleRewardTracker {
    pub zone: Zone,
    /// The longest time between two readings, in whole milliseconds, over which energy is
    /// counted.
    pub max_gap_millis: i64,
    pub events: Vec<RewardEvent>,
    pub previous: Option<(UtcTime, Binary64)>,
    /// The ledger has changed since it was last saved.
    pub dirty: bool,
}

/// The place of the first row with an identity, or the number of rows.
fn find_row(events: &Vec<RewardEvent>, id: &str) -> (place: usize)
    ensures
        place == position(rows(events@), id@),
        place <= events@.len(),
        place < events@.len() ==> events@[place as int].id@ == id@,
{
    let ghost all = rows(events@);
    let mut i: usize = 0;
    assert(all.skip(0) =~= all);
    while i < events.len()
        invariant
            i <= events.len(),
            all == rows(events@),
            position(all, id@) == i + position(all.skip(i as int), id@),
        decreases events.len() - i,
    {
        assert(all.skip(i as int).drop_first() =~= all.skip(i + 1));
        assert(all.skip(i as int)[0] == events@[i as int]@);
        if same(events[i].id.as_str(), id) {
            return i;
        }
        i += 1;
    }
    i
}

impl AxleRewardTracker {
    /// Start with a saved ledger.
    pub fn new(events: Vec<RewardEvent>, zone: Zone, max_gap_millis: i64) -> (r: AxleRewardTracker)
        ensures
            r.events == events,
            r.zone == zone,
            r.max_gap_millis == max_gap_millis,
            r.previous is None,
            !r.dirty,
    {
        AxleRewardTracker { zone, max_gap_millis, events, previous: None, dirty: false }
    }

    /// Whether the ledger has a row of an event.
    pub fn knows(&self, event: AxleEvent) -> (r: bool)
        ensures
            r == is_entered(rows(self.events@), event),
    {
        find_row(&self.events, event_id_text(event).as_str()) < self.events.len()
    }

    /// Only call on successful feed reads. A timeout is not a cancellation.
    pub fn confirm(&mut self, event: Option<AxleEvent>, now: UtcTime, cfg: &AxleConfig)
        requires
            event matches Some(e) ==> is_entered(rows(old(self).events@), e) || has_local_date(
                e.start_time,
            ),
        ensures
            rows(final(self).events@) == confirmed(
                rows(old(self).events@),
                dated(event, old(self).zone.name()),
                now,
                *cfg,
            ),
            final(self).dirty == (old(self).dirty || rows(final(self).events@) != rows(
                old(self).events@,
            )),
            final(self).zone == old(self).zone,
            final(self).max_gap_millis == old(self).max_gap_millis,
            final(self).previous == old(self).previous,
    {
        match event {
            Some(event) => {
                if self.knows(event) {
                    self.confirm_again(event, now);
                } else {
                    let local_date = self.zone.date_at(event.start_time);
                    self.confirm_dated(Some((event, local_date)), now, cfg);
                }
            },
            None => {
                self.confirm_dated(None, now, cfg);
            },
        }
    }

    /// Take in the announcement of an event that the ledger has a row of.
    fn confirm_again(&mut self, event: AxleEvent, now: UtcTime)
        requires
            is_entered(rows(old(self).events@), event),
        ensures
            forall|local_date: LocalDate, cfg: AxleConfig|
                rows(final(self).events@) == #[trigger] confirmed(
                    rows(old(self).events@),
                    Some((event, local_date)),
                    now,
                    cfg,
                ),
            final(self).dirty == (old(self).dirty || rows(final(self).events@) != rows(
                old(self).events@,
            )),
            final(self).zone == old(self).zone,
            final(self).max_gap_millis == old(self).max_gap_millis,
            final(self).previous == old(self).previous,
    {
        let ghost before = rows(self.events@);
        let id = event_id_text(event);
        self.call_off(Some(id.as_str()), now);
        let ghost marked = rows(self.events@);
        proof {
            lemma_called_off_rows_keep_their_places(before, id@, now);
            lemma_position(marked, id@);
        }
        let place: usize = find_row(&self.events, id.as_str());
        self.revise(place, event, now);
        proof {
            assert(!is_called_off(before[place as int], Some(id@), now));
            assert(before[place as int] == marked[place as int]);
            if rows(self.events@) == before {
                assert(rows(self.events@)[place as int] == before[place as int]);
                assert(rows(self.events@) =~= marked);
            }
        }
    }

    /// Take in an answer of the feed, an announcement with the date of its start.
    pub fn confirm_dated(
        &mut self,
        event: Option<(AxleEvent, LocalDate)>,
        now: UtcTime,
        cfg: &AxleConfig,
    )
        ensures
            rows(final(self).events@) == confirmed(rows(old(self).events@), event, now, *cfg),
            final(self).dirty == (old(self).dirty || rows(final(self).events@) != rows(
                old(self).events@,
            )),
            final(self).zone == old(self).zone,
            final(self).max_gap_millis == old(self).max_gap_millis,
            final(self).previous == old(self).previous,
    {
        let ghost before = rows(self.events@);
        match event {
            None => {
                self.call_off(None, now);
            },
            Some((event, local_date)) => {
                if self.knows(event) {
                    self.confirm_again(event, now);
                    return ;
                }
                let id = event_id_text(event);
                self.call_off(Some(id.as_str()), now);
                let ghost marked = rows(self.events@);
                let start = start_row(id, event, local_date, now, cfg);
                self.events.push(start);
                let ghost row = start@;
                assert(rows(self.events@) =~= marked.push(row));
                if self.events.len() > LEDGER_ROWS {
                    self.events.remove(0);
                    assert(rows(self.events@) =~= marked.push(row).drop_first());
                }
                self.dirty = true;
                proof {
                    lemma_called_off_rows_keep_their_places(before, event_id(event), now);
                    lemma_position(marked, event_id(event));
                    assert(rows(self.events@) == with_row(marked, row));
                    if rows(self.events@) == before {
                        let last = before.len() - 1;
                        assert(rows(self.events@)[last] == row);
                        assert(before[last].id == marked[last].id);
                    }
                }
            },
        }
    }

    /// Mark the rows that another announcement calls off.
    fn call_off(&mut self, id: Option<&str>, now: UtcTime)
        ensures
            rows(final(self).events@) == called_off(
                rows(old(self).events@),
                match id {
                    Some(text) => Some(text@),
                    None => None,
                },
                now,
            ),
            final(self).dirty == (old(self).dirty || rows(final(self).events@) != rows(
                old(self).events@,
            )),
            final(self).zone == old(self).zone,
            final(self).max_gap_millis == old(self).max_gap_millis,
            final(self).previous == old(self).previous,
    {
        let ghost before = rows(self.events@);
        let ghost key: Option<Seq<char>> = match id {
            Some(text) => Some(text@),
            None => None,
        };
        let ghost after = called_off(before, key, now);
        let mut i: usize = 0;
        while i < self.events.len()
            invariant
                i <= self.events.len(),
                before == rows(old(self).events@),
                self.events@.len() == before.len(),
                after == called_off(before, key, now),
                key == (match id {
                    Some(text) => Some(text@),
                    None => None::<Seq<char>>,
                }),
                forall|j: int| 0 <= j < i ==> (#[trigger] self.events@[j])@ == after[j],
                forall|j: int|
                    i <= j < before.len() ==> (#[trigger] self.events@[j])@ == before[j],
                self.dirty == (old(self).dirty || exists|j: int|
                    0 <= j < i && is_called_off(#[trigger] before[j], key, now)),
                self.zone == old(self).zone,
                self.max_gap_millis == old(self).max_gap_millis,
                self.previous == old(self).previous,
            decreases self.events.len() - i,
        {
            assert(self.events@[i as int]@ == before[i as int]);
            let other = match id {
                Some(text) => !same(self.events[i].id.as_str(), text),
                None => true,
            };
            if other && now.before(self.events[i].end) && self.events[i].cancelled_at.is_none() {
                self.events[i].cancelled_at = Some(now);
                self.dirty = true;
            }
            i += 1;
        }
        proof {
            assert(rows(self.events@) =~= after);
            if exists|j: int| 0 <= j < before.len() && is_called_off(#[trigger] before[j], key, now) {
                let j = choose|j: int|
                    0 <= j < before.len() && is_called_off(#[trigger] before[j], key, now);
                assert(after[j] != before[j]);
            } else {
                assert(after =~= before);
            }
        }
    }

    /// Revise the row of an event that was announced again.
    fn revise(&mut self, place: usize, event: AxleEvent, now: UtcTime)
        requires
            place < old(self).events@.len(),
        ensures
            rows(final(self).events@) == rows(old(self).events@).update(
                place as int,
                revised(rows(old(self).events@)[place as int], event, now),
            ),
            final(self).dirty == (old(self).dirty || rows(final(self).events@) != rows(
                old(self).events@,
            )),
            final(self).zone == old(self).zone,
            final(self).max_gap_millis == old(self).max_gap_millis,
            final(self).previous == old(self).previous,
    {
        let ghost before = rows(self.events@);
        let end = self.events[place].end;
        let cancelled = self.events[place].cancelled_at.is_some();
        if !end.same_as(event.end_time) || cancelled {
            let eligible_from = now.later(self.events[place].start);
            if cancelled {
                self.events[place].eligible_from = eligible_from;
            }
            if event.end_time.before(self.events[place].accounted_until) {
                self.events[place].net_grid_kwh = Binary64 { bits: ZERO };
                self.events[place].coverage_seconds = Binary64 { bits: ZERO };
                self.events[place].eligible_from = eligible_from;
            }
            self.events[place].end = event.end_time;
            self.events[place].cancelled_at = None;
            self.dirty = true;
            assert(rows(self.events@)[place as int] != before[place as int]);
        }
        assert(rows(self.events@) =~= before.update(
            place as int,
            revised(before[place as int], event, now),
        ));
    }

    /// Grid power is positive on import. Signed power is counted before the reward is
    /// floored: imports within an export event must reduce earlier export earnings. Gives
    /// the stretches of the ledger's rows between the last reading and this one; the energy
    /// of each is to be credited. Nothing is counted over a gap that is too long, over a
    /// missing or implausible reading, or twice.
    pub fn observe(&mut self, now: UtcTime, reading: Option<Reading>) -> (claims: Vec<Claim>)
        ensures
            final(self).zone == old(self).zone,
            final(self).max_gap_millis == old(self).max_gap_millis,
            final(self).dirty == (old(self).dirty || claims@.len() > 0),
            final(self).previous == previous_after(old(self).previous, now, reading),
            old(self).counts(now, reading) ==> {
                let previous = old(self).previous->0;
                let next = (reading->0.at, reading->0.grid_kw);
                &&& are_claims(claims@, rows(old(self).events@), previous, next)
                &&& rows(final(self).events@) == accounted(
                    rows(old(self).events@),
                    previous.0,
                    next.0,
                )
            },
            !old(self).counts(now, reading) ==> claims@.len() == 0 && final(self).events == old(
                self,
            ).events,
    {
        let mut claims: Vec<Claim> = Vec::new();
        let t = match reading {
            Some(t) => t,
            None => {
                self.previous = None;
                return claims;
            },
        };
        if !fresh_reading(&t, now) || !t.grid_kw.is_plausible_power() {
            self.previous = None;
            return claims;
        }
        let next = (t.at, t.grid_kw);
        if let Some(previous) = self.previous {
            if !previous.0.before(t.at) {
                return claims;
            }
            let span_millis = t.at.millis_since(previous.0);
            if span_millis > 0 && span_millis <= self.max_gap_millis {
                claims = self.claim(previous, next);
            }
        }
        self.previous = Some(next);
        claims
    }

    /// The reading follows another, and not so late that the time between is a gap.
    pub open spec fn counts(&self, now: UtcTime, reading: Option<Reading>) -> bool {
        &&& is_measured(reading, now)
        &&& self.previous matches Some(previous) && previous.0.rank() < reading->0.at.rank() && 0
            < elapsed_millis(previous.0, reading->0.at) <= self.max_gap_millis
    }

    /// Claim the energy between two readings for the rows that count some of it.
    fn claim(&mut self, previous: (UtcTime, Binary64), next: (UtcTime, Binary64)) -> (claims: Vec<
        Claim,
    >)
        ensures
            final(self).zone == old(self).zone,
            final(self).max_gap_millis == old(self).max_gap_millis,
            final(self).previous == old(self).previous,
            final(self).dirty == (old(self).dirty || claims@.len() > 0),
            are_claims(claims@, rows(old(self).events@), previous, next),
            rows(final(self).events@) == accounted(rows(old(self).events@), previous.0, next.0),
    {
        let ghost before = rows(self.events@);
        let ghost after = accounted(before, previous.0, next.0);
        let mut claims: Vec<Claim> = Vec::new();
        let mut i: usize = 0;
        while i < self.events.len()
            invariant
                i <= self.events.len(),
                before == rows(old(self).events@),
                after == accounted(before, previous.0, next.0),
                self.events@.len() == before.len(),
                forall|j: int| 0 <= j < i ==> (#[trigger] self.events@[j])@ == after[j],
                forall|j: int|
                    i <= j < before.len() ==> (#[trigger] self.events@[j])@ == before[j],
                are_claims(claims@, before.take(i as int), previous, next),
                self.dirty == (old(self).dirty || claims@.len() > 0),
                self.zone == old(self).zone,
                self.max_gap_millis == old(self).max_gap_millis,
                self.previous == old(self).previous,
            decreases self.events.len() - i,
        {
            assert(self.events@[i as int]@ == before[i as int]);
            let ghost row = before[i as int];
            let ghost earlier = claims@;
            let from = previous.0.later(self.events[i].start).later(
                self.events[i].eligible_from,
            ).later(self.events[i].accounted_until);
            let end = self.events[i].end;
            let cancelled = match self.events[i].cancelled_at {
                Some(cancelled) => cancelled,
                None => end,
            };
            let to = next.0.earlier(end).earlier(cancelled);
            if from.before(to) {
                let claim = Claim {
                    row: i,
                    from_millis: from.millis_since(previous.0),
                    to_millis: to.millis_since(previous.0),
                    covered_millis: to.millis_since(from),
                    span_millis: next.0.millis_since(previous.0),
                    before_kw: previous.1,
                    after_kw: next.1,
                };
                claims.push(claim);
                assert(claims@.drop_last() =~= earlier);
                self.events[i].accounted_until = to;
                self.dirty = true;
            }
            proof {
                lemma_claims_of_one_more(earlier, claims@, before, i as int, previous, next);
            }
            i += 1;
        }
        assert(rows(self.events@) =~= after);
        assert(before.take(i as int) =~= before);
        claims
    }

    /// Credit a row with its new totals.
    pub fn credit(&mut self, row: usize, net_grid_kwh: Binary64, coverage_seconds: Binary64)
        requires
            row < old(self).events@.len(),
        ensures
            rows(final(self).events@) == rows(old(self).events@).update(
                row as int,
                Row { net_grid_kwh, coverage_seconds, ..rows(old(self).events@)[row as int] },
            ),
            final(self).zone == old(self).zone,
            final(self).max_gap_millis == old(self).max_gap_millis,
            final(self).previous == old(self).previous,
            final(self).dirty == old(self).dirty,
    {
        let ghost before = rows(self.events@);
        self.events[row].net_grid_kwh = net_grid_kwh;
        self.events[row].coverage_seconds = coverage_seconds;
        assert(rows(self.events@) =~= before.update(
            row as int,
            Row { net_grid_kwh, coverage_seconds, ..before[row as int] },
        ));
    }

    /// The outcome of saving the ledger. A failed save is tried again with the next change.
    pub fn flush(&mut self, saved: Result<(), String>)
        ensures
            *final(self) == (AxleRewardTracker {
                dirty: old(self).dirty && saved is Err,
                ..*old(self)
            }),
    {
        if saved.is_ok() {
            self.dirty = false;
        }
    }
}

/// The row of an event that is new to the ledger.
fn start_row(
    id: String,
    event: AxleEvent,
    local_date: LocalDate,
    now: UtcTime,
    cfg: &AxleConfig,
) -> (r: RewardEvent)
    requires
        id@ == event_id(event),
    ensures
        r@ == new_row(event, local_date, now, *cfg),
{
    let from = now.later(event.start_time);
    RewardEvent {
        id,
        start: event.start_time,
        end: event.end_time,
        direction: event.direction,
        local_date,
        reward_p_per_kwh: reward_for(cfg, event.direction),
        net_grid_kwh: Binary64 { bits: ZERO },
        coverage_seconds: Binary64 { bits: ZERO },
        eligible_from: from,
        cancelled_at: None,
        accounted_until: from,
    }
}

/// The last reading that a later one is counted from: none after a missing or implausible
/// reading, and the same one after a reading that is not later.
pub open spec fn previous_after(
    previous: Option<(UtcTime, Binary64)>,
    now: UtcTime,
    reading: Option<Reading>,
) -> Option<(UtcTime, Binary64)> {
    if !is_measured(reading, now) {
        None
    } else if previous is Some && reading->0.at.rank() <= (previous->0).0.rank() {
        previous
    } else {
        Some((reading->0.at, reading->0.grid_kw))
    }
}

proof fn lemma_claims_of_one_more(
    earlier: Seq<Claim>,
    claims: Seq<Claim>,
    rows: Seq<Row>,
    i: int,
    previous: (UtcTime, Binary64),
    next: (UtcTime, Binary64),
)
    requires
        0 <= i < rows.len(),
        are_claims(earlier, rows.take(i), previous, next),
        is_counted(rows[i], previous.0, next.0) ==> claims.len() == earlier.len() + 1
            && claims.drop_last() == earlier && is_claim(
            claims.last(),
            rows[i],
            i,
            previous,
            next,
        ),
        !is_counted(rows[i], previous.0, next.0) ==> claims == earlier,
    ensures
        are_claims(claims, rows.take(i + 1), previous, next),
{
    let some = rows.take(i);
    let more = rows.take(i + 1);
    assert forall|k: int| 0 <= k < claims.len() implies {
        let claim = #[trigger] claims[k];
        &&& claim.row < more.len()
        &&& is_counted(more[claim.row as int], previous.0, next.0)
        &&& is_claim(claim, more[claim.row as int], claim.row as int, previous, next)
    } by {
        if k < earlier.len() {
            assert(claims[k] == earlier[k]);
            assert(more[earlier[k].row as int] == some[earlier[k].row as int]);
        }
    }
    assert forall|k: int, l: int| 0 <= k < l < claims.len() implies (#[trigger] claims[k]).row < (
    #[trigger] claims[l]).row by {
        assert(claims[k] == earlier[k]);
        if l < earlier.len() {
            assert(claims[l] == earlier[l]);
        }
    }
    assert forall|j: int| 0 <= j < more.len() && is_counted(#[trigger] more[j], previous.0, next.0)
        implies exists|k: int| 0 <= k < claims.len() && (#[trigger] claims[k]).row == j by {
        if j < i {
            assert(some[j] == more[j]);
            let k = choose|k: int| 0 <= k < earlier.len() && (#[trigger] earlier[k]).row == j;
            assert(claims[k] == earlier[k]);
        } else {
            assert(claims[claims.len() - 1].row == j);
        }
    }
}

pub proof fn lemma_position(rows: Seq<Row>, id: Seq<char>)
    ensures
        0 <= position(rows, id) <= rows.len(),
        position(rows, id) < rows.len() ==> rows[position(rows, id)].id == id,
        forall|j: int| 0 <= j < position(rows, id) ==> (#[trigger] rows[j]).id != id,
    decreases rows.len(),
{
    if rows.len() > 0 && rows[0].id != id {
        let rest = rows.drop_first();
        lemma_position(rest, id);
        assert forall|j: int| 0 <= j < position(rows, id) implies (#[trigger] rows[j]).id != id by {
            if j > 0 {
                assert(rest[j - 1] == rows[j]);
            }
        }
    }
}

/// Calling rows off leaves them and their identities where they are.
proof fn lemma_called_off_rows_keep_their_places(rows: Seq<Row>, id: Seq<char>, now: UtcTime)
    ensures
        position(called_off(rows, Some(id), now), id) == position(rows, id),
{
    let marked = called_off(rows, Some(id), now);
    let before = position(rows, id);
    let after = position(marked, id);
    lemma_position(rows, id);
    lemma_position(marked, id);
    assert forall|j: int| 0 <= j < rows.len() implies (#[trigger] marked[j]).id == rows[j].id by {}
    if before < after {
        assert(marked[before].id != id);
    } else if after < before {
        assert(rows[after].id != id);
    }
}

/// An identity names one start second and one direction.
pub proof fn law_identities_are_those_of_the_start_and_direction(a: AxleEvent, b: AxleEvent)
    ensures
        event_id(a) == event_id(b) <==> a.start_time.secs() == b.start_time.secs() && a.direction
            == b.direction,
{
    reveal_strlit("axle-");
    reveal_strlit("-");
    reveal_strlit("export");
    reveal_strlit("import");
    if event_id(a) == event_id(b) {
        let x = event_id(a);
        let first = decimal(a.start_time.secs());
        let second = decimal(b.start_time.secs());
        assert(x.len() == 5 + first.len() + 7);
        assert(x.len() == 5 + second.len() + 7);
        assert(x.subrange(5, 5 + first.len() as int) =~= first);
        assert(x.subrange(5, 5 + second.len() as int) =~= second);
        law_decimal_notation_is_injective(a.start_time.secs(), b.start_time.secs());
        assert(x.last() == direction_word(a.direction).last());
        assert(x[x.len() - 6] == direction_word(a.direction)[0]);
        assert(x[x.len() - 6] == direction_word(b.direction)[0]);
    }
}

/// No two rows have the same identity.
pub open spec fn has_unique_ids(rows: Seq<Row>) -> bool {
    forall|i: int, j: int|
        0 <= i < j < rows.len() ==> (#[trigger] rows[i]).id != (#[trigger] rows[j]).id
}

/// Answers of the feed never enter an event twice, and never let the ledger grow beyond its
/// limit.
pub proof fn law_ledger_stays_unique_and_bounded(
    before: Seq<Row>,
    event: Option<(AxleEvent, LocalDate)>,
    now: UtcTime,
    cfg: AxleConfig,
)
    requires
        has_unique_ids(before),
        before.len() <= LEDGER_ROWS,
    ensures
        has_unique_ids(confirmed(before, event, now, cfg)),
        confirmed(before, event, now, cfg).len() <= LEDGER_ROWS,
{
    let after = confirmed(before, event, now, cfg);
    if let Some((announced, local_date)) = event {
        let id = event_id(announced);
        let marked = called_off(before, Some(id), now);
        let place = position(marked, id);
        lemma_position(marked, id);
        assert forall|i: int| 0 <= i < marked.len() implies (#[trigger] marked[i]).id
            == before[i].id by {}
        if place < marked.len() {
            assert forall|i: int, j: int| 0 <= i < j < after.len() implies (
            #[trigger] after[i]).id != (#[trigger] after[j]).id by {
                assert(after[i].id == before[i].id);
                assert(after[j].id == before[j].id);
            }
        } else {
            let row = new_row(announced, local_date, now, cfg);
            let pushed = marked.push(row);
            assert forall|i: int, j: int| 0 <= i < j < pushed.len() implies (
            #[trigger] pushed[i]).id != (#[trigger] pushed[j]).id by {
                assert(marked[i].id == before[i].id);
                if j < marked.len() {
                    assert(marked[j].id == before[j].id);
                }
            }
            assert forall|i: int, j: int| 0 <= i < j < after.len() implies (
            #[trigger] after[i]).id != (#[trigger] after[j]).id by {
                if pushed.len() > LEDGER_ROWS {
                    assert(after[i] == pushed[i + 1]);
                    assert(after[j] == pushed[j + 1]);
                } else {
                    assert(after[i] == pushed[i]);
                    assert(after[j] == pushed[j]);
                }
            }
        }
    } else {
        assert forall|i: int, j: int| 0 <= i < j < after.len() implies (#[trigger] after[i]).id
            != (#[trigger] after[j]).id by {
            assert(after[i].id == before[i].id);
            assert(after[j].id == before[j].id);
        }
    }
}

/// What a row counts lies within the event, after its eligibility and before it was called
/// off, between the two readings, and after all that was counted before.
pub proof fn law_energy_is_counted_only_inside_the_event(row: Row, previous: UtcTime, at: UtcTime)
    requires
        is_counted(row, previous, at),
    ensures
        row.start.rank() <= counted_from(row, previous).rank(),
        row.eligible_from.rank() <= counted_from(row, previous).rank(),
        row.accounted_until.rank() <= counted_from(row, previous).rank(),
        previous.rank() <= counted_from(row, previous).rank(),
        counted_until(row, at).rank() <= row.end.rank(),
        row.cancelled_at matches Some(cancelled) ==> counted_until(row, at).rank()
            <= cancelled.rank(),
        counted_until(row, at).rank() <= at.rank(),
{
}

/// No energy is counted twice: whatever a row counts once two readings have been accounted
/// for begins where the count had ended, even if older readings are played again.
pub proof fn law_energy_is_counted_once(
    rows: Seq<Row>,
    i: int,
    previous: UtcTime,
    at: UtcTime,
    again: UtcTime,
    later: UtcTime,
)
    requires
        0 <= i < rows.len(),
        is_counted(rows[i], previous, at),
        is_counted(accounted(rows, previous, at)[i], again, later),
    ensures
        counted_until(rows[i], at).rank() <= counted_from(
            accounted(rows, previous, at)[i],
            again,
        ).rank(),
        rows[i].accounted_until.rank() < accounted(rows, previous, at)[i].accounted_until.rank(),
{
}

/// A missing or implausible reading breaks the count: the reading after it counts nothing.
pub proof fn law_nothing_is_counted_across_a_missing_reading(
    before: AxleRewardTracker,
    after: AxleRewardTracker,
    now: UtcTime,
    reading: Option<Reading>,
    later: UtcTime,
    next: Option<Reading>,
)
    requires
        !is_measured(reading, now),
        after.previous == previous_after(before.previous, now, reading),
    ensures
        !after.counts(later, next),
{
}

/// The time for which nothing ran is not counted: without a reading before it, as after a
/// restart, the next reading counts nothing.
pub proof fn law_downtime_is_not_counted(
    tracker: AxleRewardTracker,
    now: UtcTime,
    reading: Option<Reading>,
)
    requires
        tracker.previous is None,
    ensures
        !tracker.counts(now, reading),
{
}

/// An event called off counts nothing until it is announced again, and from then on only
/// what comes after that announcement.
pub proof fn law_reinstatement_does_not_credit_the_gap(
    row: Row,
    event: AxleEvent,
    now: UtcTime,
    previous: UtcTime,
)
    requires
        row.cancelled_at is Some,
    ensures
        revised(row, event, now).cancelled_at is None,
        now.rank() <= counted_from(revised(row, event, now), previous).rank(),
        row.start.rank() <= counted_from(revised(row, event, now), previous).rank(),
{
}

/// An event that is found late counts nothing of what came before it was found.
pub proof fn law_late_discovery_claims_nothing_earlier(
    event: AxleEvent,
    local_date: LocalDate,
    now: UtcTime,
    cfg: AxleConfig,
    previous: UtcTime,
)
    ensures
        now.rank() <= counted_from(new_row(event, local_date, now, cfg), previous).rank(),
        event.start_time.rank() <= counted_from(
            new_row(event, local_date, now, cfg),
            previous,
        ).rank(),
{
}

/// An end that is moved before what has been counted withdraws the estimate, and the row
/// counts again only from then on.
pub proof fn law_retrospective_end_withdraws_the_estimate(
    row: Row,
    event: AxleEvent,
    now: UtcTime,
)
    requires
        is_withdrawn(row, event),
    ensures
        revised(row, event, now).net_grid_kwh.bits == ZERO,
        revised(row, event, now).coverage_seconds.bits == ZERO,
        now.rank() <= revised(row, event, now).eligible_from.rank(),
{
}

} // verus!
