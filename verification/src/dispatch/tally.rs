//! All that the ledger's rows count, over any sequence of operations.
//!
//! A tally goes along with each row. It keeps the stretches that the row has counted since it
//! was entered, or since its estimate was withdrawn. A restart continues from a ledger that
//! was saved, and so from the ledger after some of the steps; the readings that follow may be
//! old ones played again.
use crate::binary64::Binary64;
use crate::config::AxleConfig;
use crate::dispatch::rewards::{
    accounted, are_claims, called_off, confirmed, counted_from, counted_until, event_id,
    is_counted, is_withdrawn, lemma_position, new_row, position, Claim, Row, LEDGER_ROWS,
};
use crate::events::AxleEvent;
use crate::utc::{elapsed_millis, elapsed_nanos, lemma_nanos_are_counted, UtcTime};
use crate::zone::LocalDate;
use vstd::prelude::*;

verus! {

/// A stretch of time whose energy a row has counted.
pub ghost struct Stretch {
    pub from: UtcTime,
    pub to: UtcTime,
}

/// A row, the instant at which it was entered, and the stretches that it has counted since
/// then, or since its estimate was withdrawn.
pub ghost struct Tally {
    pub row: Row,
    pub entered: UtcTime,
    pub stretches: Seq<Stretch>,
}

/// What is done to a ledger.
pub ghost enum Step {
    /// The feed answered.
    Answered { event: Option<(AxleEvent, LocalDate)>, now: UtcTime, cfg: AxleConfig },
    /// A reading was counted from an earlier one.
    Measured { previous: UtcTime, at: UtcTime },
    /// A row was credited with new totals.
    Credited { place: int, net_grid_kwh: Binary64, coverage_seconds: Binary64 },
}

/// The ledger after a step.
pub open spec fn stepped(rows: Seq<Row>, step: Step) -> Seq<Row> {
    match step {
        Step::Answered { event, now, cfg } => confirmed(rows, event, now, cfg),
        Step::Measured { previous, at } => accounted(rows, previous, at),
        Step::Credited { place, net_grid_kwh, coverage_seconds } => if 0 <= place < rows.len() {
            rows.update(place, Row { net_grid_kwh, coverage_seconds, ..rows[place] })
        } else {
            rows
        },
    }
}

/// The ledger after a sequence of steps, which begins with an empty one.
pub open spec fn ledger_after(steps: Seq<Step>) -> Seq<Row>
    decreases steps.len(),
{
    if steps.len() == 0 {
        Seq::empty()
    } else {
        stepped(ledger_after(steps.drop_last()), steps.last())
    }
}

/// The number of rows that leave a ledger in a step: the oldest, where a new one is entered
/// beyond the limit.
pub open spec fn leaving(rows: Seq<Row>, step: Step) -> int {
    match step {
        Step::Answered { event: Some((event, local_date)), now, cfg } => {
            let marked = called_off(rows, Some(event_id(event)), now);
            if position(marked, event_id(event)) < marked.len() || rows.len() + 1 <= LEDGER_ROWS {
                0
            } else {
                1
            }
        },
        _ => 0,
    }
}

/// The row whose estimate an answer withdraws, or a place that no row has.
pub open spec fn withdrawn_place(rows: Seq<Row>, step: Step) -> int {
    match step {
        Step::Answered { event: Some((event, local_date)), now, cfg } => {
            let marked = called_off(rows, Some(event_id(event)), now);
            let place = position(marked, event_id(event));
            if place < marked.len() && is_withdrawn(marked[place], event) {
                place
            } else {
                -1
            }
        },
        _ => -1,
    }
}

/// The stretches of a row of a ledger after a step.
pub open spec fn stretches_after(
    stretches: Seq<Stretch>,
    rows: Seq<Row>,
    i: int,
    step: Step,
) -> Seq<Stretch> {
    match step {
        Step::Measured { previous, at } => if is_counted(rows[i], previous, at) {
            stretches.push(
                Stretch {
                    from: counted_from(rows[i], previous),
                    to: counted_until(rows[i], at),
                },
            )
        } else {
            stretches
        },
        _ => if i == withdrawn_place(rows, step) {
            Seq::empty()
        } else {
            stretches
        },
    }
}

/// The tallies of a ledger after a step.
pub open spec fn tallied(tallies: Seq<Tally>, rows: Seq<Row>, step: Step) -> Seq<Tally> {
    let after = stepped(rows, step);
    let left = leaving(rows, step);
    Seq::new(
        after.len(),
        |j: int|
            if j + left < tallies.len() {
                let tally = tallies[j + left];
                Tally {
                    row: after[j],
                    entered: tally.entered,
                    stretches: stretches_after(tally.stretches, rows, j + left, step),
                }
            } else {
                Tally { row: after[j], entered: step->now, stretches: Seq::empty() }
            },
    )
}

/// The tallies after a sequence of steps, which begins with an empty ledger.
pub open spec fn tallies_after(steps: Seq<Step>) -> Seq<Tally>
    decreases steps.len(),
{
    if steps.len() == 0 {
        Seq::empty()
    } else {
        tallied(
            tallies_after(steps.drop_last()),
            ledger_after(steps.drop_last()),
            steps.last(),
        )
    }
}

/// The stretches follow each other without overlap, lie within the event and after the
/// instant at which the row was entered, and end by the instant up to which the row has
/// accounted for the time.
pub open spec fn is_sound(tally: Tally) -> bool {
    let row = tally.row;
    &&& row.start.rank() <= row.accounted_until.rank()
    &&& tally.entered.rank() <= row.accounted_until.rank()
    &&& tally.stretches.len() > 0 ==> row.accounted_until.rank() <= row.end.rank()
    &&& forall|i: int|
        0 <= i < tally.stretches.len() ==> {
            let stretch = #[trigger] tally.stretches[i];
            &&& row.start.rank() <= stretch.from.rank()
            &&& tally.entered.rank() <= stretch.from.rank()
            &&& stretch.from.rank() < stretch.to.rank()
            &&& stretch.to.rank() <= row.accounted_until.rank()
        }
    &&& forall|i: int, j: int|
        0 <= i < j < tally.stretches.len() ==> (#[trigger] tally.stretches[i]).to.rank() <= (
        #[trigger] tally.stretches[j]).from.rank()
}

/// The whole milliseconds of the stretches, as their claims count them.
pub open spec fn covered_millis(stretches: Seq<Stretch>) -> int
    decreases stretches.len(),
{
    if stretches.len() == 0 {
        0
    } else {
        covered_millis(stretches.drop_last()) + elapsed_millis(
            stretches.last().from,
            stretches.last().to,
        )
    }
}

/// The instant does not lie in a leap second.
pub open spec fn is_regular(at: UtcTime) -> bool {
    at.nanos() < 1_000_000_000
}

proof fn lemma_row_after_step(rows: Seq<Row>, step: Step, i: int)
    requires
        leaving(rows, step) <= i < rows.len(),
    ensures
        i - leaving(rows, step) < stepped(rows, step).len(),
        ({
            let row = rows[i];
            let after = stepped(rows, step)[i - leaving(rows, step)];
            &&& after.id == row.id
            &&& after.start == row.start
            &&& match step {
                Step::Measured { previous, at } => {
                    &&& after.end == row.end
                    &&& after.accounted_until == if is_counted(row, previous, at) {
                        counted_until(row, at)
                    } else {
                        row.accounted_until
                    }
                },
                _ => {
                    &&& after.accounted_until == row.accounted_until
                    &&& after.end != row.end && i != withdrawn_place(rows, step)
                        ==> after.accounted_until.rank() <= after.end.rank()
                },
            }
        }),
{
    match step {
        Step::Answered { event, now, cfg } => {
            if let Some((e, local_date)) = event {
                let marked = called_off(rows, Some(event_id(e)), now);
                lemma_position(marked, event_id(e));
                assert(marked[i].start == rows[i].start && marked[i].end == rows[i].end);
                assert(marked[i].id == rows[i].id);
                assert(marked[i].accounted_until == rows[i].accounted_until);
                if position(marked, event_id(e)) >= marked.len() {
                    let row = new_row(e, local_date, now, cfg);
                    assert(marked.push(row)[i] == marked[i]);
                    if leaving(rows, step) == 1 {
                        assert(marked.push(row).drop_first()[i - 1] == marked.push(row)[i]);
                    }
                }
            }
        },
        _ => {},
    }
}

proof fn lemma_one_more_step(tallies: Seq<Tally>, rows: Seq<Row>, step: Step, j: int)
    requires
        tallies.len() == rows.len(),
        forall|i: int|
            0 <= i < rows.len() ==> (#[trigger] tallies[i]).row == rows[i] && is_sound(tallies[i]),
        0 <= j < stepped(rows, step).len(),
    ensures
        tallied(tallies, rows, step)[j].row == stepped(rows, step)[j],
        is_sound(tallied(tallies, rows, step)[j]),
{
    let left = leaving(rows, step);
    let i = j + left;
    let after = tallied(tallies, rows, step)[j];
    if i < rows.len() {
        let tally = tallies[i];
        assert(tally.row == rows[i] && is_sound(tally));
        lemma_row_after_step(rows, step, i);
        match step {
            Step::Measured { previous, at } => {
                if is_counted(rows[i], previous, at) {
                    let n = tally.stretches.len() as int;
                    assert forall|k: int| 0 <= k < after.stretches.len() implies {
                        let stretch = #[trigger] after.stretches[k];
                        &&& after.row.start.rank() <= stretch.from.rank()
                        &&& after.entered.rank() <= stretch.from.rank()
                        &&& stretch.from.rank() < stretch.to.rank()
                        &&& stretch.to.rank() <= after.row.accounted_until.rank()
                    } by {
                        if k < n {
                            assert(after.stretches[k] == tally.stretches[k]);
                        }
                    }
                    assert forall|k: int, l: int| 0 <= k < l < after.stretches.len() implies (
                    #[trigger] after.stretches[k]).to.rank() <= (
                    #[trigger] after.stretches[l]).from.rank() by {
                        assert(after.stretches[k] == tally.stretches[k]);
                        if l < n {
                            assert(after.stretches[l] == tally.stretches[l]);
                        }
                    }
                }
            },
            _ => {},
        }
    } else {
        lemma_entered_row(rows, step, j);
    }
}

/// A row that no earlier row has become was entered by the step.
proof fn lemma_entered_row(rows: Seq<Row>, step: Step, j: int)
    requires
        0 <= j < stepped(rows, step).len(),
        rows.len() <= j + leaving(rows, step),
    ensures
        ({
            let row = stepped(rows, step)[j];
            &&& step is Answered
            &&& row.start.rank() <= row.accounted_until.rank()
            &&& step->now.rank() <= row.accounted_until.rank()
        }),
{
    match step {
        Step::Answered { event, now, cfg } => {
            if let Some((e, local_date)) = event {
                let marked = called_off(rows, Some(event_id(e)), now);
                lemma_position(marked, event_id(e));
                if position(marked, event_id(e)) >= marked.len() {
                    let row = new_row(e, local_date, now, cfg);
                    assert(marked.push(row).last() == row);
                }
            }
        },
        _ => {},
    }
}

/// Whatever is done to a ledger, a row that stays keeps its identity and its start, and the
/// instant up to which it has accounted for the time never moves back.
pub proof fn law_accounting_never_goes_back(rows: Seq<Row>, step: Step, i: int)
    requires
        leaving(rows, step) <= i < rows.len(),
    ensures
        0 <= i - leaving(rows, step) < stepped(rows, step).len(),
        stepped(rows, step)[i - leaving(rows, step)].id == rows[i].id,
        stepped(rows, step)[i - leaving(rows, step)].start == rows[i].start,
        rows[i].accounted_until.rank() <= stepped(rows, step)[i - leaving(
            rows,
            step,
        )].accounted_until.rank(),
{
    lemma_row_after_step(rows, step, i);
}

/// Over any sequence of answers, readings and credits, and whatever restarts lie between
/// them, the stretches that a row has counted never overlap, and lie within its event and
/// after the instant at which it was found: no instant is counted twice, not even where old
/// readings are played again, and none outside the event.
pub proof fn law_rows_count_each_instant_once(steps: Seq<Step>)
    ensures
        tallies_after(steps).len() == ledger_after(steps).len(),
        forall|i: int|
            0 <= i < ledger_after(steps).len() ==> (#[trigger] tallies_after(steps)[i]).row
                == ledger_after(steps)[i] && is_sound(tallies_after(steps)[i]),
    decreases steps.len(),
{
    if steps.len() > 0 {
        let earlier = steps.drop_last();
        law_rows_count_each_instant_once(earlier);
        let tallies = tallies_after(earlier);
        let rows = ledger_after(earlier);
        assert forall|i: int| 0 <= i < ledger_after(steps).len() implies (
        #[trigger] tallies_after(steps)[i]).row == ledger_after(steps)[i] && is_sound(
            tallies_after(steps)[i],
        ) by {
            lemma_one_more_step(tallies, rows, steps.last(), i);
        }
    }
}

proof fn lemma_regular_time_adds_up(a: UtcTime, b: UtcTime)
    requires
        is_regular(a),
        is_regular(b),
        a.rank() <= b.rank(),
    ensures
        elapsed_nanos(a, b) == (b.secs() - a.secs()) * 1_000_000_000 + b.nanos() - a.nanos(),
        0 <= elapsed_nanos(a, b),
{
    lemma_nanos_are_counted(a);
    lemma_nanos_are_counted(b);
}

proof fn lemma_covered_time_fits(stretches: Seq<Stretch>, start: UtcTime)
    requires
        is_regular(start),
        forall|i: int|
            0 <= i < stretches.len() ==> {
                let stretch = #[trigger] stretches[i];
                &&& is_regular(stretch.from)
                &&& is_regular(stretch.to)
                &&& start.rank() <= stretch.from.rank()
                &&& stretch.from.rank() < stretch.to.rank()
            },
        forall|i: int, j: int|
            0 <= i < j < stretches.len() ==> (#[trigger] stretches[i]).to.rank() <= (
            #[trigger] stretches[j]).from.rank(),
    ensures
        0 <= covered_millis(stretches),
        stretches.len() == 0 ==> covered_millis(stretches) == 0,
        stretches.len() > 0 ==> covered_millis(stretches) * 1_000_000 <= elapsed_nanos(
            start,
            stretches.last().to,
        ),
    decreases stretches.len(),
{
    if stretches.len() > 0 {
        let rest = stretches.drop_last();
        let last = stretches[stretches.len() - 1];
        assert forall|i: int| 0 <= i < rest.len() implies #[trigger] rest[i] == stretches[i] by {}
        lemma_covered_time_fits(rest, start);
        lemma_regular_time_adds_up(last.from, last.to);
        lemma_regular_time_adds_up(start, last.from);
        lemma_regular_time_adds_up(start, last.to);
        if rest.len() > 0 {
            let before = stretches[rest.len() - 1];
            assert(rest.last() == before);
            assert(before.to.rank() <= last.from.rank());
            lemma_regular_time_adds_up(before.to, last.from);
            lemma_regular_time_adds_up(start, before.to);
        }
    }
}

/// Over any sequence of answers, readings and credits, a row has counted no more time than
/// its event lasts, and no less than none. Leap seconds are left out: the time to one and the
/// time from it may add up to more than the time across it, or to less.
pub proof fn law_coverage_is_within_the_event(steps: Seq<Step>, i: int)
    requires
        0 <= i < ledger_after(steps).len(),
        is_regular(ledger_after(steps)[i].start),
        is_regular(ledger_after(steps)[i].end),
        forall|k: int|
            0 <= k < tallies_after(steps)[i].stretches.len() ==> is_regular(
                (#[trigger] tallies_after(steps)[i].stretches[k]).from,
            ) && is_regular(tallies_after(steps)[i].stretches[k].to),
    ensures
        0 <= covered_millis(tallies_after(steps)[i].stretches),
        ledger_after(steps)[i].start.rank() <= ledger_after(steps)[i].end.rank()
            ==> covered_millis(tallies_after(steps)[i].stretches) <= elapsed_millis(
            ledger_after(steps)[i].start,
            ledger_after(steps)[i].end,
        ),
        ledger_after(steps)[i].end.rank() <= ledger_after(steps)[i].start.rank()
            ==> covered_millis(tallies_after(steps)[i].stretches) == 0,
{
    law_rows_count_each_instant_once(steps);
    let tally = tallies_after(steps)[i];
    let stretches = tally.stretches;
    assert(tally.row == ledger_after(steps)[i] && is_sound(tally));
    lemma_covered_time_fits(stretches, tally.row.start);
    if stretches.len() > 0 {
        let last = stretches[stretches.len() - 1];
        lemma_regular_time_adds_up(tally.row.start, last.to);
        lemma_regular_time_adds_up(last.to, tally.row.end);
        lemma_regular_time_adds_up(tally.row.start, tally.row.end);
    } else if tally.row.start.rank() <= tally.row.end.rank() {
        lemma_regular_time_adds_up(tally.row.start, tally.row.end);
    }
}

/// What the claims of a reading count is what the tallies gain by it: each claim is of the
/// stretch that its row counts, and a row without a claim counts none.
pub proof fn law_claims_are_the_stretches_counted(
    claims: Seq<Claim>,
    rows: Seq<Row>,
    previous: (UtcTime, Binary64),
    next: (UtcTime, Binary64),
    stretches: Seq<Stretch>,
    i: int,
)
    requires
        are_claims(claims, rows, previous, next),
        0 <= i < rows.len(),
    ensures
        ({
            let after = stretches_after(
                stretches,
                rows,
                i,
                Step::Measured { previous: previous.0, at: next.0 },
            );
            &&& forall|k: int|
                0 <= k < claims.len() && (#[trigger] claims[k]).row == i ==> covered_millis(after)
                    == covered_millis(stretches) + claims[k].covered_millis
            &&& (forall|k: int| 0 <= k < claims.len() ==> (#[trigger] claims[k]).row != i)
                ==> after == stretches
        }),
{
    let step = Step::Measured { previous: previous.0, at: next.0 };
    let after = stretches_after(stretches, rows, i, step);
    if is_counted(rows[i], previous.0, next.0) {
        assert(after.drop_last() =~= stretches);
    }
}

} // verus!
