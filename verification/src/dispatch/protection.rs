//! The protection windows over any sequence of looks at the feed and claims of a handover.
//!
//! A restart takes up the windows that were saved. A handover is permitted only once its claim
//! has been saved, so that a restart never goes back behind a claim that was acted on: it
//! leaves out, at most, looks and claims whose save failed.
use crate::dispatch::handover::{
    carries_on, claimed, is_current, law_attempted_windows_forbid_writes,
    lemma_resume_is_monotone, lemma_with_event_carries_on, lemma_with_event_instants_are_valid,
    observed, permission, Window,
};
use crate::events::AxleEvent;
use crate::utc::UtcTime;
use vstd::prelude::*;

verus! {

/// What is done to the windows.
pub ghost enum Step {
    /// The feed was looked at.
    Looked { event: Option<AxleEvent>, now: UtcTime },
    /// A handover was claimed.
    Claimed { now: UtcTime },
}

/// The windows after a step.
pub open spec fn stepped(windows: Seq<Window>, step: Step) -> Seq<Window> {
    match step {
        Step::Looked { event, now } => observed(windows, event, now),
        Step::Claimed { now } => claimed(windows, now),
    }
}

/// The windows after a sequence of steps.
pub open spec fn windows_after(windows: Seq<Window>, steps: Seq<Step>) -> Seq<Window>
    decreases steps.len(),
{
    if steps.len() == 0 {
        windows
    } else {
        stepped(windows_after(windows, steps.drop_last()), steps.last())
    }
}

/// The place of a window after a step, unless its protection has run out by then.
pub open spec fn place_after_step(windows: Seq<Window>, i: int, step: Step) -> Option<int> {
    match step {
        Step::Looked { event, now } => if now.rank() < windows[i].closes() {
            Some(windows.take(i).filter(|w: Window| now.rank() < w.closes()).len() as int)
        } else {
            None
        },
        Step::Claimed { now } => Some(i),
    }
}

/// The place of a window after a sequence of steps, unless its protection ran out on the way.
pub open spec fn place_after(windows: Seq<Window>, i: int, steps: Seq<Step>) -> Option<int>
    decreases steps.len(),
{
    if steps.len() == 0 {
        Some(i)
    } else {
        match place_after(windows, i, steps.drop_last()) {
            Some(j) => place_after_step(
                windows_after(windows, steps.drop_last()),
                j,
                steps.last(),
            ),
            None => None,
        }
    }
}

/// A window stands for an earlier one: same start, no earlier end, and a handover once
/// attempted stays attempted.
pub open spec fn stands_for(later: Window, earlier: Window) -> bool {
    &&& later.start == earlier.start
    &&& earlier.end.rank() <= later.end.rank()
    &&& earlier.passive_attempted ==> later.passive_attempted
}

proof fn lemma_filter_keeps_the_order(windows: Seq<Window>, live: spec_fn(Window) -> bool, i: int)
    requires
        0 <= i < windows.len(),
        live(windows[i]),
    ensures
        windows.take(i).filter(live).len() < windows.filter(live).len(),
        windows.filter(live)[windows.take(i).filter(live).len() as int] == windows[i],
    decreases windows.len(),
{
    reveal(Seq::filter);
    let rest = windows.drop_last();
    if i == windows.len() - 1 {
        assert(windows.take(i) =~= rest);
    } else {
        assert(windows.take(i) =~= rest.take(i));
        assert(rest[i] == windows[i]);
        lemma_filter_keeps_the_order(rest, live, i);
    }
}

proof fn lemma_step_keeps_the_window(windows: Seq<Window>, i: int, step: Step)
    requires
        0 <= i < windows.len(),
        place_after_step(windows, i, step) is Some,
    ensures
        0 <= place_after_step(windows, i, step)->0 < stepped(windows, step).len(),
        stands_for(stepped(windows, step)[place_after_step(windows, i, step)->0], windows[i]),
{
    match step {
        Step::Looked { event, now } => {
            let live = |w: Window| now.rank() < w.closes();
            let kept = windows.filter(live);
            let j = windows.take(i).filter(live).len() as int;
            lemma_filter_keeps_the_order(windows, live, i);
            if let Some(e) = event {
                if is_current(e, now) {
                    lemma_with_event_carries_on(kept, e, j);
                    assert(carries_on(stepped(windows, step)[j], windows[i]));
                }
            }
        },
        Step::Claimed { now } => {},
    }
}

/// Over any sequence of looks and claims, a window is kept until its protection runs out: its
/// end only moves later, and a handover once attempted stays attempted.
pub proof fn law_windows_are_kept_until_they_close(
    windows: Seq<Window>,
    i: int,
    steps: Seq<Step>,
)
    requires
        0 <= i < windows.len(),
        place_after(windows, i, steps) is Some,
    ensures
        0 <= place_after(windows, i, steps)->0 < windows_after(windows, steps).len(),
        stands_for(
            windows_after(windows, steps)[place_after(windows, i, steps)->0],
            windows[i],
        ),
    decreases steps.len(),
{
    if steps.len() > 0 {
        let earlier = steps.drop_last();
        law_windows_are_kept_until_they_close(windows, i, earlier);
        lemma_step_keeps_the_window(
            windows_after(windows, earlier),
            place_after(windows, i, earlier)->0,
            steps.last(),
        );
    }
}

/// A handover is never repeated, whatever the feed says and whatever is claimed afterwards:
/// once a handover has been claimed, every window that covered the claim forbids writes at
/// every later instant that it covers in the form in which it was kept.
pub proof fn law_handover_is_never_repeated_in_any_sequence(
    windows: Seq<Window>,
    i: int,
    first: UtcTime,
    steps: Seq<Step>,
    again: UtcTime,
)
    requires
        0 <= i < windows.len(),
        windows[i].covers(first),
        place_after(claimed(windows, first), i, steps) matches Some(j) && windows_after(
            claimed(windows, first),
            steps,
        )[j].covers(again),
    ensures
        permission(windows_after(claimed(windows, first), steps), again) == Some(false),
{
    let attempted = claimed(windows, first);
    law_windows_are_kept_until_they_close(attempted, i, steps);
    law_attempted_windows_forbid_writes(
        windows_after(attempted, steps),
        place_after(attempted, i, steps)->0,
        again,
    );
}

/// A look at the feed comes before the instant of a rank.
pub open spec fn looks_before(step: Step, rank: int) -> bool {
    step matches Step::Looked { event, now } ==> now.rank() < rank
}

/// The instants of a step's announcement are instants of the calendar.
pub open spec fn is_proper(step: Step) -> bool {
    step matches Step::Looked { event: Some(e), now } ==> e.end_time.valid()
}

proof fn lemma_ends_are_valid(windows: Seq<Window>, steps: Seq<Step>)
    requires
        forall|i: int| 0 <= i < windows.len() ==> (#[trigger] windows[i]).end.valid(),
        forall|k: int| 0 <= k < steps.len() ==> is_proper(#[trigger] steps[k]),
    ensures
        forall|i: int|
            0 <= i < windows_after(windows, steps).len() ==> (#[trigger] windows_after(
                windows,
                steps,
            )[i]).end.valid(),
    decreases steps.len(),
{
    if steps.len() > 0 {
        let earlier = steps.drop_last();
        let step = steps[steps.len() - 1];
        assert forall|k: int| 0 <= k < earlier.len() implies is_proper(#[trigger] earlier[k]) by {
            assert(earlier[k] == steps[k]);
        }
        lemma_ends_are_valid(windows, earlier);
        let before = windows_after(windows, earlier);
        let after = stepped(before, step);
        assert forall|i: int| 0 <= i < after.len() implies (#[trigger] after[i]).end.valid() by {
            match step {
                Step::Looked { event, now } => {
                    let live = |w: Window| now.rank() < w.closes();
                    let kept = before.filter(live);
                    assert forall|k: int| 0 <= k < kept.len() implies (
                    #[trigger] kept[k]).end.valid() by {
                        before.lemma_filter_contains_rev(live, kept[k]);
                        let m = choose|m: int| 0 <= m < before.len() && before[m] == kept[k];
                        assert(before[m].end.valid());
                    }
                    if event is Some && is_current(event->0, now) {
                        lemma_with_event_instants_are_valid(kept, event->0, i);
                    } else {
                        assert(after[i] == kept[i]);
                    }
                },
                Step::Claimed { now } => {
                    assert(before[i].end.valid());
                },
            }
        }
    }
}

proof fn lemma_windows_are_kept_before_they_close(windows: Seq<Window>, i: int, steps: Seq<Step>)
    requires
        0 <= i < windows.len(),
        forall|k: int| 0 <= k < windows.len() ==> (#[trigger] windows[k]).end.valid(),
        forall|k: int|
            0 <= k < steps.len() ==> is_proper(#[trigger] steps[k]) && looks_before(
                steps[k],
                windows[i].closes(),
            ),
    ensures
        place_after(windows, i, steps) is Some,
    decreases steps.len(),
{
    if steps.len() > 0 {
        let earlier = steps.drop_last();
        let step = steps[steps.len() - 1];
        assert forall|k: int| 0 <= k < earlier.len() implies is_proper(#[trigger] earlier[k])
            && looks_before(earlier[k], windows[i].closes()) by {
            assert(earlier[k] == steps[k]);
        }
        lemma_windows_are_kept_before_they_close(windows, i, earlier);
        law_windows_are_kept_until_they_close(windows, i, earlier);
        lemma_ends_are_valid(windows, earlier);
        let j = place_after(windows, i, earlier)->0;
        let form = windows_after(windows, earlier)[j];
        assert(form.end.valid() && windows[i].end.valid());
        lemma_resume_is_monotone(windows[i].end, form.end);
        assert(looks_before(step, windows[i].closes()));
    }
}

/// Whatever the feed says before a window closes, and whatever is claimed, once a handover has
/// been claimed under it the window forbids writes at every instant that it covers.
pub proof fn law_claimed_windows_forbid_writes_until_they_close(
    windows: Seq<Window>,
    i: int,
    first: UtcTime,
    steps: Seq<Step>,
    again: UtcTime,
)
    requires
        0 <= i < windows.len(),
        forall|k: int| 0 <= k < windows.len() ==> (#[trigger] windows[k]).end.valid(),
        windows[i].covers(first),
        windows[i].covers(again),
        forall|k: int|
            0 <= k < steps.len() ==> is_proper(#[trigger] steps[k]) && looks_before(
                steps[k],
                windows[i].closes(),
            ),
    ensures
        permission(windows_after(claimed(windows, first), steps), again) == Some(false),
{
    let attempted = claimed(windows, first);
    assert forall|k: int| 0 <= k < attempted.len() implies (#[trigger] attempted[k]).end.valid() by {
        assert(windows[k].end.valid());
    }
    assert(attempted[i].closes() == windows[i].closes());
    lemma_windows_are_kept_before_they_close(attempted, i, steps);
    law_windows_are_kept_until_they_close(attempted, i, steps);
    lemma_ends_are_valid(attempted, steps);
    let form = windows_after(attempted, steps)[place_after(attempted, i, steps)->0];
    assert(form.end.valid() && attempted[i].end.valid());
    lemma_resume_is_monotone(attempted[i].end, form.end);
    law_handover_is_never_repeated_in_any_sequence(windows, i, first, steps, again);
}

} // verus!
