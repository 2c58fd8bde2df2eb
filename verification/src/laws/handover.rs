//! Laws of the protection around events.
use crate::dispatch::handover::{
    claimed, is_next_handover, is_protected, observed, permission, with_event, Window,
};
use crate::events::AxleEvent;
use crate::utc::{lemma_nanos_are_counted, UtcTime};
use vstd::prelude::*;

verus! {

/// The second of the half-hour boundary last before an instant.
pub open spec fn opening_of(start: UtcTime) -> int {
    if start.nanos() == 0 {
        (start.secs() - 1) / 1800 * 1800
    } else {
        start.secs() / 1800 * 1800
    }
}

/// The second of the half-hour boundary first at or after five minutes past an instant.
pub open spec fn closing_of(end: UtcTime) -> int {
    if end.nanos() % 1_000_000_000 == 0 {
        (end.secs() + 300 + 1799) / 1800 * 1800
    } else {
        (end.secs() + 300 + 1800) / 1800 * 1800
    }
}

/// The instant lies between the boundaries around the event of a window.
pub open spec fn lies_in(now: UtcTime, window: Window) -> bool {
    opening_of(window.start) <= now.secs() < closing_of(window.end)
}

/// The instant is before the start of the event and in the minute from the boundary on, and
/// no handover has been attempted.
pub open spec fn may_hand_over(now: UtcTime, window: Window) -> bool {
    &&& now.rank() < window.start.rank()
    &&& now.secs() < opening_of(window.start) + 60
    &&& !window.passive_attempted
}

proof fn lemma_windows_by_the_clock(window: Window, now: UtcTime)
    ensures
        window.covers(now) <==> lies_in(now, window),
        window.is_silent(now) <==> lies_in(now, window) && !may_hand_over(now, window),
        window.opens() == opening_of(window.start) * 4_294_967_296,
        now.rank() < window.closes() <==> now.secs() < closing_of(window.end),
{
    lemma_nanos_are_counted(now);
}

/// A handover is due exactly where some window covers the instant and every window that covers
/// it still allows one: the event has not started, the minute from the boundary on is not
/// over, and no handover was attempted. Where no window covers the instant nothing stands
/// against ordinary control, and else nothing may be written.
pub proof fn law_handover_is_due_in_its_minute(windows: Seq<Window>, now: UtcTime)
    ensures
        permission(windows, now) is None <==> forall|i: int|
            0 <= i < windows.len() ==> !lies_in(now, #[trigger] windows[i]),
        permission(windows, now) == Some(true) <==> (exists|i: int|
            0 <= i < windows.len() && lies_in(now, #[trigger] windows[i])) && (forall|i: int|
            0 <= i < windows.len() && lies_in(now, #[trigger] windows[i]) ==> may_hand_over(
                now,
                windows[i],
            )),
        is_protected(windows, now) <==> exists|i: int|
            0 <= i < windows.len() && lies_in(now, #[trigger] windows[i]),
{
    assert forall|i: int| 0 <= i < windows.len() implies {
        &&& (#[trigger] windows[i]).covers(now) <==> lies_in(now, windows[i])
        &&& windows[i].is_silent(now) <==> lies_in(now, windows[i]) && !may_hand_over(
            now,
            windows[i],
        )
    } by {
        lemma_windows_by_the_clock(windows[i], now);
    }
    if is_protected(windows, now) {
        let i = choose|i: int| 0 <= i < windows.len() && (#[trigger] windows[i]).covers(now);
        assert(lies_in(now, windows[i]));
    }
}

/// Claiming the handover marks the windows that cover the instant, and changes nothing else.
pub proof fn law_claims_mark_the_covering_windows(windows: Seq<Window>, now: UtcTime, i: int)
    requires
        0 <= i < windows.len(),
    ensures
        claimed(windows, now).len() == windows.len(),
        claimed(windows, now)[i].start == windows[i].start,
        claimed(windows, now)[i].end == windows[i].end,
        claimed(windows, now)[i].passive_attempted <==> windows[i].passive_attempted || lies_in(
            now,
            windows[i],
        ),
{
    lemma_windows_by_the_clock(windows[i], now);
}

/// An event is taken into the first window with its start, which then ends at the later of the
/// two ends; without such a window a new one stands behind the others. No other window changes.
pub proof fn law_events_extend_their_window(windows: Seq<Window>, event: AxleEvent, k: int)
    requires
        0 <= k <= windows.len(),
        forall|j: int| 0 <= j < k ==> (#[trigger] windows[j]).start != event.start_time,
        k < windows.len() ==> windows[k].start == event.start_time,
    ensures
        k == windows.len() ==> with_event(windows, event) == windows.push(
            Window { start: event.start_time, end: event.end_time, passive_attempted: false },
        ),
        k < windows.len() ==> {
            let after = with_event(windows, event);
            &&& after == windows.update(k, after[k])
            &&& after[k].start == event.start_time
            &&& after[k].passive_attempted == windows[k].passive_attempted
            &&& windows[k].end.rank() < event.end_time.rank() ==> after[k].end == event.end_time
            &&& event.end_time.rank() < windows[k].end.rank() ==> after[k].end == windows[k].end
            &&& after[k].end == windows[k].end || after[k].end == event.end_time
        },
    decreases windows.len(),
{
    let after = with_event(windows, event);
    if k == 0 {
        if windows.len() == 0 {
            assert(after =~= windows.push(after[0]));
        } else {
            assert(after =~= windows.update(0, after[0]));
        }
    } else {
        assert(windows[0].start != event.start_time);
        let rest = windows.drop_first();
        assert forall|j: int| 0 <= j < k - 1 implies (#[trigger] rest[j]).start
            != event.start_time by {
            assert(rest[j] == windows[j + 1]);
        }
        law_events_extend_their_window(rest, event, k - 1);
        if k < windows.len() {
            assert(after[k] == with_event(rest, event)[k - 1]);
            assert(rest[k - 1] == windows[k]);
            assert(after =~= windows.update(k, after[k]));
        } else {
            assert(after =~= windows.push(after[k]));
        }
    }
}

/// A look at the feed keeps the windows, in their order, up to the boundary at which control
/// resumes, and no longer. It takes an event in where that ends after it starts and its own
/// boundary lies ahead.
pub proof fn law_windows_are_kept_up_to_their_boundary(
    windows: Seq<Window>,
    window: Window,
    event: AxleEvent,
    now: UtcTime,
)
    ensures
        observed(Seq::empty(), None, now).len() == 0,
        now.secs() < closing_of(window.end) ==> observed(windows.push(window), None, now)
            == observed(windows, None, now).push(window),
        now.secs() >= closing_of(window.end) ==> observed(windows.push(window), None, now)
            == observed(windows, None, now),
        event.start_time.rank() < event.end_time.rank() && now.secs() < closing_of(event.end_time)
            ==> observed(windows, Some(event), now) == with_event(
            observed(windows, None, now),
            event,
        ),
        event.end_time.rank() <= event.start_time.rank() || now.secs() >= closing_of(
            event.end_time,
        ) ==> observed(windows, Some(event), now) == observed(windows, None, now),
{
    reveal(Seq::filter);
    lemma_nanos_are_counted(now);
    lemma_windows_by_the_clock(window, now);
    assert(windows.push(window).drop_last() =~= windows);
    assert(windows.push(window).last() == window);
}

/// The next handover is the first boundary of a window that lies ahead; there is none exactly
/// where none does.
pub proof fn law_next_handover_is_the_first_ahead(
    windows: Seq<Window>,
    now: UtcTime,
    next: Option<UtcTime>,
    i: int,
)
    requires
        is_next_handover(windows, now, next),
    ensures
        0 <= i < windows.len() && now.secs() < opening_of(windows[i].start) ==> next is Some
            && next->0.secs() <= opening_of(windows[i].start),
        next matches Some(at) ==> {
            &&& now.secs() < at.secs()
            &&& at.nanos() == 0
            &&& exists|j: int|
                0 <= j < windows.len() && opening_of((#[trigger] windows[j]).start) == at.secs()
        },
{
    lemma_nanos_are_counted(now);
    if 0 <= i < windows.len() {
        lemma_windows_by_the_clock(windows[i], now);
    }
    if let Some(at) = next {
        lemma_nanos_are_counted(at);
        let j = choose|j: int| 0 <= j < windows.len() && (#[trigger] windows[j]).opens() == at.rank();
        lemma_windows_by_the_clock(windows[j], now);
        assert(opening_of(windows[j].start) == at.secs());
    }
}

} // verus!
