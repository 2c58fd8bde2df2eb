//! Persistent protection against inverter writes around Axle dispatches.
use crate::dispatch::time::{
    handover_at, handover_exists, handover_secs, has_handover, has_resume, resume_at,
    resume_exists, resume_secs, second_rank,
};
use crate::events::AxleEvent;
use crate::utc::UtcTime;
use vstd::prelude::*;

verus! {

/// An accepted event: the time around it in which the inverter is not ours to command.
#[derive(Clone, Copy, Debug, PartialEq, Eq, Structural)]
pub struct Window {
    pub start: UtcTime,
    pub end: UtcTime,
    pub passive_attempted: bool,
}

/// The calendar reaches both boundaries around an event that ends after it starts.
pub open spec fn is_guardable(start: UtcTime, end: UtcTime) -> bool {
    start.rank() < end.rank() ==> has_handover(start) && has_resume(end)
}

/// Whether the calendar reaches both boundaries around an event that ends after it starts.
pub fn guardable(start: UtcTime, end: UtcTime) -> (r: bool)
    ensures
        r == is_guardable(start, end),
{
    !start.before(end) || handover_exists(start) && resume_exists(end)
}

/// The calendar reaches both boundaries around every window.
pub open spec fn are_guardable(windows: Seq<Window>) -> bool {
    forall|i: int|
        0 <= i < windows.len() ==> is_guardable((#[trigger] windows[i]).start, windows[i].end)
}

impl Window {
    pub open spec fn wf(self) -> bool {
        &&& self.start.valid()
        &&& self.end.valid()
        &&& self.start.rank() < self.end.rank()
        &&& is_guardable(self.start, self.end)
    }

    /// The rank of the boundary at which control is handed over.
    pub open spec fn opens(self) -> int {
        second_rank(handover_secs(self.start))
    }

    /// The rank of the boundary at which control resumes.
    pub open spec fn closes(self) -> int {
        second_rank(resume_secs(self.end))
    }

    /// From the boundary before the start until the boundary after the buffered end.
    pub open spec fn covers(self, now: UtcTime) -> bool {
        self.opens() <= now.rank() < self.closes()
    }

    /// Covered, and too late for a handover: the event has started, the minute for the
    /// handover has passed, or the handover has been attempted.
    pub open spec fn is_silent(self, now: UtcTime) -> bool {
        &&& self.covers(now)
        &&& {
            ||| self.start.rank() <= now.rank()
            ||| second_rank(handover_secs(self.start) + 60) <= now.rank()
            ||| self.passive_attempted
        }
    }

    fn contains(&self, now: UtcTime) -> (r: bool)
        requires
            self.wf(),
        ensures
            r == self.covers(now),
    {
        !now.before(handover_at(self.start)) && now.before(resume_at(self.end))
    }

    fn silent(&self, now: UtcTime) -> (r: bool)
        requires
            self.wf(),
        ensures
            r == self.is_silent(now),
    {
        let handover = handover_at(self.start);
        let minute_over = match handover.plus_seconds(60) {
            Some(over) => !now.before(over),
            None => false,
        };
        self.contains(now) && (!now.before(self.start) || minute_over || self.passive_attempted)
    }
}

/// Some window covers the instant.
pub open spec fn is_protected(windows: Seq<Window>, now: UtcTime) -> bool {
    exists|i: int| 0 <= i < windows.len() && (#[trigger] windows[i]).covers(now)
}

/// An event that ends after it starts and whose protection has not run out.
pub open spec fn is_current(event: AxleEvent, now: UtcTime) -> bool {
    &&& event.start_time.rank() < event.end_time.rank()
    &&& now.rank() < second_rank(resume_secs(event.end_time))
}

/// The windows with an event taken in: the first window of the same start reaches to the
/// later end, or else a new window stands at the end.
pub open spec fn with_event(windows: Seq<Window>, event: AxleEvent) -> Seq<Window>
    decreases windows.len(),
{
    if windows.len() == 0 {
        seq![
            Window { start: event.start_time, end: event.end_time, passive_attempted: false },
        ]
    } else if windows[0].start == event.start_time {
        seq![Window { end: windows[0].end.spec_later(event.end_time), ..windows[0] }]
            + windows.drop_first()
    } else {
        seq![windows[0]] + with_event(windows.drop_first(), event)
    }
}

/// The windows after a look at the feed: those run out are gone, and an event that is
/// current is taken in.
pub open spec fn observed(
    windows: Seq<Window>,
    event: Option<AxleEvent>,
    now: UtcTime,
) -> Seq<Window> {
    let kept = windows.filter(|w: Window| now.rank() < w.closes());
    match event {
        Some(e) => if is_current(e, now) {
            with_event(kept, e)
        } else {
            kept
        },
        None => kept,
    }
}

/// What may be done at an instant: nothing stands against ordinary control, or one passive
/// handover is due (`true`), or nothing may be written (`false`).
pub open spec fn permission(windows: Seq<Window>, now: UtcTime) -> Option<bool> {
    if is_protected(windows, now) {
        Some(!(exists|i: int| 0 <= i < windows.len() && (#[trigger] windows[i]).is_silent(now)))
    } else {
        None
    }
}

/// The windows once the handover has been claimed: no window that covers the instant will
/// allow another.
pub open spec fn claimed(windows: Seq<Window>, now: UtcTime) -> Seq<Window> {
    windows.map_values(
        |w: Window|
            if w.covers(now) {
                Window { passive_attempted: true, ..w }
            } else {
                w
            },
    )
}

/// The first handover that still lies ahead, if there is one.
pub open spec fn is_next_handover(
    windows: Seq<Window>,
    now: UtcTime,
    next: Option<UtcTime>,
) -> bool {
    match next {
        Some(at) => {
            &&& at.valid()
            &&& now.rank() < at.rank()
            &&& exists|i: int|
                0 <= i < windows.len() && (#[trigger] windows[i]).opens() == at.rank()
            &&& forall|i: int|
                0 <= i < windows.len() && now.rank() < (#[trigger] windows[i]).opens()
                    ==> at.rank() <= windows[i].opens()
        },
        None => forall|i: int|
            0 <= i < windows.len() ==> (#[trigger] windows[i]).opens() <= now.rank(),
    }
}

/// A permission, and whether the windows have to be saved before it holds.
#[derive(Clone, Copy, Debug, PartialEq, Eq)]
pub struct Preparation {
    pub permission: Option<bool>,
    pub save: bool,
}

impl Preparation {
    /// The permission, once the outcome of the save is known. Where a save was due and
    /// failed there is none, only its error.
    pub fn settle(self, saved: Result<(), String>) -> (r: Result<Option<bool>, String>)
        ensures
            self.save && saved is Err ==> r == Err::<Option<bool>, String>(saved->Err_0),
            !self.save || saved is Ok ==> r == Ok::<Option<bool>, String>(self.permission),
    {
        if self.save {
            match saved {
                Ok(()) => Ok(self.permission),
                Err(error) => Err(error),
            }
        } else {
            Ok(self.permission)
        }
    }
}

/// The accepted windows.
pub struct AxleHandover {
    pub windows: Vec<Window>,
}

/// Saved windows as they are, or refused because one does not end after it starts.
pub open spec fn is_taken_up(saved: Seq<Window>, r: Result<AxleHandover, String>) -> bool {
    match r {
        Ok(handover) => {
            &&& handover.windows@ == saved
            &&& are_guardable(saved) ==> handover.wf()
            &&& forall|i: int|
                0 <= i < saved.len() ==> (#[trigger] saved[i]).start.rank() < saved[i].end.rank()
        },
        Err(message) => {
            &&& message@ == "invalid saved Axle protection window"@
            &&& exists|i: int|
                0 <= i < saved.len() && (#[trigger] saved[i]).end.rank() <= saved[i].start.rank()
        },
    }
}

/// The same windows in the same order.
fn same_windows(a: &Vec<Window>, b: &Vec<Window>) -> (r: bool)
    ensures
        r == (a@ == b@),
{
    if a.len() != b.len() {
        return false;
    }
    let mut i: usize = 0;
    while i < a.len()
        invariant
            i <= a.len(),
            a.len() == b.len(),
            forall|j: int| 0 <= j < i ==> a@[j] == b@[j],
        decreases a.len() - i,
    {
        if a[i] != b[i] {
            return false;
        }
        i += 1;
    }
    assert(a@ =~= b@);
    true
}

impl AxleHandover {
    pub open spec fn wf(&self) -> bool {
        forall|i: int| 0 <= i < self.windows@.len() ==> (#[trigger] self.windows@[i]).wf()
    }

    /// Take up saved windows. One that does not end after it starts is refused. Their
    /// boundaries are not looked at, so that the calendar need not reach them yet.
    pub fn load(saved: Vec<Window>) -> (r: Result<AxleHandover, String>)
        ensures
            is_taken_up(saved@, r),
    {
        let mut i: usize = 0;
        while i < saved.len()
            invariant
                i <= saved.len(),
                forall|j: int|
                    0 <= j < i ==> {
                        &&& (#[trigger] saved@[j]).start.valid()
                        &&& saved@[j].end.valid()
                        &&& saved@[j].start.rank() < saved@[j].end.rank()
                    },
            decreases saved.len() - i,
        {
            let start = saved[i].start;
            let end = saved[i].end;
            proof {
                use_type_invariant(&start);
                use_type_invariant(&end);
            }
            if !start.before(end) {
                return Err("invalid saved Axle protection window".to_owned());
            }
            i += 1;
        }
        Ok(AxleHandover { windows: saved })
    }

    /// Keep accepted windows through their grace period even if the feed clears the
    /// completed event, fails, or publishes a different upcoming event. Says whether the
    /// windows changed, so that they have to be saved.
    pub fn observe(&mut self, event: Option<AxleEvent>, now: UtcTime) -> (save: bool)
        requires
            old(self).wf(),
            event matches Some(e) ==> is_guardable(e.start_time, e.end_time),
        ensures
            final(self).wf(),
            final(self).windows@ == observed(old(self).windows@, event, now),
            save == (final(self).windows@ != old(self).windows@),
    {
        let mut kept: Vec<Window> = Vec::new();
        let ghost live = |w: Window| now.rank() < w.closes();
        let mut i: usize = 0;
        assert(self.windows@.take(0).filter(live) =~= Seq::<Window>::empty()) by {
            reveal(Seq::filter);
        }
        while i < self.windows.len()
            invariant
                i <= self.windows.len(),
                *self == *old(self),
                self.wf(),
                live == (|w: Window| now.rank() < w.closes()),
                kept@ == self.windows@.take(i as int).filter(live),
                forall|j: int| 0 <= j < kept@.len() ==> (#[trigger] kept@[j]).wf(),
            decreases self.windows.len() - i,
        {
            let window = self.windows[i];
            assert(self.windows@[i as int].wf());
            proof {
                reveal(Seq::filter);
                assert(self.windows@.take(i + 1).drop_last() =~= self.windows@.take(i as int));
            }
            if now.before(resume_at(window.end)) {
                kept.push(window);
            }
            i += 1;
        }
        assert(self.windows@.take(i as int) =~= self.windows@);
        if let Some(event) = event {
            if event.start_time.before(event.end_time) && now.before(resume_at(event.end_time)) {
                take_in(&mut kept, event);
            }
        }
        let save = !same_windows(&self.windows, &kept);
        self.windows = kept;
        save
    }

    /// Whether some window covers the instant.
    pub fn protected(&self, now: UtcTime) -> (r: bool)
        requires
            self.wf(),
        ensures
            r == is_protected(self.windows@, now),
    {
        let mut i: usize = 0;
        while i < self.windows.len()
            invariant
                i <= self.windows.len(),
                self.wf(),
                forall|j: int| 0 <= j < i ==> !(#[trigger] self.windows@[j]).covers(now),
            decreases self.windows.len() - i,
        {
            assert(self.windows@[i as int].wf());
            if self.windows[i].contains(now) {
                return true;
            }
            i += 1;
        }
        false
    }

    /// The first handover that still lies ahead.
    pub fn next_handover(&self, now: UtcTime) -> (r: Option<UtcTime>)
        requires
            self.wf(),
        ensures
            is_next_handover(self.windows@, now, r),
    {
        let mut next: Option<UtcTime> = None;
        let mut i: usize = 0;
        while i < self.windows.len()
            invariant
                i <= self.windows.len(),
                self.wf(),
                match next {
                    Some(at) => {
                        &&& at.valid()
                        &&& now.rank() < at.rank()
                        &&& exists|j: int|
                            0 <= j < i && (#[trigger] self.windows@[j]).opens() == at.rank()
                        &&& forall|j: int|
                            0 <= j < i && now.rank() < (#[trigger] self.windows@[j]).opens()
                                ==> at.rank() <= self.windows@[j].opens()
                    },
                    None => forall|j: int|
                        0 <= j < i ==> (#[trigger] self.windows@[j]).opens() <= now.rank(),
                },
            decreases self.windows.len() - i,
        {
            assert(self.windows@[i as int].wf());
            let handover = handover_at(self.windows[i].start);
            assert(self.windows@[i as int].opens() == handover.rank());
            if now.before(handover) {
                next = match next {
                    None => Some(handover),
                    Some(at) => Some(at.earlier(handover)),
                };
            }
            i += 1;
        }
        next
    }

    /// `None` allows ordinary control. `Some(true)` requires one passive handover;
    /// `Some(false)` forbids writes. The windows are to be saved before any permission is
    /// acted on: a crash or partial write must not cause repeated resets on restart, and a
    /// failure leaves control blocked.
    pub fn prepare(&mut self, now: UtcTime) -> (r: Preparation)
        requires
            old(self).wf(),
        ensures
            final(self).wf(),
            r.permission == permission(old(self).windows@, now),
            final(self).windows@ == claimed(old(self).windows@, now),
            r.save == (exists|i: int|
                0 <= i < old(self).windows@.len() && (#[trigger] old(self).windows@[i]).covers(now)
                    && !old(self).windows@[i].passive_attempted),
            r.save == (final(self).windows@ != old(self).windows@),
    {
        let ghost before = self.windows@;
        let mut protected = false;
        let mut silent = false;
        let mut save = false;
        let mut i: usize = 0;
        while i < self.windows.len()
            invariant
                i <= self.windows.len(),
                self.windows@.len() == before.len(),
                before == old(self).windows@,
                forall|j: int| 0 <= j < before.len() ==> (#[trigger] before[j]).wf(),
                forall|j: int| i <= j < before.len() ==> self.windows@[j] == before[j],
                forall|j: int|
                    0 <= j < i ==> self.windows@[j] == #[trigger] claimed(before, now)[j],
                protected == (exists|j: int| 0 <= j < i && (#[trigger] before[j]).covers(now)),
                silent == (exists|j: int| 0 <= j < i && (#[trigger] before[j]).is_silent(now)),
                save == (exists|j: int|
                    0 <= j < i && (#[trigger] before[j]).covers(now)
                        && !before[j].passive_attempted),
            decreases self.windows.len() - i,
        {
            let window = self.windows[i];
            assert(before[i as int].wf());
            if window.contains(now) {
                protected = true;
                silent = silent || window.silent(now);
                save = save || !window.passive_attempted;
                self.windows.set(i, Window { passive_attempted: true, ..window });
            }
            i += 1;
        }
        proof {
            assert(self.windows@ =~= claimed(before, now));
            assert forall|j: int| 0 <= j < self.windows@.len() implies (
            #[trigger] self.windows@[j]).wf() by {
                assert(before[j].wf());
            }
            if save {
                let j = choose|j: int|
                    0 <= j < before.len() && (#[trigger] before[j]).covers(now)
                        && !before[j].passive_attempted;
                assert(self.windows@[j] != before[j]);
            } else {
                assert(self.windows@ =~= before);
            }
        }
        let permission = if protected {
            Some(!silent)
        } else {
            None
        };
        Preparation { permission, save }
    }
}

/// Take an event into the windows.
fn take_in(windows: &mut Vec<Window>, event: AxleEvent)
    requires
        event.start_time.rank() < event.end_time.rank(),
        is_guardable(event.start_time, event.end_time),
        forall|j: int| 0 <= j < old(windows)@.len() ==> (#[trigger] old(windows)@[j]).wf(),
    ensures
        final(windows)@ == with_event(old(windows)@, event),
        forall|j: int| 0 <= j < final(windows)@.len() ==> (#[trigger] final(windows)@[j]).wf(),
{
    let start = event.start_time;
    let end = event.end_time;
    proof {
        use_type_invariant(&start);
        use_type_invariant(&end);
    }
    let ghost before = windows@;
    let mut i: usize = 0;
    assert(before.take(0) + with_event(before.skip(0), event) =~= with_event(before, event)) by {
        assert(before.skip(0) =~= before);
    }
    while i < windows.len()
        invariant
            i <= windows.len(),
            windows@ == before,
            before == old(windows)@,
            start == event.start_time,
            end == event.end_time,
            start.valid(),
            end.valid(),
            start.rank() < end.rank(),
            is_guardable(start, end),
            forall|j: int| 0 <= j < before.len() ==> (#[trigger] before[j]).wf(),
            with_event(before, event) == before.take(i as int) + with_event(
                before.skip(i as int),
                event,
            ),
        decreases windows.len() - i,
    {
        let window = windows[i];
        let ghost rest = before.skip(i as int);
        assert(rest.drop_first() =~= before.skip(i + 1));
        assert(before[i as int].wf());
        if window.start.same_as(start) {
            windows.set(i, Window { end: window.end.later(end), ..window });
            assert(windows@ =~= with_event(before, event));
            return ;
        }
        assert(before.take(i as int) + (seq![rest[0]] + with_event(rest.drop_first(), event))
            =~= before.take(i + 1) + with_event(before.skip(i + 1), event));
        i += 1;
    }
    windows.push(Window { start, end, passive_attempted: false });
    assert(windows@ =~= with_event(before, event));
}

/// The window stands for an earlier one: same start, no earlier end, and a handover once
/// attempted stays attempted.
pub open spec fn carries_on(later: Window, earlier: Window) -> bool {
    &&& later.start == earlier.start
    &&& earlier.end.rank() <= later.end.rank()
    &&& later.passive_attempted == earlier.passive_attempted
}

pub proof fn lemma_with_event_carries_on(windows: Seq<Window>, event: AxleEvent, i: int)
    requires
        0 <= i < windows.len(),
    ensures
        with_event(windows, event).len() >= windows.len(),
        carries_on(with_event(windows, event)[i], windows[i]),
    decreases windows.len(),
{
    if windows[0].start != event.start_time {
        let rest = windows.drop_first();
        if i > 0 {
            lemma_with_event_carries_on(rest, event, i - 1);
            assert(rest[i - 1] == windows[i]);
        } else if rest.len() > 0 {
            lemma_with_event_carries_on(rest, event, 0);
        }
    }
}

pub proof fn lemma_resume_is_monotone(a: UtcTime, b: UtcTime)
    requires
        a.valid(),
        b.valid(),
        a.rank() <= b.rank(),
    ensures
        resume_secs(a) <= resume_secs(b),
{
}

/// Whatever the feed says, a window whose protection has not run out is kept: its end can
/// only move later, and a handover once attempted stays attempted.
pub proof fn law_accepted_windows_outlive_the_feed(
    windows: Seq<Window>,
    event: Option<AxleEvent>,
    now: UtcTime,
    i: int,
)
    requires
        0 <= i < windows.len(),
        now.rank() < windows[i].closes(),
    ensures
        exists|j: int|
            0 <= j < observed(windows, event, now).len() && carries_on(
                #[trigger] observed(windows, event, now)[j],
                windows[i],
            ),
{
    let live = |w: Window| now.rank() < w.closes();
    let kept = windows.filter(live);
    assert(live(windows[i]));
    windows.lemma_filter_contains(live, i);
    let k = choose|k: int| 0 <= k < kept.len() && kept[k] == windows[i];
    match event {
        Some(e) => {
            if is_current(e, now) {
                lemma_with_event_carries_on(kept, e, k);
                assert(carries_on(observed(windows, event, now)[k], windows[i]));
            } else {
                assert(carries_on(observed(windows, event, now)[k], windows[i]));
            }
        },
        None => {
            assert(carries_on(observed(windows, event, now)[k], windows[i]));
        },
    }
}

/// Looking at the feed never lifts the protection of the instant, whatever the feed says.
pub proof fn law_observing_never_lifts_protection(
    windows: Seq<Window>,
    event: Option<AxleEvent>,
    now: UtcTime,
)
    requires
        forall|i: int| 0 <= i < windows.len() ==> (#[trigger] windows[i]).wf(),
        event matches Some(e) ==> e.start_time.valid() && e.end_time.valid(),
        is_protected(windows, now),
    ensures
        is_protected(observed(windows, event, now), now),
{
    let i = choose|i: int| 0 <= i < windows.len() && (#[trigger] windows[i]).covers(now);
    law_accepted_windows_outlive_the_feed(windows, event, now, i);
    let after = observed(windows, event, now);
    let j = choose|j: int| 0 <= j < after.len() && carries_on(#[trigger] after[j], windows[i]);
    lemma_observed_instants_are_valid(windows, event, now, j);
    lemma_resume_is_monotone(windows[i].end, after[j].end);
    assert(after[j].covers(now));
}

proof fn lemma_observed_instants_are_valid(
    windows: Seq<Window>,
    event: Option<AxleEvent>,
    now: UtcTime,
    j: int,
)
    requires
        forall|i: int| 0 <= i < windows.len() ==> (#[trigger] windows[i]).wf(),
        event matches Some(e) ==> e.start_time.valid() && e.end_time.valid(),
        0 <= j < observed(windows, event, now).len(),
    ensures
        observed(windows, event, now)[j].end.valid(),
{
    let live = |w: Window| now.rank() < w.closes();
    let kept = windows.filter(live);
    assert forall|k: int| 0 <= k < kept.len() implies (#[trigger] kept[k]).end.valid() by {
        windows.lemma_filter_contains_rev(live, kept[k]);
        let i = choose|i: int| 0 <= i < windows.len() && windows[i] == kept[k];
        assert(windows[i].wf());
    }
    if event is Some && is_current(event->0, now) {
        lemma_with_event_instants_are_valid(kept, event->0, j);
    }
}

pub proof fn lemma_with_event_instants_are_valid(windows: Seq<Window>, event: AxleEvent, j: int)
    requires
        forall|i: int| 0 <= i < windows.len() ==> (#[trigger] windows[i]).end.valid(),
        event.end_time.valid(),
        0 <= j < with_event(windows, event).len(),
    ensures
        with_event(windows, event)[j].end.valid(),
    decreases windows.len(),
{
    if windows.len() > 0 {
        let rest = windows.drop_first();
        assert(windows[0].end.valid());
        assert forall|i: int| 0 <= i < rest.len() implies (#[trigger] rest[i]).end.valid() by {
            assert(windows[i + 1].end.valid());
        }
        if windows[0].start == event.start_time {
            if j > 0 {
                assert(rest[j - 1].end.valid());
            }
        } else if j > 0 {
            lemma_with_event_instants_are_valid(rest, event, j - 1);
        }
    }
}

proof fn lemma_with_event_takes_it_in(windows: Seq<Window>, event: AxleEvent) -> (j: int)
    ensures
        0 <= j < with_event(windows, event).len(),
        with_event(windows, event)[j].start == event.start_time,
        event.end_time.rank() <= with_event(windows, event)[j].end.rank(),
    decreases windows.len(),
{
    if windows.len() == 0 || windows[0].start == event.start_time {
        0
    } else {
        1 + lemma_with_event_takes_it_in(windows.drop_first(), event)
    }
}

/// An event that the feed announces is protected as soon as it is seen: from the boundary
/// before its start until the boundary after its buffered end, and nothing may be written
/// once it has started.
pub proof fn law_announced_events_are_protected(
    windows: Seq<Window>,
    event: AxleEvent,
    now: UtcTime,
    at: UtcTime,
)
    requires
        forall|i: int| 0 <= i < windows.len() ==> (#[trigger] windows[i]).wf(),
        event.start_time.valid(),
        event.end_time.valid(),
        is_current(event, now),
        second_rank(handover_secs(event.start_time)) <= at.rank() < second_rank(
            resume_secs(event.end_time),
        ),
    ensures
        is_protected(observed(windows, Some(event), now), at),
        event.start_time.rank() <= at.rank() ==> permission(
            observed(windows, Some(event), now),
            at,
        ) == Some(false),
{
    let kept = windows.filter(|w: Window| now.rank() < w.closes());
    let after = observed(windows, Some(event), now);
    let j = lemma_with_event_takes_it_in(kept, event);
    lemma_observed_instants_are_valid(windows, Some(event), now, j);
    lemma_resume_is_monotone(event.end_time, after[j].end);
    assert(after[j].covers(at));
    if event.start_time.rank() <= at.rank() {
        assert(after[j].is_silent(at));
    }
}

/// Windows that were taken up or accepted are never refused after a restart.
pub proof fn law_windows_survive_a_restart(handover: AxleHandover)
    requires
        handover.wf(),
    ensures
        forall|i: int|
            0 <= i < handover.windows@.len() ==> (
            #[trigger] handover.windows@[i]).start.rank() < handover.windows@[i].end.rank()
                && is_guardable(handover.windows@[i].start, handover.windows@[i].end),
{
    assert forall|i: int| 0 <= i < handover.windows@.len() implies (
    #[trigger] handover.windows@[i]).start.rank() < handover.windows@[i].end.rank()
        && is_guardable(handover.windows@[i].start, handover.windows@[i].end) by {
        assert(handover.windows@[i].wf());
    }
}

/// A handover is never repeated: once one has been claimed at an instant, any window that
/// covered it forbids writes for as long as it lasts.
pub proof fn law_handover_is_never_repeated(
    windows: Seq<Window>,
    i: int,
    first: UtcTime,
    again: UtcTime,
)
    requires
        0 <= i < windows.len(),
        windows[i].covers(first),
        windows[i].covers(again),
    ensures
        permission(claimed(windows, first), again) == Some(false),
{
    let after = claimed(windows, first);
    assert(after[i].covers(again));
    assert(after[i].is_silent(again));
}

/// A handover is never repeated whatever the feed says afterwards: the window is kept with
/// its attempt, and forbids writes for as long as its protection lasts.
pub proof fn law_handover_is_never_repeated_after_another_look(
    windows: Seq<Window>,
    i: int,
    first: UtcTime,
    event: Option<AxleEvent>,
    again: UtcTime,
)
    requires
        forall|k: int| 0 <= k < windows.len() ==> (#[trigger] windows[k]).wf(),
        event matches Some(e) ==> e.start_time.valid() && e.end_time.valid(),
        0 <= i < windows.len(),
        windows[i].covers(first),
        windows[i].covers(again),
    ensures
        permission(observed(claimed(windows, first), event, again), again) == Some(false),
{
    let attempted = claimed(windows, first);
    assert forall|k: int| 0 <= k < attempted.len() implies (#[trigger] attempted[k]).wf() by {
        assert(windows[k].wf());
    }
    law_accepted_windows_outlive_the_feed(attempted, event, again, i);
    let after = observed(attempted, event, again);
    let j = choose|j: int| 0 <= j < after.len() && carries_on(#[trigger] after[j], attempted[i]);
    lemma_observed_instants_are_valid(attempted, event, again, j);
    lemma_resume_is_monotone(attempted[i].end, after[j].end);
    law_attempted_windows_forbid_writes(after, j, again);
}

/// An attempted handover is never repeated, not even by an overlapping second event: a
/// window that covers the instant and has had its handover forbids every write.
pub proof fn law_attempted_windows_forbid_writes(windows: Seq<Window>, i: int, now: UtcTime)
    requires
        0 <= i < windows.len(),
        windows[i].covers(now),
        windows[i].passive_attempted,
    ensures
        permission(windows, now) == Some(false),
{
    assert(windows[i].is_silent(now));
}

/// During an event and its grace period nothing may be written, even where the preparation
/// of a second event overlaps it.
pub proof fn law_events_and_grace_periods_forbid_writes(
    windows: Seq<Window>,
    i: int,
    now: UtcTime,
)
    requires
        0 <= i < windows.len(),
        windows[i].wf(),
        windows[i].start.rank() <= now.rank() < windows[i].closes(),
    ensures
        permission(windows, now) == Some(false),
{
    crate::dispatch::time::law_handover_is_the_last_boundary_before_the_start(windows[i].start);
    assert(windows[i].covers(now));
    assert(windows[i].is_silent(now));
}

/// A handover falls in the minute that begins with the half-hour boundary before the event,
/// and before the event starts.
pub proof fn law_handover_falls_in_its_minute(windows: Seq<Window>, i: int, now: UtcTime)
    requires
        permission(windows, now) == Some(true),
        0 <= i < windows.len(),
        windows[i].covers(now),
    ensures
        windows[i].opens() <= now.rank() < second_rank(handover_secs(windows[i].start) + 60),
        now.rank() < windows[i].start.rank(),
        !windows[i].passive_attempted,
{
    assert(!windows[i].is_silent(now));
}

} // verus!
