//! The dispatch provider: what the feed, the clock and the readings make of control.
//!
//! The service decides and the host acts. Where a decision has to outlive a crash, the
//! service says what is to be saved and gives the decision only for the outcome of that.
use crate::axle::AxleError;
use crate::binary64::Binary64;
use crate::config::AxleConfig;
use crate::dispatch::config::ProviderConfig;
use crate::dispatch::handover::{
    are_guardable, claimed, is_guardable, is_next_handover, is_protected, observed, permission,
    AxleHandover, Window,
};
use crate::dispatch::rewards::{
    accounted, are_claims, configured_reward, confirmed, dated, direction_text, direction_word,
    is_entered, previous_after, reward_for, rows, AxleRewardTracker, Claim,
};
use crate::dispatch::self_dispatch::{
    has_lease, is_decided, lease_rank, AxleSelfDispatch, Lease, State,
};
use crate::dispatch::time::second_rank;
use crate::dispatch::{Action, BatteryLimits, Reading};
use crate::events::{same_event, AxleEvent, AxleForecast};
use crate::text::{decimal, decimal_text};
use crate::utc::{elapsed_millis, UtcTime, MAX_SECS};
use crate::zone::has_local_date;
use vstd::prelude::*;

verus! {

/// What a report says of the event that is known.
#[derive(Debug, PartialEq)]
pub struct EventInfo {
    pub id: Option<String>,
    pub provider: String,
    pub direction: String,
    pub start: UtcTime,
    pub end: UtcTime,
}

impl Clone for EventInfo {
    fn clone(&self) -> (r: EventInfo)
        ensures
            r == *self,
    {
        EventInfo {
            id: self.id.clone(),
            provider: self.provider.clone(),
            direction: self.direction.clone(),
            start: self.start,
            end: self.end,
        }
    }
}

/// What a look at the feed changed.
#[derive(Debug, Clone, Copy, PartialEq, Eq, Structural)]
pub struct Update {
    pub changed: bool,
    pub replan: bool,
}

impl Default for Update {
    fn default() -> (r: Update)
        ensures
            !r.changed,
            !r.replan,
    {
        Update { changed: false, replan: false }
    }
}

/// Who controls the inverter, and how.
#[allow(inconsistent_fields)]
#[derive(Debug, Clone, Copy, PartialEq)]
pub enum Control {
    /// The feed has not yet established whether another party owns control.
    Unavailable,
    /// Suppress hardware writes except for the single permitted passive handover.
    External { release: bool, until: UtcTime },
    /// A provider request; the host still applies the action and reports write outcomes.
    Override {
        action: Action,
        retry_due: bool,
        retry_allowed: bool,
        next_refresh: UtcTime,
        retry_at: UtcTime,
    },
    /// Ordinary tariff control is permitted until the optional deadline.
    Tariff { until: Option<UtcTime>, replan: bool },
}

/// What has to be saved before a step goes on.
#[derive(Debug, Clone, Copy, PartialEq, Eq, Structural)]
pub enum StateFile {
    Handover,
    SelfDispatch,
}

/// A look at the feed, up to the point where the state of local dispatch is saved.
#[derive(Debug, Clone, Copy, PartialEq, Eq)]
pub struct Polling {
    pub now: UtcTime,
    /// The event that was known before.
    pub previous: Option<AxleEvent>,
    /// Whether ownership was established before.
    pub was_ready: bool,
    /// What the feed said, unless it failed.
    pub answer: Option<Option<AxleEvent>>,
    /// The state of local dispatch has to be saved.
    pub save_local: bool,
}

/// A look at the feed, up to the point where the protection windows are saved.
#[derive(Debug, Clone, Copy, PartialEq, Eq)]
pub struct Polled {
    pub update: Update,
    /// The protection windows have to be saved.
    pub save_handover: bool,
}

impl Polled {
    /// The update, once the outcome of the save is known.
    pub fn settle(self, saved: Result<(), String>) -> (r: Result<Update, String>)
        ensures
            self.save_handover && saved is Err ==> r == Err::<Update, String>(saved->Err_0),
            !self.save_handover || saved is Ok ==> r == Ok::<Update, String>(self.update),
    {
        if self.save_handover {
            match saved {
                Ok(()) => Ok(self.update),
                Err(error) => Err(error),
            }
        } else {
            Ok(self.update)
        }
    }
}

/// Who controls the inverter, before anything has been saved.
#[allow(inconsistent_fields)]
#[derive(Debug, Clone, Copy, PartialEq)]
pub enum Ruling {
    Unavailable,
    External { release: bool, until: UtcTime },
    Override { action: Action },
    Tariff { until: Option<UtcTime>, replan: bool },
}

/// A ruling, and what has to be saved before it holds.
#[derive(Debug, Clone, Copy, PartialEq)]
pub struct Controlling {
    pub save: Option<StateFile>,
    pub ruling: Ruling,
}

/// The provider of Axle events.
pub struct DispatchService {
    pub cfg: AxleConfig,
    pub last: Option<AxleEvent>,
    pub ready: bool,
    pub handover: AxleHandover,
    pub local: Option<AxleSelfDispatch>,
    pub rewards: Option<AxleRewardTracker>,
}

/// The event that is known after a look at the feed. A feed that failed does not call an
/// event off; only its end does.
pub open spec fn last_after(
    last: Option<AxleEvent>,
    local: Option<AxleSelfDispatch>,
    answer: Option<Option<AxleEvent>>,
    now: UtcTime,
) -> Option<AxleEvent> {
    match answer {
        Some(event) => event,
        None => {
            let kept = match local {
                Some(dispatch) => dispatch.state.event,
                None => last,
            };
            if kept is Some && kept->0.end_time.rank() <= now.rank() {
                None
            } else {
                kept
            }
        },
    }
}

/// Where events are not dispatched here, the calendar has all boundaries around the
/// announcement.
pub open spec fn is_bounded(service: DispatchService, event: Option<AxleEvent>) -> bool {
    event matches Some(e) ==> service.local is None ==> is_guardable(e.start_time, e.end_time)
}

/// Where rewards are counted, the announcement is in the ledger already or has a local date.
pub open spec fn is_datable(service: DispatchService, event: Option<AxleEvent>) -> bool {
    event matches Some(e) ==> service.rewards matches Some(rewards) ==> is_entered(
        rows(rewards.events@),
        e,
    ) || has_local_date(e.start_time)
}

/// The service that settings and saved states make, or why there is none. The state of local
/// dispatch counts only where events are dispatched here.
pub open spec fn is_started(
    cfg: ProviderConfig,
    windows: Result<Vec<Window>, String>,
    state: Result<State, String>,
    rewards: Option<AxleRewardTracker>,
    r: Result<DispatchService, String>,
) -> bool {
    &&& match r {
        Ok(service) => {
            &&& cfg.is_local() || are_guardable(service.handover.windows@) ==> service.wf()
            &&& cfg.axle.is_usable()
            &&& service.cfg == cfg.axle
            &&& service.last is None
            &&& service.ready == (!cfg.axle.enabled || cfg.is_local())
            &&& windows is Ok && service.handover.windows@ == windows->Ok_0@
            &&& service.local is Some == cfg.is_local()
            &&& cfg.is_local() ==> state is Ok && service.local == Some(
                AxleSelfDispatch {
                    state: state->Ok_0,
                    last_attempt: None,
                    verified_flow: false,
                    write_failed: false,
                },
            )
            &&& service.rewards == rewards
        },
        Err(message) => if !cfg.axle.is_usable() {
            message@ == cfg.axle.complaint()
        } else if windows is Err {
            message == windows->Err_0
        } else if exists|i: int|
            0 <= i < windows->Ok_0@.len() && (#[trigger] windows->Ok_0@[i]).end.rank()
                <= windows->Ok_0@[i].start.rank() {
            message@ == "invalid saved Axle protection window"@
        } else if state is Err {
            cfg.is_local() && message == state->Err_0
        } else {
            cfg.is_local() && !state->Ok_0.is_sound() && message@
                == "invalid saved Axle self-dispatch event"@
        },
    }
    &&& r is Ok <==> {
        &&& cfg.axle.is_usable()
        &&& windows is Ok
        &&& forall|i: int|
            0 <= i < windows->Ok_0@.len() ==> (#[trigger] windows->Ok_0@[i]).start.rank()
                < windows->Ok_0@[i].end.rank()
        &&& cfg.is_local() ==> state is Ok && state->Ok_0.is_sound()
    }
}

/// What a reply of the feed makes of the service before anything has been saved.
pub open spec fn is_asked(
    before: DispatchService,
    after: DispatchService,
    reply: Result<Option<AxleEvent>, AxleError>,
    now: UtcTime,
    r: Polling,
) -> bool {
    &&& after.cfg == before.cfg
    &&& after.last == before.last
    &&& after.ready == before.ready
    &&& after.handover == before.handover
    &&& r.now == now
    &&& r.previous == before.last
    &&& r.was_ready == before.ready
    &&& match reply {
        Ok(event) => {
            &&& r.answer == Some(event)
            &&& r.save_local == (before.local matches Some(local) && local.state.is_saved_after(
                event,
                now,
            ))
            &&& after.local == match before.local {
                Some(local) => Some(local.answered(event, now)),
                None => None,
            }
            &&& after.rewards is Some == before.rewards is Some
            &&& before.rewards is Some ==> {
                let earlier = before.rewards->0;
                let later = after.rewards->0;
                &&& rows(later.events@) == confirmed(
                    rows(earlier.events@),
                    dated(event, earlier.zone.name()),
                    now,
                    before.cfg,
                )
                &&& later.dirty == (earlier.dirty || rows(later.events@) != rows(earlier.events@))
                &&& later.zone == earlier.zone
                &&& later.max_gap_millis == earlier.max_gap_millis
                &&& later.previous == earlier.previous
            }
        },
        Err(_) => {
            &&& r.answer is None
            &&& !r.save_local
            &&& after.local == before.local
            &&& after.rewards == before.rewards
        },
    }
}

/// What a look at the feed makes of the service once the outcome of saving is known.
pub open spec fn is_polled(
    before: DispatchService,
    after: DispatchService,
    polling: Polling,
    saved: Result<(), String>,
    r: Result<Polled, String>,
) -> bool {
    &&& after.cfg == before.cfg
    &&& after.local == before.local
    &&& after.rewards == before.rewards
    &&& polling.save_local && saved is Err ==> {
        &&& r == Err::<Polled, String>(saved->Err_0)
        &&& after == before
    }
    &&& !polling.save_local || saved is Ok ==> {
        let last = last_after(before.last, before.local, polling.answer, polling.now);
        &&& r is Ok
        &&& after.last == last
        &&& after.ready == (before.ready || polling.answer is Some)
        &&& after.handover.windows@ == if before.local is None {
            observed(before.handover.windows@, last, polling.now)
        } else {
            before.handover.windows@
        }
        &&& r->Ok_0.save_handover == (after.handover.windows@ != before.handover.windows@)
        &&& r->Ok_0.update.changed == (last != polling.previous)
        &&& r->Ok_0.update.replan == (last != polling.previous && before.local is Some
            || !polling.was_ready && after.ready)
    }
}

/// The ruling on who controls the inverter, and what it makes of the service.
pub open spec fn is_ruled(
    before: DispatchService,
    after: DispatchService,
    limits: BatteryLimits,
    now: UtcTime,
    reading: Option<Reading>,
    energy_kw: Binary64,
    r: Result<Controlling, String>,
) -> bool {
    &&& after.cfg == before.cfg
    &&& after.last == before.last
    &&& after.ready == before.ready
    &&& after.rewards == before.rewards
    &&& after.local is Some == before.local is Some
    &&& if !before.ready {
        &&& r matches Ok(step) && step.ruling == Ruling::Unavailable && step.save is None
        &&& after == before
    } else if before.local is None && is_protected(before.handover.windows@, now) {
        &&& after.handover.windows@ == claimed(before.handover.windows@, now)
        &&& after.local == before.local
        &&& r matches Ok(step) && {
            &&& step.ruling matches Ruling::External { release, until } && {
                &&& Some(release) == permission(before.handover.windows@, now)
                &&& until.valid()
                &&& until.secs() == now.floor_secs(1800) + 1800
                &&& until.nanos() == 0
            }
            &&& step.save == if after.handover.windows@ != before.handover.windows@ {
                Some(StateFile::Handover)
            } else {
                None
            }
        }
    } else if !limits.is_valid() {
        &&& r matches Err(message) && message@ == "invalid dispatch battery limits"@
        &&& after.local == before.local
        &&& after.handover.windows@ == before.handover.windows@
    } else if before.is_dispatching(now) {
        let local = before.local->0;
        &&& after.handover.windows@ == before.handover.windows@
        &&& after.local == Some(
            AxleSelfDispatch { state: local.state.after_decision(limits, now, reading), ..local },
        )
        &&& r matches Ok(step) && {
            &&& step.ruling matches Ruling::Override { action } && is_decided(
                action,
                local.state,
                limits,
                now,
                reading,
                energy_kw,
            )
            &&& step.save == if after.local != before.local {
                Some(StateFile::SelfDispatch)
            } else {
                None
            }
        }
    } else {
        let due = before.local is Some && before.local->0.state.owned;
        &&& after.handover.windows@ == before.handover.windows@
        &&& after.local == match before.local {
            Some(local) => Some(
                AxleSelfDispatch { state: State { owned: false, ..local.state }, ..local },
            ),
            None => None,
        }
        &&& r matches Ok(step) && {
            &&& step.ruling matches Ruling::Tariff { until, replan } && replan == due
                && before.is_tariff(now, until)
            &&& step.save == if due {
                Some(StateFile::SelfDispatch)
            } else {
                None
            }
        }
    }
}

/// Who controls the inverter once the outcome of saving is known.
pub open spec fn is_controlled(
    before: DispatchService,
    after: DispatchService,
    step: Controlling,
    now: UtcTime,
    reading: Option<Reading>,
    saved: Result<(), String>,
    r: Result<Control, String>,
) -> bool {
    &&& after.cfg == before.cfg
    &&& after.last == before.last
    &&& after.ready == before.ready
    &&& after.handover == before.handover
    &&& after.rewards == before.rewards
    &&& step.save is Some && saved is Err ==> {
        &&& r == Err::<Control, String>(saved->Err_0)
        &&& after.local == before.local
    }
    &&& step.save is None || saved is Ok ==> match step.ruling {
        Ruling::Unavailable => {
            &&& r == Ok::<Control, String>(Control::Unavailable)
            &&& after.local == before.local
        },
        Ruling::External { release, until } => {
            &&& r == Ok::<Control, String>(Control::External { release, until })
            &&& after.local == before.local
        },
        Ruling::Tariff { until, replan } => {
            &&& r == Ok::<Control, String>(Control::Tariff { until, replan })
            &&& after.local == before.local
        },
        Ruling::Override { action } => {
            let local = before.local->0;
            &&& after.local == Some(local.watched(now, reading))
            &&& r matches Ok(control) && control matches Control::Override {
                action: given,
                retry_due,
                retry_allowed,
                next_refresh,
                retry_at,
            } && {
                &&& given == action
                &&& retry_due == local.is_retry_due(now, reading)
                &&& retry_allowed == local.may_write(now)
                &&& next_refresh.rank() == refresh_rank(action.end, now)
                &&& retry_at.valid()
                &&& retry_at.secs() == now.secs() + 30
                &&& retry_at.nanos() == now.nanos() % 1_000_000_000
            }
        },
    }
}

/// The forecast of the event that is known, with the configured reward of its direction.
pub open spec fn forecasts_of(last: Option<AxleEvent>, cfg: AxleConfig) -> Seq<AxleForecast> {
    match last {
        Some(event) => seq![
            AxleForecast {
                event,
                reward_p_per_kwh: configured_reward(cfg, event.direction),
                self_dispatch: cfg.self_dispatch,
            },
        ],
        None => Seq::empty(),
    }
}

/// What a report says of the event that is known.
pub open spec fn is_described(last: Option<AxleEvent>, r: Option<EventInfo>) -> bool {
    &&& r is Some == last is Some
    &&& r matches Some(info) ==> {
        let event = last->0;
        &&& info.id matches Some(id) && id@ == "axle-"@ + decimal(event.start_time.secs())
        &&& info.provider@ == "axle"@
        &&& info.direction@ == direction_word(event.direction)
        &&& info.start == event.start_time
        &&& info.end == event.end_time
    }
}

/// The next instant at which the event that is known starts or ends.
pub open spec fn is_next_boundary(
    last: Option<AxleEvent>,
    now: UtcTime,
    r: Option<UtcTime>,
) -> bool {
    match (last, r) {
        (None, at) => at is None,
        (Some(event), None) => event.start_time.rank() <= now.rank() && event.end_time.rank()
            <= now.rank(),
        (Some(event), Some(at)) => {
            &&& at == event.start_time || at == event.end_time
            &&& now.rank() < at.rank()
            &&& now.rank() < event.start_time.rank() ==> at.rank() <= event.start_time.rank()
            &&& now.rank() < event.end_time.rank() ==> at.rank() <= event.end_time.rank()
        },
    }
}

/// An attempt is noted where events are dispatched here and one is under way.
pub open spec fn is_attempted(
    before: DispatchService,
    after: DispatchService,
    now: UtcTime,
    failed: bool,
    owned: bool,
) -> bool {
    &&& owned == before.is_dispatching(now)
    &&& after == if owned {
        DispatchService {
            local: Some(
                AxleSelfDispatch {
                    last_attempt: Some(now),
                    write_failed: failed,
                    ..before.local->0
                },
            ),
            ..before
        }
    } else {
        before
    }
}

/// What a reading makes of the rewards, and nothing else of the service.
pub open spec fn is_observed(
    before: DispatchService,
    after: DispatchService,
    now: UtcTime,
    reading: Option<Reading>,
    claims: Seq<Claim>,
) -> bool {
    &&& after.cfg == before.cfg
    &&& after.last == before.last
    &&& after.ready == before.ready
    &&& after.handover == before.handover
    &&& after.local == before.local
    &&& before.rewards is None ==> claims.len() == 0 && after.rewards is None
    &&& before.rewards is Some ==> after.rewards is Some && {
        let earlier = before.rewards->0;
        let later = after.rewards->0;
        &&& later.zone == earlier.zone
        &&& later.max_gap_millis == earlier.max_gap_millis
        &&& later.dirty == (earlier.dirty || claims.len() > 0)
        &&& later.previous == previous_after(earlier.previous, now, reading)
        &&& earlier.counts(now, reading) ==> {
            let previous = earlier.previous->0;
            let next = (reading->0.at, reading->0.grid_kw);
            &&& are_claims(claims, rows(earlier.events@), previous, next)
            &&& rows(later.events@) == accounted(rows(earlier.events@), previous.0, next.0)
        }
        &&& !earlier.counts(now, reading) ==> claims.len() == 0 && later.events == earlier.events
    }
}

impl DispatchService {
    /// Where events are not dispatched here, the calendar has all boundaries around the
    /// windows and the event that is known. Local dispatch looks at no boundary.
    pub open spec fn wf(&self) -> bool {
        self.local is None ==> {
            &&& self.handover.wf()
            &&& self.last matches Some(event) ==> is_guardable(event.start_time, event.end_time)
        }
    }

    /// Start with the settings and what was saved: the protection windows, the state of
    /// local dispatch, which counts only where events are dispatched here, and the ledger,
    /// without which rewards are not counted.
    pub fn new(
        cfg: &ProviderConfig,
        windows: Result<Vec<Window>, String>,
        state: Result<State, String>,
        rewards: Option<AxleRewardTracker>,
    ) -> (r: Result<DispatchService, String>)
        ensures
            is_started(*cfg, windows, state, rewards, r),
    {
        match cfg.validate() {
            Ok(()) => {},
            Err(message) => {
                return Err(message);
            },
        }
        let windows = match windows {
            Ok(windows) => windows,
            Err(message) => {
                return Err(message);
            },
        };
        let handover = match AxleHandover::load(windows) {
            Ok(handover) => handover,
            Err(message) => {
                return Err(message);
            },
        };
        let local = if cfg.self_dispatch() {
            let state = match state {
                Ok(state) => state,
                Err(message) => {
                    return Err(message);
                },
            };
            match AxleSelfDispatch::load(state) {
                Ok(local) => Some(local),
                Err(message) => {
                    return Err(message);
                },
            }
        } else {
            None
        };
        let ready = !cfg.axle.enabled || local.is_some();
        Ok(DispatchService { cfg: cfg.axle.clone(), last: None, ready, handover, local, rewards })
    }

    /// Take in what the feed said. Rewards and local dispatch learn of it; both may have to
    /// be saved before the look goes on with `poll_saved`.
    pub fn poll(&mut self, reply: Result<Option<AxleEvent>, AxleError>, now: UtcTime) -> (r:
        Polling)
        requires
            old(self).wf(),
            reply matches Ok(event) ==> is_datable(*old(self), event),
        ensures
            final(self).wf(),
            is_asked(*old(self), *final(self), reply, now, r),
    {
        let previous = self.last;
        let was_ready = self.ready;
        match reply {
            Ok(event) => {
                if let Some(rewards) = &mut self.rewards {
                    rewards.confirm(event, now, &self.cfg);
                }
                let mut save_local = false;
                if let Some(local) = &mut self.local {
                    save_local = local.observe(event, now);
                }
                Polling { now, previous, was_ready, answer: Some(event), save_local }
            },
            Err(_) => Polling { now, previous, was_ready, answer: None, save_local: false },
        }
    }

    /// Go on once the state of local dispatch has been saved where that was due. A failed
    /// save ends the look: neither the event nor the ownership counts as established.
    pub fn poll_saved(&mut self, polling: Polling, saved: Result<(), String>) -> (r: Result<
        Polled,
        String,
    >)
        requires
            old(self).wf(),
            polling.answer matches Some(event) ==> is_bounded(*old(self), event),
        ensures
            final(self).wf(),
            is_polled(*old(self), *final(self), polling, saved, r),
    {
        if polling.save_local {
            match saved {
                Ok(()) => {},
                Err(error) => {
                    return Err(error);
                },
            }
        }
        match polling.answer {
            Some(event) => {
                self.last = event;
                self.ready = true;
            },
            None => {
                if let Some(local) = &self.local {
                    self.last = local.event();
                }
                if let Some(event) = self.last {
                    if !polling.now.before(event.end_time) {
                        self.last = None;
                    }
                }
            },
        }
        let mut save_handover = false;
        if self.local.is_none() {
            save_handover = self.handover.observe(self.last, polling.now);
        }
        let changed = !same_event(self.last, polling.previous);
        let replan = changed && self.local.is_some() || !polling.was_ready && self.ready;
        Ok(Polled { update: Update { changed, replan }, save_handover })
    }

    /// Events are dispatched here and one is under way.
    pub open spec fn is_dispatching(&self, now: UtcTime) -> bool {
        self.local matches Some(local) && local.state.is_active(now)
    }

    /// Control by the tariff, and until when.
    pub open spec fn is_tariff(&self, now: UtcTime, until: Option<UtcTime>) -> bool {
        if self.local is Some {
            until == match self.last {
                Some(event) => if now.rank() < event.start_time.rank() {
                    Some(event.start_time)
                } else {
                    None
                },
                None => None,
            }
        } else {
            is_next_handover(self.handover.windows@, now, until)
        }
    }

    /// The lease for which the host works out the power that the stored energy, or the room
    /// for it, allows.
    pub fn lease(&self, now: UtcTime) -> (r: Option<Lease>)
        requires
            self.is_dispatching(now) ==> has_lease(now),
        ensures
            r is Some <==> self.is_dispatching(now),
            r matches Some(lease) ==> {
                let event = self.local->0.state.event->0;
                &&& lease.direction == event.direction
                &&& lease.end.valid()
                &&& lease.end.rank() == lease_rank(event, now)
                &&& lease.millis == elapsed_millis(now, lease.end)
            },
    {
        match &self.local {
            Some(local) => local.lease(now),
            None => None,
        }
    }

    /// Decide who controls the inverter. `energy_kw` is the power that would just use up,
    /// over the lease, the energy above the floor or the room below the ceiling. What the
    /// ruling changes may have to be saved before it holds: see `control_saved`.
    pub fn control(
        &mut self,
        limits: &BatteryLimits,
        now: UtcTime,
        reading: Option<Reading>,
        energy_kw: Binary64,
    ) -> (r: Result<Controlling, String>)
        requires
            old(self).wf(),
            old(self).ready && limits.is_valid() && old(self).is_dispatching(now) ==> has_lease(
                now,
            ),
        ensures
            final(self).wf(),
            is_ruled(*old(self), *final(self), *limits, now, reading, energy_kw, r),
    {
        if !self.ready {
            return Ok(Controlling { save: None, ruling: Ruling::Unavailable });
        }
        if self.local.is_none() {
            let prepared = self.handover.prepare(now);
            if let Some(release) = prepared.permission {
                proof {
                    use_type_invariant(&now);
                    lemma_protection_ends_on_a_boundary(old(self).handover.windows@, now);
                }
                let save = if prepared.save {
                    Some(StateFile::Handover)
                } else {
                    None
                };
                return Ok(
                    Controlling {
                        save,
                        ruling: Ruling::External { release, until: now.next_half_hour() },
                    },
                );
            }
            assert(self.handover.windows@ =~= old(self).handover.windows@);
        }
        if !limits.valid() {
            return Err("invalid dispatch battery limits".to_owned());
        }
        let mut replan = false;
        let mut save: Option<StateFile> = None;
        if let Some(local) = &mut self.local {
            replan = local.finish_if_due(now);
            let decision = local.decision(limits, now, reading, energy_kw);
            if replan || decision.save {
                save = Some(StateFile::SelfDispatch);
            }
            if let Some(action) = decision.action {
                return Ok(Controlling { save, ruling: Ruling::Override { action } });
            }
        }
        let until = if self.local.is_some() {
            match self.last {
                Some(event) => if now.before(event.start_time) {
                    Some(event.start_time)
                } else {
                    None
                },
                None => None,
            }
        } else {
            self.handover.next_handover(now)
        };
        Ok(Controlling { save, ruling: Ruling::Tariff { until, replan } })
    }

    /// Who controls the inverter, once what the ruling changed has been saved where that was
    /// due. A failed save leaves control blocked.
    pub fn control_saved(
        &mut self,
        step: Controlling,
        now: UtcTime,
        reading: Option<Reading>,
        saved: Result<(), String>,
    ) -> (r: Result<Control, String>)
        requires
            old(self).wf(),
            step.ruling is Override ==> old(self).local is Some && has_lease(now),
        ensures
            final(self).wf(),
            is_controlled(*old(self), *final(self), step, now, reading, saved, r),
    {
        if step.save.is_some() {
            match saved {
                Ok(()) => {},
                Err(error) => {
                    return Err(error);
                },
            }
        }
        match step.ruling {
            Ruling::Unavailable => Ok(Control::Unavailable),
            Ruling::External { release, until } => Ok(Control::External { release, until }),
            Ruling::Tariff { until, replan } => Ok(Control::Tariff { until, replan }),
            Ruling::Override { action } => {
                let mut retry_due = false;
                let mut retry_allowed = false;
                if let Some(local) = &mut self.local {
                    retry_due = local.retry_due(now, reading);
                    retry_allowed = local.retry_write_allowed(now);
                }
                let next_refresh = action.end.earlier(now.minute_after(1));
                let retry_at = now.plus_seconds(30).unwrap();
                Ok(
                    Control::Override { action, retry_due, retry_allowed, next_refresh, retry_at },
                )
            },
        }
    }

    /// Event windows and configured reward assumptions, separate from supplier tariffs.
    pub fn forecasts(&self) -> (r: Vec<AxleForecast>)
        ensures
            r@ == forecasts_of(self.last, self.cfg),
    {
        let mut forecasts: Vec<AxleForecast> = Vec::new();
        if let Some(event) = self.last {
            forecasts.push(
                AxleForecast {
                    event,
                    reward_p_per_kwh: reward_for(&self.cfg, event.direction),
                    self_dispatch: self.cfg.self_dispatch,
                },
            );
        }
        assert(forecasts@ =~= forecasts_of(self.last, self.cfg));
        forecasts
    }

    /// Provider metadata of the event that is known, for reports.
    pub fn active_event(&self) -> (r: Option<EventInfo>)
        ensures
            is_described(self.last, r),
    {
        match self.last {
            Some(event) => Some(
                EventInfo {
                    id: Some(
                        "axle-".to_owned().concat(
                            decimal_text(event.start_time.timestamp()).as_str(),
                        ),
                    ),
                    provider: "axle".to_owned(),
                    direction: direction_text(event.direction).to_owned(),
                    start: event.start_time,
                    end: event.end_time,
                },
            ),
            None => None,
        }
    }

    /// The next instant at which the event that is known starts or ends.
    pub fn next_boundary(&self, now: UtcTime) -> (r: Option<UtcTime>)
        ensures
            is_next_boundary(self.last, now, r),
    {
        match self.last {
            Some(event) => {
                let starts = now.before(event.start_time);
                let ends = now.before(event.end_time);
                if starts && ends {
                    Some(event.start_time.earlier(event.end_time))
                } else if starts {
                    Some(event.start_time)
                } else if ends {
                    Some(event.end_time)
                } else {
                    None
                }
            },
            None => None,
        }
    }

    /// Note an attempt at a command. True means the provider owns retry policy for this
    /// attempted write.
    pub fn record_attempt(&mut self, now: UtcTime, failed: bool) -> (owned: bool)
        ensures
            is_attempted(*old(self), *final(self), now, failed, owned),
    {
        if let Some(local) = &mut self.local {
            if local.active(now) {
                local.record_attempt(now, failed);
                return true;
            }
        }
        false
    }

    /// A shutdown reset is ours to send: events are dispatched here, or ownership is
    /// established and no window covers the instant.
    pub open spec fn may_shut_down(&self, now: UtcTime) -> bool {
        self.local is Some || self.ready && !is_protected(self.handover.windows@, now)
    }

    /// Whether a shutdown reset may be sent.
    pub fn permits_shutdown(&self, now: UtcTime) -> (r: bool)
        requires
            self.wf(),
        ensures
            r == self.may_shut_down(now),
    {
        self.local.is_some() || self.ready && !self.handover.protected(now)
    }

    /// Count a reading towards rewards. The stretches that are given are to be credited.
    pub fn observe(&mut self, now: UtcTime, reading: Option<Reading>) -> (claims: Vec<Claim>)
        ensures
            is_observed(*old(self), *final(self), now, reading, claims@),
    {
        match &mut self.rewards {
            Some(rewards) => rewards.observe(now, reading),
            None => Vec::new(),
        }
    }

    /// The outcome of saving the ledger.
    pub fn flush(&mut self, saved: Result<(), String>)
        ensures
            *final(self) == (DispatchService {
                rewards: match old(self).rewards {
                    Some(rewards) => Some(
                        AxleRewardTracker { dirty: rewards.dirty && saved is Err, ..rewards },
                    ),
                    None => None,
                },
                ..*old(self)
            }),
    {
        if let Some(rewards) = &mut self.rewards {
            rewards.flush(saved);
        }
    }
}

/// The rank of the instant at which an action is refreshed: the next minute boundary, but
/// never past its end.
pub open spec fn refresh_rank(end: UtcTime, now: UtcTime) -> int {
    let boundary = second_rank(now.floor_secs(60) + 60);
    if boundary < end.rank() {
        boundary
    } else {
        end.rank()
    }
}

/// Where events are not dispatched here, a shutdown reset is permitted exactly where control
/// is neither unavailable nor external: unknown ownership and every protection window
/// forbid it.
pub proof fn law_shutdown_follows_control(service: DispatchService, now: UtcTime)
    requires
        service.local is None,
    ensures
        service.may_shut_down(now) <==> service.ready && permission(service.handover.windows@, now)
            is None,
{
}

/// A feed that fails does not call an event off: it is known up to its end and not beyond.
/// Where events are dispatched here, it is the saved event that is kept.
pub proof fn law_failed_feeds_keep_the_event(
    last: Option<AxleEvent>,
    local: Option<AxleSelfDispatch>,
    now: UtcTime,
)
    ensures
        local is None && last is Some && now.rank() < last->0.end_time.rank() ==> last_after(
            last,
            local,
            None,
            now,
        ) == last,
        local is Some && local->0.state.event is Some && now.rank()
            < local->0.state.event->0.end_time.rank() ==> last_after(last, local, None, now)
            == local->0.state.event,
        last_after(last, local, None, now) matches Some(event) ==> now.rank()
            < event.end_time.rank(),
{
}

/// An action is looked at again after now and before its deadline has passed.
pub proof fn law_actions_are_refreshed_in_time(end: UtcTime, now: UtcTime)
    requires
        now.valid(),
        now.rank() < end.rank(),
    ensures
        now.rank() < refresh_rank(end, now) <= end.rank(),
        refresh_rank(end, now) <= second_rank(now.secs() + 60),
{
}

proof fn lemma_protection_ends_on_a_boundary(windows: Seq<Window>, now: UtcTime)
    requires
        forall|i: int| 0 <= i < windows.len() ==> (#[trigger] windows[i]).wf(),
        is_protected(windows, now),
        now.valid(),
    ensures
        now.floor_secs(1800) + 1800 <= MAX_SECS,
{
    let i = choose|i: int| 0 <= i < windows.len() && (#[trigger] windows[i]).covers(now);
    assert(windows[i].wf());
}

} // verus!
