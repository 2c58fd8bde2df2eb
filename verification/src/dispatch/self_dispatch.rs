//! Local ownership of opted-in Axle events. All overrides have a short deadline.
use crate::binary64::{Binary64, MINUS_ONE_TWENTIETH, ONE_TWENTIETH, ZERO};
use crate::dispatch::time::second_rank;
use crate::dispatch::{
    fresh_reading, is_fresh, is_positive, Action, BatteryLimits, DispatchMode, Reading,
};
use crate::events::{same_event, AxleDirection, AxleEvent};
use crate::utc::{elapsed_millis, elapsed_nanos, UtcTime, MAX_SECS, MIN_SECS};
use vstd::prelude::*;

verus! {

/// Nanoseconds for which a confirmation holds while the feed is silent.
pub const FEED_GRACE_NANOS: i128 = 300_000_000_000;

/// Nanoseconds after which a repeated confirmation is saved again.
pub const CONFIRMATION_NANOS: i128 = 60_000_000_000;

/// Nanoseconds between two attempts at one command.
pub const RETRY_NANOS: i128 = 30_000_000_000;

/// Nanoseconds of the shortest lease that an inverter takes.
pub const SHORTEST_LEASE_NANOS: i128 = 1_000_000_000;

/// What is saved across restarts.
#[derive(Clone, Copy, Debug, PartialEq, Eq, Structural)]
pub struct State {
    pub event: Option<AxleEvent>,
    pub confirmed_at: Option<UtcTime>,
    pub owned: bool,
    pub limited: bool,
}

impl Default for State {
    fn default() -> (r: State)
        ensures
            r == (State { event: None, confirmed_at: None, owned: false, limited: false }),
    {
        State { event: None, confirmed_at: None, owned: false, limited: false }
    }
}

/// The nanoseconds since an instant, if there is one, have reached a bound.
pub open spec fn is_past(since: Option<UtcTime>, now: UtcTime, nanos: int) -> bool {
    since matches Some(at) && elapsed_nanos(at, now) >= nanos
}

fn past(since: Option<UtcTime>, now: UtcTime, nanos: i128) -> (r: bool)
    ensures
        r == is_past(since, now, nanos as int),
{
    match since {
        Some(at) => now.nanos_since(at) >= nanos,
        None => false,
    }
}

impl State {
    /// A saved event is in order and was confirmed at some time.
    pub open spec fn is_sound(self) -> bool {
        self.event matches Some(event) ==> event.is_ordered() && self.confirmed_at is Some
    }

    /// The event is under way.
    pub open spec fn is_active(self, now: UtcTime) -> bool {
        self.event matches Some(event) && event.is_running(now)
    }

    /// The feed confirmed the event within the grace that a silent feed is given.
    pub open spec fn is_confirmed(self, now: UtcTime) -> bool {
        self.confirmed_at matches Some(at) && at.rank() <= now.rank() && elapsed_nanos(at, now)
            <= FEED_GRACE_NANOS
    }

    /// The state after the feed answered.
    pub open spec fn after_answer(self, answer: Option<AxleEvent>, now: UtcTime) -> State {
        let event = upcoming(answer, now);
        if event != self.event {
            State { event, confirmed_at: Some(now), limited: false, ..self }
        } else if self.confirmed_at is None || is_past(
            self.confirmed_at,
            now,
            CONFIRMATION_NANOS as int,
        ) {
            State { confirmed_at: Some(now), ..self }
        } else {
            self
        }
    }

    /// The answer is worth saving: it brings another event, or confirms the same one when
    /// the last confirmation saved is a minute old.
    pub open spec fn is_saved_after(self, answer: Option<AxleEvent>, now: UtcTime) -> bool {
        upcoming(answer, now) != self.event || self.confirmed_at is None || is_past(
            self.confirmed_at,
            now,
            CONFIRMATION_NANOS as int,
        )
    }

    /// The state after a decision: an event under way is owned, and a battery seen at its
    /// limit is limited for the rest of the event.
    pub open spec fn after_decision(
        self,
        limits: BatteryLimits,
        now: UtcTime,
        reading: Option<Reading>,
    ) -> State {
        if self.is_active(now) {
            State {
                owned: true,
                limited: self.limited || is_trusted(self, now, reading) && is_at_limit(
                    limits,
                    self.event->0.direction,
                    reading->0,
                ),
                ..self
            }
        } else {
            self
        }
    }
}

/// The announced event, unless it is over.
pub open spec fn upcoming(answer: Option<AxleEvent>, now: UtcTime) -> Option<AxleEvent> {
    match answer {
        Some(event) => if now.rank() < event.end_time.rank() {
            answer
        } else {
            None
        },
        None => None,
    }
}

/// A fresh reading whose battery and grid powers can be, of an event that the feed has
/// lately confirmed.
pub open spec fn is_trusted(state: State, now: UtcTime, reading: Option<Reading>) -> bool {
    &&& state.is_confirmed(now)
    &&& reading matches Some(t) && {
        &&& is_fresh(t, now)
        &&& t.battery_kw.spec_is_plausible_power()
        &&& t.grid_kw.spec_is_plausible_power()
    }
}

/// The battery has nothing left to give, or no room left to fill.
pub open spec fn is_at_limit(
    limits: BatteryLimits,
    direction: AxleDirection,
    reading: Reading,
) -> bool {
    match direction {
        AxleDirection::Export => reading.soc_pct.le(limits.soc_floor_pct),
        AxleDirection::Import => limits.soc_ceiling_pct.le(reading.soc_pct),
    }
}

/// The power to ask for: what the stored energy or the room for it allows over the lease,
/// and no more than the battery and the connection can do.
pub open spec fn capped_power(
    limits: BatteryLimits,
    direction: AxleDirection,
    energy_kw: Binary64,
) -> Binary64 {
    match direction {
        AxleDirection::Export => limits.max_export_kw.spec_min(limits.max_discharge_kw).spec_min(
            energy_kw,
        ),
        AxleDirection::Import => limits.max_charge_kw.spec_min(energy_kw),
    }
}

/// What the battery is asked to do in an event.
pub open spec fn mode_of(direction: AxleDirection) -> DispatchMode {
    match direction {
        AxleDirection::Export => DispatchMode::Exporting,
        AxleDirection::Import => DispatchMode::Charging,
    }
}

/// The calendar reaches the end of a lease that is given at this instant.
pub open spec fn has_lease(now: UtcTime) -> bool {
    now.floor_secs(60) + 120 <= MAX_SECS
}

/// Whether the calendar reaches the end of a lease that is given at this instant.
pub fn lease_exists(now: UtcTime) -> (r: bool)
    ensures
        r == has_lease(now),
{
    proof {
        use_type_invariant(&now);
    }
    let into: u64 = (now.timestamp() - MIN_SECS) as u64;
    now.timestamp() - (into % 60) as i64 <= MAX_SECS - 120
}

/// The rank of the end of a lease: the second minute boundary ahead, but never past the
/// end of the event.
pub open spec fn lease_rank(event: AxleEvent, now: UtcTime) -> int {
    let boundary = second_rank(now.floor_secs(60) + 120);
    if boundary < event.end_time.rank() {
        boundary
    } else {
        event.end_time.rank()
    }
}

/// The action that a state allows, up to the end of its lease.
pub open spec fn is_decided(
    action: Action,
    state: State,
    limits: BatteryLimits,
    now: UtcTime,
    reading: Option<Reading>,
    energy_kw: Binary64,
) -> bool {
    let event = state.event->0;
    let power = capped_power(limits, event.direction, energy_kw);
    &&& action.end.valid()
    &&& action.end.rank() == lease_rank(event, now)
    &&& if is_trusted(state, now, reading) && !state.after_decision(limits, now, reading).limited
        && elapsed_nanos(now, action.end) >= SHORTEST_LEASE_NANOS && is_positive(power) {
        action.mode == mode_of(event.direction) && action.power_kw == power
    } else {
        action.mode == DispatchMode::Resting && action.power_kw == (Binary64 { bits: ZERO })
    }
}

/// The lease for which a power is to be worked out.
#[derive(Clone, Copy, Debug, PartialEq, Eq)]
pub struct Lease {
    pub direction: AxleDirection,
    pub end: UtcTime,
    pub millis: i64,
}

/// A decision, and whether the state has to be saved before it holds.
#[derive(Clone, Copy, Debug, PartialEq)]
pub struct Decision {
    pub action: Option<Action>,
    pub save: bool,
}

/// Policy of the events that are dispatched locally.
#[derive(Clone, Copy, Debug, PartialEq, Eq)]
pub struct AxleSelfDispatch {
    pub state: State,
    pub last_attempt: Option<UtcTime>,
    pub verified_flow: bool,
    pub write_failed: bool,
}

impl AxleSelfDispatch {
    /// Take up a saved state. An event out of order, longer than a day or never confirmed
    /// is refused.
    pub fn load(state: State) -> (r: Result<AxleSelfDispatch, String>)
        ensures
            r is Ok <==> state.is_sound(),
            match r {
                Ok(dispatch) => dispatch == (AxleSelfDispatch {
                    state,
                    last_attempt: None,
                    verified_flow: false,
                    write_failed: false,
                }),
                Err(message) => message@ == "invalid saved Axle self-dispatch event"@,
            },
    {
        if let Some(event) = state.event {
            if !event.ordered() || state.confirmed_at.is_none() {
                return Err("invalid saved Axle self-dispatch event".to_owned());
            }
        }
        Ok(
            AxleSelfDispatch {
                state,
                last_attempt: None,
                verified_flow: false,
                write_failed: false,
            },
        )
    }

    /// The event that is known.
    pub fn event(&self) -> (r: Option<AxleEvent>)
        ensures
            r == self.state.event,
    {
        self.state.event
    }

    /// What the answer of the feed makes of the policy: another event starts afresh.
    pub open spec fn answered(self, answer: Option<AxleEvent>, now: UtcTime) -> AxleSelfDispatch {
        let state = self.state.after_answer(answer, now);
        if upcoming(answer, now) != self.state.event {
            AxleSelfDispatch {
                state,
                last_attempt: None,
                verified_flow: false,
                write_failed: false,
            }
        } else {
            AxleSelfDispatch { state, ..self }
        }
    }

    /// Only successful answers of the feed come here. Empty or opted-out means cancel; a
    /// connection error retains the last confirmation for a bounded grace. Says whether the
    /// state has to be saved: not for every answer, so the saved confirmation may lag a
    /// minute, but it never claims more freshness than was actually observed.
    pub fn observe(&mut self, answer: Option<AxleEvent>, now: UtcTime) -> (save: bool)
        ensures
            *final(self) == old(self).answered(answer, now),
            save == old(self).state.is_saved_after(answer, now),
    {
        let event = match answer {
            Some(e) => if now.before(e.end_time) {
                answer
            } else {
                None
            },
            None => None,
        };
        let changed = !same_event(self.state.event, event);
        let lapsed = self.state.confirmed_at.is_none() || past(
            self.state.confirmed_at,
            now,
            CONFIRMATION_NANOS,
        );
        if changed {
            self.state.event = event;
            self.state.limited = false;
            self.last_attempt = None;
            self.verified_flow = false;
            self.write_failed = false;
        }
        if changed || lapsed {
            self.state.confirmed_at = Some(now);
            true
        } else {
            false
        }
    }

    /// Whether the event is under way.
    pub fn active(&self, now: UtcTime) -> (r: bool)
        ensures
            r == self.state.is_active(now),
    {
        match self.state.event {
            Some(event) => event.running(now),
            None => false,
        }
    }

    /// Give up an event that is over or gone. Includes recovery after a restart outside the
    /// old event window. Says whether it was given up; the state is then to be saved.
    pub fn finish_if_due(&mut self, now: UtcTime) -> (due: bool)
        ensures
            due == (old(self).state.owned && !old(self).state.is_active(now)),
            *final(self) == (AxleSelfDispatch {
                state: State { owned: old(self).state.owned && !due, ..old(self).state },
                ..*old(self)
            }),
    {
        if self.state.owned && !self.active(now) {
            self.state.owned = false;
            return true;
        }
        false
    }

    /// The lease that a decision at this instant would give, if the event is under way.
    pub fn lease(&self, now: UtcTime) -> (r: Option<Lease>)
        requires
            self.state.is_active(now) ==> has_lease(now),
        ensures
            r is Some <==> self.state.is_active(now),
            r matches Some(lease) ==> {
                &&& lease.direction == self.state.event->0.direction
                &&& lease.end.valid()
                &&& lease.end.rank() == lease_rank(self.state.event->0, now)
                &&& lease.millis == elapsed_millis(now, lease.end)
            },
    {
        match self.state.event {
            Some(event) => if event.running(now) {
                let end = event.end_time.earlier(now.minute_after(2));
                proof {
                    use_type_invariant(&end);
                }
                Some(Lease { direction: event.direction, end, millis: end.millis_since(now) })
            } else {
                None
            },
            None => None,
        }
    }

    /// What to do at this instant. `energy_kw` is the power that would just use up, over the
    /// lease, the energy above the floor or the room below the ceiling. The state is to be
    /// saved, where it says so, before the action is taken.
    pub fn decision(
        &mut self,
        limits: &BatteryLimits,
        now: UtcTime,
        reading: Option<Reading>,
        energy_kw: Binary64,
    ) -> (r: Decision)
        requires
            old(self).state.is_active(now) ==> has_lease(now),
        ensures
            *final(self) == (AxleSelfDispatch {
                state: old(self).state.after_decision(*limits, now, reading),
                ..*old(self)
            }),
            r.save == (final(self).state != old(self).state),
            r.action is Some <==> old(self).state.is_active(now),
            r.action matches Some(action) ==> is_decided(
                action,
                old(self).state,
                *limits,
                now,
                reading,
                energy_kw,
            ),
    {
        let lease = match self.lease(now) {
            Some(lease) => lease,
            None => {
                return Decision { action: None, save: false };
            },
        };
        let before = self.state;
        self.state.owned = true;
        let mut action = Action {
            mode: DispatchMode::Resting,
            power_kw: Binary64 { bits: ZERO },
            end: lease.end,
        };
        let confirmed = match self.state.confirmed_at {
            Some(at) => !now.before(at) && now.nanos_since(at) <= FEED_GRACE_NANOS,
            None => false,
        };
        if let Some(t) = reading {
            if confirmed && fresh_reading(&t, now) && t.battery_kw.is_plausible_power()
                && t.grid_kw.is_plausible_power() {
                let at_limit = match lease.direction {
                    AxleDirection::Export => t.soc_pct.at_most(limits.soc_floor_pct),
                    AxleDirection::Import => limits.soc_ceiling_pct.at_most(t.soc_pct),
                };
                self.state.limited = self.state.limited || at_limit;
                if !self.state.limited {
                    let (power, mode) = match lease.direction {
                        AxleDirection::Export => (
                            limits.max_export_kw.min(limits.max_discharge_kw).min(energy_kw),
                            DispatchMode::Exporting,
                        ),
                        AxleDirection::Import => (
                            limits.max_charge_kw.min(energy_kw),
                            DispatchMode::Charging,
                        ),
                    };
                    // Native inverter leases require at least one second.
                    if lease.end.nanos_since(now) >= SHORTEST_LEASE_NANOS && power.is_finite() && (
                    Binary64 { bits: ZERO }).less_than(power) {
                        action.mode = mode;
                        action.power_kw = power;
                    }
                }
            }
        }
        let save = self.state.owned != before.owned || self.state.limited != before.limited;
        Decision { action: Some(action), save }
    }

    /// Note an attempt at the command and whether it failed.
    pub fn record_attempt(&mut self, now: UtcTime, failed: bool)
        ensures
            *final(self) == (AxleSelfDispatch {
                last_attempt: Some(now),
                write_failed: failed,
                ..*old(self)
            }),
    {
        self.last_attempt = Some(now);
        self.write_failed = failed;
    }

    /// A failed write is repeated after half a minute at the earliest.
    pub open spec fn may_write(self, now: UtcTime) -> bool {
        !self.write_failed || self.last_attempt is None || is_past(
            self.last_attempt,
            now,
            RETRY_NANOS as int,
        )
    }

    /// Whether a write may be attempted at this instant.
    pub fn retry_write_allowed(&self, now: UtcTime) -> (r: bool)
        ensures
            r == self.may_write(now),
    {
        !self.write_failed || self.last_attempt.is_none() || past(
            self.last_attempt,
            now,
            RETRY_NANOS,
        )
    }

    /// A fresh reading, of an event under way whose battery is not at its limit.
    pub open spec fn is_watching(self, now: UtcTime, reading: Option<Reading>) -> bool {
        &&& self.state.is_active(now)
        &&& !self.state.limited
        &&& reading matches Some(t) && is_fresh(t, now)
    }

    /// The meter does not show the flow of an event that is watched, and half a minute has
    /// passed since the last attempt.
    pub open spec fn is_retry_due(self, now: UtcTime, reading: Option<Reading>) -> bool {
        &&& self.is_watching(now, reading)
        &&& !is_delivered(self.state.event->0.direction, reading->0)
        &&& is_past(self.last_attempt, now, RETRY_NANOS as int)
    }

    /// The policy once the meter has been read: a flow that was seen stays verified.
    pub open spec fn watched(self, now: UtcTime, reading: Option<Reading>) -> AxleSelfDispatch {
        AxleSelfDispatch {
            verified_flow: self.verified_flow || self.is_watching(now, reading) && is_delivered(
                self.state.event->0.direction,
                reading->0,
            ),
            ..self
        }
    }

    /// Check the meter rather than treating an accepted command as delivery. Retry at most
    /// once per 30 seconds; normal minute lease refresh continues.
    pub fn retry_due(&mut self, now: UtcTime, reading: Option<Reading>) -> (due: bool)
        ensures
            due == old(self).is_retry_due(now, reading),
            *final(self) == old(self).watched(now, reading),
    {
        let event = match self.state.event {
            Some(event) => event,
            None => {
                return false;
            },
        };
        if !event.running(now) || self.state.limited {
            return false;
        }
        let t = match reading {
            Some(t) => t,
            None => {
                return false;
            },
        };
        if !fresh_reading(&t, now) {
            return false;
        }
        let delivered = match event.direction {
            AxleDirection::Export => t.grid_kw.less_than(Binary64 { bits: MINUS_ONE_TWENTIETH }),
            AxleDirection::Import => (Binary64 { bits: ONE_TWENTIETH }).less_than(t.battery_kw),
        };
        if delivered {
            self.verified_flow = true;
            return false;
        }
        past(self.last_attempt, now, RETRY_NANOS)
    }
}

/// The meter shows the flow that was asked for.
pub open spec fn is_delivered(direction: AxleDirection, reading: Reading) -> bool {
    match direction {
        AxleDirection::Export => reading.grid_kw.lt(Binary64 { bits: MINUS_ONE_TWENTIETH }),
        AxleDirection::Import => (Binary64 { bits: ONE_TWENTIETH }).lt(reading.battery_kw),
    }
}

/// Every action ends soon: after the instant at which it was decided, within two minutes of
/// it, and never after the event.
pub proof fn law_actions_have_a_short_deadline(event: AxleEvent, now: UtcTime)
    requires
        now.valid(),
        event.is_running(now),
    ensures
        now.rank() < lease_rank(event, now),
        lease_rank(event, now) <= second_rank(now.secs() + 120),
        lease_rank(event, now) <= event.end_time.rank(),
{
}

/// Nothing is asked of the battery unless the feed confirmed the event within the grace and
/// a fresh reading stands below the limit; and what is asked is above zero and within what
/// the battery and the connection can do.
pub proof fn law_power_is_asked_only_within_limits(
    action: Action,
    state: State,
    limits: BatteryLimits,
    now: UtcTime,
    reading: Option<Reading>,
    energy_kw: Binary64,
)
    requires
        limits.is_valid(),
        state.is_active(now),
        is_decided(action, state, limits, now, reading, energy_kw),
        action.mode != DispatchMode::Resting,
    ensures
        state.is_confirmed(now),
        reading matches Some(t) && is_fresh(t, now) && !is_at_limit(
            limits,
            state.event->0.direction,
            t,
        ),
        !state.limited,
        is_positive(action.power_kw),
        action.mode == DispatchMode::Exporting ==> {
            &&& state.event->0.direction == AxleDirection::Export
            &&& action.power_kw.le(limits.max_export_kw)
            &&& action.power_kw.le(limits.max_discharge_kw)
        },
        action.mode == DispatchMode::Charging ==> {
            &&& state.event->0.direction == AxleDirection::Import
            &&& action.power_kw.le(limits.max_charge_kw)
        },
        !energy_kw.spec_is_nan() ==> action.power_kw.le(energy_kw),
{
}

/// Once a battery was at its limit the rest of the event is passive: no decision lifts the
/// limit, nor does an answer of the feed that confirms the same event.
pub proof fn law_limit_latches_for_the_event(
    state: State,
    limits: BatteryLimits,
    now: UtcTime,
    reading: Option<Reading>,
    answer: Option<AxleEvent>,
)
    requires
        state.limited,
    ensures
        state.after_decision(limits, now, reading).limited,
        upcoming(answer, now) == state.event ==> state.after_answer(answer, now).limited,
        forall|action: Action, energy_kw: Binary64|
            state.is_active(now) && #[trigger] is_decided(
                action,
                state,
                limits,
                now,
                reading,
                energy_kw,
            ) ==> action.mode == DispatchMode::Resting && action.power_kw == (Binary64 {
                bits: ZERO,
            }),
{
}

/// A cancelled, replaced or shortened event gives up control at once: when the answer leaves
/// no event under way, there is no action and an owned event is due to be given up.
pub proof fn law_cancellation_releases_control(
    state: State,
    answer: Option<AxleEvent>,
    now: UtcTime,
)
    requires
        !(answer matches Some(event) && event.is_running(now)),
    ensures
        !state.after_answer(answer, now).is_active(now),
        state.after_answer(answer, now).owned == state.owned,
{
}

/// The saved confirmation never claims more freshness than the feed gave: it is the instant
/// of this answer or an earlier one.
pub proof fn law_confirmation_is_never_ahead_of_the_feed(
    state: State,
    answer: Option<AxleEvent>,
    now: UtcTime,
)
    ensures
        state.after_answer(answer, now).confirmed_at is Some,
        state.after_answer(answer, now).confirmed_at == Some(now) || state.after_answer(
            answer,
            now,
        ).confirmed_at == state.confirmed_at,
{
}

/// Answers and decisions keep a saved state one that a restart takes up again.
pub proof fn law_states_survive_a_restart(
    state: State,
    answer: Option<AxleEvent>,
    limits: BatteryLimits,
    now: UtcTime,
    reading: Option<Reading>,
)
    requires
        state.is_sound(),
        answer matches Some(event) ==> event.is_ordered(),
    ensures
        state.after_answer(answer, now).is_sound(),
        state.after_decision(limits, now, reading).is_sound(),
{
}

/// Retries are bounded: within half a minute of an attempt none is due, and a write that
/// failed is not repeated; and a flow that the meter shows is never retried.
pub proof fn law_retries_are_half_a_minute_apart(
    dispatch: AxleSelfDispatch,
    attempt: UtcTime,
    now: UtcTime,
    reading: Option<Reading>,
)
    requires
        dispatch.last_attempt == Some(attempt),
        elapsed_nanos(attempt, now) < RETRY_NANOS || reading is Some && is_delivered(
            dispatch.state.event->0.direction,
            reading->0,
        ),
    ensures
        !dispatch.is_retry_due(now, reading),
        elapsed_nanos(attempt, now) < RETRY_NANOS && dispatch.write_failed
            ==> !dispatch.may_write(now),
{
}

} // verus!
