//! Laws of the events that are dispatched locally.
use crate::binary64::Binary64;
use crate::dispatch::self_dispatch::{
    has_lease, is_decided, is_delivered, is_trusted, upcoming, AxleSelfDispatch, State,
};
use crate::dispatch::{is_fresh, Action, BatteryLimits, DispatchMode, Reading};
use crate::events::{AxleDirection, AxleEvent};
use crate::laws::time::{is_ordinary, nanos_since_epoch};
use crate::utc::{elapsed_nanos, UtcTime};
use vstd::prelude::*;

verus! {

/// A finite number from zero up to another.
pub open spec fn is_up_to(value: Binary64, high: u64) -> bool {
    value.spec_is_finite() && (Binary64 { bits: 0 }).le(value) && value.le(Binary64 { bits: high })
}

/// A finite number above zero.
pub open spec fn is_above_zero(value: Binary64) -> bool {
    value.spec_is_finite() && (Binary64 { bits: 0 }).lt(value)
}

/// An earlier instant, no more than some nanoseconds ago.
pub open spec fn is_recent(at: UtcTime, now: UtcTime, nanos: int) -> bool {
    at.rank() <= now.rank() && elapsed_nanos(at, now) <= nanos
}

/// Outside leap seconds, an instant is recent where its distance from now lies between nothing
/// and the bound.
pub proof fn law_recent_instants_are_at_most_so_old(at: UtcTime, now: UtcTime, nanos: int)
    requires
        is_ordinary(at),
        is_ordinary(now),
    ensures
        is_recent(at, now, nanos) <==> 0 <= nanos_since_epoch(now) - nanos_since_epoch(at)
            <= nanos,
{
}

/// A reading is fresh for five seconds by either clock, with a state of charge of 0 to 100 and
/// a load and a solar power of 0 to 1000.
pub proof fn law_readings_are_fresh_for_five_seconds(reading: Reading, now: UtcTime)
    ensures
        is_fresh(reading, now) <==> {
            &&& is_recent(reading.at, now, 5_000_000_000)
            &&& reading.age_nanos <= 5_000_000_000
            &&& is_up_to(reading.soc_pct, 0x4059_0000_0000_0000)
            &&& is_up_to(reading.load_kw, 0x408f_4000_0000_0000)
            &&& is_up_to(reading.solar_kw, 0x408f_4000_0000_0000)
        },
{
}

/// Limits describe a battery where capacity, powers and efficiency are above zero, the
/// efficiency is at most one, the export limit is not below zero, and the floor lies below the
/// ceiling, both within 0 to 100.
pub proof fn law_limits_describe_a_battery(limits: BatteryLimits)
    ensures
        limits.is_valid() <==> {
            &&& is_above_zero(limits.usable_capacity_kwh)
            &&& is_above_zero(limits.max_charge_kw)
            &&& is_above_zero(limits.max_discharge_kw)
            &&& is_above_zero(limits.round_trip_efficiency)
            &&& limits.round_trip_efficiency.le(Binary64 { bits: 0x3ff0_0000_0000_0000 })
            &&& limits.max_export_kw.spec_is_finite()
            &&& (Binary64 { bits: 0 }).le(limits.max_export_kw)
            &&& is_up_to(limits.soc_floor_pct, 0x4059_0000_0000_0000)
            &&& is_up_to(limits.soc_ceiling_pct, 0x4059_0000_0000_0000)
            &&& limits.soc_floor_pct.lt(limits.soc_ceiling_pct)
        },
{
}

/// A saved state is taken up again where its event, if it has one, is in order and was
/// confirmed at some time.
pub proof fn law_saved_states_hold_confirmed_events(state: State)
    ensures
        state.event is None ==> state.is_sound(),
        state.event matches Some(event) ==> (state.is_sound() <==> event.is_ordered()
            && state.confirmed_at is Some),
{
}

/// The feed confirmed the event in the last five minutes, and the reading is fresh and shows a
/// battery and a grid power that can be.
pub open spec fn is_believed(state: State, now: UtcTime, reading: Option<Reading>) -> bool {
    &&& state.confirmed_at is Some && is_recent(state.confirmed_at->0, now, 300_000_000_000)
    &&& reading is Some
    &&& is_recent(reading->0.at, now, 5_000_000_000)
    &&& reading->0.age_nanos <= 5_000_000_000
    &&& is_up_to(reading->0.soc_pct, 0x4059_0000_0000_0000)
    &&& is_up_to(reading->0.load_kw, 0x408f_4000_0000_0000)
    &&& is_up_to(reading->0.solar_kw, 0x408f_4000_0000_0000)
    &&& reading->0.battery_kw.spec_is_plausible_power()
    &&& reading->0.grid_kw.spec_is_plausible_power()
}

/// A reading is trusted exactly where it is believed, and a confirmation holds for five
/// minutes.
pub proof fn law_readings_are_trusted_of_confirmed_events(
    state: State,
    now: UtcTime,
    reading: Option<Reading>,
)
    ensures
        is_trusted(state, now, reading) <==> is_believed(state, now, reading),
        state.is_confirmed(now) <==> state.confirmed_at is Some && is_recent(
            state.confirmed_at->0,
            now,
            300_000_000_000,
        ),
        state.is_active(now) <==> state.event is Some && state.event->0.start_time.rank()
            <= now.rank() < state.event->0.end_time.rank(),
{
}

/// An event under way becomes owned. In an import event it becomes limited where a reading
/// that is believed shows a charge at or above the ceiling, in an export event at or below the
/// floor, and for no other reason: a charge below the ceiling, or above the floor, leaves it
/// as it was. Nothing else changes, and nothing at all outside an event.
pub proof fn law_limit_is_that_of_the_direction(
    state: State,
    limits: BatteryLimits,
    now: UtcTime,
    reading: Option<Reading>,
)
    ensures
        ({
            let after = state.after_decision(limits, now, reading);
            let active = state.event is Some && state.event->0.start_time.rank() <= now.rank()
                < state.event->0.end_time.rank();
            &&& !active ==> after == state
            &&& active ==> {
                &&& after.owned
                &&& after.event == state.event
                &&& after.confirmed_at == state.confirmed_at
                &&& !is_believed(state, now, reading) ==> after.limited == state.limited
                &&& is_believed(state, now, reading) && state.event->0.direction
                    == AxleDirection::Import ==> (after.limited <==> state.limited
                    || limits.soc_ceiling_pct.le(reading->0.soc_pct))
                &&& is_believed(state, now, reading) && state.event->0.direction
                    == AxleDirection::Export ==> (after.limited <==> state.limited
                    || reading->0.soc_pct.le(limits.soc_floor_pct))
            }
        }),
{
}

/// An import event that is not limited and whose believed reading shows a charge below the
/// ceiling is charged for, with the lesser of the charging power and what there is room for,
/// where the lease lasts a second or more and that power is above zero. Else the battery rests
/// with no power.
pub proof fn law_imports_charge_below_the_ceiling(
    action: Action,
    state: State,
    limits: BatteryLimits,
    now: UtcTime,
    reading: Option<Reading>,
    energy_kw: Binary64,
)
    requires
        state.event is Some,
        state.event->0.direction == AxleDirection::Import,
        state.event->0.start_time.rank() <= now.rank() < state.event->0.end_time.rank(),
        is_decided(action, state, limits, now, reading, energy_kw),
    ensures
        ({
            let power = limits.max_charge_kw.spec_min(energy_kw);
            let charges = !state.limited && is_believed(state, now, reading)
                && !limits.soc_ceiling_pct.le(reading->0.soc_pct) && elapsed_nanos(now, action.end)
                >= 1_000_000_000 && is_above_zero(power);
            &&& charges ==> action.mode == DispatchMode::Charging && action.power_kw == power
            &&& !charges ==> action.mode == DispatchMode::Resting && action.power_kw.bits == 0
        }),
{
}

/// An export event that is not limited and whose believed reading shows a charge above the
/// floor is exported for, with the least of the connection's power, the discharging power and
/// what is stored, where the lease lasts a second or more and that power is above zero. Else
/// the battery rests with no power.
pub proof fn law_exports_discharge_above_the_floor(
    action: Action,
    state: State,
    limits: BatteryLimits,
    now: UtcTime,
    reading: Option<Reading>,
    energy_kw: Binary64,
)
    requires
        state.event is Some,
        state.event->0.direction == AxleDirection::Export,
        state.event->0.start_time.rank() <= now.rank() < state.event->0.end_time.rank(),
        is_decided(action, state, limits, now, reading, energy_kw),
    ensures
        ({
            let power = limits.max_export_kw.spec_min(limits.max_discharge_kw).spec_min(energy_kw);
            let exports = !state.limited && is_believed(state, now, reading)
                && !reading->0.soc_pct.le(limits.soc_floor_pct) && elapsed_nanos(now, action.end)
                >= 1_000_000_000 && is_above_zero(power);
            &&& exports ==> action.mode == DispatchMode::Exporting && action.power_kw == power
            &&& !exports ==> action.mode == DispatchMode::Resting && action.power_kw.bits == 0
        }),
{
}

/// An action ends on the second minute boundary ahead, or with the event where that ends
/// earlier.
pub proof fn law_actions_end_on_the_second_minute(
    action: Action,
    state: State,
    limits: BatteryLimits,
    now: UtcTime,
    reading: Option<Reading>,
    energy_kw: Binary64,
)
    requires
        state.event is Some,
        is_decided(action, state, limits, now, reading, energy_kw),
    ensures
        ({
            let minute = (now.secs() / 60 + 2) * 60;
            let end = state.event->0.end_time;
            &&& minute * 4_294_967_296 < end.rank() ==> action.end.rank() == minute * 4_294_967_296
            &&& end.rank() <= minute * 4_294_967_296 ==> action.end.rank() == end.rank()
            &&& has_lease(now) <==> minute <= 8_210_266_876_799
        }),
{
}

/// An announcement that is not over is the event that is known from then on; one that is over,
/// or none, leaves no event. Another event than before is confirmed now and starts without a
/// limit; the same event keeps its limit, and its confirmation is renewed where there is none
/// or a minute has passed since. The state is to be saved exactly where it changed.
pub proof fn law_answers_bring_and_confirm_events(
    state: State,
    answer: Option<AxleEvent>,
    now: UtcTime,
)
    ensures
        ({
            let after = state.after_answer(answer, now);
            &&& answer is Some && now.rank() < answer->0.end_time.rank() ==> after.event == answer
            &&& answer is None || answer->0.end_time.rank() <= now.rank() ==> after.event is None
            &&& upcoming(answer, now) == after.event
            &&& after.owned == state.owned
            &&& after.event != state.event ==> after.confirmed_at == Some(now) && !after.limited
            &&& after.event == state.event ==> {
                &&& after.limited == state.limited
                &&& state.confirmed_at is None ==> after.confirmed_at == Some(now)
                &&& state.confirmed_at matches Some(at) ==> {
                    &&& elapsed_nanos(at, now) >= 60_000_000_000 ==> after.confirmed_at == Some(
                        now,
                    )
                    &&& elapsed_nanos(at, now) < 60_000_000_000 ==> after.confirmed_at == Some(at)
                }
            }
            &&& state.is_saved_after(answer, now) <==> after != state
        }),
{
    if let Some(at) = state.confirmed_at {
        if at == now {
            assert(elapsed_nanos(at, now) < 60_000_000_000);
        }
    }
}

/// With another event the attempts, the verified flow and the failure are forgotten; with the
/// same event they stay.
pub proof fn law_attempts_belong_to_their_event(
    dispatch: AxleSelfDispatch,
    answer: Option<AxleEvent>,
    now: UtcTime,
)
    ensures
        ({
            let after = dispatch.answered(answer, now);
            &&& after.state == dispatch.state.after_answer(answer, now)
            &&& after.state.event != dispatch.state.event ==> {
                &&& after.last_attempt is None
                &&& !after.verified_flow
                &&& !after.write_failed
            }
            &&& after.state.event == dispatch.state.event ==> {
                &&& after.last_attempt == dispatch.last_attempt
                &&& after.verified_flow == dispatch.verified_flow
                &&& after.write_failed == dispatch.write_failed
            }
        }),
{
}

/// The grid takes more than a twentieth of a kilowatt in an export event, and the battery more
/// than that in an import event.
pub open spec fn shows_flow(direction: AxleDirection, reading: Reading) -> bool {
    match direction {
        AxleDirection::Export => reading.grid_kw.lt(Binary64 { bits: 0xbfa9_9999_9999_999a }),
        AxleDirection::Import => (Binary64 { bits: 0x3fa9_9999_9999_999a }).lt(reading.battery_kw),
    }
}

/// In an event under way that is not limited, a fresh reading that shows the flow verifies it
/// for good, and one that does not makes a retry due from half a minute after the last attempt
/// on. Otherwise no retry is due and nothing is verified. A write may be repeated unless it
/// failed less than half a minute ago.
pub proof fn law_flows_are_verified_or_retried(
    dispatch: AxleSelfDispatch,
    now: UtcTime,
    reading: Option<Reading>,
)
    ensures
        ({
            let watching = dispatch.state.event is Some
                && dispatch.state.event->0.start_time.rank() <= now.rank()
                < dispatch.state.event->0.end_time.rank() && !dispatch.state.limited && reading
                is Some && is_recent(reading->0.at, now, 5_000_000_000) && reading->0.age_nanos
                <= 5_000_000_000 && is_up_to(reading->0.soc_pct, 0x4059_0000_0000_0000) && is_up_to(
                reading->0.load_kw,
                0x408f_4000_0000_0000,
            ) && is_up_to(reading->0.solar_kw, 0x408f_4000_0000_0000);
            let flows = shows_flow(dispatch.state.event->0.direction, reading->0);
            let rested = dispatch.last_attempt is Some && elapsed_nanos(
                dispatch.last_attempt->0,
                now,
            ) >= 30_000_000_000;
            let after = dispatch.watched(now, reading);
            &&& after.verified_flow <==> dispatch.verified_flow || watching && flows
            &&& after.state == dispatch.state
            &&& after.last_attempt == dispatch.last_attempt
            &&& after.write_failed == dispatch.write_failed
            &&& dispatch.is_retry_due(now, reading) <==> watching && !flows && rested
            &&& dispatch.may_write(now) <==> !dispatch.write_failed || dispatch.last_attempt is None
                || rested
            &&& reading is Some ==> is_delivered(dispatch.state.event->0.direction, reading->0)
                == flows
        }),
{
}

} // verus!
