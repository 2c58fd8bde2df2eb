//! Laws of the dispatch provider.
use crate::axle::{is_read, AxleError, EventResponse};
use crate::binary64::Binary64;
use crate::config::AxleConfig;
use crate::dispatch::config::ProviderConfig;
use crate::dispatch::handover::{
    are_guardable, claimed, is_next_handover, is_taken_up, observed, AxleHandover, Window,
};
use crate::dispatch::rewards::{
    accounted, are_claims, confirmed, dated, previous_after, rows, AxleRewardTracker, Claim,
};
use crate::dispatch::self_dispatch::{is_decided, AxleSelfDispatch, State};
use crate::dispatch::service::{
    forecasts_of, is_asked, is_attempted, is_controlled, is_described, is_next_boundary,
    is_observed, is_polled, is_ruled, is_started, last_after, Control, Controlling,
    DispatchService, EventInfo, Polled, Polling, Ruling, StateFile,
};
use crate::dispatch::{BatteryLimits, Reading};
use crate::events::{AxleDirection, AxleEvent};
use crate::laws::handover::{law_handover_is_due_in_its_minute, lies_in, may_hand_over};
use crate::text::decimal;
use crate::utc::{lemma_nanos_are_counted, UtcTime};
use vstd::prelude::*;

verus! {

/// A body that says opted out, or is or leaves everything empty, announces nothing. One with a
/// start, an end and a direction announces that event where it is in order. Anything else is
/// an error.
pub proof fn law_answers_announce_what_they_spell_out(
    response: Option<EventResponse>,
    r: Result<Option<AxleEvent>, AxleError>,
)
    requires
        is_read(response, r),
    ensures
        response is None ==> (r matches Ok(event) && event is None),
        response matches Some(body) ==> {
            &&& body.opted_out ==> (r matches Ok(event) && event is None)
            &&& !body.opted_out ==> match (body.start_time, body.end_time, body.import_export) {
                (None, None, None) => r matches Ok(event) && event is None,
                (Some(start_time), Some(end_time), Some(direction)) => {
                    let announced = AxleEvent { start_time, end_time, direction };
                    &&& announced.is_ordered() ==> r == Ok::<Option<AxleEvent>, AxleError>(
                        Some(announced),
                    )
                    &&& !announced.is_ordered() ==> r is Err
                },
                _ => r is Err,
            }
        },
        r matches Err(error) ==> (error matches AxleError::Unavailable(reason) && reason@
            == "expected an empty event or ordered UTC start/end times with a direction"@),
{
    if let Some(body) = response {
        if let (Some(start_time), Some(end_time), Some(direction)) = (
            body.start_time,
            body.end_time,
            body.import_export,
        ) {
            let announced = AxleEvent { start_time, end_time, direction };
            if !body.opted_out && announced.is_ordered() {
                assert(body.is_event(announced));
            }
        }
    }
}

/// Saved windows are taken up as they are where every one ends after it starts, and are refused
/// where one does not.
pub proof fn law_saved_windows_end_after_they_start(
    saved: Seq<Window>,
    r: Result<AxleHandover, String>,
)
    requires
        is_taken_up(saved, r),
    ensures
        r is Ok <==> forall|i: int|
            0 <= i < saved.len() ==> (#[trigger] saved[i]).start.rank() < saved[i].end.rank(),
        r matches Ok(handover) ==> handover.windows@ == saved,
        r matches Err(message) ==> message@ == "invalid saved Axle protection window"@,
{
    if r is Err {
        let i = choose|i: int|
            0 <= i < saved.len() && (#[trigger] saved[i]).end.rank() <= saved[i].start.rank();
        assert(!(saved[i].start.rank() < saved[i].end.rank()));
    }
}

/// A service starts with settings that can be used and states that can be taken up. It knows no
/// event, takes its states over as they are, and owns control from the start where the feed is
/// disabled or events are dispatched here.
pub proof fn law_services_start_with_what_was_saved(
    cfg: ProviderConfig,
    windows: Result<Vec<Window>, String>,
    state: Result<State, String>,
    rewards: Option<AxleRewardTracker>,
    r: Result<DispatchService, String>,
)
    requires
        is_started(cfg, windows, state, rewards, r),
    ensures
        ({
            let local = cfg.axle.enabled && cfg.axle.self_dispatch;
            &&& r is Ok <==> {
                &&& cfg.axle.is_usable()
                &&& windows is Ok
                &&& forall|i: int|
                    0 <= i < windows->Ok_0@.len() ==> (#[trigger] windows->Ok_0@[i]).start.rank()
                        < windows->Ok_0@[i].end.rank()
                &&& local ==> state is Ok && (state->Ok_0.event matches Some(event)
                    ==> event.is_ordered() && state->Ok_0.confirmed_at is Some)
            }
            &&& r matches Ok(service) ==> {
                &&& local || are_guardable(windows->Ok_0@) ==> service.wf()
                &&& service.cfg == cfg.axle
                &&& service.last is None
                &&& service.ready <==> !cfg.axle.enabled || cfg.axle.self_dispatch
                &&& service.handover.windows@ == windows->Ok_0@
                &&& service.rewards == rewards
                &&& service.local is Some <==> local
                &&& service.local matches Some(dispatch) ==> {
                    &&& dispatch.state == state->Ok_0
                    &&& dispatch.last_attempt is None
                    &&& !dispatch.verified_flow
                    &&& !dispatch.write_failed
                }
            }
            &&& r matches Err(message) ==> {
                &&& cfg.axle.is_usable() && windows is Err ==> message == windows->Err_0
                &&& cfg.axle.is_usable() && windows is Ok && (forall|i: int|
                    0 <= i < windows->Ok_0@.len() ==> (#[trigger] windows->Ok_0@[i]).start.rank()
                        < windows->Ok_0@[i].end.rank()) && state is Err ==> message
                    == state->Err_0
            }
        }),
{
}

/// The event that is known after a look at the feed is what it answered. Where it failed it is
/// the event known before, the saved one where events are dispatched here, unless that is over.
pub proof fn law_known_event_is_the_answer_or_the_one_before(
    last: Option<AxleEvent>,
    local: Option<AxleSelfDispatch>,
    answer: Option<AxleEvent>,
    now: UtcTime,
)
    ensures
        last_after(last, local, Some(answer), now) == answer,
        ({
            let kept = if local is Some {
                local->0.state.event
            } else {
                last
            };
            &&& kept is None ==> last_after(last, local, None, now) is None
            &&& kept matches Some(event) ==> {
                &&& now.rank() < event.end_time.rank() ==> last_after(last, local, None, now)
                    == Some(event)
                &&& event.end_time.rank() <= now.rank() ==> last_after(last, local, None, now)
                    is None
            }
        }),
{
}

/// A reply is handed to local dispatch and to the rewards, and changes nothing else yet. A feed
/// that failed changes nothing at all.
pub proof fn law_replies_change_local_dispatch_and_rewards_alone(
    before: DispatchService,
    after: DispatchService,
    reply: Result<Option<AxleEvent>, AxleError>,
    now: UtcTime,
    polling: Polling,
)
    requires
        is_asked(before, after, reply, now, polling),
    ensures
        after.cfg == before.cfg,
        after.last == before.last,
        after.ready == before.ready,
        after.handover == before.handover,
        polling.now == now,
        polling.previous == before.last,
        polling.was_ready == before.ready,
        reply is Err ==> after == before && polling.answer is None && !polling.save_local,
        reply matches Ok(event) ==> {
            &&& polling.answer == Some(event)
            &&& before.local is None ==> after.local is None && !polling.save_local
            &&& before.local matches Some(local) ==> {
                &&& after.local == Some(local.answered(event, now))
                &&& polling.save_local <==> after.local->0.state != local.state
            }
            &&& before.rewards is None ==> after.rewards is None
            &&& before.rewards matches Some(rewards) ==> {
                let later = after.rewards->0;
                &&& after.rewards is Some
                &&& rows(later.events@) == confirmed(
                    rows(rewards.events@),
                    dated(event, rewards.zone.name()),
                    now,
                    before.cfg,
                )
                &&& rewards.dirty ==> later.dirty
                &&& !rewards.dirty ==> (later.dirty <==> rows(later.events@) != rows(
                    rewards.events@,
                ))
                &&& later.previous == rewards.previous
                &&& later.zone == rewards.zone
                &&& later.max_gap_millis == rewards.max_gap_millis
            }
        },
{
    if let Ok(event) = reply {
        if let Some(local) = before.local {
            crate::laws::dispatch::law_answers_bring_and_confirm_events(local.state, event, now);
        }
    }
}

/// A save that was due and failed leaves everything as it was, and is the error. Else an answer
/// establishes ownership; the update says whether the event differs from the one known when the
/// feed was asked, and asks for a new plan where it does and events are dispatched here, or
/// where ownership has just been established. Windows are kept where events are not dispatched
/// here.
pub proof fn law_looks_at_the_feed_report_what_changed(
    before: DispatchService,
    after: DispatchService,
    polling: Polling,
    saved: Result<(), String>,
    r: Result<Polled, String>,
)
    requires
        is_polled(before, after, polling, saved, r),
    ensures
        after.cfg == before.cfg,
        after.local == before.local,
        after.rewards == before.rewards,
        r is Err <==> polling.save_local && saved is Err,
        r matches Err(error) ==> error == saved->Err_0 && after == before,
        r matches Ok(polled) ==> {
            &&& after.last == last_after(before.last, before.local, polling.answer, polling.now)
            &&& after.ready <==> before.ready || polling.answer is Some
            &&& before.local is Some ==> after.handover.windows@ == before.handover.windows@
            &&& before.local is None ==> after.handover.windows@ == observed(
                before.handover.windows@,
                after.last,
                polling.now,
            )
            &&& polled.save_handover <==> after.handover.windows@ != before.handover.windows@
            &&& polled.update.changed <==> after.last != polling.previous
            &&& before.local is Some ==> (polled.update.replan <==> after.last != polling.previous
                || !polling.was_ready && after.ready)
            &&& before.local is None ==> (polled.update.replan <==> !polling.was_ready
                && after.ready)
        },
{
}

/// Events are dispatched here and one has started and has not ended.
pub open spec fn is_under_way(service: DispatchService, now: UtcTime) -> bool {
    &&& service.local is Some
    &&& service.local->0.state.event is Some
    &&& service.local->0.state.event->0.start_time.rank() <= now.rank()
        < service.local->0.state.event->0.end_time.rank()
}

/// Events are not dispatched here and a window covers the instant.
pub open spec fn is_foreign(service: DispatchService, now: UtcTime) -> bool {
    &&& service.local is None
    &&& exists|i: int|
        0 <= i < service.handover.windows@.len() && lies_in(
            now,
            #[trigger] service.handover.windows@[i],
        )
}

/// Control is unavailable exactly until ownership is established; it is then another's where
/// events are not dispatched here and a window covers the instant; limits that do not describe
/// a battery are then refused; an event under way is then dispatched; and otherwise the tariff
/// controls.
pub proof fn law_control_goes_by_ownership_windows_and_events(
    before: DispatchService,
    after: DispatchService,
    limits: BatteryLimits,
    now: UtcTime,
    reading: Option<Reading>,
    energy_kw: Binary64,
    r: Result<Controlling, String>,
)
    requires
        is_ruled(before, after, limits, now, reading, energy_kw, r),
    ensures
        (r matches Ok(step) && step.ruling is Unavailable) <==> !before.ready,
        (r matches Ok(step) && step.ruling is External) <==> before.ready && is_foreign(
            before,
            now,
        ),
        r is Err <==> before.ready && !is_foreign(before, now) && !limits.is_valid(),
        (r matches Ok(step) && step.ruling is Override) <==> before.ready && !is_foreign(
            before,
            now,
        ) && limits.is_valid() && is_under_way(before, now),
        (r matches Ok(step) && step.ruling is Tariff) <==> before.ready && !is_foreign(before, now)
            && limits.is_valid() && !is_under_way(before, now),
        r matches Err(message) ==> message@ == "invalid dispatch battery limits"@,
        after.cfg == before.cfg,
        after.last == before.last,
        after.ready == before.ready,
        after.rewards == before.rewards,
{
    law_handover_is_due_in_its_minute(before.handover.windows@, now);
}

/// Control that is another's lasts until the next half-hour boundary and lets go exactly where
/// every window that covers the instant still allows the handover, which is claimed; the
/// windows are to be saved where that changed them.
pub proof fn law_external_control_hands_over_once(
    before: DispatchService,
    after: DispatchService,
    limits: BatteryLimits,
    now: UtcTime,
    reading: Option<Reading>,
    energy_kw: Binary64,
    step: Controlling,
)
    requires
        is_ruled(before, after, limits, now, reading, energy_kw, Ok(step)),
    ensures
        step.ruling matches Ruling::External { release, until } ==> {
            &&& release <==> forall|i: int|
                0 <= i < before.handover.windows@.len() && lies_in(
                    now,
                    #[trigger] before.handover.windows@[i],
                ) ==> may_hand_over(now, before.handover.windows@[i])
            &&& until.secs() % 1800 == 0
            &&& now.secs() < until.secs() <= now.secs() + 1800
            &&& until.nanos() == 0
            &&& after.handover.windows@ == claimed(before.handover.windows@, now)
            &&& after.local == before.local
            &&& step.save is Some <==> after.handover.windows@ != before.handover.windows@
            &&& step.save is Some ==> step.save == Some(StateFile::Handover)
        },
        !(step.ruling is External) ==> after.handover.windows@ == before.handover.windows@,
{
    law_handover_is_due_in_its_minute(before.handover.windows@, now);
}

/// An event that is dispatched leaves the state that its decision makes. Control by the tariff
/// gives an event up: it asks for a new plan exactly where one was owned, and lasts until the
/// next event starts, or up to the next handover where events are not dispatched here. The
/// state is to be saved exactly where it changed.
pub proof fn law_dispatched_events_are_owned_until_given_up(
    before: DispatchService,
    after: DispatchService,
    limits: BatteryLimits,
    now: UtcTime,
    reading: Option<Reading>,
    energy_kw: Binary64,
    step: Controlling,
)
    requires
        is_ruled(before, after, limits, now, reading, energy_kw, Ok(step)),
    ensures
        step.ruling matches Ruling::Override { action } ==> {
            let state = before.local->0.state;
            &&& is_decided(action, state, limits, now, reading, energy_kw)
            &&& after.local is Some
            &&& after.local->0.state == state.after_decision(limits, now, reading)
            &&& after.local->0.state.owned
            &&& after.local->0 == (AxleSelfDispatch {
                state: after.local->0.state,
                ..before.local->0
            })
        },
        step.ruling matches Ruling::Tariff { until, replan } ==> {
            &&& replan <==> before.local is Some && before.local->0.state.owned
            &&& before.local is None ==> after.local is None && is_next_handover(
                before.handover.windows@,
                now,
                until,
            )
            &&& before.local matches Some(local) ==> {
                &&& after.local == Some(
                    AxleSelfDispatch { state: State { owned: false, ..local.state }, ..local },
                )
                &&& before.last is Some && now.rank() < before.last->0.start_time.rank()
                    ==> until == Some(before.last->0.start_time)
                &&& before.last is None || before.last->0.start_time.rank() <= now.rank()
                    ==> until is None
            }
        },
        step.ruling is Override || step.ruling is Tariff ==> {
            &&& step.save is Some <==> after.local != before.local
            &&& step.save is Some ==> step.save == Some(StateFile::SelfDispatch)
        },
        step.ruling is Unavailable ==> step.save is None && after == before,
{
}

/// A save that was due and failed blocks control with its error. Else the ruling is carried out
/// as it stands: an override is refreshed on the next minute boundary, or at its end where that
/// is earlier, and may be retried after half a minute.
pub proof fn law_rulings_are_carried_out_once_saved(
    before: DispatchService,
    after: DispatchService,
    step: Controlling,
    now: UtcTime,
    reading: Option<Reading>,
    saved: Result<(), String>,
    r: Result<Control, String>,
)
    requires
        is_controlled(before, after, step, now, reading, saved, r),
    ensures
        r is Err <==> step.save is Some && saved is Err,
        r matches Err(error) ==> error == saved->Err_0 && after.local == before.local,
        r matches Ok(control) ==> match control {
            Control::Unavailable => step.ruling is Unavailable,
            Control::External { release, until } => step.ruling == (Ruling::External {
                release,
                until,
            }),
            Control::Tariff { until, replan } => step.ruling == (Ruling::Tariff { until, replan }),
            Control::Override { action, retry_due, retry_allowed, next_refresh, retry_at } => {
                let minute = (now.secs() / 60 + 1) * 60 * 4_294_967_296;
                &&& step.ruling == (Ruling::Override { action })
                &&& after.local == Some(before.local->0.watched(now, reading))
                &&& retry_due == before.local->0.is_retry_due(now, reading)
                &&& retry_allowed == before.local->0.may_write(now)
                &&& minute < action.end.rank() ==> next_refresh.rank() == minute
                &&& action.end.rank() <= minute ==> next_refresh.rank() == action.end.rank()
                &&& retry_at.secs() == now.secs() + 30
                &&& now.nanos() < 1_000_000_000 ==> retry_at.nanos() == now.nanos()
            },
        },
        r is Ok && !(step.ruling is Override) ==> after.local == before.local,
        after.cfg == before.cfg,
        after.last == before.last,
        after.ready == before.ready,
        after.handover == before.handover,
        after.rewards == before.rewards,
{
    lemma_nanos_are_counted(now);
}

/// The known event is forecast once, with the reward of its direction; without one there is no
/// forecast and nothing to report.
pub proof fn law_known_event_is_forecast_and_described(
    last: Option<AxleEvent>,
    cfg: AxleConfig,
    info: Option<EventInfo>,
)
    requires
        is_described(last, info),
    ensures
        last is None ==> forecasts_of(last, cfg).len() == 0 && info is None,
        last matches Some(event) ==> {
            &&& forecasts_of(last, cfg).len() == 1
            &&& forecasts_of(last, cfg)[0].event == event
            &&& forecasts_of(last, cfg)[0].self_dispatch == cfg.self_dispatch
            &&& event.direction == AxleDirection::Export ==> forecasts_of(
                last,
                cfg,
            )[0].reward_p_per_kwh == cfg.export_reward_p_per_kwh
            &&& event.direction == AxleDirection::Import ==> forecasts_of(
                last,
                cfg,
            )[0].reward_p_per_kwh == cfg.import_reward_p_per_kwh
            &&& info is Some
            &&& info->0.id is Some
            &&& info->0.id->0@ == "axle-"@ + decimal(event.start_time.secs())
            &&& info->0.provider@ == "axle"@
            &&& event.direction == AxleDirection::Export ==> info->0.direction@ == "export"@
            &&& event.direction == AxleDirection::Import ==> info->0.direction@ == "import"@
            &&& info->0.start == event.start_time
            &&& info->0.end == event.end_time
        },
{
}

/// The next boundary is the earliest of start and end that lies ahead.
pub proof fn law_next_boundary_is_the_earliest_ahead(
    last: Option<AxleEvent>,
    now: UtcTime,
    r: Option<UtcTime>,
)
    requires
        is_next_boundary(last, now, r),
    ensures
        last is None ==> r is None,
        last matches Some(event) ==> {
            let start = event.start_time;
            let end = event.end_time;
            &&& now.rank() < start.rank() < end.rank() ==> r == Some(start)
            &&& now.rank() < end.rank() < start.rank() ==> r == Some(end)
            &&& start.rank() <= now.rank() < end.rank() ==> r == Some(end)
            &&& end.rank() <= now.rank() < start.rank() ==> r == Some(start)
            &&& start.rank() <= now.rank() && end.rank() <= now.rank() ==> r is None
        },
{
}

/// An attempt is noted with its time and its outcome while an event under way is dispatched
/// here, and changes nothing otherwise.
pub proof fn law_attempts_are_noted_in_events(
    before: DispatchService,
    after: DispatchService,
    now: UtcTime,
    failed: bool,
    owned: bool,
)
    requires
        is_attempted(before, after, now, failed, owned),
    ensures
        owned <==> is_under_way(before, now),
        !owned ==> after == before,
        owned ==> {
            &&& after.local is Some
            &&& after.local->0.last_attempt == Some(now)
            &&& after.local->0.write_failed == failed
            &&& after.local->0.state == before.local->0.state
            &&& after.local->0.verified_flow == before.local->0.verified_flow
            &&& after == (DispatchService { local: after.local, ..before })
        },
{
}

/// A shutdown reset is permitted where events are dispatched here, and else where ownership is
/// established and no window covers the instant.
pub proof fn law_shutdown_needs_ownership_outside_windows(service: DispatchService, now: UtcTime)
    ensures
        service.local is Some ==> service.may_shut_down(now),
        service.local is None ==> (service.may_shut_down(now) <==> service.ready && !is_foreign(
            service,
            now,
        )),
{
    law_handover_is_due_in_its_minute(service.handover.windows@, now);
}

/// A reading changes nothing of the service but its rewards, and of these neither the zone nor
/// the longest gap. What is not counted leaves the ledger as it is and claims nothing; and the
/// ledger is to be saved where something was claimed.
pub proof fn law_readings_change_rewards_alone(
    before: DispatchService,
    after: DispatchService,
    now: UtcTime,
    reading: Option<Reading>,
    claims: Seq<Claim>,
)
    requires
        is_observed(before, after, now, reading, claims),
    ensures
        after == (DispatchService { rewards: after.rewards, ..before }),
        after.rewards is Some <==> before.rewards is Some,
        before.rewards is None ==> claims.len() == 0,
        before.rewards matches Some(rewards) ==> {
            &&& after.rewards->0.zone == rewards.zone
            &&& after.rewards->0.max_gap_millis == rewards.max_gap_millis
            &&& after.rewards->0.dirty <==> rewards.dirty || claims.len() > 0
            &&& after.rewards->0.previous == previous_after(rewards.previous, now, reading)
            &&& !rewards.counts(now, reading) ==> claims.len() == 0 && after.rewards->0.events
                == rewards.events
            &&& rewards.counts(now, reading) ==> {
                let previous = rewards.previous->0;
                let next = (reading->0.at, reading->0.grid_kw);
                &&& are_claims(claims, rows(rewards.events@), previous, next)
                &&& rows(after.rewards->0.events@) == accounted(
                    rows(rewards.events@),
                    previous.0,
                    next.0,
                )
            }
        },
{
}

} // verus!
