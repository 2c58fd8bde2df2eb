//! The battery's limit over any sequence of operations of local dispatch.
use crate::binary64::{Binary64, ZERO};
use crate::dispatch::self_dispatch::{is_decided, upcoming, AxleSelfDispatch, State};
use crate::dispatch::{Action, BatteryLimits, DispatchMode, Reading};
use crate::events::AxleEvent;
use crate::utc::UtcTime;
use vstd::prelude::*;

verus! {

/// What is done to the policy of local dispatch.
pub ghost enum Step {
    /// The feed answered.
    Answered { answer: Option<AxleEvent>, now: UtcTime },
    /// An action was decided on.
    Decided { limits: BatteryLimits, now: UtcTime, reading: Option<Reading> },
    /// An event that is over or gone was given up where it was owned.
    Finished { now: UtcTime },
    /// A command was attempted.
    Attempted { now: UtcTime, failed: bool },
    /// The meter was read.
    Watched { now: UtcTime, reading: Option<Reading> },
    /// The host restarted and took up the saved state.
    Restarted,
}

/// The policy after a step.
pub open spec fn stepped(dispatch: AxleSelfDispatch, step: Step) -> AxleSelfDispatch {
    match step {
        Step::Answered { answer, now } => dispatch.answered(answer, now),
        Step::Decided { limits, now, reading } => AxleSelfDispatch {
            state: dispatch.state.after_decision(limits, now, reading),
            ..dispatch
        },
        Step::Finished { now } => AxleSelfDispatch {
            state: State {
                owned: dispatch.state.owned && dispatch.state.is_active(now),
                ..dispatch.state
            },
            ..dispatch
        },
        Step::Attempted { now, failed } => AxleSelfDispatch {
            last_attempt: Some(now),
            write_failed: failed,
            ..dispatch
        },
        Step::Watched { now, reading } => dispatch.watched(now, reading),
        Step::Restarted => AxleSelfDispatch {
            state: dispatch.state,
            last_attempt: None,
            verified_flow: false,
            write_failed: false,
        },
    }
}

/// The policy after a sequence of steps.
pub open spec fn dispatch_after(dispatch: AxleSelfDispatch, steps: Seq<Step>) -> AxleSelfDispatch
    decreases steps.len(),
{
    if steps.len() == 0 {
        dispatch
    } else {
        stepped(dispatch_after(dispatch, steps.drop_last()), steps.last())
    }
}

/// The step does not change the event: where the feed answers, it confirms the same one.
pub open spec fn keeps_event(step: Step, event: Option<AxleEvent>) -> bool {
    step matches Step::Answered { answer, now } ==> upcoming(answer, now) == event
}

proof fn lemma_limit_is_kept(dispatch: AxleSelfDispatch, steps: Seq<Step>)
    requires
        dispatch.state.limited,
        forall|k: int|
            0 <= k < steps.len() ==> keeps_event(#[trigger] steps[k], dispatch.state.event),
    ensures
        dispatch_after(dispatch, steps).state.limited,
        dispatch_after(dispatch, steps).state.event == dispatch.state.event,
    decreases steps.len(),
{
    if steps.len() > 0 {
        let earlier = steps.drop_last();
        assert forall|k: int| 0 <= k < earlier.len() implies keeps_event(
            #[trigger] earlier[k],
            dispatch.state.event,
        ) by {
            assert(earlier[k] == steps[k]);
        }
        lemma_limit_is_kept(dispatch, earlier);
        assert(keeps_event(steps[steps.len() - 1], dispatch.state.event));
    }
}

/// Once a battery was at its limit, the rest of the event is passive, over any sequence of
/// decisions, of answers that confirm the same event, of attempts and of restarts with the
/// saved state: the limit stays set, every action rests with no power, and no retry is due.
pub proof fn law_limit_latches_over_any_sequence(
    dispatch: AxleSelfDispatch,
    steps: Seq<Step>,
    now: UtcTime,
    limits: BatteryLimits,
    reading: Option<Reading>,
)
    requires
        dispatch.state.limited,
        forall|k: int|
            0 <= k < steps.len() ==> keeps_event(#[trigger] steps[k], dispatch.state.event),
    ensures
        dispatch_after(dispatch, steps).state.limited,
        dispatch_after(dispatch, steps).state.event == dispatch.state.event,
        forall|action: Action, energy_kw: Binary64|
            dispatch.state.is_active(now) && #[trigger] is_decided(
                action,
                dispatch_after(dispatch, steps).state,
                limits,
                now,
                reading,
                energy_kw,
            ) ==> action.mode == DispatchMode::Resting && action.power_kw == (Binary64 {
                bits: ZERO,
            }),
        !dispatch_after(dispatch, steps).is_retry_due(now, reading),
{
    lemma_limit_is_kept(dispatch, steps);
}

} // verus!
