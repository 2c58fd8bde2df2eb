//! Import and export prices of a range, with the reward of an expected event.
use crate::binary64::{Binary64, ZERO};
use crate::config::{is_reward, reward_is_usable};
use crate::events::{AxleDirection, AxleForecast};
use crate::export::{
    lemma_slots_stem_from_an_answer, ExportPriceError, ExportPriceSlot, ExportPriceSource,
    OctopusExports,
};
use crate::import::{ImportError, ImportSlot, ImportSource, OctopusImports};
use crate::slots::{is_in_range, lemma_slot_was_published};
use crate::utc::{
    elapsed_millis, is_midnight_leap, lemma_at, lemma_nanos_are_counted, second_of_day, UtcTime,
};
use std::ops::Range;
use vstd::prelude::*;

verus! {

/// Seconds of a price slot.
pub const SLOT_SECS: u32 = 1800;

/// Milliseconds of a price slot.
pub const SLOT_MILLIS: i64 = 1_800_000;

/// A reward for part of a slot: `rate_p_per_kwh` for `overlap_millis` of its 1,800,000
/// milliseconds, at constant export power.
#[derive(Debug, Clone, Copy, PartialEq)]
pub struct RewardShare {
    pub rate_p_per_kwh: Binary64,
    pub overlap_millis: i64,
}

/// One half-hour of export prices. The reward is additional to the supplier tariff: the
/// price is the tariff plus the rate times the share of the slot. Slots are equal where start,
/// tariff, rate and overlap are; the host compares the products.
#[derive(Debug, Clone, Copy, PartialEq)]
pub struct ExportSlot {
    pub start: UtcTime,
    pub tariff_p_per_kwh: Binary64,
    pub axle_reward: RewardShare,
}

/// Fetch the published import prices within the requested UTC range.
/// Missing and unpublished slots are never filled with invented prices.
pub fn get_import<S: ImportSource>(client: &OctopusImports<S>, horizon: Range<UtcTime>) -> (r:
    Result<Vec<ImportSlot>, ImportError>)
    ensures
        client.may_give(horizon.start, horizon.end, r),
{
    client.get_slots(horizon.start, horizon.end)
}

/// The forecast can be used: its reward is a finite number not below zero, and its event
/// is in order and of a day at most.
pub open spec fn is_usable_forecast(axle: Option<AxleForecast>) -> bool {
    axle matches Some(forecast) ==> is_reward(forecast.reward_p_per_kwh)
        && forecast.event.is_ordered()
}

/// The forecast promises a reward for export.
pub open spec fn rewards_export(axle: Option<AxleForecast>) -> bool {
    axle matches Some(forecast) && forecast.event.direction == AxleDirection::Export
}

/// The calendar has the end of a slot with this start.
pub open spec fn has_slot_end(start: UtcTime) -> bool {
    start.spec_delayed(SLOT_SECS as int) is Some
}

/// The end of a slot.
pub open spec fn slot_end(start: UtcTime) -> UtcTime {
    start.spec_delayed(SLOT_SECS as int)->0
}

/// The milliseconds that a slot and an event have in common.
pub open spec fn overlap(start: UtcTime, forecast: AxleForecast) -> int {
    let from = start.spec_later(forecast.event.start_time);
    let to = slot_end(start).spec_earlier(forecast.event.end_time);
    let millis = elapsed_millis(from, to);
    if millis < 0 {
        0
    } else if millis > SLOT_MILLIS {
        SLOT_MILLIS as int
    } else {
        millis
    }
}

/// A slot with its reward. Only export events earn export rewards, and only in the slots that
/// they reach into.
pub open spec fn is_enriched(
    slot: ExportSlot,
    tariff: ExportPriceSlot,
    axle: Option<AxleForecast>,
) -> bool {
    &&& slot.start == tariff.start
    &&& slot.tariff_p_per_kwh == tariff.price_p_per_kwh
    &&& if rewards_export(axle) && overlap(tariff.start, axle->0) > 0 {
        &&& slot.axle_reward.rate_p_per_kwh == axle->0.reward_p_per_kwh
        &&& slot.axle_reward.overlap_millis == overlap(tariff.start, axle->0)
    } else {
        &&& slot.axle_reward.rate_p_per_kwh.bits == ZERO
        &&& slot.axle_reward.overlap_millis == 0
    }
}

/// All slots with their rewards, in their order.
pub open spec fn are_enriched(
    slots: Seq<ExportSlot>,
    tariffs: Seq<ExportPriceSlot>,
    axle: Option<AxleForecast>,
) -> bool {
    &&& slots.len() == tariffs.len()
    &&& forall|i: int| 0 <= i < slots.len() ==> is_enriched(#[trigger] slots[i], tariffs[i], axle)
}

fn overlap_of(start: UtcTime, forecast: &AxleForecast) -> (r: i64)
    requires
        has_slot_end(start),
    ensures
        r == overlap(start, *forecast),
{
    let from = start.later(forecast.event.start_time);
    let to = start.delayed(SLOT_SECS).unwrap().earlier(forecast.event.end_time);
    let millis = to.millis_since(from);
    if millis < 0 {
        0
    } else if millis > SLOT_MILLIS {
        SLOT_MILLIS
    } else {
        millis
    }
}

/// Add the reward of an expected event to the slots of the supplier's tariff.
pub fn with_axle(tariffs: &Vec<ExportPriceSlot>, axle: Option<AxleForecast>) -> (r: Result<
    Vec<ExportSlot>,
    ExportPriceError,
>)
    requires
        is_usable_forecast(axle) && rewards_export(axle) ==> forall|i: int|
            0 <= i < tariffs@.len() ==> has_slot_end((#[trigger] tariffs@[i]).start),
    ensures
        r is Ok <==> is_usable_forecast(axle),
        match r {
            Ok(slots) => are_enriched(slots@, tariffs@, axle),
            Err(error) => error matches ExportPriceError::Unavailable(reason) && reason@
                == "invalid Axle reward forecast"@,
        },
{
    if let Some(forecast) = axle {
        if !reward_is_usable(forecast.reward_p_per_kwh) || !forecast.event.ordered() {
            return Err(
                ExportPriceError::Unavailable("invalid Axle reward forecast".to_owned()),
            );
        }
    }
    let mut slots: Vec<ExportSlot> = Vec::new();
    let mut i: usize = 0;
    while i < tariffs.len()
        invariant
            i <= tariffs@.len(),
            slots@.len() == i,
            is_usable_forecast(axle),
            rewards_export(axle) ==> forall|j: int|
                0 <= j < tariffs@.len() ==> has_slot_end((#[trigger] tariffs@[j]).start),
            forall|j: int| 0 <= j < i ==> is_enriched(#[trigger] slots@[j], tariffs@[j], axle),
        decreases tariffs@.len() - i,
    {
        let tariff = tariffs[i];
        let mut axle_reward = RewardShare {
            rate_p_per_kwh: Binary64 { bits: ZERO },
            overlap_millis: 0,
        };
        if let Some(forecast) = axle {
            if forecast.event.direction == AxleDirection::Export {
                let overlap_millis: i64 = overlap_of(tariff.start, &forecast);
                if overlap_millis > 0 {
                    axle_reward =
                    RewardShare { rate_p_per_kwh: forecast.reward_p_per_kwh, overlap_millis };
                }
            }
        }
        slots.push(
            ExportSlot {
                start: tariff.start,
                tariff_p_per_kwh: tariff.price_p_per_kwh,
                axle_reward,
            },
        );
        i += 1;
    }
    Ok(slots)
}

/// What may come of a request for export prices: what came of the tariff, with rewards.
pub open spec fn may_give_export<S: ExportPriceSource>(
    client: OctopusExports<S>,
    start: UtcTime,
    end: UtcTime,
    axle: Option<AxleForecast>,
    r: Result<Vec<ExportSlot>, ExportPriceError>,
) -> bool {
    exists|tariffs: Result<Vec<ExportPriceSlot>, ExportPriceError>|
        #[trigger] client.may_give(start, end, tariffs) && match tariffs {
            Err(error) => r == Err::<Vec<ExportSlot>, ExportPriceError>(error),
            Ok(tariffs) => if is_usable_forecast(axle) {
                r matches Ok(slots) && are_enriched(slots@, tariffs@, axle)
            } else {
                r matches Err(ExportPriceError::Unavailable(reason)) && reason@
                    == "invalid Axle reward forecast"@
            },
        }
}

/// The calendar has the end of every slot of a range that the client's source may answer with.
pub open spec fn has_slot_ends<S: ExportPriceSource>(
    client: OctopusExports<S>,
    start: UtcTime,
    end: UtcTime,
) -> bool {
    forall|published: Vec<ExportPriceSlot>, k: int|
        #![trigger client.source.may_answer(
            client.cfg.export_product@,
            client.cfg.export_tariff@,
            start,
            end,
            Ok(published),
        ), published@[k]]
        client.source.may_answer(
            client.cfg.export_product@,
            client.cfg.export_tariff@,
            start,
            end,
            Ok(published),
        ) && 0 <= k < published@.len() && is_in_range(published@[k], start, end) ==> has_slot_end(
            published@[k].start,
        )
}

/// Fetch export prices with an optional Axle reward forecast.
///
/// Only export events earn export rewards. A partial-slot event is weighted by
/// its overlap with the half-hour, assuming constant export power in that slot.
/// Both components are exposed so exact event-window planners can use the raw
/// tariff and event separately without counting the reward twice. The configured
/// reward is an estimate, not a reward rate returned by Axle or a settlement.
pub fn get_export<S: ExportPriceSource>(
    client: &OctopusExports<S>,
    horizon: Range<UtcTime>,
    axle: Option<AxleForecast>,
) -> (r: Result<Vec<ExportSlot>, ExportPriceError>)
    requires
        is_usable_forecast(axle) && rewards_export(axle) ==> has_slot_end(horizon.end)
            || has_slot_ends(*client, horizon.start, horizon.end),
    ensures
        may_give_export(*client, horizon.start, horizon.end, axle, r),
{
    let given = client.get_slots(horizon.start, horizon.end);
    let ghost tariffs = given;
    let r = match given {
        Ok(slots) => {
            proof {
                use_type_invariant(&horizon.end);
                if has_slot_end(horizon.end) || has_slot_ends(
                    *client,
                    horizon.start,
                    horizon.end,
                ) {
                    lemma_slots_end_in_the_calendar(*client, horizon.start, horizon.end, slots);
                }
            }
            with_axle(&slots, axle)
        },
        Err(error) => Err(error),
    };
    assert(client.may_give(horizon.start, horizon.end, tariffs));
    r
}

/// The slots that a client gives for a range start before its end, and stem from what its
/// source may answer, so that the calendar has their ends where it has an instant half an hour
/// past the range, or the end of every slot of the range that the source may answer with.
proof fn lemma_slots_end_in_the_calendar<S: ExportPriceSource>(
    client: OctopusExports<S>,
    start: UtcTime,
    end: UtcTime,
    slots: Vec<ExportPriceSlot>,
)
    requires
        end.valid(),
        client.may_give(start, end, Ok(slots)),
        has_slot_end(end) || has_slot_ends(client, start, end),
    ensures
        forall|i: int| 0 <= i < slots@.len() ==> has_slot_end((#[trigger] slots@[i]).start),
{
    let published = lemma_slots_stem_from_an_answer(client, start, end, slots);
    assert forall|i: int| 0 <= i < slots@.len() implies has_slot_end(
        (#[trigger] slots@[i]).start,
    ) by {
        let k = lemma_slot_was_published(slots@, published@, start, end, i);
        let slot = published@[k];
        assert(is_in_range(slot, start, end));
        lemma_nanos_are_counted(slot.start);
        assert(has_slot_end(slot.start));
    }
}

/// A reward is for no more than the whole of a slot. An event that is over before a slot
/// starts, or starts when the slot is over, earns nothing in it, and one that spans the slot
/// earns for all of it. The time from a leap second into the next day is counted short, and
/// that to a leap second at the end of a day long: such slots and events are left out where
/// that matters.
pub proof fn law_rewards_are_limited_to_the_overlap(start: UtcTime, forecast: AxleForecast)
    requires
        start.valid(),
        has_slot_end(start),
        forecast.event.start_time.valid(),
        forecast.event.end_time.valid(),
        forecast.event.start_time.rank() < forecast.event.end_time.rank(),
    ensures
        0 <= overlap(start, forecast) <= SLOT_MILLIS,
        forecast.event.end_time.rank() <= start.rank() && !is_midnight_leap(
            forecast.event.end_time,
        ) ==> overlap(start, forecast) == 0,
        slot_end(start).rank() <= forecast.event.start_time.rank() ==> overlap(start, forecast)
            == 0,
        forecast.event.start_time.rank() <= start.rank() && slot_end(start).rank()
            <= forecast.event.end_time.rank() && (start.nanos() < 1_000_000_000 || second_of_day(
            start,
        ) + SLOT_SECS < 86_400) ==> overlap(start, forecast) == SLOT_MILLIS,
{
    lemma_at(start.secs() + SLOT_SECS, start.nanos() % 1_000_000_000);
}

/// An import event adds nothing: the slots are those without a forecast.
pub proof fn law_import_events_add_no_export_reward(
    with_event: Seq<ExportSlot>,
    plain: Seq<ExportSlot>,
    tariffs: Seq<ExportPriceSlot>,
    forecast: AxleForecast,
)
    requires
        forecast.event.direction == AxleDirection::Import,
        are_enriched(with_event, tariffs, Some(forecast)),
        are_enriched(plain, tariffs, None),
    ensures
        with_event == plain,
{
    assert forall|i: int| 0 <= i < plain.len() implies with_event[i] == #[trigger] plain[i] by {
        assert(is_enriched(with_event[i], tariffs[i], Some(forecast)));
    }
    assert(with_event =~= plain);
}

/// The slots of a tariff with a forecast are determined: start and tariff are the supplier's
/// own, one for one and in their order, and only the reward is added.
pub proof fn law_rewards_leave_the_tariff_alone(
    slots: Seq<ExportSlot>,
    tariffs: Seq<ExportPriceSlot>,
    axle: Option<AxleForecast>,
)
    requires
        are_enriched(slots, tariffs, axle),
    ensures
        slots.map_values(
            |slot: ExportSlot|
                ExportPriceSlot { start: slot.start, price_p_per_kwh: slot.tariff_p_per_kwh },
        ) == tariffs,
{
    let raw = slots.map_values(
        |slot: ExportSlot|
            ExportPriceSlot { start: slot.start, price_p_per_kwh: slot.tariff_p_per_kwh },
    );
    assert forall|i: int| 0 <= i < tariffs.len() implies raw[i] == #[trigger] tariffs[i] by {
        assert(is_enriched(slots[i], tariffs[i], axle));
    }
    assert(raw =~= tariffs);
}

} // verus!
