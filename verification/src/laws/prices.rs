//! Laws of price slots and of export rewards.
use crate::binary64::Binary64;
use crate::events::{AxleDirection, AxleForecast};
use crate::export::{
    slot_at, slot_of, slots_of, ExportPriceError, ExportPriceSlot, ExportPriceSource,
    OctopusExports,
};
use crate::import::{priced, ImportError, ImportSlot, ImportSource, OctopusImports};
use crate::json::Json;
use crate::laws::time::{is_ordinary, nanos_since_epoch};
use crate::octopus::{products_address, products_query, rates_address, rates_query};
use crate::prices::{
    are_enriched, has_slot_end, is_enriched, is_usable_forecast, may_give_export, overlap,
    ExportSlot,
};
use crate::slots::{
    is_barren, is_first, is_in_range, is_tidy, lemma_slot_was_published, lists, stems, Timed,
};
use crate::utc::{instant_in_message, instant_in_query, lemma_at, rfc3339_time, UtcTime};
use vstd::prelude::*;

verus! {

/// The slot was published, and none before it started at the same instant.
pub open spec fn was_published_first<T: Timed>(slot: T, published: Seq<T>) -> bool {
    exists|k: int|
        0 <= k < published.len() && #[trigger] published[k] == slot && (forall|j: int|
            0 <= j < k ==> (#[trigger] published[j]).starts().rank() != slot.starts().rank())
}

/// The slots of a range start in it, each after the one before; each is the first published
/// with its start, and each first published with a start in the range is among them.
pub proof fn law_ranges_hold_the_first_published_slots<T: Timed>(
    tidy: Seq<T>,
    published: Seq<T>,
    start: UtcTime,
    end: UtcTime,
)
    requires
        is_tidy(tidy, published, start, end),
    ensures
        forall|i: int|
            0 <= i < tidy.len() ==> start.rank() <= (#[trigger] tidy[i]).starts().rank()
                < end.rank(),
        forall|i: int, j: int|
            0 <= i < j < tidy.len() ==> (#[trigger] tidy[i]).starts().rank() < (
            #[trigger] tidy[j]).starts().rank(),
        forall|i: int|
            0 <= i < tidy.len() ==> #[trigger] was_published_first(tidy[i], published),
        forall|k: int|
            #![trigger published[k]]
            0 <= k < published.len() && start.rank() <= published[k].starts().rank() < end.rank()
                && (forall|j: int|
                0 <= j < k ==> (#[trigger] published[j]).starts().rank()
                    != published[k].starts().rank()) ==> exists|i: int|
                0 <= i < tidy.len() && #[trigger] tidy[i] == published[k],
{
    assert forall|i: int| 0 <= i < tidy.len() implies start.rank() <= (
    #[trigger] tidy[i]).starts().rank() < end.rank() by {
        let k = lemma_slot_was_published(tidy, published, start, end, i);
    }
    assert forall|i: int| 0 <= i < tidy.len() implies #[trigger] was_published_first(
        tidy[i],
        published,
    ) by {
        assert(stems(tidy[i], published));
        let k = choose|k: int|
            0 <= k < published.len() && (#[trigger] published[k]) == tidy[i] && is_first(
                published,
                k,
            );
        assert(published[k] == tidy[i]);
    }
    assert forall|k: int|
        #![trigger published[k]]
        0 <= k < published.len() && start.rank() <= published[k].starts().rank() < end.rank() && (
        forall|j: int|
            0 <= j < k ==> (#[trigger] published[j]).starts().rank()
                != published[k].starts().rank()) implies exists|i: int|
        0 <= i < tidy.len() && #[trigger] tidy[i] == published[k] by {
        assert(is_in_range(published[k], start, end));
        assert(lists(tidy, published[k]));
        let i = choose|i: int|
            0 <= i < tidy.len() && (#[trigger] tidy[i]).starts().rank()
                == published[k].starts().rank();
        assert(stems(tidy[i], published));
        let m = choose|m: int|
            0 <= m < published.len() && (#[trigger] published[m]) == tidy[i] && is_first(
                published,
                m,
            );
        if m < k {
            assert(published[m].starts().rank() != published[k].starts().rank());
        } else if k < m {
            assert(published[k].starts().rank() != published[m].starts().rank());
        }
    }
}

/// An answer with a slot in the range gives the slots of the range, which are not none; one
/// without gives that error; and an error of the source is handed on.
pub proof fn law_import_slots_are_given_where_published<S: ImportSource>(
    client: OctopusImports<S>,
    start: UtcTime,
    end: UtcTime,
    r: Result<Vec<ImportSlot>, ImportError>,
)
    requires
        client.may_give(start, end, r),
    ensures
        exists|answer: Result<Vec<ImportSlot>, ImportError>|
            {
                &&& #[trigger] client.source.may_answer(
                    client.cfg.import_product@,
                    client.cfg.import_tariff@,
                    start,
                    end,
                    answer,
                )
                &&& answer is Err ==> r == answer
                &&& answer matches Ok(published) ==> match r {
                    Ok(slots) => slots@.len() > 0 && is_tidy(slots@, published@, start, end),
                    Err(error) => {
                        &&& forall|k: int|
                            0 <= k < published@.len() ==> !(start.rank() <= (
                            #[trigger] published@[k]).start.rank() < end.rank())
                        &&& error matches ImportError::Unavailable(reason) && reason@
                            == "no usable slots from "@ + instant_in_message(
                            start.secs(),
                            start.nanos(),
                        ) + " to "@ + instant_in_message(end.secs(), end.nanos())
                    },
                }
            },
{
    let answer = choose|answer: Result<Vec<ImportSlot>, ImportError>|
        #[trigger] client.source.may_answer(
            client.cfg.import_product@,
            client.cfg.import_tariff@,
            start,
            end,
            answer,
        ) && crate::import::is_selection(r, answer, start, end);
    if let Ok(published) = answer {
        if is_barren(published@, start, end) {
            assert forall|k: int| 0 <= k < published@.len() implies !(start.rank() <= (
            #[trigger] published@[k]).start.rank() < end.rank()) by {
                assert(!is_in_range(published@[k], start, end));
            }
        } else {
            let k = choose|k: int|
                0 <= k < published@.len() && is_in_range(#[trigger] published@[k], start, end);
            assert(lists(r->Ok_0@, published@[k]));
        }
    }
}

/// Without a product and a tariff there are no export prices. With both, an answer with a slot
/// in the range gives the slots of the range, which are not none; one without gives that
/// error; and an error of the source is handed on.
pub proof fn law_export_slots_are_given_where_published<S: ExportPriceSource>(
    client: OctopusExports<S>,
    start: UtcTime,
    end: UtcTime,
    r: Result<Vec<ExportPriceSlot>, ExportPriceError>,
)
    requires
        client.may_give(start, end, r),
    ensures
        client.cfg.export_product@.len() == 0 || client.cfg.export_tariff@.len() == 0 ==> (r matches
            Err(ExportPriceError::Unavailable(reason)) && reason@
            == "export product and tariff are not configured"@),
        client.cfg.export_product@.len() > 0 && client.cfg.export_tariff@.len() > 0 ==> exists|
            answer: Result<Vec<ExportPriceSlot>, ExportPriceError>,
        |
            {
                &&& #[trigger] client.source.may_answer(
                    client.cfg.export_product@,
                    client.cfg.export_tariff@,
                    start,
                    end,
                    answer,
                )
                &&& answer is Err ==> r == answer
                &&& answer matches Ok(published) ==> match r {
                    Ok(slots) => slots@.len() > 0 && is_tidy(slots@, published@, start, end),
                    Err(error) => {
                        &&& forall|k: int|
                            0 <= k < published@.len() ==> !(start.rank() <= (
                            #[trigger] published@[k]).start.rank() < end.rank())
                        &&& error matches ExportPriceError::Unavailable(reason) && reason@
                            == "no usable slots from "@ + instant_in_message(
                            start.secs(),
                            start.nanos(),
                        )
                    },
                }
            },
{
    if client.cfg.export_product@.len() > 0 && client.cfg.export_tariff@.len() > 0 {
        let answer = choose|answer: Result<Vec<ExportPriceSlot>, ExportPriceError>|
            #[trigger] client.source.may_answer(
                client.cfg.export_product@,
                client.cfg.export_tariff@,
                start,
                end,
                answer,
            ) && crate::export::is_selection(r, answer, start, end);
        if let Ok(published) = answer {
            if is_barren(published@, start, end) {
                assert forall|k: int| 0 <= k < published@.len() implies !(start.rank() <= (
                #[trigger] published@[k]).start.rank() < end.rank()) by {
                    assert(!is_in_range(published@[k], start, end));
                }
            } else {
                let k = choose|k: int|
                    0 <= k < published@.len() && is_in_range(#[trigger] published@[k], start, end);
                assert(lists(r->Ok_0@, published@[k]));
            }
        }
    }
}

/// Of a response, the slots with a finite price are kept, one for one and in their order,
/// and no other.
pub proof fn law_finite_prices_are_kept(published: Seq<ImportSlot>, slot: ImportSlot)
    ensures
        priced(Seq::empty()).len() == 0,
        slot.price_p_per_kwh.spec_is_finite() ==> priced(published.push(slot)) == priced(
            published,
        ).push(slot),
        !slot.price_p_per_kwh.spec_is_finite() ==> priced(published.push(slot)) == priced(
            published,
        ),
{
    reveal(Seq::filter);
    assert(published.push(slot).drop_last() =~= published);
}

/// A row with a readable `valid_from` and a finite number under `value_inc_vat` is one slot
/// with these two, behind those of the rows before it; any other row is none.
pub proof fn law_rows_with_start_and_price_are_slots(rows: Seq<Json>, row: Json)
    ensures
        slots_of(Seq::empty()).len() == 0,
        match (row.spec_text_field("valid_from"@), row.spec_number_field("value_inc_vat"@)) {
            (Some(text), Some(price)) => if rfc3339_time(text@) is Some && price.spec_is_finite() {
                slots_of(rows.push(row)) == slots_of(rows).push(
                    ExportPriceSlot {
                        start: rfc3339_time(text@)->0,
                        price_p_per_kwh: price,
                    },
                )
            } else {
                slots_of(rows.push(row)) == slots_of(rows)
            },
            _ => slots_of(rows.push(row)) == slots_of(rows),
        },
        forall|start: UtcTime, price: Binary64|
            #![trigger slot_at(Some(start), Some(price))]
            slot_at(Some(start), Some(price)) is Some <==> price.spec_is_finite(),
{
    assert(rows.push(row).drop_last() =~= rows);
    assert(slot_of(row) == slot_of(rows.push(row).last()));
}

/// The nanoseconds that the half-hour from an instant on and an event have in common.
pub open spec fn common_nanos(start: UtcTime, forecast: AxleForecast) -> int {
    let opens = nanos_since_epoch(start);
    let closes = opens + 1_800_000_000_000;
    let begins = nanos_since_epoch(forecast.event.start_time);
    let ends = nanos_since_epoch(forecast.event.end_time);
    let from = if opens < begins {
        begins
    } else {
        opens
    };
    let to = if ends < closes {
        ends
    } else {
        closes
    };
    if from < to {
        to - from
    } else {
        0
    }
}

/// The overlap of a slot is the length of what the half-hour and the event have in common, in
/// whole milliseconds.
pub proof fn law_overlap_is_the_length_of_the_intersection(start: UtcTime, forecast: AxleForecast)
    requires
        start.valid(),
        is_ordinary(start),
        is_ordinary(forecast.event.start_time),
        is_ordinary(forecast.event.end_time),
        has_slot_end(start),
    ensures
        overlap(start, forecast) * 1_000_000 <= common_nanos(start, forecast) < (overlap(
            start,
            forecast,
        ) + 1) * 1_000_000,
        has_slot_end(start) <==> start.secs() + 1800 <= 8_210_266_876_799,
{
    lemma_at(start.secs() + 1800, start.nanos() % 1_000_000_000);
}

/// Every slot of the tariff comes out once, in its place and with its own start and price. An
/// export event adds its rate for the whole milliseconds that it shares with the slot; where
/// it shares none, and without an export event, nothing is added.
pub proof fn law_slots_carry_the_reward_of_the_intersection(
    slots: Seq<ExportSlot>,
    tariffs: Seq<ExportPriceSlot>,
    axle: Option<AxleForecast>,
    i: int,
)
    requires
        are_enriched(slots, tariffs, axle),
        0 <= i < tariffs.len(),
    ensures
        slots.len() == tariffs.len(),
        slots[i].start == tariffs[i].start,
        slots[i].tariff_p_per_kwh == tariffs[i].price_p_per_kwh,
        axle is None || axle->0.event.direction == AxleDirection::Import ==> {
            &&& slots[i].axle_reward.rate_p_per_kwh.bits == 0
            &&& slots[i].axle_reward.overlap_millis == 0
        },
        axle matches Some(forecast) && forecast.event.direction == AxleDirection::Export
            && tariffs[i].start.valid() && is_ordinary(tariffs[i].start) && is_ordinary(
            forecast.event.start_time,
        ) && is_ordinary(forecast.event.end_time) && tariffs[i].start.secs() + 1800
            <= 8_210_266_876_799 ==> {
            let share = slots[i].axle_reward;
            let common = common_nanos(tariffs[i].start, axle->0);
            &&& share.overlap_millis * 1_000_000 <= common < (share.overlap_millis + 1) * 1_000_000
            &&& common >= 1_000_000 ==> share.rate_p_per_kwh == axle->0.reward_p_per_kwh
            &&& common < 1_000_000 ==> share.rate_p_per_kwh.bits == 0
        },
{
    assert(is_enriched(slots[i], tariffs[i], axle));
    if let Some(forecast) = axle {
        let start = tariffs[i].start;
        if start.valid() && is_ordinary(start) && is_ordinary(forecast.event.start_time)
            && is_ordinary(forecast.event.end_time) && start.secs() + 1800 <= 8_210_266_876_799 {
            law_overlap_is_the_length_of_the_intersection(start, forecast);
        }
    }
}

/// A forecast can be used where its reward is finite and not below zero and its event is in
/// order; and no forecast can always be.
pub proof fn law_forecasts_are_usable_with_reward_and_order(forecast: AxleForecast)
    ensures
        is_usable_forecast(None),
        is_usable_forecast(Some(forecast)) <==> {
            &&& forecast.reward_p_per_kwh.spec_is_finite()
            &&& (Binary64 { bits: 0 }).le(forecast.reward_p_per_kwh)
            &&& forecast.event.is_ordered()
        },
{
}

/// What the client gives for the tariff decides: its slots come out with rewards where the
/// forecast can be used, and as that error where not; its error is handed on.
pub proof fn law_export_prices_are_the_tariff_with_rewards<S: ExportPriceSource>(
    client: OctopusExports<S>,
    start: UtcTime,
    end: UtcTime,
    axle: Option<AxleForecast>,
    r: Result<Vec<ExportSlot>, ExportPriceError>,
)
    requires
        may_give_export(client, start, end, axle, r),
    ensures
        r matches Ok(slots) ==> (axle is None || is_usable_forecast(axle)) && exists|
            tariffs: Vec<ExportPriceSlot>,
        |
            #[trigger] client.may_give(start, end, Ok(tariffs)) && slots@.len() == tariffs@.len()
                && are_enriched(slots@, tariffs@, axle),
        r matches Err(error) ==> client.may_give(start, end, Err(error)) || axle is Some
            && !is_usable_forecast(axle) && (error matches ExportPriceError::Unavailable(reason)
            && reason@ == "invalid Axle reward forecast"@),
{
    let tariffs = choose|tariffs: Result<Vec<ExportPriceSlot>, ExportPriceError>|
        #[trigger] client.may_give(start, end, tariffs) && match tariffs {
            Err(error) => r == Err::<Vec<ExportSlot>, ExportPriceError>(error),
            Ok(tariffs) => if is_usable_forecast(axle) {
                r matches Ok(slots) && are_enriched(slots@, tariffs@, axle)
            } else {
                r matches Err(ExportPriceError::Unavailable(reason)) && reason@
                    == "invalid Axle reward forecast"@
            },
        };
    if let Ok(given) = tariffs {
        assert(client.may_give(start, end, Ok(given)));
    }
}

/// The addresses of requests hold the ends of the range, in this order, as requests write
/// instants.
pub proof fn law_requests_hold_the_ends_of_the_range(
    product: Seq<char>,
    tariff: Seq<char>,
    from: UtcTime,
    to: UtcTime,
)
    ensures
        rates_address(product, tariff, from, to) == rates_query(
            product,
            tariff,
            instant_in_query(from.secs(), from.nanos()),
            instant_in_query(to.secs(), to.nanos()),
        ),
        products_address(from) == products_query(instant_in_query(from.secs(), from.nanos())),
{
}

/// Requests name the product, the tariff and the range, each once and as it is given.
pub proof fn law_requests_name_what_is_asked_for(
    product: Seq<char>,
    tariff: Seq<char>,
    from: Seq<char>,
    to: Seq<char>,
)
    ensures
        rates_query(product, tariff, from, to) == "https://api.octopus.energy/v1"@ + "/products/"@
            + product + "/electricity-tariffs/"@ + tariff + "/standard-unit-rates/?period_from="@
            + from + "&period_to="@ + to + "&page_size=100"@,
        products_query(from) == "https://api.octopus.energy/v1"@
            + "/products/?brand=OCTOPUS_ENERGY&is_business=false&is_prepay=false&is_variable=true&available_at="@
            + from + "&page_size=100"@,
{
}

} // verus!
