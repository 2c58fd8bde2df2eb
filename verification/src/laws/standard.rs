//! Laws of the comparison rate.
use crate::binary64::Binary64;
use crate::config::{region_of, MarketConfig};
use crate::json::Json;
use crate::standard::{
    is_active_rate, is_chosen_product, is_chosen_rate, is_flexible, is_latest_product,
    is_latest_rate, is_unavailable, pause, product_of, products_of, rate_of, rates_of, taken_up, tariff_code,
    OctopusStandardTariff, PageStep, Priced, Product, ProductPages, RateQuote, StandardTariff,
    StandardTariffError, StandardTariffSource, StoredRate,
};
use crate::utc::{lemma_at, rfc3339_time, UtcTime};
use vstd::prelude::*;

verus! {

/// The quote is of the payment method, holds from now or earlier, and ends later than now if
/// it ends at all.
pub open spec fn holds_now(quote: RateQuote, method: Seq<char>, now: UtcTime) -> bool {
    &&& quote.payment_method@ == method
    &&& quote.valid_from.rank() <= now.rank()
    &&& quote.valid_to is None || now.rank() < quote.valid_to->0.rank()
}

/// With a quote that holds now there is a rate, and its price is that of the quote that holds
/// since last, of several the last quoted. Without one there is none, and the error names
/// payment method and tariff. An error of the source is handed on.
pub proof fn law_rate_is_the_latest_quote_that_holds(
    r: Result<StoredRate, StandardTariffError>,
    quotes: Vec<RateQuote>,
    product: Seq<char>,
    tariff: Seq<char>,
    method: Seq<char>,
    now: UtcTime,
    k: int,
)
    requires
        is_chosen_rate(r, Ok(quotes), product, tariff, method, now),
    ensures
        0 <= k < quotes@.len() && holds_now(quotes@[k], method, now) ==> r is Ok,
        r matches Ok(rate) ==> {
            &&& rate.version == 1
            &&& rate.product@ == product
            &&& rate.tariff@ == tariff
            &&& rate.payment_method@ == method
            &&& rate.fetched_at == now
            &&& exists|j: int|
                0 <= j < quotes@.len() && holds_now(#[trigger] quotes@[j], method, now)
                    && rate.price_p_per_kwh == quotes@[j].price_p_per_kwh
            &&& 0 <= k < quotes@.len() && holds_now(quotes@[k], method, now) && (forall|j: int|
                0 <= j < quotes@.len() && j != k && holds_now(#[trigger] quotes@[j], method, now)
                    ==> quotes@[j].valid_from.rank() < quotes@[k].valid_from.rank() || j < k
                    && quotes@[j].valid_from.rank() == quotes@[k].valid_from.rank())
                ==> rate.price_p_per_kwh == quotes@[k].price_p_per_kwh
        },
        r matches Err(error) ==> (error matches StandardTariffError::Unavailable(reason) && reason@
            == "no active "@ + method + " rate for "@ + tariff),
        forall|given: StandardTariffError, s: Result<StoredRate, StandardTariffError>|
            #[trigger] is_chosen_rate(s, Err(given), product, tariff, method, now) ==> s == Err::<
                StoredRate,
                StandardTariffError,
            >(given),
{
    if 0 <= k < quotes@.len() && holds_now(quotes@[k], method, now) {
        assert(is_active_rate(quotes@[k], method, now));
    }
    if let Ok(rate) = r {
        let j = choose|j: int|
            #[trigger] is_latest_rate(quotes@, method, now, j) && rate.price_p_per_kwh
                == quotes@[j].price_p_per_kwh;
        assert(is_active_rate(quotes@[j], method, now));
        assert(holds_now(quotes@[j], method, now));
        if 0 <= k < quotes@.len() && holds_now(quotes@[k], method, now) && j != k {
            assert(is_active_rate(quotes@[k], method, now));
        }
    }
}

proof fn lemma_no_product_is_listed(
    r: Result<String, StandardTariffError>,
    products: Vec<Product>,
)
    requires
        is_chosen_product(r, Ok(products)),
        r is Err,
    ensures
        is_unavailable(r->Err_0, "no active Flexible Octopus product was returned"@),
        forall|j: int|
            0 <= j < products@.len() ==> (#[trigger] products@[j]).display_name@
                != "Flexible Octopus"@,
{
    let answer: Result<Vec<Product>, StandardTariffError> = Ok(products);
    assert(is_chosen_product(r, answer));
    assert(answer->Ok_0 == products);
    assert forall|j: int| 0 <= j < products@.len() implies (#[trigger] products@[j]).display_name@
        != "Flexible Octopus"@ by {
        assert(!is_flexible(products@[j]));
    }
}

/// With a product of the comparison's name there is one to compare with, and it is the one on
/// sale since last, of several the last listed. Without one there is none. An error of the
/// source is handed on.
pub proof fn law_product_is_the_latest_of_its_name(
    r: Result<String, StandardTariffError>,
    products: Vec<Product>,
    k: int,
)
    requires
        is_chosen_product(r, Ok(products)),
    ensures
        0 <= k < products@.len() && products@[k].display_name@ == "Flexible Octopus"@ ==> r is Ok,
        r matches Ok(code) ==> {
            &&& exists|j: int|
                0 <= j < products@.len() && (#[trigger] products@[j]).display_name@
                    == "Flexible Octopus"@ && code@ == products@[j].code@
            &&& 0 <= k < products@.len() && products@[k].display_name@ == "Flexible Octopus"@ && (
            forall|j: int|
                0 <= j < products@.len() && j != k && (#[trigger] products@[j]).display_name@
                    == "Flexible Octopus"@ ==> products@[j].available_from.rank()
                    < products@[k].available_from.rank() || j < k
                    && products@[j].available_from.rank() == products@[k].available_from.rank())
                ==> code@ == products@[k].code@
        },
        r matches Err(error) ==> (error matches StandardTariffError::Unavailable(reason) && reason@
            == "no active Flexible Octopus product was returned"@),
        forall|given: StandardTariffError, s: Result<String, StandardTariffError>|
            #[trigger] is_chosen_product(s, Err(given)) ==> s == Err::<String, StandardTariffError>(
                given,
            ),
{
    if r is Err {
        lemma_no_product_is_listed(r, products);
    }
    if let Ok(code) = r {
        let j = choose|j: int|
            #[trigger] is_latest_product(products@, j) && code@ == products@[j].code@;
        assert(is_flexible(products@[j]));
        if 0 <= k < products@.len() && products@[k].display_name@ == "Flexible Octopus"@ && j != k {
            assert(is_flexible(products@[k]));
        }
    }
}

/// A rate that was looked up is of a product that the source lists, of that product's tariff
/// in the region of the import tariff, and has the price of a quote that the source gives for
/// just these and that holds now for the configured payment method.
pub proof fn law_resolved_rates_come_from_the_source<S: StandardTariffSource>(
    client: OctopusStandardTariff<S>,
    now: UtcTime,
    rate: StoredRate,
)
    requires
        client.may_resolve(now, Ok(rate)),
    ensures
        region_of(client.cfg.import_tariff@) is Some,
        rate.tariff@ == "E-1R-"@ + rate.product@ + seq![
            '-',
            region_of(client.cfg.import_tariff@)->0,
        ],
        rate.payment_method@ == client.cfg.standard_payment_method@,
        rate.version == 1,
        rate.fetched_at == now,
        exists|products: Vec<Product>|
            #[trigger] client.source.may_list(now, Ok(products)) && exists|j: int|
                0 <= j < products@.len() && (#[trigger] products@[j]).display_name@
                    == "Flexible Octopus"@ && products@[j].code@ == rate.product@,
        exists|quotes: Vec<RateQuote>|
            #[trigger] client.source.may_quote(rate.product@, rate.tariff@, now, Ok(quotes))
                && exists|j: int|
                0 <= j < quotes@.len() && holds_now(
                    #[trigger] quotes@[j],
                    client.cfg.standard_payment_method@,
                    now,
                ) && quotes@[j].price_p_per_kwh == rate.price_p_per_kwh,
{
    let found: Result<StoredRate, StandardTariffError> = Ok(rate);
    let region = region_of(client.cfg.import_tariff@)->0;
    let (answer, product) = choose|
        answer: Result<Vec<Product>, StandardTariffError>,
        product: Result<String, StandardTariffError>,
    |
        #[trigger] client.source.may_list(now, answer) && #[trigger] is_chosen_product(
            product,
            answer,
        ) && match product {
            Ok(code) => client.may_price(code@, now, found),
            Err(error) => false,
        };
    let code = product->Ok_0@;
    assert(client.may_price(code, now, found));
    let method = client.cfg.standard_payment_method@;
    let tariff = tariff_code(code, region);
    let quoted = choose|quoted: Result<Vec<RateQuote>, StandardTariffError>|
        #[trigger] client.source.may_quote(code, tariff, now, quoted) && is_chosen_rate(
            found,
            quoted,
            code,
            tariff,
            method,
            now,
        );
    assert(quoted is Ok);
    assert(answer is Ok);
    law_rate_is_the_latest_quote_that_holds(found, quoted->Ok_0, code, tariff, method, now, -1);
    law_product_is_the_latest_of_its_name(product, answer->Ok_0, -1);
    assert(seq!['-'] + seq![region] =~= seq!['-', region]);
    assert(client.source.may_list(now, Ok(answer->Ok_0)));
    assert(client.source.may_quote(rate.product@, rate.tariff@, now, Ok(quoted->Ok_0)));
}

/// Without a region in the import tariff there is no rate, and the source has no say.
pub proof fn law_rates_need_a_region<S: StandardTariffSource>(
    client: OctopusStandardTariff<S>,
    now: UtcTime,
    r: Result<StoredRate, StandardTariffError>,
)
    requires
        client.may_resolve(now, r),
        region_of(client.cfg.import_tariff@) is None,
    ensures
        r matches Err(StandardTariffError::Unavailable(reason)) && reason@
            == "the configured import tariff has no valid GSP region"@,
{
}

/// A saved rate is taken up exactly where it is of version 1, its tariff ends with a hyphen
/// and the region of the import tariff, its payment method is the configured one, and its
/// price is finite and not below zero.
pub proof fn law_saved_rates_are_taken_up_for_region_and_method(
    rate: StoredRate,
    cfg: MarketConfig,
)
    ensures
        taken_up(None, cfg) is None,
        taken_up(Some(rate), cfg) is Some ==> taken_up(Some(rate), cfg) == Some(rate),
        taken_up(Some(rate), cfg) is Some <==> {
            let tariff = rate.tariff@;
            &&& rate.version == 1
            &&& region_of(cfg.import_tariff@) is Some
            &&& tariff.len() >= 2 && tariff[tariff.len() - 2] == '-' && Some(tariff.last())
                == region_of(cfg.import_tariff@)
            &&& rate.payment_method@ == cfg.standard_payment_method@
            &&& rate.price_p_per_kwh.spec_is_finite()
            &&& (Binary64 { bits: 0 }).le(rate.price_p_per_kwh)
        },
{
    let tariff = rate.tariff@;
    if let Some(region) = region_of(cfg.import_tariff@) {
        let suffix = seq!['-'] + seq![region];
        assert(suffix.len() == 2 && suffix[0] == '-' && suffix[1] == region);
        if tariff.len() >= 2 {
            let end = tariff.subrange(tariff.len() - 2, tariff.len() as int);
            assert(end[0] == tariff[tariff.len() - 2] && end[1] == tariff.last());
            if tariff[tariff.len() - 2] == '-' && tariff.last() == region {
                assert(end =~= suffix);
            }
        }
    }
}

/// What a look-up found is the price until the next; a failure leaves the price as it was; and
/// the next is due six hours after a success and half an hour after a failure.
pub proof fn law_lookups_set_price_and_schedule<S: StandardTariffSource>(
    before: StandardTariff<S>,
    after: StandardTariff<S>,
    outcome: Result<StoredRate, StandardTariffError>,
    now: UtcTime,
)
    requires
        now.valid(),
        after.cfg == before.cfg,
        after.takes(before, outcome, now),
    ensures
        outcome matches Ok(rate) ==> {
            &&& after.current == Some(rate)
            &&& after.price() == rate.price_p_per_kwh
            &&& after.next_fetch_at.secs() == now.secs() + 6 * 3600
        },
        outcome is Err ==> {
            &&& after.current == before.current
            &&& after.price() == before.price()
            &&& after.next_fetch_at.secs() == now.secs() + 30 * 60
        },
        after.current is None ==> after.price() == after.cfg.standard_tariff_p,
        now.nanos() < 1_000_000_000 ==> after.next_fetch_at.nanos() == now.nanos(),
        forall|later: UtcTime|
            #[trigger] after.is_due(later) <==> after.next_fetch_at.rank() <= later.rank(),
{
    lemma_at(now.secs() + pause(outcome is Ok), now.nanos() % 1_000_000_000);
}

/// A request gives the price that is known after it. Before a look-up is due nothing changes,
/// and there is nothing to save and no failure. Once it is due, what the source comes to is
/// either taken up and to be saved, or left with its failure and the price as it was. The
/// settings and the client never change.
pub proof fn law_requests_look_up_when_due<S: StandardTariffSource>(
    before: StandardTariff<S>,
    after: StandardTariff<S>,
    now: UtcTime,
    priced: Priced,
)
    requires
        now.valid(),
        after.follows(before, now, priced),
    ensures
        after.cfg == before.cfg,
        after.client == before.client,
        after.current matches Some(rate) ==> priced.price_p_per_kwh == rate.price_p_per_kwh,
        after.current is None ==> priced.price_p_per_kwh == before.cfg.standard_tariff_p,
        now.rank() < before.next_fetch_at.rank() ==> after == before && !priced.save
            && priced.failure is None,
        before.next_fetch_at.rank() <= now.rank() ==> {
            &&& priced.save <==> priced.failure is None
            &&& priced.save ==> after.current is Some && before.client.may_resolve(
                now,
                Ok(after.current->0),
            ) && after.next_fetch_at.secs() == now.secs() + 6 * 3600
            &&& !priced.save ==> after.current == before.current && before.client.may_resolve(
                now,
                Err(priced.failure->0),
            ) && after.next_fetch_at.secs() == now.secs() + 30 * 60
        },
{
    if before.is_due(now) {
        let outcome = choose|outcome: Result<StoredRate, StandardTariffError>|
            {
                &&& #[trigger] before.client.may_resolve(now, outcome)
                &&& after.takes(before, outcome, now)
                &&& priced.save == outcome is Ok
                &&& priced.failure == match outcome {
                    Ok(_) => None,
                    Err(error) => Some(error),
                }
            };
        law_lookups_set_price_and_schedule(before, after, outcome, now);
        match outcome {
            Ok(rate) => {
                assert(before.client.may_resolve(now, Ok(rate)));
            },
            Err(error) => {
                assert(before.client.may_resolve(now, Err(error)));
            },
        }
    }
}

/// A row with texts under `code`, `display_name` and `available_from`, the last of which can be
/// read, is one product with these, behind those of the rows before it; any other row is none.
pub proof fn law_rows_with_code_name_and_time_are_products(rows: Seq<Json>, row: Json)
    ensures
        products_of(Seq::empty()).len() == 0,
        match (
            row.spec_text_field("code"@),
            row.spec_text_field("display_name"@),
            row.spec_text_field("available_from"@),
        ) {
            (Some(code), Some(display_name), Some(text)) => if rfc3339_time(text@) is Some {
                products_of(rows.push(row)) == products_of(rows).push(
                    Product { code, display_name, available_from: rfc3339_time(text@)->0 },
                )
            } else {
                products_of(rows.push(row)) == products_of(rows)
            },
            _ => products_of(rows.push(row)) == products_of(rows),
        },
{
    assert(rows.push(row).drop_last() =~= rows);
    assert(product_of(row) == product_of(rows.push(row).last()));
}

/// A row with a finite number under `value_inc_vat`, a text under `payment_method` and a
/// readable `valid_from` is one quote with these, behind those of the rows before it; it ends
/// where `valid_to` says, or not at all where that is no text. Any other row, and one whose
/// `valid_to` is a text that cannot be read, is none.
pub proof fn law_rows_with_price_method_and_time_are_quotes(rows: Seq<Json>, row: Json)
    ensures
        rates_of(Seq::empty()).len() == 0,
        ({
            let until = row.spec_text_field("valid_to"@);
            match (
                row.spec_number_field("value_inc_vat"@),
                row.spec_text_field("payment_method"@),
                row.spec_text_field("valid_from"@),
            ) {
                (Some(price), Some(payment_method), Some(text)) => {
                    let readable = until is None || rfc3339_time(until->0@) is Some;
                    if rfc3339_time(text@) is Some && price.spec_is_finite() && readable {
                        rates_of(rows.push(row)) == rates_of(rows).push(
                            RateQuote {
                                price_p_per_kwh: price,
                                payment_method,
                                valid_from: rfc3339_time(text@)->0,
                                valid_to: if until is None {
                                    None
                                } else {
                                    rfc3339_time(until->0@)
                                },
                            },
                        )
                    } else {
                        rates_of(rows.push(row)) == rates_of(rows)
                    }
                },
                _ => rates_of(rows.push(row)) == rates_of(rows),
            }
        }),
{
    assert(rows.push(row).drop_last() =~= rows);
    assert(rate_of(row) == rate_of(rows.push(row).last()));
}

/// Pages are fetched from the supplier's own address alone and ten at most; without a next
/// page the reading is done, and a page adds its products behind the earlier and names the
/// next.
pub proof fn law_pages_are_followed_within_bounds(
    pages: ProductPages,
    step: PageStep,
    after: ProductPages,
    payload: Json,
)
    requires
        pages.goes_on_by(step),
    ensures
        step matches PageStep::Fetch(url) ==> {
            &&& pages.next matches Some(next) && next@ == url@
            &&& "https://api.octopus.energy/v1"@.is_prefix_of(url@)
            &&& pages.pages < 10
        },
        step is Done <==> pages.next is None,
        pages.next matches Some(url) ==> pages.pages < 10
            && "https://api.octopus.energy/v1"@.is_prefix_of(url@) ==> step is Fetch,
        step matches PageStep::Failed(error) ==> (error matches StandardTariffError::Unavailable(
            reason,
        ) && if pages.pages >= 10 {
            reason@ == "Octopus products response exceeded the pagination limit"@
        } else {
            reason@ == "Octopus returned an unexpected products page URL"@
        }),
        after.follows_on(pages, payload) ==> {
            &&& after.pages == pages.pages + 1
            &&& after.next == payload.spec_text_field("next"@)
            &&& after.products@ == pages.products@ + products_of(payload.spec_results())
        },
{
}

} // verus!
