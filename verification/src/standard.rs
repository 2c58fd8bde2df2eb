//! Regional Flexible Octopus price used for the no-battery comparison.
//!
//! Octopus publishes the active Flexible product and regional unit rates via its public
//! interface. The last successful result is persisted so a restart or a temporary outage
//! does not reset the savings baseline.
use crate::binary64::{Binary64, ZERO};
use crate::config::{region_of, MarketConfig};
use crate::json::Json;
use crate::octopus::{
    api_base, api_base_text, products_address, products_url, rates_address, rates_url,
};
use crate::text::{ends_with, same, starts_with};
use crate::utc::{lemma_at, read_time, rfc3339_time, time_of, UtcTime, MAX_SECS};
use vstd::prelude::*;

verus! {

/// The version of a saved rate.
pub const CACHE_VERSION: u8 = 1;

/// Seconds after which a rate is looked up again.
pub const REFRESH_AFTER_SECS: u32 = 21_600;

/// Seconds after which a failed look-up is tried again.
pub const RETRY_AFTER_SECS: u32 = 1_800;

/// The pages of products that are read at most.
pub const MAX_PRODUCT_PAGES: usize = 10;

/// The name of the file that holds the rate, by custom.
pub const STANDARD_TARIFF_FILE_NAME: &'static str = "standard-tariff.json";

/// Why there is no rate.
#[derive(Debug)]
pub enum StandardTariffError {
    Unavailable(String),
    Http(String),
}

impl StandardTariffError {
    /// The error as a message.
    pub fn message(&self) -> (r: String)
        ensures
            r@ == match self {
                StandardTariffError::Unavailable(reason) => "Flexible Octopus tariff unavailable: "@
                    + reason@,
                StandardTariffError::Http(reason) => "Octopus standard-tariff request failed: "@
                    + reason@,
            },
    {
        match self {
            StandardTariffError::Unavailable(reason) => "Flexible Octopus tariff unavailable: "
                .to_owned().concat(reason.as_str()),
            StandardTariffError::Http(reason) => "Octopus standard-tariff request failed: "
                .to_owned().concat(reason.as_str()),
        }
    }
}

/// A failure with a reason.
pub open spec fn is_unavailable(error: StandardTariffError, reason: Seq<char>) -> bool {
    error matches StandardTariffError::Unavailable(text) && text@ == reason
}

fn unavailable(reason: &str) -> (r: StandardTariffError)
    ensures
        is_unavailable(r, reason@),
{
    StandardTariffError::Unavailable(reason.to_owned())
}

/// A product on sale.
#[derive(Debug, PartialEq)]
pub struct Product {
    pub code: String,
    pub display_name: String,
    pub available_from: UtcTime,
}

impl Clone for Product {
    fn clone(&self) -> (r: Product)
        ensures
            r == *self,
    {
        Product {
            code: self.code.clone(),
            display_name: self.display_name.clone(),
            available_from: self.available_from,
        }
    }
}

/// A rate of a tariff.
#[derive(Debug, PartialEq)]
pub struct RateQuote {
    pub price_p_per_kwh: Binary64,
    pub payment_method: String,
    pub valid_from: UtcTime,
    pub valid_to: Option<UtcTime>,
}

impl Clone for RateQuote {
    fn clone(&self) -> (r: RateQuote)
        ensures
            r == *self,
    {
        RateQuote {
            price_p_per_kwh: self.price_p_per_kwh,
            payment_method: self.payment_method.clone(),
            valid_from: self.valid_from,
            valid_to: self.valid_to,
        }
    }
}

/// The product of a code, a name and a time from which it is on sale.
pub open spec fn product_from(
    code: Option<String>,
    display_name: Option<String>,
    available_from: Option<UtcTime>,
) -> Option<Product> {
    match (code, display_name, available_from) {
        (Some(code), Some(display_name), Some(available_from)) => Some(
            Product { code, display_name, available_from },
        ),
        _ => None,
    }
}

/// The product of a row that has all its fields.
pub open spec fn product_of(row: Json) -> Option<Product> {
    product_from(
        row.spec_text_field("code"@),
        row.spec_text_field("display_name"@),
        time_of(row.spec_text_field("available_from"@)),
    )
}

/// The products of the rows that have one.
pub open spec fn products_of(rows: Seq<Json>) -> Seq<Product>
    decreases rows.len(),
{
    if rows.len() == 0 {
        Seq::empty()
    } else {
        match product_of(rows.last()) {
            Some(product) => products_of(rows.drop_last()).push(product),
            None => products_of(rows.drop_last()),
        }
    }
}

/// The rate of a finite price, a payment method and a time from which it holds. `valid_to` is
/// the time until which it holds, where one is given, unless that cannot be read: then there
/// is no rate.
pub open spec fn rate_from(
    price: Option<Binary64>,
    payment_method: Option<String>,
    valid_from: Option<UtcTime>,
    valid_to: Option<Option<UtcTime>>,
) -> Option<RateQuote> {
    match (price, payment_method, valid_from) {
        (Some(price_p_per_kwh), Some(payment_method), Some(valid_from)) => {
            if price_p_per_kwh.spec_is_finite() && valid_to != Some(None::<UtcTime>) {
                Some(
                    RateQuote {
                        price_p_per_kwh,
                        payment_method,
                        valid_from,
                        valid_to: match valid_to {
                            Some(end) => end,
                            None => None,
                        },
                    },
                )
            } else {
                None
            }
        },
        _ => None,
    }
}

/// The rate of a row. An end that is not there leaves the rate open; an end that cannot be
/// read, or a price that is no finite number, makes the row no rate.
pub open spec fn rate_of(row: Json) -> Option<RateQuote> {
    rate_from(
        row.spec_number_field("value_inc_vat"@),
        row.spec_text_field("payment_method"@),
        time_of(row.spec_text_field("valid_from"@)),
        match row.spec_text_field("valid_to"@) {
            Some(end) => Some(rfc3339_time(end@)),
            None => None,
        },
    )
}

/// The rates of the rows that have one.
pub open spec fn rates_of(rows: Seq<Json>) -> Seq<RateQuote>
    decreases rows.len(),
{
    if rows.len() == 0 {
        Seq::empty()
    } else {
        match rate_of(rows.last()) {
            Some(rate) => rates_of(rows.drop_last()).push(rate),
            None => rates_of(rows.drop_last()),
        }
    }
}

/// The product of a code, a name and a time from which it is on sale.
pub fn product_with(
    code: Option<String>,
    display_name: Option<String>,
    available_from: Option<UtcTime>,
) -> (r: Option<Product>)
    ensures
        r == product_from(code, display_name, available_from),
{
    match (code, display_name, available_from) {
        (Some(code), Some(display_name), Some(available_from)) => Some(
            Product { code, display_name, available_from },
        ),
        _ => None,
    }
}

fn product_row(row: &Json) -> (r: Option<Product>)
    ensures
        r == product_of(*row),
{
    product_with(
        row.text_field("code"),
        row.text_field("display_name"),
        read_time(row.text_field("available_from")),
    )
}

/// The rate of a finite price, a payment method and a time from which it holds. `valid_to` is
/// the time until which it holds, where one is given, unless that cannot be read: then there
/// is no rate.
pub fn rate_with(
    price: Option<Binary64>,
    payment_method: Option<String>,
    valid_from: Option<UtcTime>,
    valid_to: Option<Option<UtcTime>>,
) -> (r: Option<RateQuote>)
    ensures
        r == rate_from(price, payment_method, valid_from, valid_to),
{
    let valid_to = match valid_to {
        Some(None) => {
            return None;
        },
        Some(end) => end,
        None => None,
    };
    match (price, payment_method, valid_from) {
        (Some(price_p_per_kwh), Some(payment_method), Some(valid_from)) => {
            if price_p_per_kwh.is_finite() {
                Some(RateQuote { price_p_per_kwh, payment_method, valid_from, valid_to })
            } else {
                None
            }
        },
        _ => None,
    }
}

fn rate_row(row: &Json) -> (r: Option<RateQuote>)
    ensures
        r == rate_of(*row),
{
    let valid_to = match row.text_field("valid_to") {
        Some(end) => Some(UtcTime::parse(end.as_str())),
        None => None,
    };
    rate_with(
        row.number_field("value_inc_vat"),
        row.text_field("payment_method"),
        read_time(row.text_field("valid_from")),
        valid_to,
    )
}

/// The rates of a response. A row that is no rate is passed over.
pub fn rate_quotes(payload: &Json) -> (r: Vec<RateQuote>)
    ensures
        r@ == rates_of(payload.spec_results()),
{
    let mut rates: Vec<RateQuote> = Vec::new();
    let rows = match payload.results() {
        Some(rows) => rows,
        None => {
            return rates;
        },
    };
    let mut i: usize = 0;
    while i < rows.len()
        invariant
            i <= rows@.len(),
            rates@ == rates_of(rows@.take(i as int)),
        decreases rows@.len() - i,
    {
        assert(rows@.take(i + 1).drop_last() =~= rows@.take(i as int));
        if let Some(rate) = rate_row(&rows[i]) {
            rates.push(rate);
        }
        i += 1;
    }
    assert(rows@.take(i as int) =~= rows@);
    rates
}

/// The pages of products read so far, and the address of the next.
#[derive(Debug)]
pub struct ProductPages {
    pub next: Option<String>,
    pub pages: usize,
    pub products: Vec<Product>,
}

/// How the reading of products goes on.
#[derive(Debug)]
pub enum PageStep {
    /// Fetch the page at this address.
    Fetch(String),
    /// All pages have been read.
    Done,
    /// The pages cannot be read.
    Failed(StandardTariffError),
}

impl ProductPages {
    /// Begin with the first page of the variable products on sale at an instant.
    pub fn new(at: UtcTime) -> (r: ProductPages)
        ensures
            r.next matches Some(url) && url@ == products_address(at),
            r.pages == 0,
            r.products@ == Seq::<Product>::empty(),
    {
        ProductPages { next: Some(products_url(at)), pages: 0, products: Vec::new() }
    }

    /// The step by which the reading goes on.
    pub open spec fn goes_on_by(self, step: PageStep) -> bool {
        match self.next {
            None => step is Done,
            Some(url) => if self.pages >= MAX_PRODUCT_PAGES {
                step matches PageStep::Failed(error) && is_unavailable(
                    error,
                    "Octopus products response exceeded the pagination limit"@,
                )
            } else if !api_base().is_prefix_of(url@) {
                step matches PageStep::Failed(error) && is_unavailable(
                    error,
                    "Octopus returned an unexpected products page URL"@,
                )
            } else {
                step matches PageStep::Fetch(address) && address@ == url@
            },
        }
    }

    /// How to go on. Only so many pages are read, and none from another address.
    pub fn step(&self) -> (r: PageStep)
        ensures
            self.goes_on_by(r),
    {
        match &self.next {
            None => PageStep::Done,
            Some(url) => if self.pages >= MAX_PRODUCT_PAGES {
                PageStep::Failed(
                    unavailable("Octopus products response exceeded the pagination limit"),
                )
            } else if !starts_with(url.as_str(), api_base_text()) {
                PageStep::Failed(unavailable("Octopus returned an unexpected products page URL"))
            } else {
                PageStep::Fetch(url.clone())
            },
        }
    }

    /// This is what taking in a page makes of the pages read before.
    pub open spec fn follows_on(self, before: ProductPages, payload: Json) -> bool {
        &&& self.pages == before.pages + 1
        &&& self.next == payload.spec_text_field("next"@)
        &&& self.products@ == before.products@ + products_of(payload.spec_results())
    }

    /// Take in a page: its products, and the address of the next where it gives one. A row
    /// that is no product is passed over.
    pub fn take_in(&mut self, payload: &Json)
        requires
            old(self).pages < MAX_PRODUCT_PAGES,
        ensures
            final(self).follows_on(*old(self), *payload),
    {
        self.pages = self.pages + 1;
        self.next = payload.text_field("next");
        let rows = match payload.results() {
            Some(rows) => rows,
            None => {
                assert(self.products@ + products_of(Seq::empty()) =~= self.products@);
                return;
            },
        };
        let ghost before = self.products@;
        let ghost pages = self.pages;
        let ghost next = self.next;
        let mut i: usize = 0;
        assert(before + products_of(rows@.take(0)) =~= before);
        while i < rows.len()
            invariant
                i <= rows@.len(),
                self.pages == pages,
                self.next == next,
                self.products@ == before + products_of(rows@.take(i as int)),
            decreases rows@.len() - i,
        {
            assert(rows@.take(i + 1).drop_last() =~= rows@.take(i as int));
            if let Some(product) = product_row(&rows[i]) {
                self.products.push(product);
            }
            assert(self.products@ =~= before + products_of(rows@.take(i + 1)));
            i += 1;
        }
        assert(rows@.take(i as int) =~= rows@);
    }
}

/// The address of the rates of a tariff that hold at an instant.
pub fn current_rates_url(product: &str, tariff: &str, at: UtcTime) -> (r: String)
    requires
        at.secs() + 1 <= MAX_SECS,
    ensures
        r@ == rates_address(product@, tariff@, at, at.spec_delayed(1)->0),
{
    let until = at.delayed(1).unwrap();
    rates_url(product, tariff, at, until)
}

/// Where products and rates come from.
pub trait StandardTariffSource: Send + Sync {
    /// What the source may list as on sale at an instant. A source that does not say may
    /// list anything.
    open spec fn may_list(
        &self,
        at: UtcTime,
        answer: Result<Vec<Product>, StandardTariffError>,
    ) -> bool {
        true
    }

    /// What the source may quote as the rates of a tariff at an instant. A source that does
    /// not say may quote anything.
    open spec fn may_quote(
        &self,
        product: Seq<char>,
        tariff: Seq<char>,
        at: UtcTime,
        answer: Result<Vec<RateQuote>, StandardTariffError>,
    ) -> bool {
        true
    }

    fn products(&self, at: UtcTime) -> (answer: Result<Vec<Product>, StandardTariffError>)
        ensures
            self.may_list(at, answer),
    ;

    fn rates(&self, product: &str, tariff: &str, at: UtcTime) -> (answer: Result<
        Vec<RateQuote>,
        StandardTariffError,
    >)
        ensures
            self.may_quote(product@, tariff@, at, answer),
    ;
}

/// A rate that was looked up, as it is saved.
#[derive(Debug, PartialEq)]
pub struct StoredRate {
    pub version: u8,
    pub product: String,
    pub tariff: String,
    pub payment_method: String,
    pub price_p_per_kwh: Binary64,
    pub fetched_at: UtcTime,
}

impl Clone for StoredRate {
    fn clone(&self) -> (r: StoredRate)
        ensures
            r == *self,
    {
        StoredRate {
            version: self.version,
            product: self.product.clone(),
            tariff: self.tariff.clone(),
            payment_method: self.payment_method.clone(),
            price_p_per_kwh: self.price_p_per_kwh,
            fetched_at: self.fetched_at,
        }
    }
}

impl StoredRate {
    /// The rate is of this version, of the region and payment method of the settings, and a
    /// finite number not below zero.
    pub open spec fn is_valid_for(self, cfg: MarketConfig) -> bool {
        &&& region_of(cfg.import_tariff@) matches Some(region) && (seq!['-'] + seq![region])
            .is_suffix_of(self.tariff@)
        &&& self.version == CACHE_VERSION
        &&& self.payment_method@ == cfg.standard_payment_method@
        &&& self.price_p_per_kwh.spec_is_finite()
        &&& (Binary64 { bits: ZERO }).le(self.price_p_per_kwh)
    }

    /// Whether a saved rate may be used with these settings.
    pub fn valid_for(&self, cfg: &MarketConfig) -> (r: bool)
        ensures
            r == self.is_valid_for(*cfg),
    {
        let suffix = match region_suffix(cfg) {
            Some(suffix) => suffix,
            None => {
                return false;
            },
        };
        self.version == CACHE_VERSION && ends_with(self.tariff.as_str(), suffix.as_str()) && same(
            self.payment_method.as_str(),
            cfg.standard_payment_method.as_str(),
        ) && self.price_p_per_kwh.is_finite() && (Binary64 { bits: ZERO }).at_most(
            self.price_p_per_kwh,
        )
    }
}

/// A hyphen and the region that the import tariff names.
fn region_suffix(cfg: &MarketConfig) -> (r: Option<String>)
    ensures
        r is Some == region_of(cfg.import_tariff@) is Some,
        r matches Some(suffix) ==> suffix@ == seq!['-'] + seq![region_of(cfg.import_tariff@)->0],
{
    if cfg.gsp_region().is_none() {
        return None;
    }
    let tariff = cfg.import_tariff.as_str();
    let n: usize = tariff.unicode_len();
    let mut suffix = "-".to_owned();
    suffix.append(tariff.substring_char(n - 1, n));
    proof {
        reveal_strlit("-");
        assert("-"@ =~= seq!['-']);
        assert(tariff@.subrange(n - 1, n as int) =~= seq![tariff@[n - 1]]);
    }
    Some(suffix)
}

/// The product is the comparison product.
pub open spec fn is_flexible(product: Product) -> bool {
    product.display_name@ == "Flexible Octopus"@
}

/// The place of the comparison product on sale since last; of several the last listed.
pub open spec fn is_latest_product(products: Seq<Product>, k: int) -> bool {
    &&& 0 <= k < products.len()
    &&& is_flexible(products[k])
    &&& forall|j: int|
        0 <= j < products.len() && is_flexible(#[trigger] products[j]) ==> {
            &&& products[j].available_from.rank() <= products[k].available_from.rank()
            &&& k < j ==> products[j].available_from.rank() < products[k].available_from.rank()
        }
}

/// The rate is of a payment method and holds at an instant.
pub open spec fn is_active_rate(rate: RateQuote, method: Seq<char>, now: UtcTime) -> bool {
    &&& rate.payment_method@ == method
    &&& rate.valid_from.rank() <= now.rank()
    &&& rate.valid_to matches Some(end) ==> now.rank() < end.rank()
}

/// The place of the rate that has held since last; of several the last quoted.
pub open spec fn is_latest_rate(
    rates: Seq<RateQuote>,
    method: Seq<char>,
    now: UtcTime,
    k: int,
) -> bool {
    &&& 0 <= k < rates.len()
    &&& is_active_rate(rates[k], method, now)
    &&& forall|j: int|
        0 <= j < rates.len() && is_active_rate(#[trigger] rates[j], method, now) ==> {
            &&& rates[j].valid_from.rank() <= rates[k].valid_from.rank()
            &&& k < j ==> rates[j].valid_from.rank() < rates[k].valid_from.rank()
        }
}

/// The code of the comparison product that an answer of the source comes to.
pub open spec fn is_chosen_product(
    r: Result<String, StandardTariffError>,
    answer: Result<Vec<Product>, StandardTariffError>,
) -> bool {
    match answer {
        Err(error) => r == Err::<String, StandardTariffError>(error),
        Ok(products) => match r {
            Ok(code) => exists|k: int|
                #[trigger] is_latest_product(products@, k) && code@ == products@[k].code@,
            Err(error) => {
                &&& is_unavailable(error, "no active Flexible Octopus product was returned"@)
                &&& forall|k: int|
                    0 <= k < products@.len() ==> !is_flexible(#[trigger] products@[k])
            },
        },
    }
}

/// The code of the comparison product that an answer of the source comes to.
pub fn choose_product(answer: Result<Vec<Product>, StandardTariffError>) -> (r: Result<
    String,
    StandardTariffError,
>)
    ensures
        is_chosen_product(r, answer),
{
    let products = match answer {
        Ok(products) => products,
        Err(error) => {
            return Err(error);
        },
    };
    let mut chosen: Option<usize> = None;
    let mut i: usize = 0;
    while i < products.len()
        invariant
            i <= products@.len(),
            match chosen {
                Some(k) => k < i && is_latest_product(products@.take(i as int), k as int),
                None => forall|j: int|
                    0 <= j < i ==> !is_flexible(#[trigger] products@[j]),
            },
        decreases products@.len() - i,
    {
        let ghost some = products@.take(i as int);
        let ghost more = products@.take(i + 1);
        let better = match chosen {
            Some(k) => !products[i].available_from.before(products[k].available_from),
            None => true,
        };
        let flexible = same(products[i].display_name.as_str(), "Flexible Octopus");
        proof {
            assert forall|j: int| 0 <= j < i implies more[j] == #[trigger] some[j] by {}
            assert(more[i as int] == products@[i as int]);
            assert forall|j: int| 0 <= j < i implies products@[j] == #[trigger] more[j] by {}
            if chosen is Some {
                assert forall|j: int| 0 <= j < i && is_flexible(#[trigger] more[j]) implies {
                    &&& more[j].available_from.rank() <= more[chosen->0 as int].available_from.rank()
                    &&& chosen->0 < j ==> more[j].available_from.rank()
                        < more[chosen->0 as int].available_from.rank()
                } by {
                    assert(is_flexible(some[j]));
                }
            }
        }
        if flexible && better {
            chosen = Some(i);
        }
        i += 1;
    }
    assert(products@.take(i as int) =~= products@);
    match chosen {
        Some(k) => Ok(products[k].code.clone()),
        None => Err(unavailable("no active Flexible Octopus product was returned")),
    }
}

/// The tariff of a product in a region.
pub open spec fn tariff_code(product: Seq<char>, region: char) -> Seq<char> {
    "E-1R-"@ + product + (seq!['-'] + seq![region])
}

/// The rate that an answer of the source comes to.
pub open spec fn is_chosen_rate(
    r: Result<StoredRate, StandardTariffError>,
    answer: Result<Vec<RateQuote>, StandardTariffError>,
    product: Seq<char>,
    tariff: Seq<char>,
    method: Seq<char>,
    now: UtcTime,
) -> bool {
    match answer {
        Err(error) => r == Err::<StoredRate, StandardTariffError>(error),
        Ok(rates) => match r {
            Ok(rate) => {
                &&& rate.version == CACHE_VERSION
                &&& rate.product@ == product
                &&& rate.tariff@ == tariff
                &&& rate.payment_method@ == method
                &&& rate.fetched_at == now
                &&& exists|k: int|
                    #[trigger] is_latest_rate(rates@, method, now, k) && rate.price_p_per_kwh
                        == rates@[k].price_p_per_kwh
            },
            Err(error) => {
                &&& is_unavailable(error, "no active "@ + method + " rate for "@ + tariff)
                &&& forall|k: int|
                    0 <= k < rates@.len() ==> !is_active_rate(#[trigger] rates@[k], method, now)
            },
        },
    }
}

/// The rate that an answer of the source comes to: of those of the payment method that hold
/// at the instant, the one that has held since last.
pub fn choose_rate(
    answer: Result<Vec<RateQuote>, StandardTariffError>,
    product: String,
    tariff: String,
    method: &str,
    now: UtcTime,
) -> (r: Result<StoredRate, StandardTariffError>)
    ensures
        is_chosen_rate(r, answer, product@, tariff@, method@, now),
{
    let rates = match answer {
        Ok(rates) => rates,
        Err(error) => {
            return Err(error);
        },
    };
    let mut chosen: Option<usize> = None;
    let mut i: usize = 0;
    while i < rates.len()
        invariant
            i <= rates@.len(),
            match chosen {
                Some(k) => k < i && is_latest_rate(
                    rates@.take(i as int),
                    method@,
                    now,
                    k as int,
                ),
                None => forall|j: int|
                    0 <= j < i ==> !is_active_rate(#[trigger] rates@[j], method@, now),
            },
        decreases rates@.len() - i,
    {
        let ghost some = rates@.take(i as int);
        let ghost more = rates@.take(i + 1);
        let better = match chosen {
            Some(k) => !rates[i].valid_from.before(rates[k].valid_from),
            None => true,
        };
        let open = match rates[i].valid_to {
            Some(end) => now.before(end),
            None => true,
        };
        let active = same(rates[i].payment_method.as_str(), method) && !now.before(
            rates[i].valid_from,
        ) && open;
        proof {
            assert forall|j: int| 0 <= j < i implies more[j] == #[trigger] some[j] by {}
            assert(more[i as int] == rates@[i as int]);
            assert forall|j: int| 0 <= j < i implies rates@[j] == #[trigger] more[j] by {}
            if chosen is Some {
                assert forall|j: int|
                    0 <= j < i && is_active_rate(#[trigger] more[j], method@, now) implies {
                    &&& more[j].valid_from.rank() <= more[chosen->0 as int].valid_from.rank()
                    &&& chosen->0 < j ==> more[j].valid_from.rank()
                        < more[chosen->0 as int].valid_from.rank()
                } by {
                    assert(is_active_rate(some[j], method@, now));
                }
            }
        }
        if active && better {
            chosen = Some(i);
        }
        i += 1;
    }
    assert(rates@.take(i as int) =~= rates@);
    match chosen {
        Some(k) => Ok(
            StoredRate {
                version: CACHE_VERSION,
                product,
                tariff,
                payment_method: method.to_owned(),
                price_p_per_kwh: rates[k].price_p_per_kwh,
                fetched_at: now,
            },
        ),
        None => {
            let mut reason = "no active ".to_owned();
            reason.append(method);
            reason.append(" rate for ");
            reason.append(tariff.as_str());
            Err(StandardTariffError::Unavailable(reason))
        },
    }
}

/// The comparison rate of one region.
pub struct OctopusStandardTariff<S: StandardTariffSource> {
    pub cfg: MarketConfig,
    pub source: S,
}

impl<S: StandardTariffSource> OctopusStandardTariff<S> {
    /// Supply a source of products and rates.
    pub fn with_source(cfg: MarketConfig, source: S) -> (r: OctopusStandardTariff<S>)
        ensures
            r.cfg == cfg,
            r.source == source,
    {
        OctopusStandardTariff { cfg, source }
    }

    /// What may come of looking up the rate of a product in the region.
    pub open spec fn may_price(
        &self,
        product: Seq<char>,
        now: UtcTime,
        r: Result<StoredRate, StandardTariffError>,
    ) -> bool {
        let tariff = tariff_code(product, region_of(self.cfg.import_tariff@)->0);
        exists|answer: Result<Vec<RateQuote>, StandardTariffError>|
            #[trigger] self.source.may_quote(product, tariff, now, answer) && is_chosen_rate(
                r,
                answer,
                product,
                tariff,
                self.cfg.standard_payment_method@,
                now,
            )
    }

    /// What may come of looking up the rate.
    pub open spec fn may_resolve(
        &self,
        now: UtcTime,
        r: Result<StoredRate, StandardTariffError>,
    ) -> bool {
        if region_of(self.cfg.import_tariff@) is None {
            r matches Err(error) && is_unavailable(
                error,
                "the configured import tariff has no valid GSP region"@,
            )
        } else {
            exists|
                answer: Result<Vec<Product>, StandardTariffError>,
                product: Result<String, StandardTariffError>,
            |
                #[trigger] self.source.may_list(now, answer) && #[trigger] is_chosen_product(
                    product,
                    answer,
                ) && match product {
                    Ok(code) => self.may_price(code@, now, r),
                    Err(error) => r == Err::<StoredRate, StandardTariffError>(error),
                }
        }
    }

    /// Look up the rate that holds now: of the comparison product on sale since last, in the
    /// region of the import tariff and for the configured payment method.
    pub fn resolve(&self, now: UtcTime) -> (r: Result<StoredRate, StandardTariffError>)
        ensures
            self.may_resolve(now, r),
    {
        let suffix = match region_suffix(&self.cfg) {
            Some(suffix) => suffix,
            None => {
                return Err(unavailable("the configured import tariff has no valid GSP region"));
            },
        };
        let answer = self.source.products(now);
        let ghost listed = answer;
        let product = choose_product(answer);
        let ghost chosen = product;
        assert(self.source.may_list(now, listed) && is_chosen_product(chosen, listed));
        let code = match product {
            Ok(code) => code,
            Err(error) => {
                return Err(error);
            },
        };
        let mut tariff = "E-1R-".to_owned();
        tariff.append(code.as_str());
        tariff.append(suffix.as_str());
        let quoted = self.source.rates(code.as_str(), tariff.as_str(), now);
        let ghost quotes = quoted;
        let ghost key = code@;
        let rate = choose_rate(
            quoted,
            code,
            tariff,
            self.cfg.standard_payment_method.as_str(),
            now,
        );
        assert(self.may_price(key, now, rate)) by {
            assert(self.source.may_quote(
                key,
                tariff_code(key, region_of(self.cfg.import_tariff@)->0),
                now,
                quotes,
            ));
        }
        rate
    }
}

/// The rate to compare with, and what came of looking it up.
#[derive(Debug)]
pub struct Priced {
    pub price_p_per_kwh: Binary64,
    /// A new rate has to be saved.
    pub save: bool,
    /// Why a rate that was due could not be looked up.
    pub failure: Option<StandardTariffError>,
}

/// Seconds from a look-up to the next one: longer where it went well.
pub open spec fn pause(went_well: bool) -> int {
    if went_well {
        REFRESH_AFTER_SECS as int
    } else {
        RETRY_AFTER_SECS as int
    }
}

/// The calendar has the instant of the next look-up.
pub open spec fn is_schedulable(
    outcome: Result<StoredRate, StandardTariffError>,
    now: UtcTime,
) -> bool {
    now.spec_delayed(pause(outcome is Ok)) is Some
}

/// What of a saved rate is taken up with the settings.
pub open spec fn taken_up(saved: Option<StoredRate>, cfg: MarketConfig) -> Option<StoredRate> {
    match saved {
        Some(rate) => if rate.is_valid_for(cfg) {
            Some(rate)
        } else {
            None
        },
        None => None,
    }
}

/// Refreshes and persists the regional comparison rate while always retaining
/// a configured fallback for first boot without network access.
pub struct StandardTariff<S: StandardTariffSource> {
    pub cfg: MarketConfig,
    pub client: OctopusStandardTariff<S>,
    pub current: Option<StoredRate>,
    pub next_fetch_at: UtcTime,
}

impl<S: StandardTariffSource> StandardTariff<S> {
    /// Start with a saved rate, if it may be used with the settings. The rate is looked up
    /// when it is first asked for.
    pub fn with_client(
        cfg: MarketConfig,
        client: OctopusStandardTariff<S>,
        saved: Option<StoredRate>,
        now: UtcTime,
    ) -> (r: StandardTariff<S>)
        ensures
            r.cfg == cfg,
            r.client == client,
            r.current == taken_up(saved, cfg),
            r.next_fetch_at == now,
    {
        let current = match saved {
            Some(rate) => if rate.valid_for(&cfg) {
                Some(rate)
            } else {
                None
            },
            None => None,
        };
        StandardTariff { cfg, client, current, next_fetch_at: now }
    }

    /// The last rate that was looked up, or else the configured one.
    pub open spec fn price(&self) -> Binary64 {
        match self.current {
            Some(rate) => rate.price_p_per_kwh,
            None => self.cfg.standard_tariff_p,
        }
    }

    /// Take in what came of looking up the rate. A failure keeps the rate that is known.
    pub fn refresh(&mut self, outcome: Result<StoredRate, StandardTariffError>, now: UtcTime) -> (r:
        Priced)
        requires
            is_schedulable(outcome, now),
        ensures
            final(self).cfg == old(self).cfg,
            final(self).client == old(self).client,
            final(self).takes(*old(self), outcome, now),
            r.price_p_per_kwh == final(self).price(),
            r.save == outcome is Ok,
            r.failure == match outcome {
                Ok(_) => None,
                Err(error) => Some(error),
            },
    {
        match outcome {
            Ok(rate) => {
                let price_p_per_kwh = rate.price_p_per_kwh;
                self.current = Some(rate);
                self.next_fetch_at = now.delayed(REFRESH_AFTER_SECS).unwrap();
                Priced { price_p_per_kwh, save: true, failure: None }
            },
            Err(error) => {
                self.next_fetch_at = now.delayed(RETRY_AFTER_SECS).unwrap();
                Priced { price_p_per_kwh: self.known_price(), save: false, failure: Some(error) }
            },
        }
    }

    /// The rate that is known and the next look-up, once an outcome has been taken in.
    pub open spec fn takes(
        &self,
        before: StandardTariff<S>,
        outcome: Result<StoredRate, StandardTariffError>,
        now: UtcTime,
    ) -> bool {
        &&& self.current == match outcome {
            Ok(rate) => Some(rate),
            Err(_) => before.current,
        }
        &&& Some(self.next_fetch_at) == now.spec_delayed(pause(outcome is Ok))
    }

    /// The rate has to be looked up.
    pub open spec fn is_due(&self, now: UtcTime) -> bool {
        self.next_fetch_at.rank() <= now.rank()
    }

    /// This is what asking for the rate makes of it, and `priced` what comes back. Where no
    /// look-up is due nothing changes and the source has no say.
    pub open spec fn follows(
        &self,
        before: StandardTariff<S>,
        now: UtcTime,
        priced: Priced,
    ) -> bool {
        &&& self.cfg == before.cfg
        &&& self.client == before.client
        &&& priced.price_p_per_kwh == self.price()
        &&& if before.is_due(now) {
            exists|outcome: Result<StoredRate, StandardTariffError>|
                {
                    &&& #[trigger] before.client.may_resolve(now, outcome)
                    &&& self.takes(before, outcome, now)
                    &&& priced.save == outcome is Ok
                    &&& priced.failure == match outcome {
                        Ok(_) => None,
                        Err(error) => Some(error),
                    }
                }
        } else {
            &&& *self == before
            &&& !priced.save
            &&& priced.failure is None
        }
    }

    fn known_price(&self) -> (r: Binary64)
        ensures
            r == self.price(),
    {
        match &self.current {
            Some(rate) => rate.price_p_per_kwh,
            None => self.cfg.standard_tariff_p,
        }
    }

    /// The rate to compare with. It is looked up when that is due; a new one has to be saved.
    pub fn price_p_per_kwh(&mut self, now: UtcTime) -> (r: Priced)
        requires
            old(self).is_due(now) ==> forall|outcome: Result<StoredRate, StandardTariffError>|
                #[trigger] old(self).client.may_resolve(now, outcome) ==> is_schedulable(
                    outcome,
                    now,
                ),
        ensures
            final(self).follows(*old(self), now, r),
    {
        if now.before(self.next_fetch_at) {
            return Priced {
                price_p_per_kwh: self.known_price(),
                save: false,
                failure: None,
            };
        }
        let outcome = self.client.resolve(now);
        let ghost found = outcome;
        assert(old(self).client.may_resolve(now, found));
        self.refresh(outcome, now)
    }
}

/// A rate that was looked up can be used after a restart with the same settings, as long as
/// its price is a finite number not below zero.
pub proof fn law_resolved_rates_survive_a_restart<S: StandardTariffSource>(
    client: OctopusStandardTariff<S>,
    now: UtcTime,
    rate: StoredRate,
)
    requires
        client.may_resolve(now, Ok(rate)),
        rate.price_p_per_kwh.spec_is_finite(),
        (Binary64 { bits: ZERO }).le(rate.price_p_per_kwh),
    ensures
        rate.is_valid_for(client.cfg),
{
    let region = region_of(client.cfg.import_tariff@)->0;
    let (answer, product) = choose|
        answer: Result<Vec<Product>, StandardTariffError>,
        product: Result<String, StandardTariffError>,
    |
        #[trigger] client.source.may_list(now, answer) && #[trigger] is_chosen_product(
            product,
            answer,
        ) && match product {
            Ok(code) => client.may_price(code@, now, Ok(rate)),
            Err(error) => false,
        };
    let code = product->Ok_0@;
    assert(client.may_price(code, now, Ok(rate)));
    let suffix = seq!['-'] + seq![region];
    let tariff = tariff_code(code, region);
    assert(rate.tariff@ == tariff);
    assert(tariff.subrange(tariff.len() - suffix.len(), tariff.len() as int) =~= suffix);
}

/// An outage changes no price: a failed look-up keeps the rate that is known, and where none
/// is, the configured one holds.
pub proof fn law_outages_keep_the_price<S: StandardTariffSource>(
    before: StandardTariff<S>,
    after: StandardTariff<S>,
    error: StandardTariffError,
    now: UtcTime,
)
    requires
        after.cfg == before.cfg,
        after.takes(before, Err(error), now),
    ensures
        after.price() == before.price(),
        before.current is None ==> after.price() == before.cfg.standard_tariff_p,
{
}

/// A look-up, whatever came of it, puts the next one off: by half an hour where it failed
/// and by six hours where it did not.
pub proof fn law_lookups_are_spaced<S: StandardTariffSource>(
    before: StandardTariff<S>,
    after: StandardTariff<S>,
    outcome: Result<StoredRate, StandardTariffError>,
    now: UtcTime,
)
    requires
        now.valid(),
        after.takes(before, outcome, now),
    ensures
        now.rank() < after.next_fetch_at.rank(),
        after.next_fetch_at.secs() == now.secs() + pause(outcome is Ok),
        after.next_fetch_at.nanos() == now.nanos() % 1_000_000_000,
{
    lemma_at(now.secs() + pause(outcome is Ok), now.nanos() % 1_000_000_000);
}

/// A price that was looked up, or that a failed look-up left, is given again, with no further
/// look-up and nothing to save, until six hours have passed after a success or half an hour
/// after a failure; the first request from then on looks the rate up again. This holds of any
/// two requests that follow each other, wherever the calendar has the instant at which the
/// pause is over.
pub proof fn law_prices_hold_between_lookups<S: StandardTariffSource>(
    before: StandardTariff<S>,
    between: StandardTariff<S>,
    after: StandardTariff<S>,
    first_at: UtcTime,
    first: Priced,
    second_at: UtcTime,
    second: Priced,
)
    requires
        first_at.valid(),
        before.is_due(first_at),
        between.follows(before, first_at, first),
        after.follows(between, second_at, second),
    ensures
        first_at.spec_delayed(pause(first.save)) matches Some(over) && {
            &&& second_at.rank() < over.rank() ==> {
                &&& after == between
                &&& second.price_p_per_kwh == first.price_p_per_kwh
                &&& !second.save
                &&& second.failure is None
            }
            &&& over.rank() <= second_at.rank() ==> exists|
                outcome: Result<StoredRate, StandardTariffError>,
            |
                {
                    &&& #[trigger] between.client.may_resolve(second_at, outcome)
                    &&& after.takes(between, outcome, second_at)
                    &&& second.save == outcome is Ok
                    &&& second.failure is Some == outcome is Err
                }
        },
{
}

} // verus!
