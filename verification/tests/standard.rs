//! The regional comparison rate.
use chrono::{TimeZone, Utc};
use energy_price::binary64::Binary64;
use energy_price::json::{Field, Json};
use energy_price::standard::{
    choose_product, current_rates_url, rate_quotes, OctopusStandardTariff, PageStep, Product, ProductPages,
    RateQuote, StandardTariff, StandardTariffError, StandardTariffSource, StoredRate,
    STANDARD_TARIFF_FILE_NAME,
};
use energy_price::utc::UtcTime;
use energy_price::MarketConfig;
use std::sync::atomic::{AtomicUsize, Ordering};
use std::sync::Arc;

fn b(value: f64) -> Binary64 {
    Binary64 {
        bits: value.to_bits(),
    }
}

fn now() -> UtcTime {
    let at = Utc.with_ymd_and_hms(2026, 9, 2, 12, 0, 0).unwrap();
    UtcTime::from_timestamp(at.timestamp(), 0).unwrap()
}

fn plus(at: UtcTime, seconds: i64) -> UtcTime {
    UtcTime::from_timestamp(at.timestamp() + seconds, at.subsec_nanos()).unwrap()
}

fn days(at: UtcTime, days: i64) -> UtcTime {
    plus(at, days * 86_400)
}

#[derive(Clone)]
struct MockSource {
    products: Result<Vec<Product>, String>,
    rates: Result<Vec<RateQuote>, String>,
    calls: Arc<AtomicUsize>,
}

impl StandardTariffSource for MockSource {
    fn products(&self, _at: UtcTime) -> Result<Vec<Product>, StandardTariffError> {
        self.calls.fetch_add(1, Ordering::SeqCst);
        self.products
            .clone()
            .map_err(StandardTariffError::Unavailable)
    }

    fn rates(
        &self,
        _product: &str,
        _tariff: &str,
        _at: UtcTime,
    ) -> Result<Vec<RateQuote>, StandardTariffError> {
        self.rates.clone().map_err(StandardTariffError::Unavailable)
    }
}

fn product(code: &str, available_from: UtcTime) -> Product {
    Product {
        code: code.into(),
        display_name: "Flexible Octopus".into(),
        available_from,
    }
}

fn rate(payment_method: &str, price_p_per_kwh: f64) -> RateQuote {
    RateQuote {
        price_p_per_kwh: b(price_p_per_kwh),
        payment_method: payment_method.into(),
        valid_from: days(now(), -30),
        valid_to: None,
    }
}

fn client(
    cfg: &MarketConfig,
    products: Result<Vec<Product>, String>,
    rates: Result<Vec<RateQuote>, String>,
) -> OctopusStandardTariff<MockSource> {
    let source = MockSource {
        products,
        rates,
        calls: Arc::default(),
    };
    OctopusStandardTariff::with_source(cfg.clone(), source)
}

#[test]
fn resolves_latest_flexible_product_for_import_region_and_payment_method() {
    let calls = Arc::new(AtomicUsize::new(0));
    let source = MockSource {
        products: Ok(vec![
            product("VAR-OLD", days(now(), -100)),
            product("VAR-CURRENT", days(now(), -10)),
            Product {
                code: "TRACKER".into(),
                display_name: "Octopus Tracker".into(),
                available_from: now(),
            },
        ]),
        rates: Ok(vec![
            rate("NON_DIRECT_DEBIT", 27.81),
            rate("DIRECT_DEBIT", 26.347335),
        ]),
        calls,
    };
    let client = OctopusStandardTariff {
        cfg: MarketConfig::default(),
        source,
    };

    let resolved = client.resolve(now()).unwrap();

    assert_eq!(resolved.product, "VAR-CURRENT");
    assert_eq!(resolved.tariff, "E-1R-VAR-CURRENT-C");
    assert_eq!(resolved.payment_method, "DIRECT_DEBIT");
    assert_eq!(resolved.price_p_per_kwh, b(26.347335));
}

#[test]
fn persists_api_rate_and_reuses_it_during_an_outage_after_restart() {
    let calls = Arc::new(AtomicUsize::new(0));
    let cfg = MarketConfig::default();
    let good = MockSource {
        products: Ok(vec![product("VAR-CURRENT", days(now(), -10))]),
        rates: Ok(vec![rate("DIRECT_DEBIT", 26.347335)]),
        calls: Arc::clone(&calls),
    };
    let client = OctopusStandardTariff {
        cfg: cfg.clone(),
        source: good,
    };
    let mut tariff = StandardTariff::with_client(cfg.clone(), client, None, now());
    let priced = tariff.price_p_per_kwh(now());
    assert_eq!(priced.price_p_per_kwh, b(26.347335));
    assert_eq!(calls.load(Ordering::SeqCst), 1);
    assert!(priced.save && priced.failure.is_none());
    let saved = tariff.current.clone().unwrap();

    let outage = MockSource {
        products: Err("offline".into()),
        rates: Ok(Vec::new()),
        calls,
    };
    let client = OctopusStandardTariff {
        cfg: cfg.clone(),
        source: outage,
    };
    let mut restarted = StandardTariff::with_client(cfg, client, Some(saved), plus(now(), 60));

    let priced = restarted.price_p_per_kwh(plus(now(), 60));
    assert_eq!(priced.price_p_per_kwh, b(26.347335));
    assert!(!priced.save);
    assert_eq!(
        priced.failure.unwrap().message(),
        "Flexible Octopus tariff unavailable: offline"
    );
}

#[test]
fn uses_configured_fallback_on_first_boot_outage() {
    let cfg = MarketConfig::default();
    let source = MockSource {
        products: Err("offline".into()),
        rates: Ok(Vec::new()),
        calls: Arc::new(AtomicUsize::new(0)),
    };
    let client = OctopusStandardTariff {
        cfg: cfg.clone(),
        source,
    };
    let mut tariff = StandardTariff::with_client(cfg.clone(), client, None, now());

    assert_eq!(
        tariff.price_p_per_kwh(now()).price_p_per_kwh,
        cfg.standard_tariff_p
    );
}

#[test]
fn rates_are_looked_up_after_six_hours_or_half_an_hour() {
    let cfg = MarketConfig::default();
    let calls = Arc::new(AtomicUsize::new(0));
    let source = MockSource {
        products: Ok(vec![product("VAR", days(now(), -10))]),
        rates: Ok(vec![rate("DIRECT_DEBIT", 25.0)]),
        calls: Arc::clone(&calls),
    };
    let client = OctopusStandardTariff::with_source(cfg.clone(), source);
    let mut tariff = StandardTariff::with_client(cfg, client, None, now());
    tariff.price_p_per_kwh(now());
    assert_eq!(tariff.next_fetch_at, plus(now(), 6 * 3600));
    let early = tariff.price_p_per_kwh(plus(now(), 6 * 3600 - 1));
    assert!(!early.save && early.failure.is_none());
    assert_eq!(calls.load(Ordering::SeqCst), 1);
    tariff.client.source.products = Err("offline".into());
    let later = plus(now(), 6 * 3600);
    assert_eq!(tariff.price_p_per_kwh(later).price_p_per_kwh, b(25.0));
    assert_eq!(calls.load(Ordering::SeqCst), 2);
    assert_eq!(tariff.next_fetch_at, plus(later, 1800));
}

#[test]
fn prices_hold_until_the_pause_is_over() {
    let cfg = MarketConfig::default();
    let found = Ok(vec![product("VAR", days(now(), -10))]);
    let good = client(&cfg, found, Ok(vec![rate("DIRECT_DEBIT", 25.0)]));
    let calls = Arc::clone(&good.source.calls);
    let mut tariff = StandardTariff::with_client(cfg, good, None, now());
    assert_eq!(tariff.price_p_per_kwh(now()).price_p_per_kwh, b(25.0));
    tariff.client.source.rates = Ok(vec![rate("DIRECT_DEBIT", 30.0)]);
    for seconds in [0, 1, 1800, 6 * 3600 - 1] {
        let again = tariff.price_p_per_kwh(plus(now(), seconds));
        assert_eq!(again.price_p_per_kwh, b(25.0));
        assert!(!again.save && again.failure.is_none());
    }
    assert_eq!(calls.load(Ordering::SeqCst), 1);
    let later = tariff.price_p_per_kwh(plus(now(), 6 * 3600));
    assert_eq!(later.price_p_per_kwh, b(30.0));
    assert!(later.save);
    assert_eq!(calls.load(Ordering::SeqCst), 2);
}

#[test]
fn a_failure_needs_only_half_an_hour_of_calendar() {
    let cfg = MarketConfig::default();
    let idle = client(&cfg, Err("offline".into()), Ok(Vec::new()));
    let late = UtcTime::from_timestamp(energy_price::utc::MAX_SECS - 1800, 0).unwrap();
    let mut tariff = StandardTariff::with_client(cfg, idle, None, late);
    let outcome = tariff.client.resolve(late);
    let priced = tariff.refresh(outcome, late);
    assert_eq!(priced.price_p_per_kwh, b(26.11));
    assert_eq!(
        tariff.next_fetch_at.timestamp(),
        energy_price::utc::MAX_SECS
    );
}

#[test]
fn saved_rates_count_only_for_the_same_region_method_and_version() {
    let cfg = MarketConfig::default();
    let good = StoredRate {
        version: 1,
        product: "VAR".into(),
        tariff: "E-1R-VAR-C".into(),
        payment_method: "DIRECT_DEBIT".into(),
        price_p_per_kwh: b(20.0),
        fetched_at: now(),
    };
    assert!(good.valid_for(&cfg));
    let mut bad = vec![good.clone(); 5];
    bad[0].version = 2;
    bad[1].tariff = "E-1R-VAR-D".into();
    bad[2].payment_method = "PREPAYMENT".into();
    bad[3].price_p_per_kwh = b(-0.01);
    bad[4].price_p_per_kwh = b(f64::NAN);
    for rate in bad {
        assert!(!rate.valid_for(&cfg));
        let idle = client(&cfg, Err("offline".into()), Ok(Vec::new()));
        let tariff = StandardTariff::with_client(cfg.clone(), idle, Some(rate), now());
        assert!(tariff.current.is_none());
    }
    let nowhere = MarketConfig {
        import_tariff: "E-1R-AGILE-24-10-01-I".into(),
        ..cfg
    };
    assert!(!good.valid_for(&nowhere));
}

#[test]
fn failures_to_resolve_name_their_cause() {
    let cfg = MarketConfig::default();
    let message = |client: OctopusStandardTariff<MockSource>| {
        client.resolve(now()).unwrap_err().message()
    };
    let nowhere = MarketConfig {
        import_tariff: "AGILE".into(),
        ..cfg.clone()
    };
    assert_eq!(
        message(client(&nowhere, Ok(Vec::new()), Ok(Vec::new()))),
        "Flexible Octopus tariff unavailable: \
         the configured import tariff has no valid GSP region"
    );
    assert_eq!(
        message(client(&cfg, Ok(Vec::new()), Ok(Vec::new()))),
        "Flexible Octopus tariff unavailable: no active Flexible Octopus product was returned"
    );
    let var = || Ok(vec![product("VAR", days(now(), -10))]);
    assert_eq!(
        message(client(&cfg, var(), Err("timed out".into()))),
        "Flexible Octopus tariff unavailable: timed out"
    );
    let mut over = rate("DIRECT_DEBIT", 1.0);
    over.valid_to = Some(now());
    let mut ahead = rate("DIRECT_DEBIT", 1.0);
    ahead.valid_from = plus(now(), 1);
    assert_eq!(
        message(client(&cfg, var(), Ok(vec![over, ahead, rate("OTHER", 1.0)]))),
        "Flexible Octopus tariff unavailable: no active DIRECT_DEBIT rate for E-1R-VAR-C"
    );
}

#[test]
fn errors_tell_a_failed_request_from_a_missing_tariff() {
    assert_eq!(
        StandardTariffError::Http("503".into()).message(),
        "Octopus standard-tariff request failed: 503"
    );
    assert_eq!(
        choose_product(Err(StandardTariffError::Http("503".into())))
            .unwrap_err()
            .message(),
        "Octopus standard-tariff request failed: 503"
    );
    // Prices are equal as numbers.
    assert_eq!(rate("DIRECT_DEBIT", 0.0), rate("DIRECT_DEBIT", -0.0));
    assert_ne!(rate("DIRECT_DEBIT", f64::NAN), rate("DIRECT_DEBIT", f64::NAN));
}

#[test]
fn of_several_the_newest_and_then_the_last_is_taken() {
    let cfg = MarketConfig::default();
    let products = vec![
        product("A", days(now(), -3)),
        product("B", days(now(), -1)),
        product("C", days(now(), -1)),
        product("D", days(now(), -2)),
    ];
    let mut newest = rate("DIRECT_DEBIT", 3.0);
    newest.valid_from = now();
    let mut same = rate("DIRECT_DEBIT", 4.0);
    same.valid_from = now();
    let rates = vec![
        rate("DIRECT_DEBIT", 1.0),
        newest,
        same,
        rate("DIRECT_DEBIT", 2.0),
    ];
    let found = client(&cfg, Ok(products), Ok(rates)).resolve(now()).unwrap();
    assert_eq!(found.product, "C");
    assert_eq!(found.price_p_per_kwh, b(4.0));
    assert_eq!(found.version, 1);
    assert_eq!(found.fetched_at, now());
    assert!(found.valid_for(&cfg));
}

fn text(text: &str) -> Json {
    Json::Text(text.into())
}

fn record(fields: Vec<(&str, Json)>) -> Json {
    Json::Record(
        fields
            .into_iter()
            .map(|(name, value)| Field {
                name: name.into(),
                value,
            })
            .collect(),
    )
}

fn page(codes: &[&str], next: Json) -> Json {
    let rows = codes
        .iter()
        .map(|code| {
            record(vec![
                ("code", text(code)),
                ("display_name", text("Flexible Octopus")),
                ("available_from", text("2026-09-01T00:00:00+01:00")),
            ])
        })
        .collect();
    record(vec![("next", next), ("results", Json::List(rows))])
}

#[test]
fn product_pages_are_followed_to_the_last() {
    let mut pages = ProductPages::new(now());
    let first = match pages.step() {
        PageStep::Fetch(url) => url,
        _ => panic!("a first page"),
    };
    assert_eq!(
        first,
        "https://api.octopus.energy/v1/products/?brand=OCTOPUS_ENERGY&is_business=false\
         &is_prepay=false&is_variable=true&available_at=2026-09-02T12:00:00Z&page_size=100"
    );
    let second = "https://api.octopus.energy/v1/products/?page=2";
    pages.take_in(&page(&["A", "B"], text(second)));
    assert!(matches!(pages.step(), PageStep::Fetch(url) if url == second));
    let mut last = page(&["C"], Json::Null);
    if let Json::Record(fields) = &mut last {
        if let Json::List(rows) = &mut fields[1].value {
            rows.push(record(vec![("code", text("D"))]));
        }
    }
    pages.take_in(&last);
    assert!(matches!(pages.step(), PageStep::Done));
    let codes: Vec<&str> = pages.products.iter().map(|p| p.code.as_str()).collect();
    assert_eq!(codes, vec!["A", "B", "C"]);
    assert_eq!(
        pages.products[0].available_from,
        UtcTime::parse("2026-08-31T23:00:00Z").unwrap()
    );
    pages.take_in(&Json::Null);
    assert_eq!(pages.products.len(), 3);
}

#[test]
fn product_pages_stay_with_the_supplier_and_come_to_an_end() {
    let message = |pages: &ProductPages| match pages.step() {
        PageStep::Failed(error) => error.message(),
        _ => panic!("expected a failure"),
    };
    let mut pages = ProductPages::new(now());
    pages.take_in(&page(&[], text("https://elsewhere.example/v1")));
    assert_eq!(
        message(&pages),
        "Flexible Octopus tariff unavailable: Octopus returned an unexpected products page URL"
    );
    let mut pages = ProductPages::new(now());
    for _ in 0..10 {
        assert!(matches!(pages.step(), PageStep::Fetch(_)));
        pages.take_in(&page(&[], text("https://api.octopus.energy/v1/more")));
    }
    assert_eq!(
        message(&pages),
        "Flexible Octopus tariff unavailable: \
         Octopus products response exceeded the pagination limit"
    );
}

#[test]
fn rate_rows_need_a_price_a_method_and_readable_times() {
    let row = |price: Json, method: Json, from: Json, to: Json| {
        record(vec![
            ("value_inc_vat", price),
            ("payment_method", method),
            ("valid_from", from),
            ("valid_to", to),
        ])
    };
    let price = || Json::Number(b(24.5));
    let method = || text("DIRECT_DEBIT");
    let from = || text("2026-09-01T00:00:00Z");
    let payload = record(vec![(
        "results",
        Json::List(vec![
            row(price(), method(), from(), Json::Null),
            row(price(), method(), from(), text("2026-10-01T00:00:00Z")),
            row(price(), method(), from(), text("later")),
            row(price(), method(), text("once"), Json::Null),
            row(price(), Json::Null, from(), Json::Null),
            row(Json::Number(b(f64::NAN)), method(), from(), Json::Null),
            row(text("24.5"), method(), from(), Json::Null),
        ]),
    )]);
    let quotes = rate_quotes(&payload);
    assert_eq!(quotes.len(), 2);
    assert_eq!(quotes[0].price_p_per_kwh, b(24.5));
    assert_eq!(quotes[0].payment_method, "DIRECT_DEBIT");
    assert_eq!(quotes[0].valid_from, UtcTime::parse("2026-09-01T00:00:00Z").unwrap());
    assert_eq!(quotes[0].valid_to, None);
    assert_eq!(quotes[1].valid_to, UtcTime::parse("2026-10-01T00:00:00Z"));
    assert_eq!(
        current_rates_url("VAR", "E-1R-VAR-C", now()),
        "https://api.octopus.energy/v1/products/VAR/electricity-tariffs/E-1R-VAR-C\
         /standard-unit-rates/?period_from=2026-09-02T12:00:00Z\
         &period_to=2026-09-02T12:00:01Z&page_size=100"
    );
    assert_eq!(STANDARD_TARIFF_FILE_NAME, "standard-tariff.json");
}
