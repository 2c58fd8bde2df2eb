//! Import and export prices of a range.
use chrono::{TimeZone, Utc};
use energy_price::binary64::Binary64;
use energy_price::export::{export_slots, ExportPriceError, ExportPriceSource};
use energy_price::import::{priced_slots, ImportError, ImportSource};
use energy_price::json::{Field, Json};
use energy_price::octopus::{api_base_text, products_url, rates_url, REQUEST_TIMEOUT_SECS};
use energy_price::prices::with_axle;
use energy_price::utc::UtcTime;
use energy_price::{
    get_export, get_import, AxleDirection, AxleEvent, AxleForecast, ExportPriceSlot, ExportSlot,
    ImportSlot, MarketConfig, OctopusExports, OctopusImports,
};
use std::sync::{Arc, Mutex};

fn b(value: f64) -> Binary64 {
    Binary64 {
        bits: value.to_bits(),
    }
}

fn f(value: Binary64) -> f64 {
    f64::from_bits(value.bits)
}

fn day(month: u32, day: u32) -> UtcTime {
    let at = Utc.with_ymd_and_hms(2026, month, day, 0, 0, 0).unwrap();
    UtcTime::from_timestamp(at.timestamp(), 0).unwrap()
}

fn minutes(at: UtcTime, minutes: i64) -> UtcTime {
    UtcTime::from_timestamp(at.timestamp() + minutes * 60, at.subsec_nanos()).unwrap()
}

fn reward(slot: &ExportSlot) -> f64 {
    f(slot.axle_reward.rate_p_per_kwh) * (slot.axle_reward.overlap_millis as f64 / 1_800_000.0)
}

fn price(slot: &ExportSlot) -> f64 {
    f(slot.tariff_p_per_kwh) + reward(slot)
}

struct Import;

impl ImportSource for Import {
    fn fetch(
        &self,
        _: &str,
        _: &str,
        from: UtcTime,
        _: UtcTime,
    ) -> Result<Vec<ImportSlot>, ImportError> {
        Ok(vec![
            ImportSlot {
                start: minutes(from, 30),
                price_p_per_kwh: b(30.0),
            },
            ImportSlot {
                start: from,
                price_p_per_kwh: b(-2.0),
            },
        ])
    }
}

struct Export;

impl ExportPriceSource for Export {
    fn fetch(
        &self,
        _: &str,
        _: &str,
        from: UtcTime,
        _: UtcTime,
    ) -> Result<Vec<ExportPriceSlot>, ExportPriceError> {
        Ok((0..3)
            .map(|i| ExportPriceSlot {
                start: minutes(from, i * 30),
                price_p_per_kwh: b(15.0),
            })
            .collect())
    }
}

fn client() -> OctopusExports<Export> {
    OctopusExports::with_source(
        MarketConfig {
            export_product: "test".into(),
            export_tariff: "test".into(),
            ..MarketConfig::default()
        },
        Export,
    )
}

#[test]
fn public_import_api_sorts_and_preserves_negative_and_unpublished_prices() {
    let start = day(9, 1);
    let result = get_import(
        &OctopusImports::with_source(MarketConfig::default(), Import),
        start..minutes(start, 24 * 60),
    )
    .unwrap();
    assert_eq!(result.len(), 2);
    assert_eq!(result[0].start, start);
    assert_eq!(result[0].price_p_per_kwh, b(-2.0));
}

#[test]
fn export_reward_is_optional_additional_and_limited_to_the_event_overlap() {
    let start = day(9, 1);
    let horizon = start..minutes(start, 90);
    let plain = get_export(&client(), horizon.clone(), None).unwrap();
    assert!(plain.iter().all(|s| price(s) == 15.0 && reward(s) == 0.0));
    let mut axle = AxleForecast {
        event: AxleEvent {
            start_time: minutes(start, 15),
            end_time: minutes(start, 60),
            direction: AxleDirection::Export,
        },
        reward_p_per_kwh: b(100.0),
        self_dispatch: true,
    };
    let enriched = get_export(&client(), horizon.clone(), Some(axle)).unwrap();
    assert_eq!(
        enriched.iter().map(price).collect::<Vec<_>>(),
        vec![65.0, 115.0, 15.0]
    );
    assert!(enriched.iter().all(|s| s.tariff_p_per_kwh == b(15.0)));
    axle.event.direction = AxleDirection::Import;
    assert_eq!(
        get_export(&client(), horizon.clone(), Some(axle)).unwrap(),
        plain
    );
    axle.reward_p_per_kwh = b(f64::NAN);
    assert!(get_export(&client(), horizon.clone(), Some(axle)).is_err());
    axle.reward_p_per_kwh = b(100.0);
    axle.event.end_time = axle.event.start_time;
    assert!(get_export(&client(), horizon, Some(axle)).is_err());
}

type RequestedRange = Arc<Mutex<Option<(UtcTime, UtcTime)>>>;

struct MockSource(RequestedRange);

impl ImportSource for MockSource {
    fn fetch(
        &self,
        _product: &str,
        _tariff: &str,
        from: UtcTime,
        to: UtcTime,
    ) -> Result<Vec<ImportSlot>, ImportError> {
        self.0.lock().unwrap().replace((from, to));
        let mut slots = (0..48)
            .rev()
            .map(|index| ImportSlot {
                start: minutes(from, index * 30),
                price_p_per_kwh: b(index as f64),
            })
            .collect::<Vec<_>>();
        slots.push(slots[0]);
        Ok(slots)
    }
}

#[test]
fn returns_the_exact_requested_utc_day_sorted_and_deduplicated() {
    let requested = Arc::new(Mutex::new(None));
    let client = OctopusImports {
        cfg: MarketConfig::default(),
        source: MockSource(Arc::clone(&requested)),
    };
    let start = day(8, 27);
    let end = minutes(start, 24 * 60);

    let slots = client.get_slots(start, end).unwrap();

    assert_eq!(*requested.lock().unwrap(), Some((start, end)));
    assert_eq!(slots.len(), 48);
    assert_eq!(slots.first().unwrap().start, start);
    assert_eq!(slots.last().unwrap().start, minutes(end, -30));
}

struct Fixed(Vec<(i64, f64)>);

impl ImportSource for Fixed {
    fn fetch(
        &self,
        product: &str,
        tariff: &str,
        from: UtcTime,
        _: UtcTime,
    ) -> Result<Vec<ImportSlot>, ImportError> {
        if self.0.is_empty() {
            return Err(ImportError::Http(format!("{product} {tariff}")));
        }
        Ok(self
            .0
            .iter()
            .map(|(minute, price)| ImportSlot {
                start: minutes(from, *minute),
                price_p_per_kwh: b(*price),
            })
            .collect())
    }
}

impl ExportPriceSource for Fixed {
    fn fetch(
        &self,
        product: &str,
        tariff: &str,
        from: UtcTime,
        _: UtcTime,
    ) -> Result<Vec<ExportPriceSlot>, ExportPriceError> {
        if self.0.is_empty() {
            return Err(ExportPriceError::Http(format!("{product} {tariff}")));
        }
        Ok(self
            .0
            .iter()
            .map(|(minute, price)| ExportPriceSlot {
                start: minutes(from, *minute),
                price_p_per_kwh: b(*price),
            })
            .collect())
    }
}

#[test]
fn the_first_published_of_two_slots_with_one_start_is_kept() {
    let start = day(9, 1);
    let source = Fixed(vec![
        (60, 3.0),
        (30, 1.0),
        (30, 2.0),
        (-30, 9.0),
        (90, 8.0),
        (60, 4.0),
    ]);
    let client = OctopusImports::with_source(MarketConfig::default(), source);
    let slots = client.get_slots(start, minutes(start, 90)).unwrap();
    let found: Vec<(UtcTime, f64)> = slots
        .iter()
        .map(|s| (s.start, f(s.price_p_per_kwh)))
        .collect();
    assert_eq!(
        found,
        vec![(minutes(start, 30), 1.0), (minutes(start, 60), 3.0)]
    );
}

#[test]
fn failures_name_their_cause() {
    let start = day(9, 1);
    let end = minutes(start, 30);
    let early = || Fixed(vec![(-30, 1.0)]);
    let imports = OctopusImports::with_source(MarketConfig::default(), early());
    assert_eq!(
        imports.get_slots(start, end).unwrap_err().message(),
        "Octopus import prices unavailable: \
         no usable slots from 2026-09-01 00:00:00 UTC to 2026-09-01 00:30:00 UTC"
    );
    let imports = OctopusImports::with_source(MarketConfig::default(), Fixed(Vec::new()));
    assert_eq!(
        imports.get_slots(start, end).unwrap_err().message(),
        "Octopus request failed: AGILE-24-10-01 E-1R-AGILE-24-10-01-C"
    );
    let unset = OctopusExports::with_source(MarketConfig::default(), early());
    assert_eq!(
        unset.get_slots(start, end).unwrap_err().message(),
        "Octopus export prices unavailable: export product and tariff are not configured"
    );
    let cfg = MarketConfig {
        export_product: "OUT".into(),
        export_tariff: "E-OUT".into(),
        ..MarketConfig::default()
    };
    let exports = OctopusExports::with_source(cfg.clone(), early());
    assert_eq!(
        exports.get_slots(start, end).unwrap_err().message(),
        "Octopus export prices unavailable: no usable slots from 2026-09-01 00:00:00 UTC"
    );
    let exports = OctopusExports::with_source(cfg, Fixed(Vec::new()));
    assert_eq!(
        exports.get_slots(start, end).unwrap_err().message(),
        "Octopus export request failed: OUT E-OUT"
    );
    let long = AxleForecast {
        event: AxleEvent {
            start_time: start,
            end_time: minutes(start, 24 * 60 + 1),
            direction: AxleDirection::Export,
        },
        reward_p_per_kwh: b(1.0),
        self_dispatch: false,
    };
    assert_eq!(
        with_axle(&Vec::new(), Some(long)).unwrap_err().message(),
        "Octopus export prices unavailable: invalid Axle reward forecast"
    );
}

#[test]
fn partial_overlaps_are_counted_to_the_millisecond() {
    let start = day(9, 1);
    let event = AxleEvent {
        start_time: UtcTime::from_timestamp(start.timestamp() + 60, 250_900_000).unwrap(),
        end_time: UtcTime::from_timestamp(start.timestamp() + 120, 500_000_000).unwrap(),
        direction: AxleDirection::Export,
    };
    let forecast = AxleForecast {
        event,
        reward_p_per_kwh: b(40.0),
        self_dispatch: false,
    };
    let tariffs = vec![
        ExportPriceSlot {
            start,
            price_p_per_kwh: b(5.0),
        },
        ExportPriceSlot {
            start: minutes(start, 30),
            price_p_per_kwh: b(6.0),
        },
    ];
    let slots = with_axle(&tariffs, Some(forecast)).unwrap();
    assert_eq!(slots[0].axle_reward.overlap_millis, 60_249);
    assert_eq!(slots[0].axle_reward.rate_p_per_kwh, b(40.0));
    assert_eq!(slots[1].axle_reward.overlap_millis, 0);
    // A slot that the event does not reach into is the one without a forecast.
    assert_eq!(slots[1], with_axle(&tariffs, None).unwrap()[1]);
    assert_eq!(slots[1].tariff_p_per_kwh, b(6.0));
}

#[test]
fn a_useless_forecast_is_refused_before_any_slot_end() {
    let last = UtcTime::from_timestamp(energy_price::utc::MAX_SECS, 0).unwrap();
    let tariffs = vec![ExportPriceSlot {
        start: last,
        price_p_per_kwh: b(5.0),
    }];
    let mut forecast = AxleForecast {
        event: AxleEvent {
            start_time: day(9, 1),
            end_time: minutes(day(9, 1), 30),
            direction: AxleDirection::Export,
        },
        reward_p_per_kwh: b(-1.0),
        self_dispatch: false,
    };
    assert!(with_axle(&tariffs, Some(forecast)).is_err());
    forecast.event.direction = AxleDirection::Import;
    forecast.reward_p_per_kwh = b(1.0);
    assert_eq!(with_axle(&tariffs, Some(forecast)).unwrap().len(), 1);
}

#[test]
fn ranges_may_end_with_the_calendar_where_the_slots_do_not() {
    let last = UtcTime::from_timestamp(energy_price::utc::MAX_SECS, 0).unwrap();
    let start = day(9, 1);
    let forecast = AxleForecast {
        event: AxleEvent {
            start_time: start,
            end_time: minutes(start, 15),
            direction: AxleDirection::Export,
        },
        reward_p_per_kwh: b(100.0),
        self_dispatch: false,
    };
    // This source answers with three slots from the start of the range on.
    let slots = get_export(&client(), start..last, Some(forecast)).unwrap();
    assert_eq!(
        slots.iter().map(price).collect::<Vec<_>>(),
        vec![65.0, 15.0, 15.0]
    );
}

#[test]
fn slots_compare_as_their_numbers_do() {
    let slot = |price: f64| ImportSlot {
        start: day(9, 1),
        price_p_per_kwh: b(price),
    };
    assert_eq!(slot(0.0), slot(-0.0));
    assert_ne!(slot(f64::NAN), slot(f64::NAN));
    assert_ne!(slot(1.0), slot(2.0));
}

#[test]
fn requests_name_product_tariff_and_range() {
    let start = day(9, 1);
    assert_eq!(api_base_text(), "https://api.octopus.energy/v1");
    assert_eq!(REQUEST_TIMEOUT_SECS, 5);
    assert_eq!(
        rates_url("P", "T", start, minutes(start, 30)),
        "https://api.octopus.energy/v1/products/P/electricity-tariffs/T/standard-unit-rates/\
         ?period_from=2026-09-01T00:00:00Z&period_to=2026-09-01T00:30:00Z&page_size=100"
    );
    assert_eq!(
        products_url(start),
        "https://api.octopus.energy/v1/products/?brand=OCTOPUS_ENERGY&is_business=false\
         &is_prepay=false&is_variable=true&available_at=2026-09-01T00:00:00Z&page_size=100"
    );
}

fn record(fields: Vec<(&str, Json)>) -> Json {
    Json::Record(
        fields
            .into_iter()
            .map(|(name, value)| Field {
                name: name.into(),
                value,
            })
            .collect(),
    )
}

#[test]
fn rows_without_a_start_or_a_price_are_passed_over() {
    let text = |text: &str| Json::Text(text.into());
    let row = |from: Json, price: Json| record(vec![("valid_from", from), ("value_inc_vat", price)]);
    let payload = record(vec![
        ("count", Json::Number(b(6.0))),
        (
            "results",
            Json::List(vec![
                row(text("2026-09-01T01:00:00+01:00"), Json::Number(b(12.5))),
                row(text("soon"), Json::Number(b(1.0))),
                row(text("2026-09-01T00:30:00Z"), Json::Number(b(f64::INFINITY))),
                row(text("2026-09-01T00:30:00Z"), Json::Null),
                row(Json::Bool(true), Json::Number(b(1.0))),
                record(Vec::new()),
                row(text("2026-09-01T00:30:00Z"), Json::Number(b(-3.0))),
            ]),
        ),
    ]);
    assert_eq!(
        export_slots(&payload),
        vec![
            ExportPriceSlot {
                start: day(9, 1),
                price_p_per_kwh: b(12.5)
            },
            ExportPriceSlot {
                start: minutes(day(9, 1), 30),
                price_p_per_kwh: b(-3.0)
            },
        ]
    );
    assert!(export_slots(&Json::Null).is_empty());
    assert!(export_slots(&record(vec![("results", text("none"))])).is_empty());
    let slot = |price: f64| ImportSlot {
        start: day(9, 1),
        price_p_per_kwh: b(price),
    };
    assert_eq!(
        priced_slots(&vec![slot(1.0), slot(f64::NAN), slot(-1.0)]),
        vec![slot(1.0), slot(-1.0)]
    );
}
