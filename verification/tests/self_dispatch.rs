//! Local dispatch: short leases, a latch at the battery's limit, bounded retries.
use chrono::{TimeZone, Utc};
use energy_price::binary64::Binary64;
use energy_price::dispatch::self_dispatch::{lease_exists, AxleSelfDispatch, State};
use energy_price::dispatch::service::DispatchService;
use energy_price::dispatch::{
    fresh_reading, Action, BatteryLimits, DispatchMode, ProviderConfig, Reading,
};
use energy_price::utc::UtcTime;
use energy_price::{AxleConfig, AxleDirection, AxleEvent};

fn b(value: f64) -> Binary64 {
    Binary64 {
        bits: value.to_bits(),
    }
}

fn f(value: Binary64) -> f64 {
    f64::from_bits(value.bits)
}

fn start() -> UtcTime {
    let at = Utc.with_ymd_and_hms(2026, 9, 11, 17, 7, 0).unwrap();
    UtcTime::from_timestamp(at.timestamp(), 0).unwrap()
}

fn plus(at: UtcTime, seconds: i64) -> UtcTime {
    UtcTime::from_timestamp(at.timestamp() + seconds, at.subsec_nanos()).unwrap()
}

fn event() -> AxleEvent {
    AxleEvent {
        start_time: start(),
        end_time: plus(start(), 3600),
        direction: AxleDirection::Export,
    }
}

fn config() -> BatteryLimits {
    BatteryLimits {
        usable_capacity_kwh: b(10.0),
        max_charge_kw: b(4.0),
        max_export_kw: b(5.0),
        max_discharge_kw: b(4.5),
        soc_floor_pct: b(10.0),
        soc_ceiling_pct: b(90.0),
        round_trip_efficiency: b(0.81),
    }
}

fn telemetry(now: UtcTime, soc: f64) -> Reading {
    Reading {
        soc_pct: b(soc),
        battery_kw: b(0.0),
        grid_kw: b(0.3),
        load_kw: b(0.3),
        solar_kw: b(0.0),
        at: now,
        age_nanos: 0,
    }
}

// The power that would just use up the energy above the floor, or the room below the ceiling.
fn energy_kw(cfg: &BatteryLimits, direction: AxleDirection, millis: i64, soc: f64) -> f64 {
    let hours = millis as f64 / 3_600_000.0;
    let capacity = f(cfg.usable_capacity_kwh);
    let stored = capacity * soc / 100.0;
    let efficiency = f(cfg.round_trip_efficiency).sqrt();
    match direction {
        AxleDirection::Export => {
            (stored - capacity * f(cfg.soc_floor_pct) / 100.0).max(0.0) * efficiency / hours
        }
        AxleDirection::Import => {
            (capacity * f(cfg.soc_ceiling_pct) / 100.0 - stored).max(0.0) / efficiency / hours
        }
    }
}

struct Fixture {
    disk: State,
    writable: bool,
    dispatch: AxleSelfDispatch,
}

impl Fixture {
    fn new() -> Self {
        Self {
            disk: State::default(),
            writable: true,
            dispatch: AxleSelfDispatch::load(State::default()).unwrap(),
        }
    }

    fn save(&mut self) -> Result<(), String> {
        if self.writable {
            self.disk = self.dispatch.state;
            Ok(())
        } else {
            Err("not writable".into())
        }
    }

    fn observe(&mut self, answer: Option<AxleEvent>, now: UtcTime) -> Result<(), String> {
        if self.dispatch.observe(answer, now) {
            self.save()
        } else {
            Ok(())
        }
    }

    fn reload(&mut self) {
        self.dispatch = AxleSelfDispatch::load(self.disk).unwrap();
    }

    fn decide_on(&mut self, now: UtcTime, reading: Option<Reading>) -> Option<Action> {
        let energy = match (self.dispatch.lease(now), reading) {
            (Some(lease), Some(t)) => energy_kw(&config(), lease.direction, lease.millis, f(t.soc_pct)),
            _ => f64::NAN,
        };
        let decision = self.dispatch.decision(&config(), now, reading, b(energy));
        if decision.save {
            self.save().unwrap();
        }
        decision.action
    }

    fn decide(&mut self, now: UtcTime, soc: f64) -> Option<Action> {
        self.decide_on(now, Some(telemetry(now, soc)))
    }

    fn finish(&mut self, now: UtcTime) -> bool {
        let due = self.dispatch.finish_if_due(now);
        if due {
            self.save().unwrap();
        }
        due
    }
}

#[test]
fn export_starts_at_exact_event_boundary_and_stops_at_end_without_handover_buffers() {
    let mut f = Fixture::new();
    let e = event();
    f.observe(Some(e), plus(start(), -60)).unwrap();
    let just_before = UtcTime::from_timestamp(start().timestamp() - 1, 999_000_000).unwrap();
    assert!(f.decide(just_before, 80.0).is_none());
    let d = f.decide(start(), 80.0).unwrap();
    assert_eq!(d.mode, DispatchMode::Exporting);
    assert_eq!(d.power_kw, b(4.5));
    assert!(!plus(start(), 120).before(d.end));
    let at = UtcTime::from_timestamp(e.end_time.timestamp() - 1, 500_000_000).unwrap();
    f.observe(Some(e), at).unwrap();
    let d = f.decide(at, 80.0).unwrap();
    assert_eq!(d.end, e.end_time);
    assert_eq!(d.mode, DispatchMode::Resting);
    assert_eq!(d.power_kw, b(0.0));
    assert!(f.decide(e.end_time, 80.0).is_none());
    assert!(f.finish(e.end_time));
    assert!(!f.finish(e.end_time));
}

#[test]
fn persisted_event_and_safety_latch_survive_restart() {
    let mut f = Fixture::new();
    f.observe(Some(event()), start()).unwrap();
    assert_eq!(
        f.decide(start(), 80.0).unwrap().mode,
        DispatchMode::Exporting
    );
    f.reload();
    assert_eq!(
        f.decide(plus(start(), 30), 80.0).unwrap().mode,
        DispatchMode::Exporting
    );
    assert_eq!(
        f.decide(plus(start(), 30), 10.0).unwrap().mode,
        DispatchMode::Resting
    );
    f.reload();
    assert_eq!(
        f.decide(plus(start(), 60), 11.0).unwrap().mode,
        DispatchMode::Resting
    );
    f.reload();
    assert!(f.finish(event().end_time));
}

#[test]
fn leases_bound_near_floor_energy_and_import_room() {
    let mut fixture = Fixture::new();
    fixture.observe(Some(event()), start()).unwrap();
    let d = fixture.decide(start(), 10.1).unwrap();
    let energy = f(d.power_kw) * d.end.millis_since(start()) as f64 / 1000.0 / 3600.0;
    assert!(energy <= 0.009 + 1e-10);
    let mut e = event();
    e.direction = AxleDirection::Import;
    fixture.observe(Some(e), start()).unwrap();
    let d = fixture.decide(start(), 89.9).unwrap();
    assert_eq!(d.mode, DispatchMode::Charging);
    assert!(f(d.power_kw) <= 4.0);
    let stored = f(d.power_kw) * d.end.millis_since(start()) as f64 / 1000.0 / 3600.0 * 0.9;
    assert!(stored <= 0.01 + 1e-10);
    assert_eq!(
        fixture.decide(start(), 90.0).unwrap().mode,
        DispatchMode::Resting
    );
}

#[test]
fn missing_or_stale_telemetry_stops_then_fresh_telemetry_can_resume() {
    let mut f = Fixture::new();
    f.observe(Some(event()), start()).unwrap();
    assert_eq!(
        f.decide_on(start(), None).unwrap().mode,
        DispatchMode::Resting
    );
    let old = telemetry(plus(start(), -6), 80.0);
    assert_eq!(
        f.decide_on(start(), Some(old)).unwrap().mode,
        DispatchMode::Resting
    );
    let mut invalid = telemetry(start(), 80.0);
    invalid.grid_kw = b(f64::NAN);
    assert_eq!(
        f.decide_on(start(), Some(invalid)).unwrap().mode,
        DispatchMode::Resting
    );
    assert_eq!(
        f.decide(start(), 80.0).unwrap().mode,
        DispatchMode::Exporting
    );
}

#[test]
fn api_failure_grace_never_extends_event_and_expired_confirmation_stays_passive() {
    let mut f = Fixture::new();
    f.observe(Some(event()), start()).unwrap();
    f.reload();
    assert_eq!(
        f.decide(plus(start(), 240), 80.0).unwrap().mode,
        DispatchMode::Exporting
    );
    assert_eq!(
        f.decide(plus(start(), 360), 80.0).unwrap().mode,
        DispatchMode::Resting
    );
    assert!(f.decide(event().end_time, 80.0).is_none());
    f.observe(Some(event()), plus(start(), 420)).unwrap();
    assert_eq!(
        f.decide(plus(start(), 420), 80.0).unwrap().mode,
        DispatchMode::Exporting
    );
}

#[test]
fn successful_confirmation_is_persisted_periodically() {
    let mut f = Fixture::new();
    f.observe(Some(event()), start()).unwrap();
    for i in 1..=10 {
        f.observe(Some(event()), plus(start(), i * 30)).unwrap();
    }
    f.reload();
    assert_eq!(
        f.decide(plus(start(), 480), 80.0).unwrap().mode,
        DispatchMode::Exporting
    );
}

#[test]
fn cancellation_replacement_and_shortened_event_release_control_immediately() {
    for replacement in [
        None,
        Some(AxleEvent {
            start_time: plus(start(), 7200),
            end_time: plus(start(), 10800),
            direction: AxleDirection::Export,
        }),
        Some(AxleEvent {
            end_time: plus(start(), 60),
            ..event()
        }),
    ] {
        let mut f = Fixture::new();
        f.observe(Some(event()), start()).unwrap();
        f.decide(start(), 80.0);
        let at = plus(start(), 120);
        f.observe(replacement, at).unwrap();
        assert!(f.decide(at, 80.0).is_none());
        assert!(f.finish(at));
    }
}

#[test]
fn detects_real_grid_export_and_throttles_failed_command_retries() {
    let mut f = Fixture::new();
    f.observe(Some(event()), start()).unwrap();
    f.decide(start(), 80.0);
    f.dispatch.record_attempt(start(), false);
    assert!(!f.dispatch.retry_due(
        plus(start(), 29),
        Some(telemetry(plus(start(), 29), 80.0))
    ));
    let now = plus(start(), 30);
    assert!(f.dispatch.retry_due(now, Some(telemetry(now, 80.0))));
    let mut t = telemetry(now, 80.0);
    t.grid_kw = b(-4.2);
    t.battery_kw = b(-4.5);
    assert!(!f.dispatch.retry_due(now, Some(t)));
    f.dispatch.record_attempt(now, true);
    assert!(!f.dispatch.retry_write_allowed(plus(now, 29)));
    assert!(f.dispatch.retry_write_allowed(plus(now, 30)));
}

#[test]
fn corrupt_or_unwritable_state_cannot_authorize_dispatch() {
    let mut f = Fixture::new();
    let cfg = ProviderConfig {
        axle: AxleConfig {
            enabled: true,
            self_dispatch: true,
            api_key: "test-key".into(),
            ..Default::default()
        },
    };
    let broken = DispatchService::new(&cfg, Ok(Vec::new()), Err("broken".into()), None);
    assert_eq!(broken.err().unwrap(), "broken");
    f.writable = false;
    assert!(f.observe(Some(event()), start()).is_err());
    let mut service =
        DispatchService::new(&cfg, Ok(Vec::new()), Ok(State::default()), None).unwrap();
    let polling = service.poll(Ok(Some(event())), start());
    assert!(polling.save_local);
    let refused = service.poll_saved(polling, Err("not writable".into()));
    assert_eq!(refused.unwrap_err(), "not writable");
    assert!(service.active_event().is_none());
}

#[test]
fn saved_events_must_be_ordered_short_and_confirmed() {
    let sound = State {
        event: Some(event()),
        confirmed_at: Some(start()),
        owned: true,
        limited: true,
    };
    assert_eq!(AxleSelfDispatch::load(sound).unwrap().state, sound);
    let long = AxleEvent {
        end_time: plus(start(), 86_401),
        ..event()
    };
    let backwards = AxleEvent {
        end_time: start(),
        ..event()
    };
    for bad in [
        State {
            confirmed_at: None,
            ..sound
        },
        State {
            event: Some(long),
            ..sound
        },
        State {
            event: Some(backwards),
            ..sound
        },
    ] {
        assert_eq!(
            AxleSelfDispatch::load(bad).unwrap_err(),
            "invalid saved Axle self-dispatch event"
        );
    }
    let day = AxleEvent {
        end_time: plus(start(), 86_400),
        ..event()
    };
    assert!(AxleSelfDispatch::load(State {
        event: Some(day),
        ..sound
    })
    .is_ok());
}

#[test]
fn power_is_the_least_of_what_battery_connection_and_energy_allow() {
    let mut f = Fixture::new();
    f.observe(Some(event()), start()).unwrap();
    // The lease runs to the second minute boundary ahead: two minutes here.
    let lease = f.dispatch.lease(start()).unwrap();
    assert_eq!(lease.millis, 120_000);
    // 0.01 kWh above the floor, at nine tenths, over a thirtieth of an hour.
    let d = f.decide(start(), 10.1).unwrap();
    assert!((f64::from_bits(d.power_kw.bits) - 0.27).abs() < 1e-9);
    // Without an energy figure the battery and the connection still bound the power.
    let t = telemetry(start(), 80.0);
    let d = f
        .dispatch
        .decision(&config(), start(), Some(t), b(f64::NAN))
        .action
        .unwrap();
    assert_eq!(d.power_kw, b(4.5));
    // No energy, no power.
    let d = f
        .dispatch
        .decision(&config(), start(), Some(t), b(0.0))
        .action
        .unwrap();
    assert_eq!(d.mode, DispatchMode::Resting);
}

#[test]
fn the_limit_latches_over_confirmations_decisions_attempts_and_restarts() {
    let mut f = Fixture::new();
    f.observe(Some(event()), start()).unwrap();
    f.decide(start(), 10.0);
    for minute in 1..60 {
        let now = plus(start(), minute * 60);
        f.observe(Some(event()), now).unwrap();
        f.dispatch.record_attempt(plus(now, -40), minute % 2 == 0);
        assert!(!f.dispatch.retry_due(now, Some(telemetry(now, 80.0))));
        let d = f.decide(now, 80.0).unwrap();
        assert_eq!(d.mode, DispatchMode::Resting);
        assert_eq!(d.power_kw, b(0.0));
        if minute % 7 == 0 {
            f.reload();
        }
        assert!(f.dispatch.state.limited);
    }
    // Another event starts afresh.
    let next = AxleEvent {
        end_time: plus(start(), 7200),
        ..event()
    };
    f.observe(Some(next), plus(start(), 3599)).unwrap();
    assert!(!f.dispatch.state.limited);
}

#[test]
fn leases_exist_up_to_the_last_minutes_of_the_calendar() {
    let last = UtcTime::from_timestamp(energy_price::utc::MAX_SECS, 0).unwrap();
    // The calendar ends with the last second of a minute.
    assert!(!lease_exists(last));
    assert!(!lease_exists(plus(last, -119)));
    assert!(lease_exists(plus(last, -120)));
    assert!(lease_exists(start()));
}

#[test]
fn imports_are_verified_at_the_battery() {
    let mut f = Fixture::new();
    let e = AxleEvent {
        direction: AxleDirection::Import,
        ..event()
    };
    f.observe(Some(e), start()).unwrap();
    f.decide(start(), 50.0);
    f.dispatch.record_attempt(start(), false);
    let now = plus(start(), 30);
    let mut t = telemetry(now, 50.0);
    t.battery_kw = b(0.05);
    assert!(f.dispatch.retry_due(now, Some(t)));
    assert!(!f.dispatch.verified_flow);
    t.battery_kw = b(0.06);
    assert!(!f.dispatch.retry_due(now, Some(t)));
    assert!(f.dispatch.verified_flow);
}

#[test]
fn readings_are_fresh_for_five_seconds_by_both_clocks() {
    let t = telemetry(start(), 50.0);
    assert!(fresh_reading(&t, start()));
    assert!(fresh_reading(&t, plus(start(), 5)));
    assert!(!fresh_reading(&t, plus(start(), 6)));
    assert!(!fresh_reading(&t, plus(start(), -1)));
    let aged = |age_nanos| Reading { age_nanos, ..t };
    assert!(fresh_reading(&aged(5_000_000_000), start()));
    assert!(!fresh_reading(&aged(5_000_000_001), start()));
    for bad in [f64::NAN, -0.1, 100.1, f64::INFINITY] {
        assert!(!fresh_reading(&telemetry(start(), bad), start()), "{bad}");
    }
    for bad in [f64::NAN, -0.1, 1000.1] {
        assert!(!fresh_reading(&Reading { load_kw: b(bad), ..t }, start()));
        assert!(!fresh_reading(&Reading { solar_kw: b(bad), ..t }, start()));
    }
    assert!(fresh_reading(&telemetry(start(), -0.0), start()));
    assert!(fresh_reading(&telemetry(start(), 100.0), start()));
}

#[test]
fn battery_limits_are_checked() {
    assert!(config().valid());
    let bad = [
        BatteryLimits {
            usable_capacity_kwh: b(0.0),
            ..config()
        },
        BatteryLimits {
            max_charge_kw: b(-1.0),
            ..config()
        },
        BatteryLimits {
            max_discharge_kw: b(f64::NAN),
            ..config()
        },
        BatteryLimits {
            round_trip_efficiency: b(1.01),
            ..config()
        },
        BatteryLimits {
            max_export_kw: b(-0.1),
            ..config()
        },
        BatteryLimits {
            soc_floor_pct: b(90.0),
            ..config()
        },
        BatteryLimits {
            soc_ceiling_pct: b(100.1),
            ..config()
        },
        BatteryLimits {
            soc_floor_pct: b(-1.0),
            ..config()
        },
    ];
    for (i, limits) in bad.iter().enumerate() {
        assert!(!limits.valid(), "{i}");
    }
    assert!(BatteryLimits {
        max_export_kw: b(0.0),
        ..config()
    }
    .valid());
}
