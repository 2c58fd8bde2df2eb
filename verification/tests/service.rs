//! The provider as a host uses it: look at the feed, save, decide, save, act.
use chrono::{TimeZone, Utc};
use energy_price::axle::AxleError;
use energy_price::binary64::Binary64;
use energy_price::dispatch::handover::Window;
use energy_price::dispatch::rewards::{AxleRewardTracker, Claim, RewardEvent};
use energy_price::dispatch::self_dispatch::State;
use energy_price::dispatch::service::{DispatchService, StateFile};
use energy_price::dispatch::{
    Action, BatteryLimits, Control, DispatchMode, ProviderConfig, Reading, Update,
};
use energy_price::utc::UtcTime;
use energy_price::zone::Zone;
use energy_price::{AxleConfig, DispatchDirection, DispatchEvent};

fn b(value: f64) -> Binary64 {
    Binary64 {
        bits: value.to_bits(),
    }
}

fn f64_of(value: Binary64) -> f64 {
    f64::from_bits(value.bits)
}

fn at(minute: i64) -> UtcTime {
    seconds(minute * 60)
}

fn seconds(second: i64) -> UtcTime {
    let noon = Utc.with_ymd_and_hms(2026, 9, 12, 12, 0, 0).unwrap();
    UtcTime::from_timestamp(noon.timestamp() + second, 0).unwrap()
}

fn event() -> DispatchEvent {
    DispatchEvent {
        start_time: at(17),
        end_time: at(27),
        direction: DispatchDirection::Export,
    }
}

fn limits() -> BatteryLimits {
    BatteryLimits {
        usable_capacity_kwh: b(5.76),
        max_charge_kw: b(5.0),
        max_discharge_kw: b(5.0),
        max_export_kw: b(5.0),
        soc_floor_pct: b(10.0),
        soc_ceiling_pct: b(100.0),
        round_trip_efficiency: b(0.88),
    }
}

fn reading(at: UtcTime) -> Reading {
    Reading {
        at,
        age_nanos: 0,
        soc_pct: b(40.0),
        load_kw: b(1.0),
        solar_kw: b(0.0),
        grid_kw: b(-6.0),
        battery_kw: b(-5.0),
    }
}

fn energy_kw(limits: &BatteryLimits, reading: &Reading, millis: i64) -> f64 {
    let stored = f64_of(limits.usable_capacity_kwh) * f64_of(reading.soc_pct) / 100.0;
    let floor = f64_of(limits.usable_capacity_kwh) * f64_of(limits.soc_floor_pct) / 100.0;
    (stored - floor).max(0.0) * f64_of(limits.round_trip_efficiency).sqrt()
        / (millis as f64 / 3_600_000.0)
}

/// A host with files in memory.
struct Fixture {
    cfg: ProviderConfig,
    windows: Vec<Window>,
    state: State,
    ledger: Vec<RewardEvent>,
    writable: bool,
    feed: Result<Option<DispatchEvent>, String>,
    service: DispatchService,
}

impl Fixture {
    fn new(self_dispatch: bool) -> Self {
        let cfg = ProviderConfig {
            axle: AxleConfig {
                enabled: true,
                api_key: "test-key".into(),
                self_dispatch,
                ..Default::default()
            },
        };
        let service = Self::start(&cfg, Vec::new(), State::default(), Vec::new());
        Self {
            cfg,
            windows: Vec::new(),
            state: State::default(),
            ledger: Vec::new(),
            writable: true,
            feed: Ok(None),
            service,
        }
    }

    fn start(
        cfg: &ProviderConfig,
        windows: Vec<Window>,
        state: State,
        ledger: Vec<RewardEvent>,
    ) -> DispatchService {
        let zone = Zone::new("Europe/London").unwrap();
        let rewards = AxleRewardTracker::new(ledger, zone, 90_000);
        DispatchService::new(cfg, Ok(windows), Ok(state), Some(rewards)).unwrap()
    }

    fn reload(&mut self) {
        let ledger = self.ledger.clone();
        self.service = Self::start(&self.cfg, self.windows.clone(), self.state, ledger);
    }

    fn save(&mut self, file: StateFile) -> Result<(), String> {
        if !self.writable {
            return Err("not writable".into());
        }
        match file {
            StateFile::Handover => self.windows = self.service.handover.windows.clone(),
            StateFile::SelfDispatch => self.state = self.service.local.unwrap().state,
        }
        Ok(())
    }

    fn save_ledger(&mut self) {
        let rewards = self.service.rewards.as_ref().unwrap();
        if rewards.dirty {
            self.ledger = rewards.events.clone();
            self.service.flush(Ok(()));
        }
    }

    fn poll(&mut self, now: UtcTime) -> Result<Update, String> {
        let reply = match &self.feed {
            Ok(event) => Ok(*event),
            Err(reason) => Err(AxleError::Unavailable(reason.clone())),
        };
        let polling = self.service.poll(reply, now);
        self.save_ledger();
        let saved = if polling.save_local {
            self.save(StateFile::SelfDispatch)
        } else {
            Ok(())
        };
        let polled = self.service.poll_saved(polling, saved)?;
        let saved = if polled.save_handover {
            self.save(StateFile::Handover)
        } else {
            Ok(())
        };
        polled.settle(saved)
    }

    fn publish(&mut self, event: Option<DispatchEvent>, now: UtcTime) -> Update {
        self.feed = Ok(event);
        self.poll(now).unwrap()
    }

    fn try_control(&mut self, limits: &BatteryLimits, now: UtcTime) -> Result<Control, String> {
        let reading = reading(now);
        let energy = match self.service.lease(now) {
            Some(lease) => energy_kw(limits, &reading, lease.millis),
            None => f64::NAN,
        };
        let step = self.service.control(limits, now, Some(reading), b(energy))?;
        let saved = match step.save {
            Some(file) => self.save(file),
            None => Ok(()),
        };
        self.service.control_saved(step, now, Some(reading), saved)
    }

    fn control(&mut self, now: UtcTime) -> Control {
        self.try_control(&limits(), now).unwrap()
    }

    fn observe(&mut self, now: UtcTime) {
        let claims: Vec<Claim> = self.service.observe(now, Some(reading(now)));
        let rewards = self.service.rewards.as_mut().unwrap();
        for claim in claims {
            // The power is the same at both readings.
            let covered = claim.covered_millis as f64 / 1000.0;
            let row = &rewards.events[claim.row];
            let net = f64_of(row.net_grid_kwh) + f64_of(claim.before_kw) * covered / 3600.0;
            let coverage = f64_of(row.coverage_seconds) + covered;
            rewards.credit(claim.row, b(net), b(coverage));
        }
        self.save_ledger();
    }
}

#[test]
fn unknown_ownership_and_late_event_discovery_never_allow_a_reset() {
    let mut f = Fixture::new(false);
    f.feed = Err("offline".into());
    f.poll(at(0)).unwrap();
    assert!(matches!(f.control(at(0)), Control::Unavailable));
    assert!(!f.service.permits_shutdown(at(0)));
    let event = DispatchEvent {
        start_time: seconds(1),
        end_time: at(10),
        direction: DispatchDirection::Export,
    };
    assert!(f.publish(Some(event), event.start_time).replan);
    assert!(matches!(
        f.control(event.start_time),
        Control::External { release: false, .. }
    ));
    assert!(!f.service.permits_shutdown(event.start_time));
    f.publish(None, at(11));
    assert!(matches!(
        f.control(at(11)),
        Control::External { release: false, .. }
    ));
    assert!(matches!(f.control(at(30)), Control::Tariff { .. }));
    assert!(f.service.permits_shutdown(at(30)));
}

#[test]
fn one_handover_and_its_protection_survive_restart_and_an_empty_feed() {
    let mut f = Fixture::new(false);
    f.publish(Some(event()), at(-1));
    assert!(matches!(f.control(at(-1)), Control::Tariff { until: Some(t), .. } if t == at(0)));
    assert!(matches!(
        f.control(at(0)),
        Control::External { release: true, .. }
    ));
    f.reload();
    f.publish(None, at(1));
    assert!(matches!(
        f.control(at(1)),
        Control::External { release: false, .. }
    ));
    assert!(matches!(
        f.control(at(30)),
        Control::External { release: false, .. }
    ));
    assert!(matches!(f.control(at(60)), Control::Tariff { .. }));
}

#[test]
fn local_dispatch_preserves_deadlines_feed_grace_and_cancellation() {
    let mut f = Fixture::new(true);
    assert!(f.publish(Some(event()), at(16)).replan);
    assert!(matches!(f.control(at(16)), Control::Tariff { until: Some(t), .. } if t == at(17)));
    assert_eq!(f.service.next_boundary(at(16)), Some(at(17)));
    let (action, next_refresh) = match f.control(at(17)) {
        Control::Override {
            action,
            next_refresh,
            ..
        } => (action, next_refresh),
        _ => panic!("expected override"),
    };
    assert_eq!(action.mode, DispatchMode::Exporting);
    assert_eq!(action.power_kw, b(5.0));
    assert_eq!(action.end, at(19));
    assert_eq!(next_refresh, at(18));
    assert!(f.service.record_attempt(at(17), false));
    f.feed = Err("offline".into());
    f.poll(at(22)).unwrap();
    assert!(matches!(
        f.control(at(22)),
        Control::Override {
            action: Action {
                mode: DispatchMode::Resting,
                ..
            },
            ..
        }
    ));
    assert!(f.publish(None, at(23)).replan);
    assert!(matches!(
        f.control(at(23)),
        Control::Tariff { replan: true, .. }
    ));
    assert!(f.service.permits_shutdown(at(23)));
}

#[test]
fn provider_forecasts_metadata_and_legacy_reward_snapshots_stay_consistent() {
    let mut f = Fixture::new(false);
    f.publish(Some(event()), at(16));
    let forecasts = f.service.forecasts();
    assert_eq!(forecasts[0].event, event());
    assert_eq!(forecasts[0].reward_p_per_kwh, b(100.0));
    assert!(!forecasts[0].self_dispatch);
    for time in [at(17), seconds(17 * 60 + 30)] {
        f.observe(time);
    }
    f.service.flush(Ok(()));
    let info = f.service.active_event().unwrap();
    assert_eq!(info.provider, "axle");
    assert_eq!(info.id, Some(format!("axle-{}", at(17).timestamp())));
    assert_eq!(info.direction, "export");
    assert_eq!(info.start, at(17));
    assert_eq!(info.clone(), info);
    let report = |f: &Fixture| {
        let row = &f.service.rewards.as_ref().unwrap().events[0];
        let report = row.report(at(18));
        let estimate = f64_of(report.payable_kwh) * f64_of(row.reward_p_per_kwh) / 100.0;
        (estimate, report)
    };
    let (estimate_gbp, before) = report(&f);
    assert!((estimate_gbp - 0.05).abs() < 1e-9);
    assert!(before.estimated);
    assert!(!before.settled);
    f.reload();
    assert_eq!(report(&f), (estimate_gbp, before));
}

#[test]
fn a_disabled_provider_leaves_control_with_the_tariff() {
    let mut f = Fixture::new(true);
    f.cfg.axle.enabled = false;
    f.reload();
    assert!(f.service.local.is_none());
    assert_eq!(
        f.control(at(0)),
        Control::Tariff {
            until: None,
            replan: false
        }
    );
    assert!(f.service.permits_shutdown(at(0)));
    assert!(f.service.forecasts().is_empty());
    assert!(f.service.active_event().is_none());
    assert_eq!(f.service.next_boundary(at(0)), None);
    assert!(!f.service.record_attempt(at(0), true));
    let update = f.publish(None, at(0));
    assert_eq!(update, Update::default());
}

#[test]
fn start_fails_with_the_settings_or_the_saved_state_that_is_at_fault() {
    let f = Fixture::new(true);
    let good = || Ok(State::default());
    let mut cfg = f.cfg.clone();
    cfg.axle.api_key = " ".into();
    assert_eq!(
        DispatchService::new(&cfg, Ok(Vec::new()), good(), None)
            .err()
            .unwrap(),
        "axle.api_key is required when axle is enabled"
    );
    let upside_down = Window {
        start: at(2),
        end: at(1),
        passive_attempted: false,
    };
    assert_eq!(
        DispatchService::new(&f.cfg, Ok(vec![upside_down]), good(), None)
            .err()
            .unwrap(),
        "invalid saved Axle protection window"
    );
    let unconfirmed = State {
        event: Some(event()),
        ..State::default()
    };
    assert_eq!(
        DispatchService::new(&f.cfg, Ok(Vec::new()), Ok(unconfirmed), None)
            .err()
            .unwrap(),
        "invalid saved Axle self-dispatch event"
    );
    // Without local dispatch its saved state does not matter.
    let mut plain = f.cfg.clone();
    plain.axle.self_dispatch = false;
    assert!(DispatchService::new(&plain, Ok(Vec::new()), Err("broken".into()), None).is_ok());
}

#[test]
fn invalid_limits_stop_tariff_control_but_not_protection() {
    let mut f = Fixture::new(false);
    f.publish(Some(event()), at(-1));
    let bad = BatteryLimits {
        usable_capacity_kwh: b(0.0),
        ..limits()
    };
    assert_eq!(
        f.try_control(&bad, at(-1)).unwrap_err(),
        "invalid dispatch battery limits"
    );
    assert_eq!(
        f.try_control(&bad, at(0)).unwrap(),
        Control::External {
            release: true,
            until: at(30)
        }
    );
}

#[test]
fn failed_saves_leave_control_blocked() {
    // The permission to hand over is not given, and not given later either.
    let mut f = Fixture::new(false);
    f.publish(Some(event()), at(-1));
    f.writable = false;
    assert_eq!(f.try_control(&limits(), at(0)).unwrap_err(), "not writable");
    f.writable = true;
    assert!(matches!(
        f.control(at(0)),
        Control::External { release: false, .. }
    ));
    // An event whose acceptance is not saved is not known.
    let mut f = Fixture::new(true);
    f.writable = false;
    f.feed = Ok(Some(event()));
    assert_eq!(f.poll(at(16)).unwrap_err(), "not writable");
    assert!(f.service.active_event().is_none());
    // Nor is an override given whose ownership is not saved.
    let mut f = Fixture::new(true);
    f.publish(Some(event()), at(16));
    f.writable = false;
    assert_eq!(f.try_control(&limits(), at(17)).unwrap_err(), "not writable");
}

#[test]
fn local_dispatch_takes_windows_whose_boundaries_the_calendar_lacks() {
    let last = UtcTime::from_timestamp(energy_price::utc::MAX_SECS, 0).unwrap();
    let mut f = Fixture::new(true);
    f.windows = vec![Window {
        start: at(0),
        end: last,
        passive_attempted: false,
    }];
    f.reload();
    f.publish(Some(event()), at(16));
    assert!(matches!(f.control(at(17)), Control::Override { .. }));
    assert!(f.service.permits_shutdown(at(17)));
}

#[test]
fn invalid_limits_are_refused_before_any_lease() {
    let mut f = Fixture::new(true);
    f.publish(Some(event()), at(16));
    let bad = BatteryLimits {
        soc_floor_pct: b(100.0),
        ..limits()
    };
    assert_eq!(
        f.try_control(&bad, at(17)).unwrap_err(),
        "invalid dispatch battery limits"
    );
    assert!(!f.service.local.unwrap().state.owned);
}

#[test]
fn a_failed_feed_keeps_the_event_until_its_end() {
    let mut f = Fixture::new(false);
    f.publish(Some(event()), at(16));
    f.feed = Err("offline".into());
    assert_eq!(f.poll(at(26)).unwrap(), Update::default());
    assert_eq!(f.service.next_boundary(at(26)), Some(at(27)));
    let update = f.poll(at(27)).unwrap();
    assert!(update.changed && !update.replan);
    assert!(f.service.active_event().is_none());
}

#[test]
fn overrides_are_retried_on_what_the_meter_shows() {
    let mut f = Fixture::new(true);
    f.publish(Some(event()), at(16));
    assert!(f.service.record_attempt(at(17), true));
    let (due, allowed, retry_at) = match f.control(seconds(17 * 60 + 20)) {
        Control::Override {
            retry_due,
            retry_allowed,
            retry_at,
            ..
        } => (retry_due, retry_allowed, retry_at),
        _ => panic!("expected override"),
    };
    // The meter shows the export, and a failed write waits for half a minute.
    assert!(!due && !allowed);
    assert_eq!(retry_at, seconds(17 * 60 + 50));
    assert!(matches!(
        f.control(seconds(17 * 60 + 30)),
        Control::Override {
            retry_due: false,
            retry_allowed: true,
            ..
        }
    ));
    // Outside the event the attempt is not ours.
    assert!(!f.service.record_attempt(at(27), false));
}
