//! Reward accounting from signed grid energy.
use chrono::{TimeZone, Utc};
use energy_price::binary64::Binary64;
use energy_price::dispatch::rewards::{
    event_id_text, AxleRewardTracker, Claim, RewardEvent, RewardStatus,
};
use energy_price::dispatch::Reading;
use energy_price::utc::UtcTime;
use energy_price::zone::{local_date_exists, LocalDate, Zone};
use energy_price::{AxleConfig, AxleDirection, AxleEvent};

fn b(value: f64) -> Binary64 {
    Binary64 {
        bits: value.to_bits(),
    }
}

fn f(value: Binary64) -> f64 {
    f64::from_bits(value.bits)
}

fn at(second: i64) -> UtcTime {
    let start = Utc.with_ymd_and_hms(2026, 9, 11, 17, 0, 0).unwrap();
    UtcTime::from_timestamp(start.timestamp() + second, 0).unwrap()
}

fn event() -> AxleEvent {
    AxleEvent {
        start_time: at(0),
        end_time: at(3600),
        direction: AxleDirection::Export,
    }
}

fn tracker() -> AxleRewardTracker {
    AxleRewardTracker::new(Vec::new(), Zone::new("Europe/London").unwrap(), 90_000)
}

fn reading(second: i64, grid_kw: f64) -> Reading {
    Reading {
        soc_pct: b(50.0),
        battery_kw: b(-5.0),
        grid_kw: b(grid_kw),
        load_kw: b(1.0),
        solar_kw: b(0.0),
        at: at(second),
        age_nanos: 0,
    }
}

// Power changes evenly between two readings; the energy of a stretch is that of its mean.
fn credit(tracker: &mut AxleRewardTracker, claims: &[Claim]) {
    for claim in claims {
        let seconds = |millis: i64| millis as f64 / 1000.0;
        let (before, after) = (f(claim.before_kw), f(claim.after_kw));
        let power = |millis: i64| {
            before + (after - before) * seconds(millis) / seconds(claim.span_millis)
        };
        let covered = seconds(claim.covered_millis);
        let row = &tracker.events[claim.row];
        let net = f(row.net_grid_kwh)
            + (power(claim.from_millis) + power(claim.to_millis)) / 2.0 * covered / 3600.0;
        let coverage = f(row.coverage_seconds) + covered;
        tracker.credit(claim.row, b(net), b(coverage));
    }
}

fn sample(tracker: &mut AxleRewardTracker, second: i64, grid_kw: f64) {
    let claims = tracker.observe(at(second), Some(reading(second, grid_kw)));
    credit(tracker, &claims);
}

fn estimate_gbp(row: &RewardEvent, now: UtcTime) -> f64 {
    let report = row.report(now);
    assert!(report.estimated && !report.settled);
    f(report.payable_kwh) * f(row.reward_p_per_kwh) / 100.0
}

fn reward(t: &AxleRewardTracker) -> f64 {
    estimate_gbp(&t.events[0], at(4000))
}

fn near(left: f64, right: f64) {
    assert!((left - right).abs() < 1e-8, "{left} != {right}");
}

#[test]
fn whole_event_net_grid_contribution_offsets_exports_with_imports() {
    let mut t = tracker();
    t.confirm(Some(event()), at(-60), &AxleConfig::default());
    for second in (0..=1800).step_by(30) {
        sample(&mut t, second, -4.0);
    }
    near(reward(&t), 2.0); // Battery discharge is deliberately different from grid flow.
    for second in (1830..=3600).step_by(30) {
        sample(&mut t, second, 2.0);
    }
    near(reward(&t), 1.025); // With the 30-second ramp from export to import.
    near(f(t.events[0].coverage_seconds), 3600.0);
}

#[test]
fn clips_interpolated_power_to_exact_event_boundaries() {
    let mut t = tracker();
    let e = AxleEvent {
        end_time: at(60),
        ..event()
    };
    t.confirm(Some(e), at(-60), &AxleConfig::default());
    sample(&mut t, -30, 0.0);
    sample(&mut t, 30, -6.0);
    sample(&mut t, 90, 0.0);
    near(reward(&t), 4.5 / 60.0);
    near(f(t.events[0].coverage_seconds), 60.0);
    sample(&mut t, 120, -5.0);
    near(reward(&t), 4.5 / 60.0);
}

#[test]
fn cancellation_and_reinstatement_do_not_credit_the_gap() {
    let mut t = tracker();
    t.confirm(Some(event()), at(-60), &AxleConfig::default());
    sample(&mut t, 0, -6.0);
    sample(&mut t, 30, -6.0);
    t.confirm(None, at(45), &AxleConfig::default());
    sample(&mut t, 60, -6.0);
    sample(&mut t, 90, -6.0);
    near(reward(&t), 6.0 * 45.0 / 3600.0);
    t.confirm(Some(event()), at(105), &AxleConfig::default());
    sample(&mut t, 120, -6.0);
    near(reward(&t), 0.1);
    near(f(t.events[0].coverage_seconds), 60.0);
}

#[test]
fn late_discovery_and_rescheduling_do_not_retroactively_claim_energy() {
    let mut t = tracker();
    sample(&mut t, 0, -6.0);
    t.confirm(Some(event()), at(15), &AxleConfig::default());
    sample(&mut t, 30, -6.0);
    near(reward(&t), 0.025);
    let moved = AxleEvent {
        start_time: at(60),
        ..event()
    };
    t.confirm(Some(moved), at(45), &AxleConfig::default());
    sample(&mut t, 60, -6.0);
    sample(&mut t, 90, -6.0);
    near(estimate_gbp(&t.events[0], at(120)), 0.05);
    near(estimate_gbp(&t.events[1], at(120)), 0.05);
}

#[test]
fn gaps_missing_invalid_and_duplicate_readings_cannot_manufacture_energy() {
    let mut t = tracker();
    t.confirm(Some(event()), at(-60), &AxleConfig::default());
    sample(&mut t, 0, -6.0);
    sample(&mut t, 30, -6.0);
    sample(&mut t, 30, -600.0);
    sample(&mut t, 15, -600.0);
    sample(&mut t, 60, -6.0);
    sample(&mut t, 600, -6.0);
    sample(&mut t, 630, f64::NAN);
    sample(&mut t, 660, -6.0);
    assert!(t.observe(at(675), None).is_empty());
    sample(&mut t, 690, -6.0);
    sample(&mut t, 720, -6.0);
    near(reward(&t), 0.15);
    near(f(t.events[0].coverage_seconds), 90.0);
}

#[test]
fn restart_keeps_earnings_without_bridging_downtime_or_replaying_old_samples() {
    let mut t = tracker();
    t.confirm(Some(event()), at(-60), &AxleConfig::default());
    sample(&mut t, 0, -6.0);
    sample(&mut t, 30, -6.0);
    let saved = t.events.clone();
    let mut restored =
        AxleRewardTracker::new(saved, Zone::new("Europe/London").unwrap(), 90_000);
    sample(&mut restored, 0, -6.0);
    sample(&mut restored, 30, -6.0);
    near(reward(&restored), 0.05);
    sample(&mut restored, 600, -6.0);
    sample(&mut restored, 630, -6.0);
    near(reward(&restored), 0.1);
}

#[test]
fn signed_import_rewards_and_zero_floor_use_configured_rates() {
    let mut t = tracker();
    let cfg = AxleConfig {
        import_reward_p_per_kwh: b(50.0),
        ..AxleConfig::default()
    };
    let e = AxleEvent {
        direction: AxleDirection::Import,
        ..event()
    };
    t.confirm(Some(e), at(-60), &cfg);
    sample(&mut t, 0, -6.0);
    sample(&mut t, 30, -6.0);
    near(reward(&t), 0.0);
    for second in (60..=120).step_by(30) {
        sample(&mut t, second, 6.0);
    }
    near(reward(&t), 0.025);
}

#[test]
fn event_start_local_date_owns_cross_midnight_reward() {
    let mut t = tracker();
    let e = AxleEvent {
        start_time: at(21570),
        end_time: at(21630),
        ..event()
    };
    t.confirm(Some(e), at(21500), &AxleConfig::default());
    sample(&mut t, 21570, -6.0);
    sample(&mut t, 21600, -6.0);
    sample(&mut t, 21630, -6.0);
    let row = &t.events[0];
    let date = &row.local_date;
    assert_eq!(
        format!("{}-{:02}-{:02}", date.year, date.month, date.day),
        "2026-09-11"
    );
    near(estimate_gbp(row, at(21660)), 0.1);
}

#[test]
fn retrospective_end_correction_withdraws_unreconstructable_estimate() {
    let mut t = tracker();
    t.confirm(Some(event()), at(-60), &AxleConfig::default());
    sample(&mut t, 0, -6.0);
    sample(&mut t, 30, -6.0);
    sample(&mut t, 60, -6.0);
    let e = AxleEvent {
        end_time: at(15),
        ..event()
    };
    t.confirm(Some(e), at(60), &AxleConfig::default());
    near(reward(&t), 0.0);
    near(f(t.events[0].coverage_seconds), 0.0);
}

#[test]
fn no_row_counts_more_than_its_event_over_answers_readings_and_restarts() {
    let mut t = tracker();
    let mut covered = 0;
    let mut look = |t: &mut AxleRewardTracker, second: i64| {
        let before = t.events.first().map(|row| row.accounted_until);
        let claims = t.observe(at(second), Some(reading(second, -6.0)));
        covered += claims.iter().map(|claim| claim.covered_millis).sum::<i64>();
        credit(t, &claims);
        if let Some(before) = before {
            assert!(!t.events[0].accounted_until.before(before));
        }
    };
    t.confirm(Some(event()), at(-60), &AxleConfig::default());
    for round in 0..3 {
        for second in (-60..=3660).step_by(60) {
            look(&mut t, second);
            if second == 1200 {
                t.confirm(None, at(second), &AxleConfig::default());
            }
            if second == 1260 {
                t.confirm(Some(event()), at(second), &AxleConfig::default());
            }
        }
        // The same readings again, after a restart.
        let saved = t.events.clone();
        t = AxleRewardTracker::new(saved, Zone::new("Europe/London").unwrap(), 90_000);
        assert_eq!(t.events.len(), 1, "round {round}");
    }
    // All but the minute for which the event was called off.
    assert_eq!(covered, 3_540_000);
    near(f(t.events[0].coverage_seconds), 3540.0);
}

#[test]
fn claims_give_the_stretch_in_milliseconds() {
    let mut t = tracker();
    t.confirm(Some(event()), at(-60), &AxleConfig::default());
    assert!(t.observe(at(-30), Some(reading(-30, 1.0))).is_empty());
    let claims = t.observe(at(30), Some(reading(30, -6.0)));
    assert_eq!(
        claims,
        vec![Claim {
            row: 0,
            from_millis: 30_000,
            to_millis: 60_000,
            covered_millis: 30_000,
            span_millis: 60_000,
            before_kw: b(1.0),
            after_kw: b(-6.0),
        }]
    );
    assert_eq!(t.events[0].accounted_until, at(30));
    // Ninety seconds are counted and ninety-one are a gap.
    assert_eq!(t.observe(at(120), Some(reading(120, -6.0))).len(), 1);
    assert!(t.observe(at(211), Some(reading(211, -6.0))).is_empty());
}

#[test]
fn local_dates_follow_the_zone_and_not_the_clock_in_utc() {
    // 23:30 UTC is 00:30 of the next day in London's summer.
    let mut t = tracker();
    let e = AxleEvent {
        start_time: at(23_400),
        end_time: at(25_200),
        ..event()
    };
    assert!(local_date_exists(e.start_time));
    t.confirm(Some(e), at(0), &AxleConfig::default());
    assert_eq!(
        t.events[0].local_date,
        LocalDate {
            year: 2026,
            month: 9,
            day: 12
        }
    );
    let mut there =
        AxleRewardTracker::new(Vec::new(), Zone::new("America/New_York").unwrap(), 90_000);
    there.confirm(Some(e), at(0), &AxleConfig::default());
    assert_eq!(there.events[0].local_date.day, 11);
    assert!(Zone::new("Europe/Atlantis").is_none());
    assert!(!local_date_exists(
        UtcTime::from_timestamp(energy_price::utc::MAX_SECS, 0).unwrap()
    ));
}

#[test]
fn a_known_event_needs_no_date() {
    let last = UtcTime::from_timestamp(energy_price::utc::MAX_SECS, 0).unwrap();
    let e = AxleEvent {
        start_time: UtcTime::from_timestamp(energy_price::utc::MAX_SECS - 60, 0).unwrap(),
        end_time: last,
        direction: AxleDirection::Export,
    };
    let mut t = tracker();
    assert!(!t.knows(e) && !local_date_exists(e.start_time));
    let local_date = LocalDate {
        year: 262142,
        month: 12,
        day: 31,
    };
    t.confirm_dated(Some((e, local_date)), at(0), &AxleConfig::default());
    assert!(t.knows(e));
    t.confirm(None, at(1), &AxleConfig::default());
    t.confirm(Some(e), at(2), &AxleConfig::default());
    assert_eq!(t.events.len(), 1);
    assert_eq!(t.events[0].cancelled_at, None);
    assert_eq!(t.events[0].local_date, local_date);
}

#[test]
fn identities_hold_the_start_second_and_the_direction() {
    assert_eq!(
        event_id_text(event()),
        format!("axle-{}-export", at(0).timestamp())
    );
    let before_epoch = AxleEvent {
        start_time: UtcTime::from_timestamp(-7, 5).unwrap(),
        end_time: at(0),
        direction: AxleDirection::Import,
    };
    assert_eq!(event_id_text(before_epoch), "axle--7-import");
}

#[test]
fn the_ledger_keeps_two_hundred_events_and_drops_the_oldest() {
    let mut t = tracker();
    for i in 0..=200 {
        let e = AxleEvent {
            start_time: at(i * 7200),
            end_time: at(i * 7200 + 3600),
            direction: AxleDirection::Export,
        };
        t.confirm(Some(e), at(i * 7200), &AxleConfig::default());
        assert!(t.dirty);
        t.flush(Ok(()));
        assert!(!t.dirty);
    }
    assert_eq!(t.events.len(), 200);
    assert_eq!(t.events[0].start, at(7200));
    assert_eq!(t.events[199].start, at(200 * 7200));
    // The same announcement again changes nothing.
    let e = AxleEvent {
        start_time: at(200 * 7200),
        end_time: at(200 * 7200 + 3600),
        direction: AxleDirection::Export,
    };
    t.confirm(Some(e), at(200 * 7200 + 10), &AxleConfig::default());
    assert!(!t.dirty);
}

#[test]
fn failed_saves_stay_due() {
    let mut t = tracker();
    t.confirm(Some(event()), at(-60), &AxleConfig::default());
    t.flush(Err("disk full".into()));
    assert!(t.dirty);
    t.flush(Ok(()));
    assert!(!t.dirty);
}

#[test]
fn reports_tell_the_progress_of_an_event() {
    let mut t = tracker();
    t.confirm(Some(event()), at(-60), &AxleConfig::default());
    for (second, status) in [
        (-1, RewardStatus::Upcoming),
        (0, RewardStatus::Active),
        (3599, RewardStatus::Active),
        (3600, RewardStatus::Completed),
    ] {
        assert_eq!(t.events[0].report(at(second)).status, status);
    }
    assert_eq!(RewardStatus::Cancelled.text(), "cancelled");
    assert_eq!(RewardStatus::Upcoming.text(), "upcoming");
    assert_eq!(RewardStatus::Active.text(), "active");
    assert_eq!(RewardStatus::Completed.text(), "completed");
    t.confirm(None, at(10), &AxleConfig::default());
    assert_eq!(t.events[0].report(at(20)).status, RewardStatus::Cancelled);
    // An event that is over is not called off.
    let mut t = tracker();
    t.confirm(Some(event()), at(-60), &AxleConfig::default());
    t.confirm(None, at(3600), &AxleConfig::default());
    assert_eq!(t.events[0].report(at(4000)).status, RewardStatus::Completed);
}
