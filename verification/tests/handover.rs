//! Protection windows around events: one handover, then silence.
use chrono::{TimeZone, Utc};
use energy_price::dispatch::handover::{guardable, AxleHandover, Window};
use energy_price::dispatch::service::DispatchService;
use energy_price::dispatch::self_dispatch::State;
use energy_price::dispatch::time::{handover_at, handover_exists, resume_at, resume_exists};
use energy_price::dispatch::ProviderConfig;
use energy_price::utc::UtcTime;
use energy_price::{AxleConfig, AxleDirection, AxleEvent};

fn at(hour: u32, minute: u32, second: u32) -> UtcTime {
    let at = Utc
        .with_ymd_and_hms(2026, 9, 7, hour, minute, second)
        .unwrap();
    UtcTime::from_timestamp(at.timestamp(), 0).unwrap()
}

fn plus(at: UtcTime, seconds: i64) -> UtcTime {
    UtcTime::from_timestamp(at.timestamp() + seconds, at.subsec_nanos()).unwrap()
}

#[derive(Default)]
struct Spy {
    commands: Vec<&'static str>,
    fail: bool,
}

struct Fixture {
    disk: Vec<Window>,
    writable: bool,
    handover: AxleHandover,
    event: AxleEvent,
}

impl Fixture {
    fn new() -> Self {
        let event = AxleEvent {
            start_time: at(18, 0, 0),
            end_time: at(19, 0, 0),
            direction: AxleDirection::Export,
        };
        let mut fixture = Self {
            disk: Vec::new(),
            writable: true,
            handover: AxleHandover::load(Vec::new()).unwrap(),
            event,
        };
        fixture
            .observe(Some(event), plus(event.start_time, -3600))
            .unwrap();
        fixture
    }

    fn save(&mut self) -> Result<(), String> {
        if self.writable {
            self.disk = self.handover.windows.clone();
            Ok(())
        } else {
            Err("not writable".into())
        }
    }

    fn observe(&mut self, event: Option<AxleEvent>, now: UtcTime) -> Result<(), String> {
        if self.handover.observe(event, now) {
            self.save()
        } else {
            Ok(())
        }
    }

    // Exercise the caller contract, including an error after permission was saved.
    fn apply(&mut self, now: UtcTime, spy: &mut Spy, observe_only: bool) -> Result<bool, String> {
        let prepared = self.handover.prepare(now);
        let saved = if prepared.save { self.save() } else { Ok(()) };
        let release = match prepared.settle(saved)? {
            Some(release) => release,
            None => return Ok(false),
        };
        if release && !observe_only {
            spy.commands.push("passive");
            if spy.fail {
                return Err("partial write".into());
            }
        }
        Ok(true)
    }

    fn reload(&mut self) {
        self.handover = AxleHandover::load(self.disk.clone()).unwrap();
    }
}

#[test]
fn one_passive_at_prior_boundary_then_silence_through_buffered_resume() {
    for direction in [AxleDirection::Import, AxleDirection::Export] {
        let mut f = Fixture::new();
        f.event.direction = direction;
        let mut spy = Spy::default();
        let start = f.event.start_time;
        assert!(!f
            .apply(plus(handover_at(start), -1), &mut spy, false)
            .unwrap());
        assert!(spy.commands.is_empty());
        assert_eq!(
            f.handover.next_handover(plus(handover_at(start), -1)),
            Some(handover_at(start))
        );
        // Every 30-second tick through the event and post-event grace period.
        for seconds in (-1800..5400).step_by(30) {
            let now = plus(start, seconds);
            f.observe(None, now).unwrap(); // The feed may clear its event.
            assert!(f.apply(now, &mut spy, false).unwrap());
            assert!(f.handover.protected(now)); // Shutdown must also be silent.
            assert_eq!(spy.commands, vec!["passive"]);
            f.reload(); // What was saved must prevent a repeated handover on restart.
        }
        let end = f.event.end_time;
        assert!(!f.apply(resume_at(end), &mut spy, false).unwrap());
        assert!(!f.handover.protected(resume_at(end)));
    }
}

#[test]
fn late_discovery_and_restart_never_send_passive_during_event_or_grace() {
    for seconds in [-1740, -900, 0, 60, 3599, 3600, 5399] {
        let mut f = Fixture::new();
        let mut spy = Spy::default();
        let now = plus(f.event.start_time, seconds);
        assert!(f.apply(now, &mut spy, false).unwrap());
        f.reload();
        assert!(f.apply(now, &mut spy, false).unwrap());
        assert!(spy.commands.is_empty());
    }
}

#[test]
fn events_starting_in_the_handover_minute_are_already_protected() {
    for seconds in [1, 30, 59] {
        let mut f = Fixture::new();
        f.event.start_time = plus(f.event.start_time, seconds);
        let now = f.event.start_time;
        // Discover an event whose start falls inside the one-minute handover allowance.
        f.handover = AxleHandover::load(Vec::new()).unwrap();
        f.observe(Some(f.event), now).unwrap();
        let mut spy = Spy::default();
        assert!(f.apply(now, &mut spy, false).unwrap());
        assert!(f.handover.protected(now));
        assert!(spy.commands.is_empty(), "start offset: {seconds}s");
        f.reload();
        assert!(f.apply(plus(now, 1), &mut spy, false).unwrap());
        assert!(spy.commands.is_empty());
    }
}

#[test]
fn replacement_event_does_not_remove_previous_grace_period() {
    let mut f = Fixture::new();
    let mut spy = Spy::default();
    let mut next = f.event;
    next.start_time = plus(f.event.end_time, 180);
    next.end_time = plus(next.start_time, 1800);
    let now = f.event.end_time;
    f.observe(Some(next), now).unwrap();
    assert!(f.apply(now, &mut spy, false).unwrap());
    assert!(f.apply(next.start_time, &mut spy, false).unwrap());
    assert!(spy.commands.is_empty());
    assert!(!f.apply(resume_at(next.end_time), &mut spy, false).unwrap());
}

#[test]
fn failed_passive_is_not_retried_and_observe_only_never_writes() {
    let mut f = Fixture::new();
    let mut spy = Spy {
        fail: true,
        ..Spy::default()
    };
    let now = handover_at(f.event.start_time);
    assert!(f.apply(now, &mut spy, false).is_err());
    f.reload();
    assert!(f.apply(plus(now, 30), &mut spy, false).unwrap());
    assert_eq!(spy.commands.len(), 1);
    let mut f = Fixture::new();
    let mut spy = Spy::default();
    assert!(f.apply(now, &mut spy, true).unwrap());
    assert!(spy.commands.is_empty());
}

#[test]
fn corrupt_state_and_failed_persistence_cannot_authorize_a_write() {
    let mut f = Fixture::new();
    let mut spy = Spy::default();
    let cfg = ProviderConfig {
        axle: AxleConfig::default(),
    };
    assert!(
        DispatchService::new(&cfg, Err("not json".into()), Ok(State::default()), None).is_err()
    );
    f.writable = false;
    let now = handover_at(f.event.start_time);
    assert!(f.apply(now, &mut spy, false).is_err());
    assert!(spy.commands.is_empty());
    assert!(f.handover.protected(now));
}

#[test]
fn saved_windows_must_end_after_they_start() {
    let window = |start, end| Window {
        start,
        end,
        passive_attempted: false,
    };
    for bad in [
        window(at(18, 0, 0), at(18, 0, 0)),
        window(at(18, 0, 0), at(17, 0, 0)),
    ] {
        let error = AxleHandover::load(vec![window(at(1, 0, 0), at(2, 0, 0)), bad])
            .err()
            .unwrap();
        assert_eq!(error, "invalid saved Axle protection window");
    }
}

#[test]
fn boundaries_are_half_hours_around_the_event() {
    // The boundary strictly before the start.
    assert_eq!(handover_at(at(18, 0, 0)), at(17, 30, 0));
    assert_eq!(handover_at(at(18, 0, 1)), at(18, 0, 0));
    assert_eq!(handover_at(at(18, 29, 59)), at(18, 0, 0));
    // Five minutes past the end, rounded up.
    assert_eq!(resume_at(at(18, 55, 0)), at(19, 0, 0));
    assert_eq!(resume_at(at(18, 55, 1)), at(19, 30, 0));
    assert_eq!(resume_at(at(19, 0, 0)), at(19, 30, 0));
    let just_after = UtcTime::from_timestamp(at(18, 55, 0).timestamp(), 1).unwrap();
    assert_eq!(resume_at(just_after), at(19, 30, 0));
}

#[test]
fn the_calendar_bounds_the_windows() {
    let first = UtcTime::from_timestamp(energy_price::utc::MIN_SECS, 0).unwrap();
    let last = UtcTime::from_timestamp(energy_price::utc::MAX_SECS, 0).unwrap();
    assert!(!handover_exists(first));
    assert!(handover_exists(plus(first, 1)));
    assert!(!resume_exists(last));
    assert!(guardable(at(18, 0, 0), at(19, 0, 0)));
    assert!(!guardable(at(18, 0, 0), last));
    // Without an order there is nothing to guard.
    assert!(guardable(last, first));
}

#[test]
fn the_same_start_extends_a_window_and_never_shortens_it() {
    let mut f = Fixture::new();
    let now = plus(f.event.start_time, -1800);
    let mut longer = f.event;
    longer.end_time = at(19, 20, 0);
    assert!(f.handover.observe(Some(longer), now));
    assert_eq!(f.handover.windows.len(), 1);
    assert_eq!(f.handover.windows[0].end, at(19, 20, 0));
    let shorter = f.event;
    assert!(!f.handover.observe(Some(shorter), now));
    assert_eq!(f.handover.windows[0].end, at(19, 20, 0));
    // A window that has run out is forgotten.
    assert!(f.handover.observe(None, resume_at(at(19, 20, 0))));
    assert!(f.handover.windows.is_empty());
}
