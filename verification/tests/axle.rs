//! The event feed.
use chrono::{TimeZone, Utc};
use energy_price::axle::{
    authorization, event_of, AxleError, AxleEvents, AxleSource, EventResponse,
    REQUEST_TIMEOUT_MILLIS,
};
use energy_price::utc::UtcTime;
use energy_price::{AxleConfig, AxleDirection, AxleEvent};
use std::sync::atomic::{AtomicUsize, Ordering};
use std::sync::{Arc, Mutex};
use std::time::Duration;

fn at(hour: u32, minute: u32) -> UtcTime {
    let at = Utc.with_ymd_and_hms(2026, 8, 26, hour, minute, 0).unwrap();
    UtcTime::from_timestamp(at.timestamp(), 0).unwrap()
}

fn response(
    start_time: Option<&str>,
    end_time: Option<&str>,
    import_export: Option<AxleDirection>,
    opted_out: bool,
) -> EventResponse {
    EventResponse {
        opted_out,
        start_time: start_time.map(|text| UtcTime::parse(text).unwrap()),
        end_time: end_time.map(|text| UtcTime::parse(text).unwrap()),
        import_export,
    }
}

#[test]
fn nullable_response_means_no_event() {
    let response = response(None, None, None, false);
    assert_eq!(response.into_event().unwrap(), None);
}

#[test]
fn opted_out_events_cannot_authorize_dispatch() {
    let out = response(
        Some("2026-08-26T12:00:00Z"),
        Some("2026-08-26T13:00:00Z"),
        Some(AxleDirection::Export),
        true,
    );
    assert_eq!(out.into_event().unwrap(), None);
    let long = response(
        Some("2026-08-26T12:00:00Z"),
        Some("2026-08-28T13:00:00Z"),
        Some(AxleDirection::Export),
        false,
    );
    assert!(long.into_event().is_err());
}

#[test]
fn timezone_offsets_are_normalised_to_utc() {
    let response = response(
        Some("2026-08-26T13:00:00+01:00"),
        Some("2026-08-26T13:30:00+01:00"),
        Some(AxleDirection::Export),
        false,
    );
    let event = response.into_event().unwrap().unwrap();
    assert_eq!(event.start_time, at(12, 0));
    assert_eq!(event.end_time, at(12, 30));
}

#[test]
fn partial_and_backwards_events_are_rejected() {
    for response in [
        response(
            Some("2026-08-26T12:00:00Z"),
            None,
            Some(AxleDirection::Export),
            false,
        ),
        response(
            Some("2026-08-26T13:00:00Z"),
            Some("2026-08-26T12:00:00Z"),
            Some(AxleDirection::Export),
            false,
        ),
    ] {
        assert!(response.into_event().is_err());
    }
}

struct CountingSource(Arc<AtomicUsize>);

impl AxleSource for CountingSource {
    fn fetch(&self, _url: &str, _api_key: &str) -> Result<Option<AxleEvent>, AxleError> {
        self.0.fetch_add(1, Ordering::SeqCst);
        Ok(None)
    }
}

#[test]
fn every_call_reaches_the_provider() {
    let count = Arc::new(AtomicUsize::new(0));
    let client = AxleEvents {
        cfg: AxleConfig {
            enabled: true,
            api_url: "https://api.axle.energy".into(),
            api_key: "member-key".into(),
            ..AxleConfig::default()
        },
        source: CountingSource(Arc::clone(&count)),
    };
    client.get_event().unwrap();
    client.get_event().unwrap();
    client.get_event().unwrap();
    assert_eq!(count.load(Ordering::SeqCst), 3);
}

#[test]
fn disabled_axle_does_not_query_the_provider() {
    let count = Arc::new(AtomicUsize::new(0));
    let client = AxleEvents {
        cfg: AxleConfig::default(),
        source: CountingSource(Arc::clone(&count)),
    };
    assert_eq!(client.get_event().unwrap(), None);
    assert_eq!(count.load(Ordering::SeqCst), 0);
}

#[test]
fn request_timeout_fits_inside_the_one_second_control_tick() {
    assert!(Duration::from_millis(REQUEST_TIMEOUT_MILLIS) < Duration::from_secs(1));
}

type Seen = Arc<Mutex<Vec<(String, String)>>>;

struct Recording(Seen);

impl AxleSource for Recording {
    fn fetch(&self, url: &str, api_key: &str) -> Result<Option<AxleEvent>, AxleError> {
        self.0.lock().unwrap().push((url.into(), api_key.into()));
        Err(AxleError::Http("503".into()))
    }
}

#[test]
fn the_feed_is_asked_below_the_configured_address() {
    let seen: Seen = Arc::default();
    for api_url in ["https://api.axle.energy", "https://api.axle.energy//"] {
        let cfg = AxleConfig {
            enabled: true,
            api_url: api_url.into(),
            api_key: "member-key".into(),
            ..AxleConfig::default()
        };
        let client = AxleEvents::with_source(cfg, Recording(Arc::clone(&seen)));
        assert_eq!(
            client.get_event().unwrap_err().message(),
            "Axle request failed: 503"
        );
    }
    let expected = (
        "https://api.axle.energy/vpp/home-assistant/event".to_string(),
        "member-key".to_string(),
    );
    assert_eq!(*seen.lock().unwrap(), vec![expected.clone(), expected]);
    assert_eq!(authorization("member-key"), "Bearer member-key");
}

#[test]
fn an_event_lasts_a_day_at_most() {
    let day = EventResponse {
        opted_out: false,
        start_time: Some(at(0, 0)),
        end_time: UtcTime::from_timestamp(at(0, 0).timestamp() + 86_400, 0),
        import_export: Some(AxleDirection::Import),
    };
    assert!(event_of(Some(day)).unwrap().is_some());
    let more = EventResponse {
        end_time: UtcTime::from_timestamp(at(0, 0).timestamp() + 86_400, 1),
        ..day
    };
    assert_eq!(
        event_of(Some(more)).unwrap_err().message(),
        "Axle events unavailable: \
         expected an empty event or ordered UTC start/end times with a direction"
    );
    assert_eq!(event_of(None).unwrap(), None);
}
