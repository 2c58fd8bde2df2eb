//! Direct access to Axle's current event. There is deliberately no cache.
pub use crate::events::{AxleDirection, AxleEvent, AxleForecast};

use crate::config::AxleConfig;
use crate::text::{trim_end, trimmed_end};
use crate::utc::UtcTime;
use vstd::prelude::*;

verus! {

/// Milliseconds after which a request is given up. Control ticks once a second.
pub const REQUEST_TIMEOUT_MILLIS: u64 = 500;

/// Why there is no word of an event.
#[derive(Debug)]
pub enum AxleError {
    Unavailable(String),
    Http(String),
}

impl AxleError {
    /// The error as a message.
    pub fn message(&self) -> (r: String)
        ensures
            r@ == match self {
                AxleError::Unavailable(reason) => "Axle events unavailable: "@ + reason@,
                AxleError::Http(reason) => "Axle request failed: "@ + reason@,
            },
    {
        match self {
            AxleError::Unavailable(reason) => "Axle events unavailable: ".to_owned().concat(
                reason.as_str(),
            ),
            AxleError::Http(reason) => "Axle request failed: ".to_owned().concat(reason.as_str()),
        }
    }
}

/// Where events come from.
pub trait AxleSource: Send + Sync {
    /// What the source may answer to a request. A source that does not say may answer
    /// anything.
    open spec fn may_answer(
        &self,
        url: Seq<char>,
        api_key: Seq<char>,
        answer: Result<Option<AxleEvent>, AxleError>,
    ) -> bool {
        true
    }

    fn fetch(&self, url: &str, api_key: &str) -> (answer: Result<Option<AxleEvent>, AxleError>)
        ensures
            self.may_answer(url@, api_key@, answer),
    ;
}

/// The body of an answer of the feed.
#[derive(Debug, Clone, Copy, PartialEq, Eq)]
pub struct EventResponse {
    pub opted_out: bool,
    pub start_time: Option<UtcTime>,
    pub end_time: Option<UtcTime>,
    pub import_export: Option<AxleDirection>,
}

impl EventResponse {
    /// The answer announces nothing: the member opted out, or all fields are empty.
    pub open spec fn is_empty(self) -> bool {
        self.opted_out || self.start_time is None && self.end_time is None && self.import_export
            is None
    }

    /// The event that the answer spells out, in order and of a day at most.
    pub open spec fn is_event(self, event: AxleEvent) -> bool {
        &&& self.start_time == Some(event.start_time)
        &&& self.end_time == Some(event.end_time)
        &&& self.import_export == Some(event.direction)
        &&& event.is_ordered()
    }

    /// The event that the answer announces. Opting out calls every event off; an answer that
    /// is partly empty, out of order or longer than a day is no announcement.
    pub fn into_event(self) -> (r: Result<Option<AxleEvent>, AxleError>)
        ensures
            is_read(Some(self), r),
    {
        if self.opted_out {
            return Ok(None);
        }
        match (self.start_time, self.end_time, self.import_export) {
            (None, None, None) => Ok(None),
            (Some(start_time), Some(end_time), Some(direction)) => {
                let event = AxleEvent { start_time, end_time, direction };
                if event.ordered() {
                    Ok(Some(event))
                } else {
                    assert forall|other: AxleEvent| !self.is_event(other) by {
                        if self.is_event(other) {
                            assert(other == event);
                        }
                    }
                    Err(unexpected())
                }
            },
            _ => Err(unexpected()),
        }
    }
}

/// What a body that may be empty altogether comes to: no event where it announces nothing, the
/// event that it spells out, or an error.
pub open spec fn is_read(
    response: Option<EventResponse>,
    r: Result<Option<AxleEvent>, AxleError>,
) -> bool {
    &&& response is None || response->0.is_empty() <==> r == Ok::<Option<AxleEvent>, AxleError>(
        None,
    )
    &&& response matches Some(body) ==> !body.is_empty() ==> match r {
        Ok(event) => event is Some && body.is_event(event->0),
        Err(error) => {
            &&& error matches AxleError::Unavailable(reason) && reason@
                == "expected an empty event or ordered UTC start/end times with a direction"@
            &&& forall|event: AxleEvent| !body.is_event(event)
        },
    }
}

fn unexpected() -> (r: AxleError)
    ensures
        r matches AxleError::Unavailable(reason) && reason@
            == "expected an empty event or ordered UTC start/end times with a direction"@,
{
    AxleError::Unavailable(
        "expected an empty event or ordered UTC start/end times with a direction".to_owned(),
    )
}

/// The event of a body that may be empty altogether.
pub fn event_of(response: Option<EventResponse>) -> (r: Result<Option<AxleEvent>, AxleError>)
    ensures
        is_read(response, r),
{
    match response {
        Some(body) => body.into_event(),
        None => Ok(None),
    }
}

/// The value of the header that authorizes a request.
pub fn authorization(api_key: &str) -> (r: String)
    ensures
        r@ == "Bearer "@ + api_key@,
{
    "Bearer ".to_owned().concat(api_key)
}

/// The address of the event feed below the address of the service.
pub open spec fn event_url(api_url: Seq<char>) -> Seq<char> {
    trimmed_end(api_url, '/') + "/vpp/home-assistant/event"@
}

/// The feed of one member.
pub struct AxleEvents<S: AxleSource> {
    pub cfg: AxleConfig,
    pub source: S,
}

impl<S: AxleSource> AxleEvents<S> {
    /// Supply another provider or an offline source through the same interface.
    pub fn with_source(cfg: AxleConfig, source: S) -> (r: AxleEvents<S>)
        ensures
            r.cfg == cfg,
            r.source == source,
    {
        AxleEvents { cfg, source }
    }

    /// What the feed says now. A disabled feed is not asked.
    pub fn get_event(&self) -> (r: Result<Option<AxleEvent>, AxleError>)
        ensures
            !self.cfg.enabled ==> r == Ok::<Option<AxleEvent>, AxleError>(None),
            self.cfg.enabled ==> self.source.may_answer(
                event_url(self.cfg.api_url@),
                self.cfg.api_key@,
                r,
            ),
    {
        if !self.cfg.enabled {
            return Ok(None);
        }
        let url = trim_end(self.cfg.api_url.as_str(), '/').concat("/vpp/home-assistant/event");
        self.source.fetch(url.as_str(), self.cfg.api_key.as_str())
    }
}

} // verus!
