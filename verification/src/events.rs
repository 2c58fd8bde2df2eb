//! Dispatch events that Axle announces, and what the planner expects of one.
use crate::binary64::Binary64;
use crate::utc::{elapsed_nanos, UtcTime};
use vstd::prelude::*;

verus! {

/// Which way the grid wants energy to flow during an event.
#[derive(Debug, Clone, Copy, PartialEq, Eq, Structural)]
pub enum AxleDirection {
    Import,
    Export,
}

/// One announced event.
#[derive(Debug, Clone, Copy, PartialEq, Eq, Structural)]
pub struct AxleEvent {
    pub start_time: UtcTime,
    pub end_time: UtcTime,
    pub direction: AxleDirection,
}

/// Expected external dispatch and reward used only by the planner.
/// The event feed supplies the window and direction, not power or reward.
#[derive(Debug, Clone, Copy, PartialEq)]
pub struct AxleForecast {
    pub event: AxleEvent,
    pub reward_p_per_kwh: Binary64,
    pub self_dispatch: bool,
}

/// The nanoseconds of a day.
pub const DAY_NANOS: i128 = 86_400_000_000_000;

impl AxleEvent {
    /// The event ends after it starts, and lasts a day at most.
    pub open spec fn is_ordered(self) -> bool {
        &&& self.start_time.rank() < self.end_time.rank()
        &&& elapsed_nanos(self.start_time, self.end_time) <= DAY_NANOS
    }

    /// Whether the event ends after it starts, and lasts a day at most.
    pub fn ordered(&self) -> (r: bool)
        ensures
            r == self.is_ordered(),
    {
        self.start_time.before(self.end_time) && self.end_time.nanos_since(self.start_time)
            <= DAY_NANOS
    }

    /// The event is under way: it has started and has not ended.
    pub open spec fn is_running(self, now: UtcTime) -> bool {
        self.start_time.rank() <= now.rank() < self.end_time.rank()
    }

    /// Whether the event has started and has not ended.
    pub fn running(&self, now: UtcTime) -> (r: bool)
        ensures
            r == self.is_running(now),
    {
        !now.before(self.start_time) && now.before(self.end_time)
    }
}

/// Whether two announcements are the same.
pub fn same_event(a: Option<AxleEvent>, b: Option<AxleEvent>) -> (r: bool)
    ensures
        r == (a == b),
{
    match (a, b) {
        (None, None) => true,
        (Some(x), Some(y)) => x == y,
        _ => false,
    }
}

} // verus!
