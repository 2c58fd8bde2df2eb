//! The half-hour boundaries at which control is handed over and taken back.
use crate::utc::{UtcTime, MAX_SECS, MIN_SECS};
use vstd::prelude::*;

verus! {

/// Seconds of the buffer kept after the end of an event.
pub const HANDOVER_MARGIN: u32 = 300;

/// The last half-hour boundary strictly before an instant.
pub open spec fn handover_secs(start: UtcTime) -> int {
    let last = if start.nanos() == 0 {
        start.secs() - 1
    } else {
        start.secs()
    };
    last - last % 1800
}

/// The first half-hour boundary that leaves the buffer after an instant.
pub open spec fn resume_secs(end: UtcTime) -> int {
    let buffered = end.secs() + HANDOVER_MARGIN;
    if buffered % 1800 == 0 && end.nanos() % 1_000_000_000 == 0 {
        buffered
    } else {
        buffered - buffered % 1800 + 1800
    }
}

/// The calendar has an instant before this one.
pub open spec fn has_handover(start: UtcTime) -> bool {
    start.secs() > MIN_SECS || start.nanos() > 0
}

/// The calendar reaches the boundary at which control resumes.
pub open spec fn has_resume(end: UtcTime) -> bool {
    resume_secs(end) <= MAX_SECS
}

/// The number that ranks the start of a second among instants.
pub open spec fn second_rank(secs: int) -> int {
    secs * 4_294_967_296
}

/// Whether the calendar has an instant before this one.
pub fn handover_exists(start: UtcTime) -> (r: bool)
    ensures
        r == has_handover(start),
{
    start.timestamp() > MIN_SECS || start.subsec_nanos() > 0
}

/// Whether the calendar reaches the boundary at which control resumes.
pub fn resume_exists(end: UtcTime) -> (r: bool)
    ensures
        r == has_resume(end),
{
    proof {
        use_type_invariant(&end);
    }
    match end.plus_seconds(HANDOVER_MARGIN) {
        None => false,
        Some(buffered) => {
            let boundary = buffered.floor_half_hour();
            boundary.same_as(buffered) || boundary.timestamp() <= MAX_SECS - 1800
        },
    }
}

/// Last command before Axle: the half-hour boundary strictly before its start.
pub fn handover_at(start: UtcTime) -> (at: UtcTime)
    requires
        has_handover(start),
    ensures
        at.valid(),
        at.secs() == handover_secs(start),
        at.nanos() == 0,
{
    proof {
        use_type_invariant(&start);
    }
    start.predecessor().floor_half_hour()
}

/// Keep the end buffer, then resume on a tariff boundary (rounding up).
pub fn resume_at(end: UtcTime) -> (at: UtcTime)
    requires
        has_resume(end),
    ensures
        at.valid(),
        at.secs() == resume_secs(end),
        at.nanos() == 0,
{
    proof {
        use_type_invariant(&end);
    }
    let buffered = end.plus_seconds(HANDOVER_MARGIN).unwrap();
    let boundary = buffered.floor_half_hour();
    if boundary.same_as(buffered) {
        boundary
    } else {
        buffered.next_half_hour()
    }
}

/// The handover is the one half-hour boundary that lies before the start of an event by
/// more than nothing and by no more than half an hour.
pub proof fn law_handover_is_the_last_boundary_before_the_start(start: UtcTime)
    requires
        start.valid(),
    ensures
        handover_secs(start) % 1800 == 0,
        second_rank(handover_secs(start)) < start.rank(),
        start.rank() <= second_rank(handover_secs(start) + 1800),
{
}

/// Control resumes on the first half-hour boundary that leaves five minutes after the end
/// of an event: the boundary before it would leave less.
pub proof fn law_resume_is_the_first_boundary_past_the_buffer(end: UtcTime)
    requires
        end.valid(),
    ensures
        resume_secs(end) % 1800 == 0,
        end.rank() <= second_rank(resume_secs(end) - HANDOVER_MARGIN),
        second_rank(resume_secs(end) - 1800 - HANDOVER_MARGIN) < end.rank(),
{
}

} // verus!
