//! Provider-owned event policy and rewards. The host owns hardware, clocks and files.
pub mod config;
pub mod handover;
pub mod latch;
pub mod protection;
pub mod rewards;
pub mod self_dispatch;
pub mod service;
pub mod tally;
pub mod time;

pub use config::ProviderConfig;
pub use service::{Control, DispatchService, EventInfo, Update};

use crate::binary64::{Binary64, HUNDRED, ONE, THOUSAND, ZERO};
use crate::utc::{elapsed_nanos, UtcTime};
use vstd::prelude::*;

verus! {

/// The age, in nanoseconds, past which a reading is stale.
pub const STALE_NANOS: u64 = 5_000_000_000;

/// An observation supplied by the host. Grid and battery power are positive on import and
/// charge. The time since it was taken is measured on the host's steady clock.
#[derive(Clone, Copy, Debug)]
pub struct Reading {
    pub at: UtcTime,
    pub age_nanos: u128,
    pub soc_pct: Binary64,
    pub load_kw: Binary64,
    pub solar_kw: Binary64,
    pub grid_kw: Binary64,
    pub battery_kw: Binary64,
}

/// A finite number between two bounds, which belong to the range.
pub open spec fn is_within(value: Binary64, low: u64, high: u64) -> bool {
    &&& value.spec_is_finite()
    &&& (Binary64 { bits: low }).le(value)
    &&& value.le(Binary64 { bits: high })
}

fn within(value: Binary64, low: u64, high: u64) -> (r: bool)
    ensures
        r == is_within(value, low, high),
{
    value.is_finite() && (Binary64 { bits: low }).at_most(value) && value.at_most(
        Binary64 { bits: high },
    )
}

/// The reading is of the last five seconds by both clocks, and a state of charge, load and
/// solar power that can be.
pub open spec fn is_fresh(reading: Reading, now: UtcTime) -> bool {
    &&& reading.at.rank() <= now.rank()
    &&& elapsed_nanos(reading.at, now) <= STALE_NANOS
    &&& reading.age_nanos <= STALE_NANOS
    &&& is_within(reading.soc_pct, ZERO, HUNDRED)
    &&& is_within(reading.load_kw, ZERO, THOUSAND)
    &&& is_within(reading.solar_kw, ZERO, THOUSAND)
}

/// Whether a reading is recent and plausible.
pub fn fresh_reading(reading: &Reading, now: UtcTime) -> (r: bool)
    ensures
        r == is_fresh(*reading, now),
{
    !now.before(reading.at) && now.nanos_since(reading.at) <= STALE_NANOS as i128
        && reading.age_nanos <= STALE_NANOS as u128 && within(reading.soc_pct, ZERO, HUNDRED)
        && within(reading.load_kw, ZERO, THOUSAND) && within(reading.solar_kw, ZERO, THOUSAND)
}

/// Electrical limits supplied by the hardware-owning application.
#[derive(Clone, Copy, Debug)]
pub struct BatteryLimits {
    pub usable_capacity_kwh: Binary64,
    pub max_charge_kw: Binary64,
    pub max_discharge_kw: Binary64,
    pub max_export_kw: Binary64,
    pub soc_floor_pct: Binary64,
    pub soc_ceiling_pct: Binary64,
    pub round_trip_efficiency: Binary64,
}

/// A finite number above zero.
pub open spec fn is_positive(value: Binary64) -> bool {
    value.spec_is_finite() && (Binary64 { bits: ZERO }).lt(value)
}

fn positive(value: Binary64) -> (r: bool)
    ensures
        r == is_positive(value),
{
    value.is_finite() && (Binary64 { bits: ZERO }).less_than(value)
}

impl BatteryLimits {
    /// Capacity, powers and efficiency are above zero, the efficiency at most one, the
    /// export limit not below zero, and the floor below the ceiling, both within 0 to 100.
    pub open spec fn is_valid(self) -> bool {
        &&& is_positive(self.usable_capacity_kwh)
        &&& is_positive(self.max_charge_kw)
        &&& is_positive(self.max_discharge_kw)
        &&& is_positive(self.round_trip_efficiency)
        &&& self.round_trip_efficiency.le(Binary64 { bits: ONE })
        &&& self.max_export_kw.spec_is_finite()
        &&& (Binary64 { bits: ZERO }).le(self.max_export_kw)
        &&& self.soc_floor_pct.spec_is_finite()
        &&& self.soc_ceiling_pct.spec_is_finite()
        &&& (Binary64 { bits: ZERO }).le(self.soc_floor_pct)
        &&& self.soc_floor_pct.lt(self.soc_ceiling_pct)
        &&& self.soc_ceiling_pct.le(Binary64 { bits: HUNDRED })
    }

    /// Whether the limits describe a battery.
    pub fn valid(&self) -> (r: bool)
        ensures
            r == self.is_valid(),
    {
        positive(self.usable_capacity_kwh) && positive(self.max_charge_kw) && positive(
            self.max_discharge_kw,
        ) && positive(self.round_trip_efficiency) && self.round_trip_efficiency.at_most(
            Binary64 { bits: ONE },
        ) && self.max_export_kw.is_finite() && (Binary64 { bits: ZERO }).at_most(
            self.max_export_kw,
        ) && self.soc_floor_pct.is_finite() && self.soc_ceiling_pct.is_finite() && (
        Binary64 { bits: ZERO }).at_most(self.soc_floor_pct) && self.soc_floor_pct.less_than(
            self.soc_ceiling_pct,
        ) && self.soc_ceiling_pct.at_most(Binary64 { bits: HUNDRED })
    }
}

/// What the battery is asked to do.
#[derive(Debug, Clone, Copy, PartialEq, Eq, Structural)]
pub enum DispatchMode {
    Charging,
    Exporting,
    Resting,
}

/// A request for the host to translate into its own inverter command.
#[derive(Debug, Clone, Copy, PartialEq)]
pub struct Action {
    pub mode: DispatchMode,
    pub power_kw: Binary64,
    pub end: UtcTime,
}

} // verus!
