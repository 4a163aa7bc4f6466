//! Battery telemetry and power profiles.
use vstd::prelude::*;

verus! {

/// System power profile.
#[derive(Debug, Clone, Copy, PartialEq, Eq, Structural)]
pub enum PowerProfile {
    Performance,
    Balanced,
    PowerSaver,
}

/// Charging state reported by the battery.
#[derive(Debug, Clone, Copy, PartialEq, Eq, Structural)]
pub enum BatteryStatus {
    Charging,
    Discharging,
    Full,
    NotPresent,
    Unknown,
}

/// One battery reading.
#[derive(Debug, Clone, Copy, PartialEq, Eq, Structural)]
pub struct BatteryInfo {
    pub percentage: u8,
    pub status: BatteryStatus,
    pub voltage_mv: u32,
    pub design_capacity_mwh: u32,
    pub remaining_capacity_mwh: u32,
}

impl BatteryInfo {
    /// A reading with no information: zero charge, unknown status.
    pub fn empty() -> (r: BatteryInfo)
        ensures
            r == (BatteryInfo {
                percentage: 0,
                status: BatteryStatus::Unknown,
                voltage_mv: 0,
                design_capacity_mwh: 0,
                remaining_capacity_mwh: 0,
            }),
    {
        BatteryInfo {
            percentage: 0,
            status: BatteryStatus::Unknown,
            voltage_mv: 0,
            design_capacity_mwh: 0,
            remaining_capacity_mwh: 0,
        }
    }
}

} // verus!
