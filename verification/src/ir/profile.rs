//! Charging profiles (smart charging).
use vstd::prelude::*;
use crate::core_types::{Duration, F64Bits, Timestamp};
use crate::ir::energy::EnergyConstraint;
use crate::ir::ids::{Energy, Id, Percentage, Power};
use crate::ocpp::json::JsonValue;

verus! {

/// Kind of profile.
#[derive(Debug, Clone, Copy, PartialEq, Eq, Structural)]
pub enum ProfileType {
    /// Slow.
    Slow,
    /// Normal.
    Normal,
    /// Fast.
    Fast,
    /// Economical.
    Eco,
    /// Easy on the battery.
    BatterySaver,
    /// Custom.
    Custom,
}

/// Days and hours a period applies.
#[derive(Debug, Clone)]
pub struct TimeOfDaySchedule {
    /// Start, "HH:MM".
    pub start: String,
    /// End, "HH:MM".
    pub end: String,
    /// Days (0 = Monday, 6 = Sunday).
    pub days: Vec<u8>,
}

/// A period of a charging schedule.
#[derive(Debug)]
pub struct ChargingPeriod {
    /// Identifier.
    pub id: Id,
    /// Start.
    pub start_time: Option<Timestamp>,
    /// Length.
    pub duration: Duration,
    /// Power limit.
    pub power_limit: Power,
    /// Current limit (A), as the bit pattern of an `f64`.
    pub current_limit: Option<F64Bits>,
    /// Voltage (V), as the bit pattern of an `f64`.
    pub voltage: Option<F64Bits>,
    /// Energy limit.
    pub energy_limit: Option<Energy>,
    /// Time of day.
    pub time_of_day: Option<TimeOfDaySchedule>,
}

/// A charging profile.
#[derive(Debug)]
pub struct ChargingProfile {
    /// Identifier.
    pub id: Id,
    /// Name.
    pub name: Option<String>,
    /// Kind.
    pub profile_type: ProfileType,
    /// Schedule.
    pub schedule: Vec<ChargingPeriod>,
    /// Most power.
    pub max_power: Option<Power>,
    /// Least power.
    pub min_power: Option<Power>,
    /// Target state of charge.
    pub target_soc: Option<Percentage>,
    /// Departure time.
    pub departure_time: Option<Timestamp>,
    /// Energy constraint.
    pub energy_constraint: Option<EnergyConstraint>,
    /// Start.
    pub start_time: Option<Timestamp>,
    /// End.
    pub end_time: Option<Timestamp>,
    /// Priority.
    pub priority: Option<u8>,
    /// Further parameters.
    pub parameters: Vec<(String, JsonValue)>,
}

impl Default for ChargingProfile {
    /// A normal profile with a fresh identifier and nothing else set.
    fn default() -> (p: Self)
        ensures
            p.id.0@.len() == 36,
            p.name is None,
            p.profile_type == ProfileType::Normal,
            p.schedule@.len() == 0,
            p.max_power is None && p.min_power is None && p.target_soc is None,
            p.departure_time is None && p.energy_constraint is None,
            p.start_time is None && p.end_time is None && p.priority is None,
            p.parameters@.len() == 0,
    {
        ChargingProfile {
            id: Id::new(),
            name: None,
            profile_type: ProfileType::Normal,
            schedule: Vec::new(),
            max_power: None,
            min_power: None,
            target_soc: None,
            departure_time: None,
            energy_constraint: None,
            start_time: None,
            end_time: None,
            priority: None,
            parameters: Vec::new(),
        }
    }
}

} // verus!
