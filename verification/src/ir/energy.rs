//! Energy constraints and the state of the grid.
use vstd::prelude::*;
use crate::core_types::{F64Bits, Timestamp};
use crate::ir::error::ErrorSeverity;
use crate::ir::ids::{Energy, Money, Percentage, Power, TimeRange};

verus! {

/// Where energy comes from.
#[derive(Debug, Clone, Copy, PartialEq, Eq, Structural)]
pub enum EnergySource {
    /// The grid.
    Grid,
    /// Solar.
    Solar,
    /// Wind.
    Wind,
    /// Hydro.
    Hydro,
    /// A battery.
    Battery,
    /// Several sources.
    Mixed,
    /// Unknown.
    Unknown,
}

/// Kind of constraint.
#[derive(Debug, Clone, Copy, PartialEq, Eq, Structural)]
pub enum ConstraintType {
    /// Fixed.
    Absolute,
    /// Changing.
    Dynamic,
    /// Recurring.
    Periodic,
    /// On an event.
    Triggered,
}

/// A constraint on energy use.
#[derive(Debug, Clone, Copy, PartialEq, Eq, Structural)]
pub struct EnergyConstraint {
    /// Most power.
    pub max_power: Power,
    /// Least power.
    pub min_power: Option<Power>,
    /// Most energy.
    pub max_energy: Option<Energy>,
    /// Carbon intensity (g CO2/kWh).
    pub carbon_intensity: Option<F64Bits>,
    /// Source.
    pub source: EnergySource,
    /// Kind.
    pub constraint_type: ConstraintType,
    /// When it applies.
    pub time_range: Option<TimeRange>,
}

/// Kind of grid alert.
#[derive(Debug, Clone, Copy, PartialEq, Eq, Structural)]
pub enum GridAlertType {
    /// Overload.
    Overload,
    /// Low voltage.
    UnderVoltage,
    /// High voltage.
    OverVoltage,
    /// Frequency off.
    FrequencyDeviation,
    /// Demand response.
    DemandResponse,
    /// Planned maintenance.
    ScheduledMaintenance,
}

/// An alert from the grid.
#[derive(Debug, Clone)]
pub struct GridAlert {
    /// Kind.
    pub alert_type: GridAlertType,
    /// Severity.
    pub severity: ErrorSeverity,
    /// Description.
    pub description: String,
    /// When it was raised.
    pub timestamp: Timestamp,
}

/// State of the grid.
#[derive(Debug, Clone)]
pub struct GridStatus {
    /// Load.
    pub load: Percentage,
    /// Capacity available.
    pub available_capacity: Power,
    /// Peak load.
    pub peak_load: Power,
    /// Price.
    pub current_price: Money,
    /// Frequency (Hz), as the bit pattern of an `f64`.
    pub frequency: F64Bits,
    /// When it was observed.
    pub timestamp: Timestamp,
    /// Alerts.
    pub alerts: Vec<GridAlert>,
}

} // verus!
