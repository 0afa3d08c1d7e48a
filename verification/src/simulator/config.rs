//! Simulator configuration.
use vstd::prelude::*;
use crate::core_types::Duration;
use crate::simulator::SimulationMode;
use crate::text::{has_infix, str_contains};

verus! {

/// Configuration of the simulated station.
#[derive(Debug, Clone)]
pub struct StationSimConfig {
    /// Vendor.
    pub vendor: String,
    /// Model.
    pub model: String,
    /// Firmware version.
    pub firmware_version: String,
    /// Number of connectors.
    pub connector_count: u8,
    /// Maximum power (W).
    pub max_power: u64,
    /// ISO 15118 support.
    pub has_iso15118: bool,
    /// Vehicle-to-grid support.
    pub has_v2g: bool,
}

/// Configuration of the simulated EV.
#[derive(Debug, Clone, Copy, PartialEq, Eq, Structural)]
pub struct EvSimConfig {
    /// Battery capacity (Wh).
    pub battery_capacity: u64,
    /// State of charge at start (%).
    pub initial_soc: u8,
    /// State of charge to reach (%).
    pub target_soc: u8,
    /// Plug & Charge support.
    pub supports_plug_and_charge: bool,
    /// Vehicle-to-grid support.
    pub supports_v2g: bool,
    /// Maximum charging power (W).
    pub max_power: u64,
}

/// Configuration of the simulated grid.
#[derive(Debug, Clone, Copy, PartialEq, Eq, Structural)]
pub struct GridSimConfig {
    /// Available capacity (W).
    pub available_capacity: u64,
    /// Maximum power (W).
    pub max_power: u64,
    /// Grid load (%).
    pub grid_load_percentage: u8,
    /// Local solar generation.
    pub has_solar: bool,
    /// Local battery storage.
    pub has_battery_storage: bool,
}

/// Configuration of a simulation run.
#[derive(Debug, Clone)]
pub struct SimulatorConfig {
    /// Mode.
    pub mode: SimulationMode,
    /// Speed factor, as the bit pattern of an `f32`.
    pub speed: u32,
    /// Random seed.
    pub seed: Option<u64>,
    /// Longest run.
    pub max_duration: Option<Duration>,
    /// Verbose output.
    pub verbose: bool,
    /// Protocol name, such as "ocpp-1.6".
    pub protocol: String,
    /// Station configuration.
    pub station_config: StationSimConfig,
    /// EV configuration.
    pub ev_config: EvSimConfig,
    /// Grid configuration.
    pub grid_config: GridSimConfig,
}

impl SimulatorConfig {
    /// The default run: normal mode at speed 1.0, no seed or time limit,
    /// quiet, OCPP 1.6, an ABB Terra 54 (firmware 1.2.3, two connectors,
    /// 50 kW, ISO 15118, no V2G), a 75 kWh EV charging from 20% to 80% at up
    /// to 22 kW with Plug & Charge and no V2G, and a 100 kW grid at 50% load
    /// with solar and no storage.
    pub fn default_config() -> (c: SimulatorConfig)
        ensures
            c.mode == SimulationMode::Normal,
            c.speed == 0x3F80_0000u32,
            c.seed is None,
            c.max_duration is None,
            !c.verbose,
            c.protocol@ == "ocpp-1.6"@,
            c.station_config.vendor@ == "ABB"@,
            c.station_config.model@ == "Terra 54"@,
            c.station_config.firmware_version@ == "1.2.3"@,
            c.station_config.connector_count == 2,
            c.station_config.max_power == 50000,
            c.station_config.has_iso15118,
            !c.station_config.has_v2g,
            c.ev_config == (EvSimConfig {
                battery_capacity: 75000,
                initial_soc: 20,
                target_soc: 80,
                supports_plug_and_charge: true,
                supports_v2g: false,
                max_power: 22000,
            }),
            c.grid_config == (GridSimConfig {
                available_capacity: 100000,
                max_power: 100000,
                grid_load_percentage: 50,
                has_solar: true,
                has_battery_storage: false,
            }),
    {
        SimulatorConfig {
            mode: SimulationMode::Normal,
            speed: 0x3F80_0000u32,
            seed: None,
            max_duration: None,
            verbose: false,
            protocol: "ocpp-1.6".to_owned(),
            station_config: StationSimConfig {
                vendor: "ABB".to_owned(),
                model: "Terra 54".to_owned(),
                firmware_version: "1.2.3".to_owned(),
                connector_count: 2,
                max_power: 50000,
                has_iso15118: true,
                has_v2g: false,
            },
            ev_config: EvSimConfig {
                battery_capacity: 75000,
                initial_soc: 20,
                target_soc: 80,
                supports_plug_and_charge: true,
                supports_v2g: false,
                max_power: 22000,
            },
            grid_config: GridSimConfig {
                available_capacity: 100000,
                max_power: 100000,
                grid_load_percentage: 50,
                has_solar: true,
                has_battery_storage: false,
            },
        }
    }

    /// Whether the run needs the OCPI simulator: its protocol mentions "ocpi".
    pub fn wants_ocpi(&self) -> (b: bool)
        ensures
            b == has_infix(self.protocol@, "ocpi"@),
    {
        str_contains(self.protocol.as_str(), "ocpi")
    }
}

} // verus!
