//! Simulator logic: scenarios, fault injection, the simulated EVSE and EV.
pub mod faults;
pub mod scenario;
pub mod evse_sim;
pub mod ev_sim;
pub mod config;
pub mod runner;

use vstd::prelude::*;

verus! {

/// Error of the simulator.
#[derive(Debug, Clone)]
pub enum SimulatorError {
    /// The simulation itself failed.
    Simulation(String),
    /// Bad configuration.
    Config(String),
    /// Protocol failure.
    Protocol(String),
    /// A fault could not be injected.
    FaultInjection(String),
    /// No answer in time.
    Timeout(String),
    /// Internal failure.
    Internal(String),
}

/// Simulation mode.
#[derive(Debug, Clone, Copy, PartialEq, Eq, Structural)]
pub enum SimulationMode {
    /// Normal operation.
    Normal,
    /// With injected faults.
    FaultInjection,
    /// Under load.
    Stress,
    /// Compliance testing.
    Compliance,
    /// Performance testing.
    Performance,
}

/// Simulation status.
#[derive(Debug, Clone, Copy, PartialEq, Eq, Structural)]
pub enum SimulationStatus {
    /// Not started.
    Pending,
    /// Running.
    Running,
    /// Paused.
    Paused,
    /// Finished.
    Completed,
    /// Failed.
    Failed,
}

} // verus!
