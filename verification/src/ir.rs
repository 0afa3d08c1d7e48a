//! The protocol-independent model of EV charging: stations, EVSEs,
//! connectors, sessions, transactions and the things around them.
pub mod ids;
pub mod session;
pub mod station;
pub mod connector;
pub mod state_machine;
pub mod capability;
pub mod error;
pub mod meter;
pub mod authorization;
pub mod vehicle;
pub mod tariff;
pub mod energy;
pub mod profile;
pub mod firmware;
pub mod reservation;
pub mod evse;
pub mod network;
pub mod transaction;

use vstd::prelude::*;

verus! {

/// Version of the charging model.
pub const IR_VERSION: &'static str = "0.1.0";

} // verus!
