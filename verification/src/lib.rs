//! ChargeMesh: a verified model of EV charging infrastructure.
//!
//! The crate holds the protocol-independent charging model, its state
//! machines, the OCPP 1.6 framing and session logic, the observability
//! bookkeeping and the simulator's decision logic.
pub mod core_types;
pub mod text;
pub mod seq_facts;
pub mod ir;
pub mod ocpp;
pub mod simulator;
pub mod observability;
pub mod timeline;
