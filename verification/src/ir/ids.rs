//! Identifiers and physical quantities of the charging model.
use vstd::prelude::*;
use crate::core_types::{Timestamp, new_uuid};

verus! {

/// Identifier of a charging station (the OCPP charge point id).
#[derive(Debug, Clone, PartialEq, Eq, Hash)]
pub struct StationId(pub String);

/// Identifier of an EVSE within its station.
#[derive(Debug, Clone, PartialEq, Eq, Hash)]
pub struct EvseId(pub String);

/// Identifier of a connector within its EVSE.
#[derive(Debug, Clone, PartialEq, Eq, Hash)]
pub struct ConnectorId(pub String);

/// Identifier of a charging session.
#[derive(Debug, Clone, PartialEq, Eq, Hash)]
pub struct SessionId(pub String);

/// Identifier of a transaction.
#[derive(Debug, Clone, PartialEq, Eq, Hash)]
pub struct TransactionId(pub String);

/// Generic identifier.
#[derive(Debug, Clone, PartialEq, Eq, Hash)]
pub struct Id(pub String);

impl SessionId {
    /// A fresh random identifier.
    pub fn new() -> (id: Self)
        ensures
            id.0@.len() == 36,
    {
        SessionId(new_uuid())
    }
}

impl TransactionId {
    /// A fresh random identifier.
    pub fn new() -> (id: Self)
        ensures
            id.0@.len() == 36,
    {
        TransactionId(new_uuid())
    }
}

impl Id {
    /// A fresh random identifier.
    pub fn new() -> (id: Self)
        ensures
            id.0@.len() == 36,
    {
        Id(new_uuid())
    }
}

/// Energy in watt-hours.
#[derive(Debug, Clone, Copy, PartialEq, Eq, Structural)]
pub struct Energy(pub u64);

/// Power in watts.
#[derive(Debug, Clone, Copy, PartialEq, Eq, Structural)]
pub struct Power(pub u64);

/// Money in minor units.
#[derive(Debug, Clone, Copy, PartialEq, Eq, Structural)]
pub struct Money(pub i64);

/// A percentage, 0 to 100.
#[derive(Debug, Clone, Copy, PartialEq, Eq, Structural)]
pub struct Percentage(pub u8);

/// A temperature in degrees Celsius.
#[derive(Debug, Clone, Copy, PartialEq, Eq, Structural)]
pub struct Temperature(pub i32);

/// A span between two points in time.
#[derive(Debug, Clone, Copy, PartialEq, Eq, Structural)]
pub struct TimeRange {
    /// Start.
    pub start: Timestamp,
    /// End.
    pub end: Timestamp,
}

impl Energy {
    /// `wh` watt-hours.
    pub fn new(wh: u64) -> (e: Self)
        ensures
            e.0 == wh,
    {
        Energy(wh)
    }
}

impl Power {
    /// `w` watts.
    pub fn new(w: u64) -> (p: Self)
        ensures
            p.0 == w,
    {
        Power(w)
    }
}

impl Money {
    /// `minor` minor units.
    pub fn new(minor: i64) -> (m: Self)
        ensures
            m.0 == minor,
    {
        Money(minor)
    }
}

} // verus!
