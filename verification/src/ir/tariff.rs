//! Tariffs. Prices are carried as the bit patterns of `f64` values.
use vstd::prelude::*;
use crate::core_types::{F64Bits, Timestamp};
use crate::ocpp::json::JsonValue;

verus! {

/// Kind of tariff.
#[derive(Debug, Clone, Copy, PartialEq, Eq, Structural)]
pub enum TariffType {
    /// One price.
    Flat,
    /// Price by time of day.
    TimeOfDay,
    /// Price by energy tier.
    Tiered,
    /// Price set live.
    Dynamic,
    /// Set by the user.
    UserDefined,
}

/// Price during part of the day.
#[derive(Debug, Clone)]
pub struct TimeOfDayPrice {
    /// Start, "HH:MM".
    pub start: String,
    /// End, "HH:MM".
    pub end: String,
    /// Price per kWh.
    pub energy_price: F64Bits,
    /// Price per minute.
    pub time_price: Option<F64Bits>,
}

/// Price of an energy tier.
#[derive(Debug, Clone)]
pub struct TieredPrice {
    /// Name.
    pub name: String,
    /// Start of the tier (kWh).
    pub start: F64Bits,
    /// End of the tier (kWh).
    pub end: F64Bits,
    /// Price per kWh.
    pub price: F64Bits,
}

/// A tariff.
#[derive(Debug)]
pub struct Tariff {
    /// Identifier.
    pub id: String,
    /// Name.
    pub name: String,
    /// Currency.
    pub currency: String,
    /// Price per kWh, in major units.
    pub energy_price: F64Bits,
    /// Price per minute.
    pub time_price: Option<F64Bits>,
    /// Price per minute of parking.
    pub parking_price: Option<F64Bits>,
    /// Kind.
    pub tariff_type: TariffType,
    /// Prices by time of day.
    pub time_of_day: Option<Vec<TimeOfDayPrice>>,
    /// Days it applies (0 = Monday).
    pub applicable_days: Option<Vec<u8>>,
    /// Start of validity.
    pub start_time: Option<Timestamp>,
    /// End of validity.
    pub end_time: Option<Timestamp>,
    /// Further conditions.
    pub conditions: Option<Vec<(String, JsonValue)>>,
}

/// The bit pattern of `0.15`, the default price per kWh.
pub open spec fn default_energy_price_bits() -> F64Bits {
    0x3FC3_3333_3333_3333u64
}

impl Default for Tariff {
    /// The flat "Default Tariff" in USD at 0.15 per kWh.
    fn default() -> (t: Self)
        ensures
            t.id@ == "default"@,
            t.name@ == "Default Tariff"@,
            t.currency@ == "USD"@,
            t.energy_price == default_energy_price_bits(),
            t.time_price is None && t.parking_price is None,
            t.tariff_type == TariffType::Flat,
            t.time_of_day is None && t.applicable_days is None,
            t.start_time is None && t.end_time is None && t.conditions is None,
    {
        Tariff {
            id: "default".to_owned(),
            name: "Default Tariff".to_owned(),
            currency: "USD".to_owned(),
            energy_price: 0x3FC3_3333_3333_3333u64,
            time_price: None,
            parking_price: None,
            tariff_type: TariffType::Flat,
            time_of_day: None,
            applicable_days: None,
            start_time: None,
            end_time: None,
            conditions: None,
        }
    }
}

} // verus!
