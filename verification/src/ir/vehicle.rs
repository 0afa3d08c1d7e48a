//! Electric vehicles.
use vstd::prelude::*;
use crate::core_types::Timestamp;
use crate::ir::connector::ConnectorType;
use crate::ir::ids::{Energy, Percentage};
use crate::ocpp::json::JsonValue;

verus! {

/// An ISO 15118 contract certificate.
#[derive(Debug, Clone)]
pub struct IsoCertificate {
    /// Contract.
    pub contract_id: String,
    /// Issuer.
    pub issuer: String,
    /// Start of validity.
    pub valid_from: Timestamp,
    /// End of validity.
    pub valid_to: Timestamp,
    /// PEM certificates.
    pub certificate_chain: Vec<String>,
}

/// An electric vehicle.
#[derive(Debug)]
pub struct Vehicle {
    /// Identifier.
    pub id: String,
    /// Make.
    pub make: Option<String>,
    /// Model.
    pub model: Option<String>,
    /// Model year.
    pub model_year: Option<u16>,
    /// Battery capacity.
    pub battery_capacity: Option<Energy>,
    /// State of charge.
    pub state_of_charge: Option<Percentage>,
    /// Target state of charge.
    pub target_state_of_charge: Option<Percentage>,
    /// VIN.
    pub vin: Option<String>,
    /// License plate.
    pub license_plate: Option<String>,
    /// Supported connectors.
    pub supported_connectors: Vec<ConnectorType>,
    /// Contract certificate.
    pub iso_certificate: Option<IsoCertificate>,
    /// Further data.
    pub metadata: Vec<(String, JsonValue)>,
}

impl Vehicle {
    /// A vehicle known only by its identifier.
    pub fn new(id: String) -> (v: Self)
        ensures
            v.id == id,
            v.make is None && v.model is None && v.model_year is None,
            v.battery_capacity is None && v.state_of_charge is None && v.target_state_of_charge is None,
            v.vin is None && v.license_plate is None,
            v.supported_connectors@.len() == 0,
            v.iso_certificate is None,
            v.metadata@.len() == 0,
    {
        Vehicle {
            id,
            make: None,
            model: None,
            model_year: None,
            battery_capacity: None,
            state_of_charge: None,
            target_state_of_charge: None,
            vin: None,
            license_plate: None,
            supported_connectors: Vec::new(),
            iso_certificate: None,
            metadata: Vec::new(),
        }
    }

    /// Whether the vehicle can use Plug & Charge: it has a contract certificate.
    pub fn supports_plug_and_charge(&self) -> (b: bool)
        ensures
            b == self.iso_certificate is Some,
    {
        self.iso_certificate.is_some()
    }
}

} // verus!
