//! Energy meters and their readings.
use vstd::prelude::*;
use crate::core_types::{F64Bits, Timestamp, now};
use crate::ir::ids::{Energy, Power};

verus! {

/// A signed meter value (ISO 15118).
#[derive(Debug, Clone)]
pub struct SignedMeterValue {
    /// Base64 signature.
    pub signature: String,
    /// Signing algorithm.
    pub algorithm: String,
    /// PEM certificates.
    pub certificate_chain: Vec<String>,
}

/// A meter reading. Electrical quantities are carried as the bit patterns
/// of `f64` values.
#[derive(Debug, Clone)]
pub struct MeterValue {
    /// When it was read.
    pub timestamp: Timestamp,
    /// Energy drawn from the grid.
    pub energy_import: Energy,
    /// Energy fed to the grid.
    pub energy_export: Energy,
    /// Power.
    pub power: Option<Power>,
    /// Voltage (V).
    pub voltage: Option<F64Bits>,
    /// Current (A).
    pub current: Option<F64Bits>,
    /// Power factor.
    pub power_factor: Option<F64Bits>,
    /// Frequency (Hz).
    pub frequency: Option<F64Bits>,
    /// Signature.
    pub signed: Option<SignedMeterValue>,
}

/// A physical energy meter.
#[derive(Debug, Clone)]
pub struct Meter {
    /// Identifier.
    pub id: String,
    /// Manufacturer.
    pub manufacturer: String,
    /// Model.
    pub model: String,
    /// Serial number.
    pub serial_number: String,
    /// Latest reading.
    pub current_reading: MeterValue,
    /// When it was last read.
    pub last_update: Timestamp,
    /// Calibration date.
    pub calibration_date: Option<Timestamp>,
    /// Accuracy class.
    pub accuracy_class: Option<String>,
}

impl MeterValue {
    /// A reading taken now of `energy_import`, with nothing exported and no
    /// electrical detail or signature.
    pub fn new(energy_import: Energy) -> (m: Self)
        ensures
            m.energy_import == energy_import,
            m.energy_export == Energy(0),
            m.power is None && m.voltage is None && m.current is None,
            m.power_factor is None && m.frequency is None && m.signed is None,
    {
        MeterValue {
            timestamp: now(),
            energy_import,
            energy_export: Energy::new(0),
            power: None,
            voltage: None,
            current: None,
            power_factor: None,
            frequency: None,
            signed: None,
        }
    }

    /// The same reading with power, voltage and current set.
    pub fn with_power(self, power: Power, voltage: F64Bits, current: F64Bits) -> (m: Self)
        ensures
            m == (MeterValue { power: Some(power), voltage: Some(voltage), current: Some(current), ..self }),
    {
        let mut m = self;
        m.power = Some(power);
        m.voltage = Some(voltage);
        m.current = Some(current);
        m
    }

    /// The same reading with a signature.
    pub fn signed(self, signature: String, algorithm: String, certificates: Vec<String>) -> (m: Self)
        ensures
            m == (MeterValue {
                signed: Some(SignedMeterValue { signature, algorithm, certificate_chain: certificates }),
                ..self
            }),
    {
        let mut m = self;
        m.signed = Some(SignedMeterValue { signature, algorithm, certificate_chain: certificates });
        m
    }

    /// Whether the reading is signed.
    pub fn is_signed(&self) -> (b: bool)
        ensures
            b == self.signed is Some,
    {
        self.signed.is_some()
    }
}

} // verus!
