//! OCPP value types shared by the message definitions.
use vstd::prelude::*;
use crate::core_types::Timestamp;

verus! {

/// OCPP 1.6 error codes.
#[derive(Debug, Clone, Copy, PartialEq, Eq, Structural)]
pub enum OcppErrorCode {
    /// `ConnectorLockFailure`.
    ConnectorLockFailure,
    /// `HighTemperature`.
    HighTemperature,
    /// `GroundFailure`.
    GroundFailure,
    /// `EVCommunicationError`.
    EVCommunicationError,
    /// `PowerMeterFailure`.
    PowerMeterFailure,
    /// `PowerSwitchFailure`.
    PowerSwitchFailure,
    /// `OverCurrentFailure`.
    OverCurrentFailure,
    /// `OverVoltage`.
    OverVoltage,
    /// `UnderVoltage`.
    UnderVoltage,
    /// `InternalError`.
    InternalError,
    /// `OtherError`.
    OtherError,
}

/// OCPP 2.x error codes.
#[derive(Debug, Clone, Copy, PartialEq, Eq, Structural)]
pub enum OcppErrorCode201 {
    /// `NotImplemented`.
    NotImplemented,
    /// `NotSupported`.
    NotSupported,
    /// `InternalError`.
    InternalError,
    /// `ProtocolError`.
    ProtocolError,
    /// `SecurityError`.
    SecurityError,
    /// `Rejected`.
    Rejected,
    /// `Timeout`.
    Timeout,
    /// `GenericError`.
    GenericError,
    /// `CertificateExpired`.
    CertificateExpired,
    /// `CertificateRevoked`.
    CertificateRevoked,
    /// `InvalidCertificate`.
    InvalidCertificate,
    /// `EvseIdMismatch`.
    EvseIdMismatch,
    /// `ConnectorIdMismatch`.
    ConnectorIdMismatch,
}

/// Charging profile status.
#[derive(Debug, Clone, Copy, PartialEq, Eq, Structural)]
pub enum ChargingProfileStatus {
    /// `Accepted`.
    Accepted,
    /// `Rejected`.
    Rejected,
    /// `Unknown`.
    Unknown,
}

/// Registration status.
#[derive(Debug, Clone, Copy, PartialEq, Eq, Structural)]
pub enum RegistrationStatus {
    /// `Accepted`.
    Accepted,
    /// `Pending`.
    Pending,
    /// `Rejected`.
    Rejected,
}

/// Unit of a charging rate.
#[derive(Debug, Clone, Copy, PartialEq, Eq, Structural)]
pub enum ChargingRateUnit {
    /// `Watts`.
    Watts,
    /// `Amperes`.
    Amperes,
}

/// Context of a meter reading.
#[derive(Debug, Clone, Copy, PartialEq, Eq, Structural)]
pub enum ReadingContext {
    /// `SamplePeriodic`.
    SamplePeriodic,
    /// `SampleClock`.
    SampleClock,
    /// `SampleTrigger`.
    SampleTrigger,
    /// `SampleStart`.
    SampleStart,
    /// `SampleStop`.
    SampleStop,
    /// `TransactionBegin`.
    TransactionBegin,
    /// `TransactionEnd`.
    TransactionEnd,
    /// `Other`.
    Other,
}

/// Format of a sampled value.
#[derive(Debug, Clone, Copy, PartialEq, Eq, Structural)]
pub enum ValueFormat {
    /// `Raw`.
    Raw,
    /// `SignedData`.
    SignedData,
}

/// What a sampled value measures.
#[derive(Debug, Clone, Copy, PartialEq, Eq, Structural)]
pub enum Measurand {
    /// `EnergyActiveImportRegister`.
    EnergyActiveImportRegister,
    /// `EnergyActiveExportRegister`.
    EnergyActiveExportRegister,
    /// `PowerActiveImport`.
    PowerActiveImport,
    /// `PowerActiveExport`.
    PowerActiveExport,
    /// `CurrentImport`.
    CurrentImport,
    /// `CurrentExport`.
    CurrentExport,
    /// `Voltage`.
    Voltage,
    /// `Frequency`.
    Frequency,
    /// `Temperature`.
    Temperature,
    /// `SoC`.
    SoC,
    /// `RPM`.
    RPM,
}

/// Unit of a sampled value.
#[allow(non_camel_case_types)]
#[derive(Debug, Clone, Copy, PartialEq, Eq, Structural)]
pub enum UnitOfMeasure {
    /// `Wh`.
    Wh,
    /// `kWh`.
    kWh,
    /// `W`.
    W,
    /// `kW`.
    kW,
    /// `A`.
    A,
    /// `V`.
    V,
    /// `Hz`.
    Hz,
    /// `Celsius`.
    Celsius,
}

/// Where a value was measured.
#[derive(Debug, Clone, Copy, PartialEq, Eq, Structural)]
pub enum ValueLocation {
    /// `Outlet`.
    Outlet,
    /// `Inlet`.
    Inlet,
    /// `Body`.
    Body,
    /// `Cable`.
    Cable,
    /// `EV`.
    EV,
}

/// Kind of a charging profile.
#[derive(Debug, Clone, Copy, PartialEq, Eq, Structural)]
pub enum ChargingProfileKind {
    /// `Recurring`.
    Recurring,
    /// `OneTime`.
    OneTime,
}

/// Purpose of a charging profile.
#[derive(Debug, Clone, Copy, PartialEq, Eq, Structural)]
pub enum ChargingProfilePurpose {
    /// `ChargePointMaxProfile`.
    ChargePointMaxProfile,
    /// `TxDefaultProfile`.
    TxDefaultProfile,
    /// `TxProfile`.
    TxProfile,
}

/// Recurrence of a charging profile.
#[derive(Debug, Clone, Copy, PartialEq, Eq, Structural)]
pub enum RecurrencyKind {
    /// `Daily`.
    Daily,
    /// `Weekly`.
    Weekly,
    /// `Monthly`.
    Monthly,
    /// `Yearly`.
    Yearly,
}

/// One sampled value of a meter reading.
#[derive(Debug, Clone, PartialEq, Eq)]
pub struct SampledValue {
    /// The value as text.
    pub value: String,
    /// Reading context.
    pub context: Option<ReadingContext>,
    /// Value format.
    pub format: Option<ValueFormat>,
    /// What is measured.
    pub measurand: Option<Measurand>,
    /// Unit.
    pub unit: Option<UnitOfMeasure>,
    /// Location.
    pub location: Option<ValueLocation>,
}

/// A meter reading: sampled values taken at one time.
#[derive(Debug, Clone, PartialEq, Eq)]
pub struct MeterValue {
    /// When the values were sampled.
    pub timestamp: Timestamp,
    /// The sampled values.
    pub sampled_value: Vec<SampledValue>,
}

/// Status of a charge point connector.
#[derive(Debug, Clone, Copy, PartialEq, Eq, Structural)]
pub enum ChargePointStatus {
    /// `Available`.
    Available,
    /// `Preparing`.
    Preparing,
    /// `Charging`.
    Charging,
    /// `SuspendedEVSE`.
    SuspendedEVSE,
    /// `SuspendedEV`.
    SuspendedEV,
    /// `Finishing`.
    Finishing,
    /// `Reserved`.
    Reserved,
    /// `Unavailable`.
    Unavailable,
    /// `Faulted`.
    Faulted,
}

/// Error code of a charge point.
#[derive(Debug, Clone, Copy, PartialEq, Eq, Structural)]
pub enum ChargePointErrorCode {
    /// `NoError`.
    NoError,
    /// `ConnectorLockFailure`.
    ConnectorLockFailure,
    /// `HighTemperature`.
    HighTemperature,
    /// `GroundFailure`.
    GroundFailure,
    /// `EVCommunicationError`.
    EVCommunicationError,
    /// `PowerMeterFailure`.
    PowerMeterFailure,
    /// `PowerSwitchFailure`.
    PowerSwitchFailure,
    /// `OverCurrentFailure`.
    OverCurrentFailure,
    /// `OverVoltage`.
    OverVoltage,
    /// `UnderVoltage`.
    UnderVoltage,
    /// `InternalError`.
    InternalError,
    /// `OtherError`.
    OtherError,
}

/// Why a transaction stopped.
#[allow(non_camel_case_types)]
#[derive(Debug, Clone, Copy, PartialEq, Eq, Structural)]
pub enum StopReason {
    /// `EMERGENCY_STOP`.
    EMERGENCY_STOP,
    /// `EV_DISCONNECTED`.
    EV_DISCONNECTED,
    /// `HARD_RESET`.
    HARD_RESET,
    /// `LOCAL`.
    LOCAL,
    /// `OTHER`.
    OTHER,
    /// `POWER_LOSS`.
    POWER_LOSS,
    /// `REBOOT`.
    REBOOT,
    /// `REMOTE`.
    REMOTE,
    /// `SOFT_RESET`.
    SOFT_RESET,
    /// `UNLOCK_COMMAND`.
    UNLOCK_COMMAND,
    /// `DE_AUTHORIZED`.
    DE_AUTHORIZED,
}

/// Answer to a remote start or stop.
#[derive(Debug, Clone, Copy, PartialEq, Eq, Structural)]
pub enum RemoteStartStopStatus {
    /// `Accepted`.
    Accepted,
    /// `Rejected`.
    Rejected,
}

/// Answer to a configuration change.
#[derive(Debug, Clone, Copy, PartialEq, Eq, Structural)]
pub enum ConfigurationStatus {
    /// `Accepted`.
    Accepted,
    /// `Rejected`.
    Rejected,
    /// `NotSupported`.
    NotSupported,
}

/// Kind of reset.
#[derive(Debug, Clone, Copy, PartialEq, Eq, Structural)]
pub enum ResetType {
    /// `Hard`.
    Hard,
    /// `Soft`.
    Soft,
}

/// Answer to a reset.
#[derive(Debug, Clone, Copy, PartialEq, Eq, Structural)]
pub enum ResetStatus {
    /// `Accepted`.
    Accepted,
    /// `Rejected`.
    Rejected,
}

/// Authorization status of an id tag.
#[derive(Debug, Clone, Copy, PartialEq, Eq, Structural)]
pub enum AuthorizationStatus {
    /// `Accepted`.
    Accepted,
    /// `Blocked`.
    Blocked,
    /// `Expired`.
    Expired,
    /// `Invalid`.
    Invalid,
    /// `ConcurrentTx`.
    ConcurrentTx,
}

/// Status information of an id tag.
#[derive(Debug, Clone, PartialEq, Eq)]
pub struct IdTagInfo {
    /// Authorization status.
    pub status: AuthorizationStatus,
    /// Expiry date.
    pub expiry_date: Option<String>,
    /// Parent id tag.
    pub parent_id_tag: Option<String>,
}

/// A configuration key and its value.
#[derive(Debug, Clone, PartialEq, Eq)]
pub struct ConfigurationKey {
    /// The key.
    pub key: String,
    /// Whether the key is read-only.
    pub readonly: bool,
    /// The value, if any.
    pub value: Option<String>,
}

/// Meter data reported with a stopped transaction.
#[derive(Debug, Clone, PartialEq, Eq)]
pub struct TransactionData {
    /// When the values were sampled.
    pub timestamp: String,
    /// The sampled values.
    pub sampled_value: Vec<SampledValue>,
}

} // verus!
