//! Charging errors, normalized to the ChargeX MREC taxonomy.
use vstd::prelude::*;
use crate::core_types::{Timestamp, now};
use crate::ir::ids::{ConnectorId, EvseId, SessionId, StationId, TransactionId};
use crate::ocpp::json::JsonValue;

verus! {

/// Kind of error.
#[derive(Debug, Clone, Copy, PartialEq, Eq, Structural)]
pub enum ErrorType {
    /// Hardware.
    Hardware,
    /// Communication.
    Communication,
    /// Authorization.
    Authorization,
    /// Configuration.
    Configuration,
    /// External.
    External,
    /// Roaming.
    Roaming,
    /// Security.
    Security,
    /// Internal.
    Internal,
}

/// Where an error comes from.
#[derive(Debug, Clone, Copy, PartialEq, Eq, Structural)]
pub enum ErrorSource {
    /// The EVSE.
    EVSE,
    /// The EV.
    EV,
    /// The central system.
    CSMS,
    /// A roaming platform.
    Roaming,
    /// The grid.
    Grid,
    /// The user.
    User,
    /// Unknown.
    Unknown,
}

/// Severity of an error.
#[derive(Debug, Clone, Copy, PartialEq, Eq, Structural)]
pub enum ErrorSeverity {
    /// Information.
    Info,
    /// Warning.
    Warning,
    /// Critical.
    Critical,
    /// Fatal.
    Fatal,
}

/// Who is responsible for an error.
#[derive(Debug, Clone, Copy, PartialEq, Eq, Structural)]
pub enum ErrorResponsibility {
    /// The manufacturer.
    OEM,
    /// The charge point operator.
    CPO,
    /// The mobility service provider.
    EMSP,
    /// The user.
    User,
    /// The grid operator.
    Grid,
    /// Unknown.
    Unknown,
}

/// Where an error happened.
#[derive(Debug, Clone)]
pub struct ErrorContext {
    /// Station.
    pub station_id: Option<StationId>,
    /// EVSE.
    pub evse_id: Option<EvseId>,
    /// Connector.
    pub connector_id: Option<ConnectorId>,
    /// Session.
    pub session_id: Option<SessionId>,
    /// Transaction.
    pub transaction_id: Option<TransactionId>,
    /// User.
    pub user_id: Option<String>,
}

impl ErrorContext {
    /// Whether no field is set.
    pub open spec fn is_empty(self) -> bool {
        &&& self.station_id is None
        &&& self.evse_id is None
        &&& self.connector_id is None
        &&& self.session_id is None
        &&& self.transaction_id is None
        &&& self.user_id is None
    }
}

impl Default for ErrorContext {
    fn default() -> (c: Self)
        ensures
            c.is_empty(),
    {
        ErrorContext {
            station_id: None,
            evse_id: None,
            connector_id: None,
            session_id: None,
            transaction_id: None,
            user_id: None,
        }
    }
}

/// A charging error.
#[derive(Debug)]
pub struct ChargingError {
    /// Code, in the form CX###.
    pub code: String,
    /// Kind.
    pub error_type: ErrorType,
    /// Description.
    pub description: String,
    /// Origin.
    pub source: ErrorSource,
    /// Severity.
    pub severity: ErrorSeverity,
    /// When it was raised.
    pub timestamp: Timestamp,
    /// Who is responsible.
    pub responsibility: ErrorResponsibility,
    /// What to do about it.
    pub recommended_action: Option<String>,
    /// The raw error as received.
    pub raw: Option<JsonValue>,
    /// Where it happened.
    pub context: ErrorContext,
    /// Whether it is resolved.
    pub resolved: bool,
    /// When it was resolved.
    pub resolved_at: Option<Timestamp>,
}

impl ChargingError {
    /// An unresolved error raised now, of unknown responsibility, with no
    /// recommended action, raw form or context.
    pub fn new(code: String, error_type: ErrorType, description: String, source: ErrorSource, severity: ErrorSeverity) -> (e: Self)
        ensures
            e.code == code,
            e.error_type == error_type,
            e.description == description,
            e.source == source,
            e.severity == severity,
            e.responsibility == ErrorResponsibility::Unknown,
            e.recommended_action is None,
            e.raw is None,
            e.context.is_empty(),
            !e.resolved,
            e.resolved_at is None,
    {
        ChargingError {
            code,
            error_type,
            description,
            source,
            severity,
            timestamp: now(),
            responsibility: ErrorResponsibility::Unknown,
            recommended_action: None,
            raw: None,
            context: ErrorContext::default(),
            resolved: false,
            resolved_at: None,
        }
    }

    /// The same error with its context replaced.
    pub fn with_context(self, context: ErrorContext) -> (e: Self)
        ensures
            e == (ChargingError { context, ..self }),
    {
        let mut e = self;
        e.context = context;
        e
    }

    /// Marks the error resolved now.
    pub fn resolve(&mut self)
        ensures
            final(self).resolved,
            final(self).resolved_at is Some,
            final(self).code == old(self).code,
            final(self).error_type == old(self).error_type,
            final(self).description == old(self).description,
            final(self).timestamp == old(self).timestamp,
    {
        self.resolved = true;
        self.resolved_at = Some(now());
    }
}

} // verus!
