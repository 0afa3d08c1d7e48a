//! OCPP errors.
use vstd::prelude::*;
use vstd::string::*;

verus! {

/// An error of the OCPP layer.
#[derive(Debug, Clone)]
pub enum OcppError {
    /// WebSocket failure.
    WebSocket(String),
    /// A value could not be converted to or from JSON.
    Serialization(String),
    /// The peer broke the protocol.
    Protocol(String),
    /// No answer in time.
    Timeout(String),
    /// A malformed message.
    InvalidMessage(String),
    /// Unknown station.
    StationNotFound(String),
    /// The connector cannot be used.
    ConnectorNotAvailable(String),
    /// Unknown transaction.
    TransactionNotFound(String),
    /// Authorization was refused.
    AuthorizationFailed(String),
    /// Internal failure.
    Internal(String),
}

impl OcppError {
    /// The prefix of the error's message.
    pub open spec fn prefix(self) -> Seq<char> {
        match self {
            OcppError::WebSocket(_) => "WebSocket error: "@,
            OcppError::Serialization(_) => "Serialization error: "@,
            OcppError::Protocol(_) => "Protocol error: "@,
            OcppError::Timeout(_) => "Timeout: "@,
            OcppError::InvalidMessage(_) => "Invalid message: "@,
            OcppError::StationNotFound(_) => "Station not found: "@,
            OcppError::ConnectorNotAvailable(_) => "Connector not available: "@,
            OcppError::TransactionNotFound(_) => "Transaction not found: "@,
            OcppError::AuthorizationFailed(_) => "Authorization failed: "@,
            OcppError::Internal(_) => "Internal error: "@,
        }
    }

    /// The detail the error carries.
    pub open spec fn detail(self) -> String {
        match self {
            OcppError::WebSocket(s) => s,
            OcppError::Serialization(s) => s,
            OcppError::Protocol(s) => s,
            OcppError::Timeout(s) => s,
            OcppError::InvalidMessage(s) => s,
            OcppError::StationNotFound(s) => s,
            OcppError::ConnectorNotAvailable(s) => s,
            OcppError::TransactionNotFound(s) => s,
            OcppError::AuthorizationFailed(s) => s,
            OcppError::Internal(s) => s,
        }
    }

    /// The error's message: its prefix followed by its detail.
    pub fn message(&self) -> (s: String)
        ensures
            s@ == self.prefix() + self.detail()@,
    {
        let (prefix, detail) = match self {
            OcppError::WebSocket(s) => ("WebSocket error: ", s),
            OcppError::Serialization(s) => ("Serialization error: ", s),
            OcppError::Protocol(s) => ("Protocol error: ", s),
            OcppError::Timeout(s) => ("Timeout: ", s),
            OcppError::InvalidMessage(s) => ("Invalid message: ", s),
            OcppError::StationNotFound(s) => ("Station not found: ", s),
            OcppError::ConnectorNotAvailable(s) => ("Connector not available: ", s),
            OcppError::TransactionNotFound(s) => ("Transaction not found: ", s),
            OcppError::AuthorizationFailed(s) => ("Authorization failed: ", s),
            OcppError::Internal(s) => ("Internal error: ", s),
        };
        let mut out = prefix.to_owned();
        out.append(detail.as_str());
        out
    }
}

/// Result type of the OCPP layer.
pub type OcppResult<T> = Result<T, OcppError>;

} // verus!
