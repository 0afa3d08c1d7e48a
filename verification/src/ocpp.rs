//! OCPP protocol support: JSON values, message framing, OCPP 1.6 messages,
//! the charge point session and the client and server decisions.
pub mod json;
pub mod frame;
pub mod types;
pub mod messages;
pub mod session;
pub mod errors;
pub mod client;
pub mod server;

use vstd::prelude::*;

verus! {

/// OCPP version.
#[derive(Debug, Clone, Copy, PartialEq, Eq, Structural)]
pub enum OcppVersion {
    /// OCPP 1.6.
    V16,
    /// OCPP 2.0.1.
    V201,
    /// OCPP 2.1.
    V21,
}

impl OcppVersion {
    /// The version number as written in the standard.
    pub open spec fn label(self) -> Seq<char> {
        match self {
            OcppVersion::V16 => "1.6"@,
            OcppVersion::V201 => "2.0.1"@,
            OcppVersion::V21 => "2.1"@,
        }
    }

    /// The version number as text ("1.6", "2.0.1" or "2.1").
    pub fn to_text(&self) -> (s: &'static str)
        ensures
            s@ == self.label(),
    {
        match self {
            OcppVersion::V16 => "1.6",
            OcppVersion::V201 => "2.0.1",
            OcppVersion::V21 => "2.1",
        }
    }
}

/// Direction of an OCPP message.
#[derive(Debug, Clone, Copy, PartialEq, Eq, Structural)]
pub enum MessageDirection {
    /// Received.
    Incoming,
    /// Sent.
    Outgoing,
}

impl MessageDirection {
    /// The arrow that shows the direction.
    pub open spec fn arrow(self) -> Seq<char> {
        match self {
            MessageDirection::Incoming => "⬅️ "@,
            MessageDirection::Outgoing => "➡️ "@,
        }
    }

    /// The arrow that shows the direction, followed by a space.
    pub fn to_text(&self) -> (s: &'static str)
        ensures
            s@ == self.arrow(),
    {
        match self {
            MessageDirection::Incoming => "⬅️ ",
            MessageDirection::Outgoing => "➡️ ",
        }
    }
}

} // verus!
