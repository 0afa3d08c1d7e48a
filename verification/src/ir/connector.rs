//! Connector model.
use vstd::prelude::*;
use vstd::string::*;
use crate::core_types::{CoreError, CoreResult};
use crate::ir::capability::Capabilities;
use crate::ir::ids::{ConnectorId, EvseId, Percentage, Power, Temperature};
use crate::ir::meter::Meter;
use crate::ir::session::ChargingSession;
use crate::ocpp::json::JsonValue;
use crate::core_types::F64Bits;

verus! {

/// Plug type of a connector.
#[allow(non_camel_case_types)]
#[derive(Debug, Clone, PartialEq, Eq)]
pub enum ConnectorType {
    /// Type 1 (SAE J1772).
    Type1,
    /// Type 2 (IEC 62196).
    Type2,
    /// Combined Charging System.
    CCS,
    /// CHAdeMO.
    CHAdeMO,
    /// GB/T.
    GB_T,
    /// Tesla.
    Tesla,
    /// Another type, by name.
    Other(String),
}

/// Connector state.
#[derive(Debug, Clone, Copy, PartialEq, Eq, Structural)]
pub enum ConnectorState {
    /// Free for a new session.
    Available,
    /// A session is being prepared.
    Preparing,
    /// Delivering energy.
    Charging,
    /// Delivery paused.
    Suspended,
    /// Out of order.
    Faulted,
}

impl ConnectorState {
    /// The variant's name.
    pub open spec fn name(self) -> Seq<char> {
        match self {
            ConnectorState::Available => "Available"@,
            ConnectorState::Preparing => "Preparing"@,
            ConnectorState::Charging => "Charging"@,
            ConnectorState::Suspended => "Suspended"@,
            ConnectorState::Faulted => "Faulted"@,
        }
    }

    /// The variant's name as text.
    pub fn debug_name(&self) -> (s: &'static str)
        ensures
            s@ == self.name(),
    {
        match self {
            ConnectorState::Available => "Available",
            ConnectorState::Preparing => "Preparing",
            ConnectorState::Charging => "Charging",
            ConnectorState::Suspended => "Suspended",
            ConnectorState::Faulted => "Faulted",
        }
    }
}

/// Physical condition of a connector.
#[derive(Debug, Clone, Copy, PartialEq, Eq, Structural)]
pub struct ConnectorPhysicalStatus {
    /// Cable temperature.
    pub cable_temperature: Option<Temperature>,
    /// Whether the lock is engaged.
    pub lock_engaged: bool,
    /// Whether a cable is connected.
    pub cable_connected: bool,
    /// Contact resistance, as the bit pattern of an `f64`.
    pub contact_resistance: Option<F64Bits>,
    /// Wear.
    pub wear_level: Option<Percentage>,
}

impl Default for ConnectorPhysicalStatus {
    /// Unlocked, no cable, nothing measured.
    fn default() -> (s: Self)
        ensures
            s == (ConnectorPhysicalStatus {
                cable_temperature: None,
                lock_engaged: false,
                cable_connected: false,
                contact_resistance: None,
                wear_level: None,
            }),
    {
        ConnectorPhysicalStatus {
            cable_temperature: None,
            lock_engaged: false,
            cable_connected: false,
            contact_resistance: None,
            wear_level: None,
        }
    }
}

/// A physical connector (plug).
#[derive(Debug)]
pub struct Connector {
    /// Identifier.
    pub id: ConnectorId,
    /// Plug type.
    pub connector_type: ConnectorType,
    /// State.
    pub state: ConnectorState,
    /// EVSE it belongs to.
    pub evse_id: EvseId,
    /// Maximum power.
    pub max_power: Power,
    /// Power being delivered.
    pub current_power: Option<Power>,
    /// Session in progress.
    pub active_session: Option<ChargingSession>,
    /// Meter.
    pub meter: Option<Meter>,
    /// Capabilities.
    pub capabilities: Capabilities,
    /// Physical condition.
    pub physical_status: ConnectorPhysicalStatus,
    /// Further data.
    pub metadata: Vec<(String, JsonValue)>,
}

/// The message of a refused session start.
pub open spec fn not_available_message(id: Seq<char>) -> Seq<char> {
    "Connector "@ + id + " is not available"@
}

/// The message of a refused session stop.
pub open spec fn no_session_message(id: Seq<char>) -> Seq<char> {
    "Connector "@ + id + " has no active session"@
}

impl Connector {
    /// An available connector of an EVSE with nothing attached.
    pub fn new(id: ConnectorId, evse_id: EvseId, connector_type: ConnectorType, max_power: Power) -> (c: Self)
        ensures
            c.id == id && c.evse_id == evse_id && c.connector_type == connector_type,
            c.max_power == max_power,
            c.state == ConnectorState::Available,
            c.current_power is None && c.active_session is None && c.meter is None,
            c.capabilities.inv(),
            forall|k: crate::ir::capability::CapabilityType| !c.capabilities.contains(k),
            !c.physical_status.lock_engaged && !c.physical_status.cable_connected,
            c.physical_status.cable_temperature is None && c.physical_status.contact_resistance is None,
            c.physical_status.wear_level is None,
            c.metadata@.len() == 0,
    {
        Connector {
            id,
            connector_type,
            state: ConnectorState::Available,
            evse_id,
            max_power,
            current_power: None,
            active_session: None,
            meter: None,
            capabilities: Capabilities::new(),
            physical_status: ConnectorPhysicalStatus::default(),
            metadata: Vec::new(),
        }
    }

    /// Whether the connector is charging.
    pub fn is_charging(&self) -> (b: bool)
        ensures
            b == (self.state == ConnectorState::Charging),
    {
        matches!(self.state, ConnectorState::Charging)
    }

    /// Whether the connector is available.
    pub fn is_available(&self) -> (b: bool)
        ensures
            b == (self.state == ConnectorState::Available),
    {
        matches!(self.state, ConnectorState::Available)
    }

    /// The session in progress.
    pub fn active_session(&self) -> (r: Option<&ChargingSession>)
        ensures
            r is Some <==> self.active_session is Some,
            r matches Some(s) ==> *s == self.active_session->0,
    {
        self.active_session.as_ref()
    }

    /// The session in progress, for changing it.
    pub fn active_session_mut(&mut self) -> (r: Option<&mut ChargingSession>)
        ensures
            r is Some <==> old(self).active_session is Some,
            match r {
                Some(s) => *s == old(self).active_session->0
                    && final(self).active_session == Some(*final(s))
                    && final(self).state == old(self).state
                    && final(self).id == old(self).id,
                None => *final(self) == *old(self),
            },
    {
        self.active_session.as_mut()
    }

    /// Starts a session: refused unless the connector is available; then
    /// the connector holds the session and charges.
    pub fn start_session(&mut self, session: ChargingSession) -> (r: CoreResult<()>)
        ensures
            r is Ok <==> old(self).state == ConnectorState::Available,
            r is Ok ==> *final(self) == (Connector {
                active_session: Some(session),
                state: ConnectorState::Charging,
                ..*old(self)
            }),
            r matches Err(e) ==> e->InvalidState_0@ == not_available_message(old(self).id.0@)
                && *final(self) == *old(self),
    {
        if !self.is_available() {
            let mut msg = "Connector ".to_owned();
            msg.append(self.id.0.as_str());
            msg.append(" is not available");
            return Err(CoreError::InvalidState(msg));
        }
        self.active_session = Some(session);
        self.state = ConnectorState::Charging;
        Ok(())
    }

    /// Stops the session: refused when the connector is available; then the
    /// session (if any) is handed back and the connector is available with
    /// no power.
    pub fn stop_session(&mut self) -> (r: CoreResult<Option<ChargingSession>>)
        ensures
            r is Ok <==> old(self).state != ConnectorState::Available,
            r matches Ok(s) ==> s == old(self).active_session && *final(self) == (Connector {
                active_session: None,
                state: ConnectorState::Available,
                current_power: None,
                ..*old(self)
            }),
            r matches Err(e) ==> e->InvalidState_0@ == no_session_message(old(self).id.0@)
                && *final(self) == *old(self),
    {
        if self.is_available() {
            let mut msg = "Connector ".to_owned();
            msg.append(self.id.0.as_str());
            msg.append(" has no active session");
            return Err(CoreError::InvalidState(msg));
        }
        let session = self.active_session.take();
        self.state = ConnectorState::Available;
        self.current_power = None;
        Ok(session)
    }
}

} // verus!
