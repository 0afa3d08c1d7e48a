//! EVSEs: charging units with one or more connectors.
use vstd::prelude::*;
use crate::core_types::Timestamp;
use crate::ir::capability::{Capabilities, CapabilityType};
use crate::ir::connector::{Connector, ConnectorState};
use crate::ir::ids::{EvseId, Power, StationId};
use crate::ir::meter::Meter;
use crate::ir::session::ChargingSession;
use crate::ocpp::json::JsonValue;
use crate::text::str_eq;

verus! {

/// State of an EVSE.
#[derive(Debug, Clone, Copy, PartialEq, Eq, Structural)]
pub enum EVSEState {
    /// Free.
    Available,
    /// In use.
    Occupied,
    /// Charging.
    Charging,
    /// Faulted.
    Faulted,
}

/// An EVSE.
#[derive(Debug)]
pub struct EVSE {
    /// Identifier within the station.
    pub id: EvseId,
    /// Station.
    pub station_id: StationId,
    /// State.
    pub state: EVSEState,
    /// Maximum power.
    pub max_power: Power,
    /// Connectors.
    pub connectors: Vec<Connector>,
    /// Capabilities.
    pub capabilities: Capabilities,
    /// Meter.
    pub meter: Option<Meter>,
    /// Installation time.
    pub installed_at: Option<Timestamp>,
    /// Further data.
    pub metadata: Vec<(String, JsonValue)>,
}

/// `i` is the first connector with identifier `id`.
pub open spec fn first_connector(cs: Seq<Connector>, id: Seq<char>, i: int) -> bool {
    0 <= i < cs.len() && cs[i].id.0@ == id && forall|j: int| 0 <= j < i ==> (#[trigger] cs[j]).id.0@ != id
}

/// No connector has identifier `id`.
pub open spec fn lacks_connector(cs: Seq<Connector>, id: Seq<char>) -> bool {
    forall|j: int| 0 <= j < cs.len() ==> (#[trigger] cs[j]).id.0@ != id
}

/// The first connector with a session, if any.
pub open spec fn first_session_at(cs: Seq<Connector>, i: int) -> bool {
    0 <= i < cs.len() && cs[i].active_session is Some
        && forall|j: int| 0 <= j < i ==> (#[trigger] cs[j]).active_session is None
}

/// The position of the first connector with identifier `id`.
pub fn find_connector(cs: &Vec<Connector>, id: &str) -> (r: Option<usize>)
    ensures
        match r {
            Some(i) => first_connector(cs@, id@, i as int),
            None => lacks_connector(cs@, id@),
        },
{
    let mut i: usize = 0;
    while i < cs.len()
        invariant
            i <= cs.len(),
            forall|j: int| 0 <= j < i ==> (#[trigger] cs@[j]).id.0@ != id@,
        decreases cs.len() - i,
    {
        if str_eq(cs[i].id.0.as_str(), id) {
            return Some(i);
        }
        i = i + 1;
    }
    None
}

impl EVSE {
    /// An available EVSE of a station with no connectors.
    pub fn new(id: EvseId, station_id: StationId, max_power: Power) -> (e: Self)
        ensures
            e.id == id && e.station_id == station_id && e.max_power == max_power,
            e.state == EVSEState::Available,
            e.connectors@.len() == 0,
            e.capabilities.inv(),
            forall|k: CapabilityType| !e.capabilities.contains(k),
            e.meter is None && e.installed_at is None,
            e.metadata@.len() == 0,
    {
        EVSE {
            id,
            station_id,
            state: EVSEState::Available,
            max_power,
            connectors: Vec::new(),
            capabilities: Capabilities::new(),
            meter: None,
            installed_at: None,
            metadata: Vec::new(),
        }
    }

    /// Appends a connector.
    pub fn add_connector(&mut self, connector: Connector)
        ensures
            final(self).connectors@ == old(self).connectors@.push(connector),
            final(self).id == old(self).id,
            final(self).state == old(self).state,
    {
        self.connectors.push(connector);
    }

    /// The first connector with identifier `connector_id`.
    pub fn get_connector(&self, connector_id: &str) -> (r: Option<&Connector>)
        ensures
            match r {
                Some(c) => exists|i: int| first_connector(self.connectors@, connector_id@, i) && *c == self.connectors@[i],
                None => lacks_connector(self.connectors@, connector_id@),
            },
    {
        match find_connector(&self.connectors, connector_id) {
            Some(i) => Some(&self.connectors[i]),
            None => None,
        }
    }

    /// The first connector with identifier `connector_id`, for changing it.
    pub fn get_connector_mut(&mut self, connector_id: &str) -> (r: Option<&mut Connector>)
        ensures
            match r {
                Some(c) => exists|i: int| first_connector(old(self).connectors@, connector_id@, i)
                    && *c == old(self).connectors@[i]
                    && final(self).connectors@ == old(self).connectors@.update(i, *final(c))
                    && final(self).id == old(self).id,
                None => lacks_connector(old(self).connectors@, connector_id@) && *final(self) == *old(self),
            },
    {
        match find_connector(&self.connectors, connector_id) {
            Some(i) => {
                let ghost ii = i as int;
                assert(first_connector(old(self).connectors@, connector_id@, ii));
                Some(&mut self.connectors[i])
            },
            None => None,
        }
    }

    /// The session of the first connector that has one.
    pub fn active_session(&self) -> (r: Option<&ChargingSession>)
        ensures
            match r {
                Some(s) => exists|i: int| first_session_at(self.connectors@, i)
                    && *s == self.connectors@[i].active_session->0,
                None => forall|j: int| 0 <= j < self.connectors@.len() ==> (#[trigger] self.connectors@[j]).active_session is None,
            },
    {
        let mut i: usize = 0;
        while i < self.connectors.len()
            invariant
                i <= self.connectors.len(),
                forall|j: int| 0 <= j < i ==> (#[trigger] self.connectors@[j]).active_session is None,
            decreases self.connectors.len() - i,
        {
            match self.connectors[i].active_session() {
                Some(s) => {
                    assert(first_session_at(self.connectors@, i as int));
                    return Some(s);
                },
                None => {},
            }
            i = i + 1;
        }
        None
    }

    /// Whether some connector is charging.
    pub fn is_charging(&self) -> (b: bool)
        ensures
            b == exists|i: int| 0 <= i < self.connectors@.len() && (#[trigger] self.connectors@[i]).state == ConnectorState::Charging,
    {
        let mut i: usize = 0;
        while i < self.connectors.len()
            invariant
                i <= self.connectors.len(),
                forall|j: int| 0 <= j < i ==> (#[trigger] self.connectors@[j]).state != ConnectorState::Charging,
            decreases self.connectors.len() - i,
        {
            if self.connectors[i].is_charging() {
                assert(self.connectors@[i as int].state == ConnectorState::Charging);
                return true;
            }
            i = i + 1;
        }
        false
    }
}

} // verus!
