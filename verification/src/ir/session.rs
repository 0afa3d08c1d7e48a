//! Charging session states.
use vstd::prelude::*;
use vstd::string::*;
use crate::core_types::{CoreResult, Timestamp, now, transition_error, transition_message};
use crate::ir::authorization::Authorization;
use crate::ir::error::ChargingError;
use crate::ir::ids::{ConnectorId, Energy, EvseId, SessionId, StationId};
use crate::ir::meter::{Meter, MeterValue};
use crate::ir::profile::ChargingProfile;
use crate::ir::tariff::Tariff;
use crate::ir::vehicle::Vehicle;
use crate::ocpp::json::JsonValue;

verus! {

/// Session state lifecycle.
#[derive(Debug, Clone, Copy, PartialEq, Eq, Structural)]
pub enum SessionState {
    /// Session initialized, waiting for authorization.
    Initializing,
    /// Authorizing user or vehicle.
    Authorizing,
    /// Authorization successful, ready to charge.
    Authorized,
    /// Actively charging.
    Charging,
    /// Temporarily suspended.
    Suspended,
    /// Wrapping up.
    Finishing,
    /// Session completed successfully.
    Completed,
    /// Session failed with an error.
    Faulted,
}

impl SessionState {
    /// A terminal state is one a session never leaves.
    pub open spec fn spec_is_terminal(self) -> bool {
        self is Completed || self is Faulted
    }

    /// States in which the session holds the connector.
    pub open spec fn spec_is_active(self) -> bool {
        self is Authorized || self is Charging || self is Suspended
    }

    /// The variant's name.
    pub open spec fn name(self) -> Seq<char> {
        match self {
            SessionState::Initializing => "Initializing"@,
            SessionState::Authorizing => "Authorizing"@,
            SessionState::Authorized => "Authorized"@,
            SessionState::Charging => "Charging"@,
            SessionState::Suspended => "Suspended"@,
            SessionState::Finishing => "Finishing"@,
            SessionState::Completed => "Completed"@,
            SessionState::Faulted => "Faulted"@,
        }
    }

    /// Whether the state is terminal (completed or faulted).
    pub fn is_terminal(&self) -> (b: bool)
        ensures
            b == self.spec_is_terminal(),
    {
        matches!(self, SessionState::Completed | SessionState::Faulted)
    }

    /// Whether the session is authorized, charging or suspended.
    pub fn is_active(&self) -> (b: bool)
        ensures
            b == self.spec_is_active(),
    {
        matches!(self, SessionState::Authorized | SessionState::Charging | SessionState::Suspended)
    }

    /// Whether the session is charging.
    pub fn is_charging(&self) -> (b: bool)
        ensures
            b == (*self is Charging),
    {
        matches!(self, SessionState::Charging)
    }

    /// The variant's name as text.
    pub fn debug_name(&self) -> (s: &'static str)
        ensures
            s@ == self.name(),
    {
        match self {
            SessionState::Initializing => "Initializing",
            SessionState::Authorizing => "Authorizing",
            SessionState::Authorized => "Authorized",
            SessionState::Charging => "Charging",
            SessionState::Suspended => "Suspended",
            SessionState::Finishing => "Finishing",
            SessionState::Completed => "Completed",
            SessionState::Faulted => "Faulted",
        }
    }
}

/// Kind of session event.
#[derive(Debug, Clone, Copy, PartialEq, Eq, Structural)]
pub enum SessionEventType {
    /// Started.
    Started,
    /// Authorized.
    Authorized,
    /// Charging started.
    ChargingStarted,
    /// Charging paused.
    ChargingPaused,
    /// Charging resumed.
    ChargingResumed,
    /// Smart charging changed the limits.
    SmartChargingAdjusted,
    /// Charging stopped.
    ChargingStopped,
    /// Completed.
    Completed,
    /// Faulted.
    Faulted,
    /// New meter reading.
    MeterUpdate,
    /// Profile applied.
    ProfileApplied,
}

/// An event of a session.
#[derive(Debug)]
pub struct SessionEvent {
    /// When it happened.
    pub timestamp: Timestamp,
    /// Kind.
    pub event_type: SessionEventType,
    /// Description.
    pub description: String,
    /// Data.
    pub data: Option<JsonValue>,
}

/// A charging session: the core unit of a charging transaction.
#[derive(Debug)]
pub struct ChargingSession {
    /// Identifier.
    pub id: SessionId,
    /// Station.
    pub station_id: StationId,
    /// EVSE.
    pub evse_id: EvseId,
    /// Connector.
    pub connector_id: ConnectorId,
    /// Vehicle, if known.
    pub vehicle: Option<Vehicle>,
    /// Authorization.
    pub authorization: Option<Authorization>,
    /// State.
    pub state: SessionState,
    /// Start.
    pub start_time: Timestamp,
    /// End, once finished.
    pub end_time: Option<Timestamp>,
    /// Last change.
    pub last_update: Timestamp,
    /// Meter at start.
    pub meter_start: Option<Meter>,
    /// Readings during the session.
    pub meter_readings: Vec<MeterValue>,
    /// Tariff.
    pub tariff: Option<Tariff>,
    /// Energy consumed.
    pub energy_consumed: Energy,
    /// Charging profile.
    pub charging_profile: Option<ChargingProfile>,
    /// Events.
    pub events: Vec<SessionEvent>,
    /// Error.
    pub error: Option<ChargingError>,
    /// Further data.
    pub metadata: Vec<(String, JsonValue)>,
}

/// The energy of a session: from the meter at start to the latest reading
/// when both are known (zero if the meter went back), otherwise the energy
/// recorded as consumed.
pub open spec fn session_energy(s: ChargingSession) -> Energy {
    match s.meter_start {
        Some(start) => if s.meter_readings@.len() > 0 {
            let last = s.meter_readings@.last().energy_import.0;
            let first = start.current_reading.energy_import.0;
            Energy(if last >= first { (last - first) as u64 } else { 0 })
        } else {
            s.energy_consumed
        },
        None => s.energy_consumed,
    }
}

impl ChargingSession {
    /// A session at a connector, initializing since now, with no readings,
    /// events, vehicle, authorization or energy yet.
    pub fn new(station_id: StationId, evse_id: EvseId, connector_id: ConnectorId) -> (s: Self)
        ensures
            s.station_id == station_id && s.evse_id == evse_id && s.connector_id == connector_id,
            s.state == SessionState::Initializing,
            s.start_time == s.last_update,
            s.end_time is None,
            s.vehicle is None && s.authorization is None,
            s.meter_start is None && s.meter_readings@.len() == 0,
            s.tariff is None && s.charging_profile is None && s.error is None,
            s.energy_consumed == Energy(0),
            s.events@.len() == 0 && s.metadata@.len() == 0,
            s.id.0@.len() == 36,
    {
        let t = now();
        ChargingSession {
            id: SessionId::new(),
            station_id,
            evse_id,
            connector_id,
            vehicle: None,
            authorization: None,
            state: SessionState::Initializing,
            start_time: t,
            end_time: None,
            last_update: t,
            meter_start: None,
            meter_readings: Vec::new(),
            tariff: None,
            energy_consumed: Energy::new(0),
            charging_profile: None,
            events: Vec::new(),
            error: None,
            metadata: Vec::new(),
        }
    }

    /// Appends a meter reading.
    pub fn add_meter_reading(&mut self, meter: MeterValue)
        ensures
            final(self).meter_readings@ == old(self).meter_readings@.push(meter),
            final(self).state == old(self).state,
            final(self).meter_start == old(self).meter_start,
            final(self).energy_consumed == old(self).energy_consumed,
            final(self).events@ == old(self).events@,
    {
        self.meter_readings.push(meter);
        self.last_update = now();
    }

    /// The latest meter reading.
    pub fn latest_meter_reading(&self) -> (r: Option<&MeterValue>)
        ensures
            r is Some <==> self.meter_readings@.len() > 0,
            r matches Some(m) ==> *m == self.meter_readings@.last(),
    {
        if self.meter_readings.len() == 0 {
            None
        } else {
            Some(&self.meter_readings[self.meter_readings.len() - 1])
        }
    }

    /// The energy of the session.
    pub fn total_energy(&self) -> (e: Energy)
        ensures
            e == session_energy(*self),
    {
        match (&self.meter_start, self.latest_meter_reading()) {
            (Some(start), Some(last)) => {
                let a = last.energy_import.0;
                let b = start.current_reading.energy_import.0;
                Energy::new(if a >= b { a - b } else { 0 })
            },
            _ => self.energy_consumed,
        }
    }

    /// Records an event that happens now.
    pub fn add_event(&mut self, event_type: SessionEventType, description: String)
        ensures
            final(self).events@.len() == old(self).events@.len() + 1,
            final(self).events@.drop_last() == old(self).events@,
            final(self).events@.last().event_type == event_type,
            final(self).events@.last().description == description,
            final(self).events@.last().data is None,
            final(self).state == old(self).state,
            final(self).meter_readings@ == old(self).meter_readings@,
    {
        let ghost before = self.events@;
        self.events.push(SessionEvent { timestamp: now(), event_type, description, data: None });
        assert(self.events@.drop_last() =~= before);
        self.last_update = now();
    }

    /// Whether the session is authorized, charging or suspended.
    pub fn is_active(&self) -> (b: bool)
        ensures
            b == self.state.spec_is_active(),
    {
        self.state.is_active()
    }

    /// Moves the session to `new_state`. Only a move from a terminal state
    /// to a terminal state is refused; it leaves the session unchanged.
    pub fn transition_to(&mut self, new_state: SessionState) -> (r: CoreResult<()>)
        ensures
            r is Err <==> (new_state.spec_is_terminal() && old(self).state.spec_is_terminal()),
            r is Ok ==> final(self).state == new_state,
            r matches Err(e) ==> e->InvalidState_0@ == transition_message(old(self).state.name(), new_state.name())
                && final(self).state == old(self).state,
            final(self).meter_readings@ == old(self).meter_readings@,
            final(self).events@ == old(self).events@,
    {
        if new_state.is_terminal() && self.state.is_terminal() {
            return Err(transition_error(self.state.debug_name(), new_state.debug_name()));
        }
        self.state = new_state;
        self.last_update = now();
        Ok(())
    }
}


/// With a start meter value and at least one reading, a session's energy is
/// what the import counter advanced from the start to the latest reading:
/// added to the start reading it gives the latest one, and it is zero when
/// the counter did not advance. Otherwise it is the energy recorded as
/// consumed.
pub proof fn law_session_energy_is_meter_advance(s: ChargingSession)
    ensures
        s.meter_start is Some && s.meter_readings@.len() > 0 ==> {
            let first = s.meter_start->0.current_reading.energy_import.0;
            let last = s.meter_readings@.last().energy_import.0;
            &&& last >= first ==> session_energy(s).0 + first == last
            &&& last <= first ==> session_energy(s).0 == 0
        },
        s.meter_start is None || s.meter_readings@.len() == 0 ==> session_energy(s) == s.energy_consumed,
{
}

} // verus!
