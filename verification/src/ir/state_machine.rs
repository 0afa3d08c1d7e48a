//! State machines of sessions, stations and connectors.
use vstd::prelude::*;
use crate::core_types::{CoreResult, transition_message, transition_error};
use crate::ir::session::SessionState;
use crate::ir::station::StationState;
use crate::ir::connector::ConnectorState;

verus! {

/// A state machine with a fixed transition relation.
pub trait StateMachine: Sized {
    /// The machine's states.
    type State;

    /// The current state.
    spec fn current(&self) -> Self::State;

    /// Whether the relation allows a step from `from` to `to`.
    spec fn allows(from: Self::State, to: Self::State) -> bool;

    /// Moves to `new_state` when the relation allows it.
    fn transition(&mut self, new_state: Self::State) -> (r: CoreResult<()>)
        ensures
            r is Ok <==> Self::allows(old(self).current(), new_state),
            r is Ok ==> final(self).current() == new_state,
            r is Err ==> final(self).current() == old(self).current(),
    ;

    /// The current state.
    fn state(&self) -> (s: &Self::State)
        ensures
            *s == self.current(),
    ;

    /// Whether a step to `new_state` is allowed.
    fn can_transition(&self, new_state: &Self::State) -> (b: bool)
        ensures
            b == Self::allows(self.current(), *new_state),
    ;
}

/// The session transition relation.
pub open spec fn session_step(from: SessionState, to: SessionState) -> bool {
    match (from, to) {
        (SessionState::Initializing, SessionState::Authorizing) => true,
        (SessionState::Initializing, SessionState::Faulted) => true,
        (SessionState::Authorizing, SessionState::Authorized) => true,
        (SessionState::Authorizing, SessionState::Faulted) => true,
        (SessionState::Authorized, SessionState::Charging) => true,
        (SessionState::Authorized, SessionState::Faulted) => true,
        (SessionState::Charging, SessionState::Suspended) => true,
        (SessionState::Charging, SessionState::Finishing) => true,
        (SessionState::Charging, SessionState::Faulted) => true,
        (SessionState::Suspended, SessionState::Charging) => true,
        (SessionState::Suspended, SessionState::Finishing) => true,
        (SessionState::Suspended, SessionState::Faulted) => true,
        (SessionState::Finishing, SessionState::Completed) => true,
        (SessionState::Finishing, SessionState::Faulted) => true,
        _ => false,
    }
}

/// State machine of a charging session.
pub struct SessionStateMachine {
    state: SessionState,
}

impl SessionStateMachine {
    /// A machine in the `Initializing` state.
    pub fn new() -> (sm: Self)
        ensures
            sm.current() == SessionState::Initializing,
    {
        SessionStateMachine { state: SessionState::Initializing }
    }

    /// Steps to `Authorizing`.
    pub fn start_authorization(&mut self) -> (r: CoreResult<()>)
        ensures
            r is Ok <==> session_step(old(self).current(), SessionState::Authorizing),
            final(self).current() == (if r is Ok { SessionState::Authorizing } else { old(self).current() }),
    {
        self.transition(SessionState::Authorizing)
    }

    /// Steps to `Authorized`.
    pub fn authorize(&mut self) -> (r: CoreResult<()>)
        ensures
            r is Ok <==> session_step(old(self).current(), SessionState::Authorized),
            final(self).current() == (if r is Ok { SessionState::Authorized } else { old(self).current() }),
    {
        self.transition(SessionState::Authorized)
    }

    /// Steps to `Charging`.
    pub fn start_charging(&mut self) -> (r: CoreResult<()>)
        ensures
            r is Ok <==> session_step(old(self).current(), SessionState::Charging),
            final(self).current() == (if r is Ok { SessionState::Charging } else { old(self).current() }),
    {
        self.transition(SessionState::Charging)
    }

    /// Steps to `Suspended`.
    pub fn suspend(&mut self) -> (r: CoreResult<()>)
        ensures
            r is Ok <==> session_step(old(self).current(), SessionState::Suspended),
            final(self).current() == (if r is Ok { SessionState::Suspended } else { old(self).current() }),
    {
        self.transition(SessionState::Suspended)
    }

    /// Steps back to `Charging`.
    pub fn resume(&mut self) -> (r: CoreResult<()>)
        ensures
            r is Ok <==> session_step(old(self).current(), SessionState::Charging),
            final(self).current() == (if r is Ok { SessionState::Charging } else { old(self).current() }),
    {
        self.transition(SessionState::Charging)
    }

    /// Steps to `Finishing`.
    pub fn finish(&mut self) -> (r: CoreResult<()>)
        ensures
            r is Ok <==> session_step(old(self).current(), SessionState::Finishing),
            final(self).current() == (if r is Ok { SessionState::Finishing } else { old(self).current() }),
    {
        self.transition(SessionState::Finishing)
    }

    /// Steps to `Completed`.
    pub fn complete(&mut self) -> (r: CoreResult<()>)
        ensures
            r is Ok <==> session_step(old(self).current(), SessionState::Completed),
            final(self).current() == (if r is Ok { SessionState::Completed } else { old(self).current() }),
    {
        self.transition(SessionState::Completed)
    }

    /// Steps to `Faulted`.
    pub fn fault(&mut self) -> (r: CoreResult<()>)
        ensures
            r is Ok <==> session_step(old(self).current(), SessionState::Faulted),
            final(self).current() == (if r is Ok { SessionState::Faulted } else { old(self).current() }),
    {
        self.transition(SessionState::Faulted)
    }
}

impl StateMachine for SessionStateMachine {
    type State = SessionState;

    closed spec fn current(&self) -> SessionState {
        self.state
    }

    open spec fn allows(from: SessionState, to: SessionState) -> bool {
        session_step(from, to)
    }

    fn transition(&mut self, new_state: SessionState) -> (r: CoreResult<()>)
        ensures
            r matches Err(e) ==> e->InvalidState_0@ == transition_message(
                old(self).current().name(), new_state.name()),
    {
        if self.can_transition(&new_state) {
            self.state = new_state;
            Ok(())
        } else {
            Err(transition_error(self.state.debug_name(), new_state.debug_name()))
        }
    }

    fn state(&self) -> (s: &SessionState) {
        &self.state
    }

    fn can_transition(&self, new_state: &SessionState) -> (b: bool) {
        match (&self.state, new_state) {
            (SessionState::Initializing, SessionState::Authorizing) => true,
            (SessionState::Initializing, SessionState::Faulted) => true,
            (SessionState::Authorizing, SessionState::Authorized) => true,
            (SessionState::Authorizing, SessionState::Faulted) => true,
            (SessionState::Authorized, SessionState::Charging) => true,
            (SessionState::Authorized, SessionState::Faulted) => true,
            (SessionState::Charging, SessionState::Suspended) => true,
            (SessionState::Charging, SessionState::Finishing) => true,
            (SessionState::Charging, SessionState::Faulted) => true,
            (SessionState::Suspended, SessionState::Charging) => true,
            (SessionState::Suspended, SessionState::Finishing) => true,
            (SessionState::Suspended, SessionState::Faulted) => true,
            (SessionState::Finishing, SessionState::Completed) => true,
            (SessionState::Finishing, SessionState::Faulted) => true,
            (SessionState::Completed, _) => false,
            (SessionState::Faulted, _) => false,
            _ => false,
        }
    }
}


/// The station transition relation.
pub open spec fn station_step(from: StationState, to: StationState) -> bool {
    match (from, to) {
        (StationState::Offline, StationState::Booted) => true,
        (StationState::Offline, StationState::Maintenance) => true,
        (StationState::Booted, StationState::Enabled) => true,
        (StationState::Booted, StationState::Disabled) => true,
        (StationState::Booted, StationState::Faulted) => true,
        (StationState::Booted, StationState::Maintenance) => true,
        (StationState::Enabled, StationState::Disabled) => true,
        (StationState::Enabled, StationState::Faulted) => true,
        (StationState::Enabled, StationState::Maintenance) => true,
        (StationState::Enabled, StationState::Updating) => true,
        (StationState::Disabled, StationState::Enabled) => true,
        (StationState::Disabled, StationState::Faulted) => true,
        (StationState::Disabled, StationState::Maintenance) => true,
        (StationState::Disabled, StationState::Booted) => true,
        (StationState::Faulted, StationState::Booted) => true,
        (StationState::Faulted, StationState::Enabled) => true,
        (StationState::Faulted, StationState::Disabled) => true,
        (StationState::Faulted, StationState::Maintenance) => true,
        (StationState::Maintenance, StationState::Booted) => true,
        (StationState::Maintenance, StationState::Enabled) => true,
        (StationState::Maintenance, StationState::Disabled) => true,
        (StationState::Updating, StationState::Booted) => true,
        (StationState::Updating, StationState::Enabled) => true,
        (StationState::Updating, StationState::Faulted) => true,
        _ => false,
    }
}

/// State machine of a charging station.
pub struct StationStateMachine {
    state: StationState,
}

impl StationStateMachine {
    /// A machine in the `Offline` state.
    pub fn new() -> (sm: Self)
        ensures
            sm.current() == StationState::Offline,
    {
        StationStateMachine { state: StationState::Offline }
    }

    /// Steps to `Booted`.
    pub fn boot(&mut self) -> (r: CoreResult<()>)
        ensures
            r is Ok <==> station_step(old(self).current(), StationState::Booted),
            final(self).current() == (if r is Ok { StationState::Booted } else { old(self).current() }),
    {
        self.transition(StationState::Booted)
    }

    /// Steps to `Enabled`.
    pub fn enable(&mut self) -> (r: CoreResult<()>)
        ensures
            r is Ok <==> station_step(old(self).current(), StationState::Enabled),
            final(self).current() == (if r is Ok { StationState::Enabled } else { old(self).current() }),
    {
        self.transition(StationState::Enabled)
    }

    /// Steps to `Disabled`.
    pub fn disable(&mut self) -> (r: CoreResult<()>)
        ensures
            r is Ok <==> station_step(old(self).current(), StationState::Disabled),
            final(self).current() == (if r is Ok { StationState::Disabled } else { old(self).current() }),
    {
        self.transition(StationState::Disabled)
    }

    /// Steps to `Faulted`.
    pub fn fault(&mut self) -> (r: CoreResult<()>)
        ensures
            r is Ok <==> station_step(old(self).current(), StationState::Faulted),
            final(self).current() == (if r is Ok { StationState::Faulted } else { old(self).current() }),
    {
        self.transition(StationState::Faulted)
    }

    /// Steps to `Maintenance`.
    pub fn maintenance(&mut self) -> (r: CoreResult<()>)
        ensures
            r is Ok <==> station_step(old(self).current(), StationState::Maintenance),
            final(self).current() == (if r is Ok { StationState::Maintenance } else { old(self).current() }),
    {
        self.transition(StationState::Maintenance)
    }

    /// Steps to `Updating`.
    pub fn updating(&mut self) -> (r: CoreResult<()>)
        ensures
            r is Ok <==> station_step(old(self).current(), StationState::Updating),
            final(self).current() == (if r is Ok { StationState::Updating } else { old(self).current() }),
    {
        self.transition(StationState::Updating)
    }
}

impl StateMachine for StationStateMachine {
    type State = StationState;

    closed spec fn current(&self) -> StationState {
        self.state
    }

    open spec fn allows(from: StationState, to: StationState) -> bool {
        station_step(from, to)
    }

    fn transition(&mut self, new_state: StationState) -> (r: CoreResult<()>)
        ensures
            r matches Err(e) ==> e->InvalidState_0@ == transition_message(
                old(self).current().name(), new_state.name()),
    {
        if self.can_transition(&new_state) {
            self.state = new_state;
            Ok(())
        } else {
            Err(transition_error(self.state.debug_name(), new_state.debug_name()))
        }
    }

    fn state(&self) -> (s: &StationState) {
        &self.state
    }

    fn can_transition(&self, new_state: &StationState) -> (b: bool) {
        match (&self.state, new_state) {
            (StationState::Offline, StationState::Booted) => true,
            (StationState::Offline, StationState::Maintenance) => true,
            (StationState::Booted, StationState::Enabled) => true,
            (StationState::Booted, StationState::Disabled) => true,
            (StationState::Booted, StationState::Faulted) => true,
            (StationState::Booted, StationState::Maintenance) => true,
            (StationState::Enabled, StationState::Disabled) => true,
            (StationState::Enabled, StationState::Faulted) => true,
            (StationState::Enabled, StationState::Maintenance) => true,
            (StationState::Enabled, StationState::Updating) => true,
            (StationState::Disabled, StationState::Enabled) => true,
            (StationState::Disabled, StationState::Faulted) => true,
            (StationState::Disabled, StationState::Maintenance) => true,
            (StationState::Disabled, StationState::Booted) => true,
            (StationState::Faulted, StationState::Booted) => true,
            (StationState::Faulted, StationState::Enabled) => true,
            (StationState::Faulted, StationState::Disabled) => true,
            (StationState::Faulted, StationState::Maintenance) => true,
            (StationState::Maintenance, StationState::Booted) => true,
            (StationState::Maintenance, StationState::Enabled) => true,
            (StationState::Maintenance, StationState::Disabled) => true,
            (StationState::Updating, StationState::Booted) => true,
            (StationState::Updating, StationState::Enabled) => true,
            (StationState::Updating, StationState::Faulted) => true,
            _ => false,
        }
    }
}

/// The connector transition relation.
pub open spec fn connector_step(from: ConnectorState, to: ConnectorState) -> bool {
    match (from, to) {
        (ConnectorState::Available, ConnectorState::Preparing) => true,
        (ConnectorState::Available, ConnectorState::Faulted) => true,
        (ConnectorState::Preparing, ConnectorState::Charging) => true,
        (ConnectorState::Preparing, ConnectorState::Available) => true,
        (ConnectorState::Preparing, ConnectorState::Faulted) => true,
        (ConnectorState::Charging, ConnectorState::Suspended) => true,
        (ConnectorState::Charging, ConnectorState::Available) => true,
        (ConnectorState::Charging, ConnectorState::Faulted) => true,
        (ConnectorState::Suspended, ConnectorState::Charging) => true,
        (ConnectorState::Suspended, ConnectorState::Available) => true,
        (ConnectorState::Suspended, ConnectorState::Faulted) => true,
        (ConnectorState::Faulted, ConnectorState::Available) => true,
        _ => false,
    }
}

/// State machine of a connector.
pub struct ConnectorStateMachine {
    state: ConnectorState,
}

impl ConnectorStateMachine {
    /// A machine in the `Available` state.
    pub fn new() -> (sm: Self)
        ensures
            sm.current() == ConnectorState::Available,
    {
        ConnectorStateMachine { state: ConnectorState::Available }
    }

    /// Steps to `Preparing`.
    pub fn prepare(&mut self) -> (r: CoreResult<()>)
        ensures
            r is Ok <==> connector_step(old(self).current(), ConnectorState::Preparing),
            final(self).current() == (if r is Ok { ConnectorState::Preparing } else { old(self).current() }),
    {
        self.transition(ConnectorState::Preparing)
    }

    /// Steps to `Charging`.
    pub fn start_charging(&mut self) -> (r: CoreResult<()>)
        ensures
            r is Ok <==> connector_step(old(self).current(), ConnectorState::Charging),
            final(self).current() == (if r is Ok { ConnectorState::Charging } else { old(self).current() }),
    {
        self.transition(ConnectorState::Charging)
    }

    /// Steps to `Suspended`.
    pub fn suspend(&mut self) -> (r: CoreResult<()>)
        ensures
            r is Ok <==> connector_step(old(self).current(), ConnectorState::Suspended),
            final(self).current() == (if r is Ok { ConnectorState::Suspended } else { old(self).current() }),
    {
        self.transition(ConnectorState::Suspended)
    }

    /// Steps back to `Charging`.
    pub fn resume(&mut self) -> (r: CoreResult<()>)
        ensures
            r is Ok <==> connector_step(old(self).current(), ConnectorState::Charging),
            final(self).current() == (if r is Ok { ConnectorState::Charging } else { old(self).current() }),
    {
        self.transition(ConnectorState::Charging)
    }

    /// Steps to `Faulted`.
    pub fn fault(&mut self) -> (r: CoreResult<()>)
        ensures
            r is Ok <==> connector_step(old(self).current(), ConnectorState::Faulted),
            final(self).current() == (if r is Ok { ConnectorState::Faulted } else { old(self).current() }),
    {
        self.transition(ConnectorState::Faulted)
    }

    /// Steps back to `Available`.
    pub fn reset(&mut self) -> (r: CoreResult<()>)
        ensures
            r is Ok <==> connector_step(old(self).current(), ConnectorState::Available),
            final(self).current() == (if r is Ok { ConnectorState::Available } else { old(self).current() }),
    {
        self.transition(ConnectorState::Available)
    }
}

impl StateMachine for ConnectorStateMachine {
    type State = ConnectorState;

    closed spec fn current(&self) -> ConnectorState {
        self.state
    }

    open spec fn allows(from: ConnectorState, to: ConnectorState) -> bool {
        connector_step(from, to)
    }

    fn transition(&mut self, new_state: ConnectorState) -> (r: CoreResult<()>)
        ensures
            r matches Err(e) ==> e->InvalidState_0@ == transition_message(
                old(self).current().name(), new_state.name()),
    {
        if self.can_transition(&new_state) {
            self.state = new_state;
            Ok(())
        } else {
            Err(transition_error(self.state.debug_name(), new_state.debug_name()))
        }
    }

    fn state(&self) -> (s: &ConnectorState) {
        &self.state
    }

    fn can_transition(&self, new_state: &ConnectorState) -> (b: bool) {
        match (&self.state, new_state) {
            (ConnectorState::Available, ConnectorState::Preparing) => true,
            (ConnectorState::Available, ConnectorState::Faulted) => true,
            (ConnectorState::Preparing, ConnectorState::Charging) => true,
            (ConnectorState::Preparing, ConnectorState::Available) => true,
            (ConnectorState::Preparing, ConnectorState::Faulted) => true,
            (ConnectorState::Charging, ConnectorState::Suspended) => true,
            (ConnectorState::Charging, ConnectorState::Available) => true,
            (ConnectorState::Charging, ConnectorState::Faulted) => true,
            (ConnectorState::Suspended, ConnectorState::Charging) => true,
            (ConnectorState::Suspended, ConnectorState::Available) => true,
            (ConnectorState::Suspended, ConnectorState::Faulted) => true,
            (ConnectorState::Faulted, ConnectorState::Available) => true,
            _ => false,
        }
    }
}


/// A session state is terminal exactly when the session machine allows no
/// step out of it; every other state can at least step to `Faulted`.
pub proof fn law_session_terminal_iff_no_exit(s: SessionState)
    ensures
        s.spec_is_terminal() <==> (forall|t: SessionState| !#[trigger] session_step(s, t)),
        !s.spec_is_terminal() ==> session_step(s, SessionState::Faulted),
{
    if !s.spec_is_terminal() {
        assert(session_step(s, SessionState::Faulted));
    }
}

/// None of the three machines has a step from a state to itself.
pub proof fn law_no_self_steps(s: SessionState, t: StationState, c: ConnectorState)
    ensures
        !session_step(s, s),
        !station_step(t, t),
        !connector_step(c, c),
{
}

/// A faulted connector can only be reset to `Available`, and every other
/// connector state can step to `Faulted`.
pub proof fn law_connector_fault_and_reset(c: ConnectorState, t: ConnectorState)
    ensures
        connector_step(ConnectorState::Faulted, t) <==> t == ConnectorState::Available,
        c != ConnectorState::Faulted ==> connector_step(c, ConnectorState::Faulted),
{
}

/// An offline station can only boot or enter maintenance, and no state
/// steps back to `Offline`.
pub proof fn law_station_offline(s: StationState, t: StationState)
    ensures
        station_step(StationState::Offline, t) <==> (t == StationState::Booted || t == StationState::Maintenance),
        !station_step(s, StationState::Offline),
{
}

/// No session step leads back to `Initializing`, and `Completed` is reached
/// only from `Finishing`.
pub proof fn law_session_entry_and_completion(s: SessionState)
    ensures
        !session_step(s, SessionState::Initializing),
        session_step(s, SessionState::Completed) <==> s == SessionState::Finishing,
{
}

/// Where each session state can be reached from: authorization starts only
/// from `Initializing` and succeeds only from `Authorizing`; charging starts
/// after authorization or resumes after a suspension; only a charging
/// session can be suspended; and a session is finished while it is charging
/// or suspended, and from no other state.
pub proof fn law_session_predecessors(s: SessionState)
    ensures
        session_step(s, SessionState::Authorizing) <==> s == SessionState::Initializing,
        session_step(s, SessionState::Authorized) <==> s == SessionState::Authorizing,
        session_step(s, SessionState::Charging) <==> (s == SessionState::Authorized || s == SessionState::Suspended),
        session_step(s, SessionState::Suspended) <==> s == SessionState::Charging,
        session_step(s, SessionState::Finishing) <==> (s == SessionState::Charging || s == SessionState::Suspended),
        session_step(s, SessionState::Faulted) <==> !s.spec_is_terminal(),
{
}

/// Where each connector state can be reached from: a connector is prepared
/// only when available; charging starts after preparation or resumes after a
/// suspension; only a charging connector is suspended; a connector returns
/// to `Available` from any other state but `Available`; and any state but
/// `Faulted` can fault.
pub proof fn law_connector_predecessors(c: ConnectorState)
    ensures
        connector_step(c, ConnectorState::Preparing) <==> c == ConnectorState::Available,
        connector_step(c, ConnectorState::Charging) <==> (c == ConnectorState::Preparing || c == ConnectorState::Suspended),
        connector_step(c, ConnectorState::Suspended) <==> c == ConnectorState::Charging,
        connector_step(c, ConnectorState::Available) <==> c != ConnectorState::Available,
        connector_step(c, ConnectorState::Faulted) <==> c != ConnectorState::Faulted,
{
}

/// Where each station state can be reached from: an update starts only on an
/// enabled station; a station is rebooted from every state but `Booted` and
/// `Enabled`; it is enabled from every state but `Offline` and `Enabled`;
/// disabled from `Booted`, `Enabled`, `Faulted` and `Maintenance`; faulted
/// from `Booted`, `Enabled`, `Disabled` and `Updating`; and put in
/// maintenance from every state but `Maintenance` and `Updating`.
pub proof fn law_station_predecessors(s: StationState)
    ensures
        station_step(s, StationState::Updating) <==> s == StationState::Enabled,
        station_step(s, StationState::Booted) <==> !(s == StationState::Booted || s == StationState::Enabled),
        station_step(s, StationState::Enabled) <==> !(s == StationState::Offline || s == StationState::Enabled),
        station_step(s, StationState::Disabled) <==> (s == StationState::Booted || s == StationState::Enabled
            || s == StationState::Faulted || s == StationState::Maintenance),
        station_step(s, StationState::Faulted) <==> (s == StationState::Booted || s == StationState::Enabled
            || s == StationState::Disabled || s == StationState::Updating),
        station_step(s, StationState::Maintenance) <==> !(s == StationState::Maintenance || s == StationState::Updating),
{
}

} // verus!
