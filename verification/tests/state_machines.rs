use chargemesh::core_types::CoreError;
use chargemesh::ir::connector::ConnectorState;
use chargemesh::ir::session::SessionState;
use chargemesh::ir::state_machine::{ConnectorStateMachine, SessionStateMachine, StateMachine, StationStateMachine};
use chargemesh::ir::station::StationState;

#[test]
fn session_test_session_lifecycle() {
    let mut sm = SessionStateMachine::new();
    assert_eq!(*sm.state(), SessionState::Initializing);

    sm.start_authorization().unwrap();
    assert_eq!(*sm.state(), SessionState::Authorizing);

    sm.authorize().unwrap();
    assert_eq!(*sm.state(), SessionState::Authorized);

    sm.start_charging().unwrap();
    assert_eq!(*sm.state(), SessionState::Charging);

    sm.suspend().unwrap();
    assert_eq!(*sm.state(), SessionState::Suspended);

    sm.resume().unwrap();
    assert_eq!(*sm.state(), SessionState::Charging);

    sm.finish().unwrap();
    assert_eq!(*sm.state(), SessionState::Finishing);

    sm.complete().unwrap();
    assert_eq!(*sm.state(), SessionState::Completed);

    assert!(sm.start_charging().is_err());
}

#[test]
fn test_fault_lifecycle() {
    let mut sm = SessionStateMachine::new();
    sm.start_authorization().unwrap();
    sm.authorize().unwrap();
    sm.start_charging().unwrap();
    sm.fault().unwrap();
    assert_eq!(*sm.state(), SessionState::Faulted);

    assert!(sm.complete().is_err());
}

#[test]
fn session_refused_step_keeps_state_and_names_it() {
    let mut sm = SessionStateMachine::new();
    match sm.start_charging() {
        Err(CoreError::InvalidState(msg)) => {
            assert_eq!(msg, "Cannot transition from Initializing to Charging");
        }
        Ok(()) => panic!("a fresh session cannot start charging"),
    }
    assert_eq!(*sm.state(), SessionState::Initializing);
}

#[test]
fn session_terminal_states_have_no_exit() {
    let terminal = [SessionState::Completed, SessionState::Faulted];
    let all = [
        SessionState::Initializing,
        SessionState::Authorizing,
        SessionState::Authorized,
        SessionState::Charging,
        SessionState::Suspended,
        SessionState::Finishing,
        SessionState::Completed,
        SessionState::Faulted,
    ];
    for t in terminal.iter() {
        assert!(t.is_terminal());
    }
    // A completed machine refuses every step.
    let mut sm = SessionStateMachine::new();
    sm.start_authorization().unwrap();
    sm.authorize().unwrap();
    sm.start_charging().unwrap();
    sm.finish().unwrap();
    sm.complete().unwrap();
    for s in all.iter() {
        assert!(!sm.can_transition(s));
    }
}

#[test]
fn session_no_self_step() {
    let mut sm = SessionStateMachine::new();
    assert!(!sm.can_transition(&SessionState::Initializing));
    assert!(sm.transition(SessionState::Initializing).is_err());
}

#[test]
fn station_life() {
    let mut sm = StationStateMachine::new();
    assert_eq!(*sm.state(), StationState::Offline);
    sm.boot().unwrap();
    assert_eq!(*sm.state(), StationState::Booted);
    sm.enable().unwrap();
    assert_eq!(*sm.state(), StationState::Enabled);
    sm.updating().unwrap();
    assert_eq!(*sm.state(), StationState::Updating);
    assert!(sm.maintenance().is_err());
    assert_eq!(*sm.state(), StationState::Updating);
    sm.boot().unwrap();
    assert_eq!(*sm.state(), StationState::Booted);
}

#[test]
fn station_offline_only_boots_or_maintains() {
    let mut sm = StationStateMachine::new();
    assert!(sm.can_transition(&StationState::Booted));
    assert!(sm.can_transition(&StationState::Maintenance));
    assert!(!sm.can_transition(&StationState::Enabled));
    assert!(sm.enable().is_err());
    sm.boot().unwrap();
    assert!(!sm.can_transition(&StationState::Offline));
}

#[test]
fn connector_fault_and_reset() {
    let mut sm = ConnectorStateMachine::new();
    assert_eq!(*sm.state(), ConnectorState::Available);
    sm.prepare().unwrap();
    assert_eq!(*sm.state(), ConnectorState::Preparing);
    sm.start_charging().unwrap();
    assert_eq!(*sm.state(), ConnectorState::Charging);
    sm.fault().unwrap();
    assert_eq!(*sm.state(), ConnectorState::Faulted);
    assert!(sm.start_charging().is_err());
    sm.reset().unwrap();
    assert_eq!(*sm.state(), ConnectorState::Available);
}

#[test]
fn connector_suspend_resume() {
    let mut sm = ConnectorStateMachine::new();
    sm.prepare().unwrap();
    sm.start_charging().unwrap();
    sm.suspend().unwrap();
    assert_eq!(*sm.state(), ConnectorState::Suspended);
    sm.resume().unwrap();
    assert_eq!(*sm.state(), ConnectorState::Charging);
}
