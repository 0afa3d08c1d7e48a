use chargemesh::core_types::Duration;
use chargemesh::ocpp::json::JsonValue;
use chargemesh::simulator::config::{EvSimConfig, SimulatorConfig};
use chargemesh::simulator::ev_sim::EvSimulator;
use chargemesh::simulator::faults::{FaultInjection, FaultInjector, FaultType};
use chargemesh::simulator::runner::{ScenarioRunner, Simulator, StepPlan};
use chargemesh::simulator::scenario::{ScenarioAction, Scenarios};
use chargemesh::simulator::{SimulationStatus, SimulatorError};

fn injection(t: FaultType, secs: i64) -> FaultInjection {
    FaultInjection {
        fault_type: t,
        probability: 1.0f64.to_bits(),
        duration: Duration::seconds(secs),
        condition: None,
        parameters: JsonValue::Null,
    }
}

#[test]
fn injected_faults_are_active_until_cleared() {
    let mut fi = FaultInjector::new();
    assert!(fi.get_active_faults().is_empty());
    fi.inject_fault(injection(FaultType::NetworkDisconnect, 60)).unwrap();
    fi.inject_fault(injection(FaultType::OverCurrent, 60)).unwrap();
    fi.inject_fault(injection(FaultType::NetworkDisconnect, 60)).unwrap();
    assert!(fi.is_fault_active(&FaultType::NetworkDisconnect));
    assert_eq!(
        fi.get_active_faults(),
        vec![FaultType::NetworkDisconnect, FaultType::OverCurrent, FaultType::NetworkDisconnect]
    );
    fi.clear_fault(&FaultType::NetworkDisconnect);
    assert!(!fi.is_fault_active(&FaultType::NetworkDisconnect));
    assert_eq!(fi.get_active_faults(), vec![FaultType::OverCurrent]);
    fi.clear_all_faults();
    assert!(fi.get_active_faults().is_empty());
}

#[test]
fn faults_expire_after_their_duration() {
    let mut fi = FaultInjector::new();
    fi.inject_fault(injection(FaultType::HighTemperature, 5)).unwrap();
    fi.inject_fault(injection(FaultType::GridOutage, 3600)).unwrap();
    let later = chargemesh::core_types::now() + 10_000;
    fi.update_at(later);
    assert_eq!(fi.get_active_faults(), vec![FaultType::GridOutage]);
    assert!(!fi.is_fault_active(&FaultType::HighTemperature));
}

fn ev_config() -> EvSimConfig {
    EvSimConfig {
        battery_capacity: 75000,
        initial_soc: 20,
        target_soc: 80,
        supports_plug_and_charge: true,
        supports_v2g: false,
        max_power: 50000,
    }
}

#[test]
fn ev_needs_connection_and_authorization_to_charge() {
    let mut ev = EvSimulator::new(ev_config()).unwrap();
    assert!(ev.iso15118.is_some());
    assert_eq!(ev.state.soc, 20);
    match ev.start_charging() {
        Err(SimulatorError::Simulation(m)) => assert_eq!(m, "EV not connected"),
        other => panic!("unexpected {:?}", other),
    }
    ev.connect().unwrap();
    match ev.start_charging() {
        Err(SimulatorError::Simulation(m)) => assert_eq!(m, "EV not authorized"),
        other => panic!("unexpected {:?}", other),
    }
    assert_eq!(ev.authorize("BAD-1").unwrap(), false);
    assert_eq!(ev.authorize("RFID-42").unwrap(), true);
    ev.start_charging().unwrap();
    assert!(ev.state.charging);
    match ev.start_charging() {
        Err(SimulatorError::Simulation(m)) => assert_eq!(m, "EV already charging"),
        other => panic!("unexpected {:?}", other),
    }
    ev.stop_charging().unwrap();
    ev.disconnect().unwrap();
    assert!(!ev.state.connected && !ev.state.authorized && !ev.state.charging);
}

#[test]
fn charge_step_caps_power_at_22_kw() {
    let ev = EvSimulator::new(ev_config()).unwrap();
    assert_eq!(ev.charge_step(), (22000, 6));
    let mut small = ev_config();
    small.max_power = 7200;
    let ev2 = EvSimulator::new(small).unwrap();
    assert_eq!(ev2.charge_step(), (7200, 2));
}

#[test]
fn normal_session_scenario() {
    let s = Scenarios::normal_session();
    assert_eq!(s.name, "Normal Charging Session");
    assert_eq!(s.steps.len(), 6);
    assert!(matches!(s.steps[0].action, ScenarioAction::ConnectEV));
    match &s.steps[1].action {
        ScenarioAction::Authorize { token } => assert_eq!(token, "RFID-123"),
        _ => panic!("expected Authorize"),
    }
    assert_eq!(s.steps[1].delay, Some(Duration { millis: 1000 }));
    assert!(s.faults.is_empty());
}

#[test]
fn scenario_runner_injects_step_faults() {
    let mut runner = ScenarioRunner::new();
    assert_eq!(runner.status(), SimulationStatus::Pending);
    runner.begin();
    assert_eq!(runner.status(), SimulationStatus::Running);
    let s = Scenarios::network_failure();
    let mut injected = 0;
    for step in s.steps.iter() {
        let plan = runner.execute_step(step);
        if let ScenarioAction::WaitFor { .. } = step.action {
            assert_eq!(plan.wait_seconds, 1);
        } else {
            assert_eq!(plan.wait_seconds, 0);
        }
        assert_eq!(plan.delay_seconds, step.delay.map(|d| d.millis / 1000));
        if let ScenarioAction::InjectFault { .. } = step.action {
            injected += 1;
        }
    }
    assert!(injected > 0);
    assert_eq!(runner.injector().get_active_faults().len(), injected);
    assert_eq!(runner.injector().get_active_faults()[0], FaultType::NetworkDisconnect);
    runner.finish();
    assert_eq!(runner.status(), SimulationStatus::Completed);
}

#[test]
fn scenario_runner_draws_decide_fault_injection() {
    let mut runner = ScenarioRunner::new();
    let s = Scenarios::network_failure();
    let before = runner.injector().get_active_faults().len();
    for f in s.faults.iter() {
        runner.inject_drawn(f, false);
    }
    assert_eq!(runner.injector().get_active_faults().len(), before);
    for f in s.faults.iter() {
        runner.inject_drawn(f, true);
    }
    assert_eq!(runner.injector().get_active_faults().len(), before + s.faults.len());
}

#[test]
fn step_plan_rounds_delays_towards_zero() {
    assert_eq!(Duration { millis: 1999 }.num_seconds(), 1);
    assert_eq!(Duration { millis: -1999 }.num_seconds(), -1);
    assert_eq!(Duration { millis: i64::MIN }.num_seconds(), i64::MIN / 1000);
    let p = StepPlan { wait_seconds: 0, delay_seconds: None };
    assert_eq!(p, StepPlan { wait_seconds: 0, delay_seconds: None });
}

#[test]
fn simulator_status_follows_commands() {
    let mut config = SimulatorConfig::default_config();
    config.max_duration = Some(Duration::seconds(10));
    let mut sim = Simulator::new(config);
    assert_eq!(sim.status(), SimulationStatus::Pending);
    assert!(!sim.keep_running(0));
    sim.start().unwrap();
    assert_eq!(sim.status(), SimulationStatus::Running);
    assert!(sim.keep_running(5_000));
    sim.pause().unwrap();
    assert_eq!(sim.status(), SimulationStatus::Paused);
    assert!(!sim.keep_running(5_000));
    assert_eq!(sim.status(), SimulationStatus::Paused);
    sim.resume().unwrap();
    assert!(!sim.keep_running(10_001));
    assert_eq!(sim.status(), SimulationStatus::Completed);
}

#[test]
fn default_config_wants_no_ocpi() {
    let mut config = SimulatorConfig::default_config();
    assert_eq!(config.protocol, "ocpp-1.6");
    assert!(!config.wants_ocpi());
    config.protocol = "ocpi-2.2".to_string();
    assert!(config.wants_ocpi());
}

#[test]
fn connect_changes_only_the_connection() {
    let mut ev = EvSimulator::new(ev_config()).unwrap();
    ev.record_charge_step(7000, 12, 21, false);
    let before = ev.state.clone();
    ev.connect().unwrap();
    assert!(ev.state.connected);
    assert_eq!(ev.state.authorized, before.authorized);
    assert_eq!(ev.state.charging, before.charging);
    assert_eq!(ev.state.v2g_active, before.v2g_active);
    assert_eq!(ev.state.current_power, 7000);
    assert_eq!(ev.state.total_energy_delivered, 12);
    assert_eq!(ev.state.soc, 21);
    assert_eq!(ev.state.error, before.error);
    assert_eq!(ev.config, ev_config());
}
