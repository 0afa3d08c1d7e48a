//! Predefined simulation scenarios.
use vstd::prelude::*;
use crate::core_types::{Duration, F64Bits, f64_one_bits, f64_zero_bits};
use crate::ocpp::json::JsonValue;
use crate::simulator::faults::FaultType;

verus! {

/// A scripted simulation.
#[derive(Debug)]
pub struct Scenario {
    /// Name.
    pub name: String,
    /// What the scenario exercises.
    pub description: String,
    /// Steps, in order.
    pub steps: Vec<ScenarioStep>,
    /// Faults injected after the steps.
    pub faults: Vec<FaultInjection>,
    /// Conditions the run should meet.
    pub conditions: ScenarioConditions,
}

/// One step of a scenario.
#[derive(Debug)]
pub struct ScenarioStep {
    /// What to do.
    pub action: ScenarioAction,
    /// Pause after the step.
    pub delay: Option<Duration>,
    /// How often to repeat the step.
    pub repeat: Option<u32>,
}

/// Action of a scenario step.
#[derive(Debug)]
pub enum ScenarioAction {
    /// Plug the EV in.
    ConnectEV,
    /// Start charging.
    StartCharging,
    /// Stop charging.
    StopCharging,
    /// Unplug the EV.
    DisconnectEV,
    /// Authorize with a token.
    Authorize {
        /// The token.
        token: String,
    },
    /// Apply a charging profile.
    SetProfile {
        /// Power limit in watts.
        max_power: u64,
        /// How long the profile applies.
        duration: Duration,
    },
    /// Inject a fault.
    InjectFault {
        /// The fault.
        fault: FaultType,
    },
    /// Wait until a condition holds.
    WaitFor {
        /// The condition.
        condition: Condition,
    },
    /// Write a message.
    Log {
        /// The message.
        message: String,
    },
    /// A custom action.
    Custom {
        /// Its name.
        name: String,
        /// Its data.
        data: JsonValue,
    },
}

/// Conditions a scenario run should meet.
#[derive(Debug, Clone, Copy, PartialEq, Eq, Structural)]
pub struct ScenarioConditions {
    /// Lowest state of charge (%).
    pub min_soc: Option<u8>,
    /// Highest state of charge (%).
    pub max_soc: Option<u8>,
    /// Shortest run.
    pub min_duration: Option<Duration>,
    /// Longest run.
    pub max_duration: Option<Duration>,
    /// Least energy (Wh).
    pub min_energy: Option<u64>,
    /// Most energy (Wh).
    pub max_energy: Option<u64>,
    /// Expected error rate, as the bit pattern of an `f64`.
    pub error_rate: Option<F64Bits>,
}

/// A condition a scenario can wait for.
#[derive(Debug, Clone, Copy, PartialEq, Eq, Structural)]
pub enum Condition {
    /// Charging is active.
    ChargingActive,
    /// Charging stopped.
    ChargingStopped,
    /// The target state of charge is reached.
    TargetSocReached,
    /// The battery is full.
    BatteryFull,
    /// The network is back.
    NetworkReconnected,
    /// The ISO 15118 handshake is complete.
    Iso15118HandshakeComplete,
    /// Energy flows to the grid.
    V2GActive,
    /// Authorization is complete.
    AuthorizationComplete,
    /// The fault is cleared.
    FaultCleared,
}

/// A fault a scenario injects.
#[derive(Debug, Clone, Copy, PartialEq, Eq, Structural)]
pub struct FaultInjection {
    /// The fault.
    pub fault_type: FaultType,
    /// Probability of injection, as the bit pattern of an `f64`.
    pub probability: F64Bits,
    /// How long the fault lasts.
    pub duration: Duration,
    /// Condition under which it is injected.
    pub condition: Option<Condition>,
}

fn step(action: ScenarioAction, delay: Option<Duration>) -> (s: ScenarioStep)
    ensures
        s.action == action,
        s.delay == delay,
        s.repeat is None,
{
    ScenarioStep { action, delay, repeat: None }
}

/// The predefined scenarios.
pub struct Scenarios;

impl Scenarios {
    /// The "Normal Charging Session" scenario: standard ev charging session with no faults.
    pub fn normal_session() -> (s: Scenario)
        ensures
            s.name@ == "Normal Charging Session"@,
            s.description@ == "Standard EV charging session with no faults"@,
            s.steps@.len() == 6,
            s.steps@[0].action == ScenarioAction::ConnectEV,
            s.steps@[0].delay is None,
            s.steps@[0].repeat is None,
            s.steps@[1].action is Authorize && s.steps@[1].action->token@ == "RFID-123"@,
            s.steps@[1].delay == (Some(Duration { millis: 1000 })),
            s.steps@[1].repeat is None,
            s.steps@[2].action == ScenarioAction::StartCharging,
            s.steps@[2].delay == (Some(Duration { millis: 2000 })),
            s.steps@[2].repeat is None,
            s.steps@[3].action == (ScenarioAction::WaitFor { condition: Condition::TargetSocReached }),
            s.steps@[3].delay is None,
            s.steps@[3].repeat is None,
            s.steps@[4].action == ScenarioAction::StopCharging,
            s.steps@[4].delay is None,
            s.steps@[4].repeat is None,
            s.steps@[5].action == ScenarioAction::DisconnectEV,
            s.steps@[5].delay == (Some(Duration { millis: 1000 })),
            s.steps@[5].repeat is None,
            s.faults@.len() == 0,
            s.conditions == (ScenarioConditions { min_soc: Some(20), max_soc: Some(80), min_duration: Some(Duration { millis: 600000 }), max_duration: Some(Duration { millis: 3600000 }), min_energy: Some(5000), max_energy: Some(50000), error_rate: Some(f64_zero_bits()) }),
    {
        let mut steps: Vec<ScenarioStep> = Vec::new();
        steps.push(step(ScenarioAction::ConnectEV, None));
        steps.push(step(ScenarioAction::Authorize { token: "RFID-123".to_owned() }, Some(Duration::seconds(1))));
        steps.push(step(ScenarioAction::StartCharging, Some(Duration::seconds(2))));
        steps.push(step(ScenarioAction::WaitFor { condition: Condition::TargetSocReached }, None));
        steps.push(step(ScenarioAction::StopCharging, None));
        steps.push(step(ScenarioAction::DisconnectEV, Some(Duration::seconds(1))));
        let mut faults: Vec<FaultInjection> = Vec::new();

        Scenario {
            name: "Normal Charging Session".to_owned(),
            description: "Standard EV charging session with no faults".to_owned(),
            steps,
            faults,
            conditions: ScenarioConditions { min_soc: Some(20), max_soc: Some(80), min_duration: Some(Duration::minutes(10)), max_duration: Some(Duration::minutes(60)), min_energy: Some(5000), max_energy: Some(50000), error_rate: Some(0u64) },
        }
    }

    /// The "Network Failure" scenario: simulate network disconnection during charging.
    pub fn network_failure() -> (s: Scenario)
        ensures
            s.name@ == "Network Failure"@,
            s.description@ == "Simulate network disconnection during charging"@,
            s.steps@.len() == 6,
            s.steps@[0].action == ScenarioAction::ConnectEV,
            s.steps@[0].delay is None,
            s.steps@[0].repeat is None,
            s.steps@[1].action is Authorize && s.steps@[1].action->token@ == "RFID-123"@,
            s.steps@[1].delay == (Some(Duration { millis: 1000 })),
            s.steps@[1].repeat is None,
            s.steps@[2].action == ScenarioAction::StartCharging,
            s.steps@[2].delay == (Some(Duration { millis: 2000 })),
            s.steps@[2].repeat is None,
            s.steps@[3].action == (ScenarioAction::InjectFault { fault: FaultType::NetworkDisconnect }),
            s.steps@[3].delay == (Some(Duration { millis: 5000 })),
            s.steps@[3].repeat is None,
            s.steps@[4].action == (ScenarioAction::WaitFor { condition: Condition::NetworkReconnected }),
            s.steps@[4].delay == (Some(Duration { millis: 10000 })),
            s.steps@[4].repeat is None,
            s.steps@[5].action == ScenarioAction::StopCharging,
            s.steps@[5].delay == (Some(Duration { millis: 2000 })),
            s.steps@[5].repeat is None,
            s.faults@.len() == 1,
            s.faults@[0] == (FaultInjection { fault_type: FaultType::NetworkDisconnect, probability: f64_one_bits(), duration: Duration { millis: 10000 }, condition: Some(Condition::ChargingActive) }),
            s.conditions == (ScenarioConditions { min_soc: Some(20), max_soc: Some(80), min_duration: None, max_duration: Some(Duration { millis: 1800000 }), min_energy: None, max_energy: None, error_rate: Some(f64_zero_bits()) }),
    {
        let mut steps: Vec<ScenarioStep> = Vec::new();
        steps.push(step(ScenarioAction::ConnectEV, None));
        steps.push(step(ScenarioAction::Authorize { token: "RFID-123".to_owned() }, Some(Duration::seconds(1))));
        steps.push(step(ScenarioAction::StartCharging, Some(Duration::seconds(2))));
        steps.push(step(ScenarioAction::InjectFault { fault: FaultType::NetworkDisconnect }, Some(Duration::seconds(5))));
        steps.push(step(ScenarioAction::WaitFor { condition: Condition::NetworkReconnected }, Some(Duration::seconds(10))));
        steps.push(step(ScenarioAction::StopCharging, Some(Duration::seconds(2))));
        let mut faults: Vec<FaultInjection> = Vec::new();
        faults.push(FaultInjection { fault_type: FaultType::NetworkDisconnect, probability: 0x3FF0_0000_0000_0000u64, duration: Duration::seconds(10), condition: Some(Condition::ChargingActive) });
        Scenario {
            name: "Network Failure".to_owned(),
            description: "Simulate network disconnection during charging".to_owned(),
            steps,
            faults,
            conditions: ScenarioConditions { min_soc: Some(20), max_soc: Some(80), min_duration: None, max_duration: Some(Duration::minutes(30)), min_energy: None, max_energy: None, error_rate: Some(0u64) },
        }
    }

    /// The "Authorization Failure" scenario: simulate authorization failure.
    pub fn auth_failure() -> (s: Scenario)
        ensures
            s.name@ == "Authorization Failure"@,
            s.description@ == "Simulate authorization failure"@,
            s.steps@.len() == 5,
            s.steps@[0].action == ScenarioAction::ConnectEV,
            s.steps@[0].delay is None,
            s.steps@[0].repeat is None,
            s.steps@[1].action is Authorize && s.steps@[1].action->token@ == "INVALID-TOKEN"@,
            s.steps@[1].delay == (Some(Duration { millis: 1000 })),
            s.steps@[1].repeat is None,
            s.steps@[2].action is Log && s.steps@[2].action->message@ == "Authorization failed - expected"@,
            s.steps@[2].delay == (Some(Duration { millis: 1000 })),
            s.steps@[2].repeat is None,
            s.steps@[3].action is Authorize && s.steps@[3].action->token@ == "RFID-123"@,
            s.steps@[3].delay == (Some(Duration { millis: 2000 })),
            s.steps@[3].repeat is None,
            s.steps@[4].action == ScenarioAction::StartCharging,
            s.steps@[4].delay == (Some(Duration { millis: 1000 })),
            s.steps@[4].repeat is None,
            s.faults@.len() == 0,
            s.conditions == (ScenarioConditions { min_soc: Some(20), max_soc: Some(80), min_duration: None, max_duration: None, min_energy: None, max_energy: None, error_rate: Some(f64_zero_bits()) }),
    {
        let mut steps: Vec<ScenarioStep> = Vec::new();
        steps.push(step(ScenarioAction::ConnectEV, None));
        steps.push(step(ScenarioAction::Authorize { token: "INVALID-TOKEN".to_owned() }, Some(Duration::seconds(1))));
        steps.push(step(ScenarioAction::Log { message: "Authorization failed - expected".to_owned() }, Some(Duration::seconds(1))));
        steps.push(step(ScenarioAction::Authorize { token: "RFID-123".to_owned() }, Some(Duration::seconds(2))));
        steps.push(step(ScenarioAction::StartCharging, Some(Duration::seconds(1))));
        let mut faults: Vec<FaultInjection> = Vec::new();

        Scenario {
            name: "Authorization Failure".to_owned(),
            description: "Simulate authorization failure".to_owned(),
            steps,
            faults,
            conditions: ScenarioConditions { min_soc: Some(20), max_soc: Some(80), min_duration: None, max_duration: None, min_energy: None, max_energy: None, error_rate: Some(0u64) },
        }
    }

    /// The "Plug & Charge" scenario: iso 15118 plug & charge authentication.
    pub fn plug_and_charge() -> (s: Scenario)
        ensures
            s.name@ == "Plug & Charge"@,
            s.description@ == "ISO 15118 Plug & Charge authentication"@,
            s.steps@.len() == 5,
            s.steps@[0].action == ScenarioAction::ConnectEV,
            s.steps@[0].delay is None,
            s.steps@[0].repeat is None,
            s.steps@[1].action == (ScenarioAction::WaitFor { condition: Condition::Iso15118HandshakeComplete }),
            s.steps@[1].delay == (Some(Duration { millis: 3000 })),
            s.steps@[1].repeat is None,
            s.steps@[2].action == ScenarioAction::StartCharging,
            s.steps@[2].delay == (Some(Duration { millis: 1000 })),
            s.steps@[2].repeat is None,
            s.steps@[3].action == (ScenarioAction::WaitFor { condition: Condition::TargetSocReached }),
            s.steps@[3].delay is None,
            s.steps@[3].repeat is None,
            s.steps@[4].action == ScenarioAction::StopCharging,
            s.steps@[4].delay is None,
            s.steps@[4].repeat is None,
            s.faults@.len() == 0,
            s.conditions == (ScenarioConditions { min_soc: Some(20), max_soc: Some(80), min_duration: Some(Duration { millis: 600000 }), max_duration: Some(Duration { millis: 3600000 }), min_energy: Some(5000), max_energy: Some(50000), error_rate: Some(f64_zero_bits()) }),
    {
        let mut steps: Vec<ScenarioStep> = Vec::new();
        steps.push(step(ScenarioAction::ConnectEV, None));
        steps.push(step(ScenarioAction::WaitFor { condition: Condition::Iso15118HandshakeComplete }, Some(Duration::seconds(3))));
        steps.push(step(ScenarioAction::StartCharging, Some(Duration::seconds(1))));
        steps.push(step(ScenarioAction::WaitFor { condition: Condition::TargetSocReached }, None));
        steps.push(step(ScenarioAction::StopCharging, None));
        let mut faults: Vec<FaultInjection> = Vec::new();

        Scenario {
            name: "Plug & Charge".to_owned(),
            description: "ISO 15118 Plug & Charge authentication".to_owned(),
            steps,
            faults,
            conditions: ScenarioConditions { min_soc: Some(20), max_soc: Some(80), min_duration: Some(Duration::minutes(10)), max_duration: Some(Duration::minutes(60)), min_energy: Some(5000), max_energy: Some(50000), error_rate: Some(0u64) },
        }
    }

    /// The "V2G (Vehicle-to-Grid)" scenario: bidirectional charging and grid feed-in.
    pub fn v2g() -> (s: Scenario)
        ensures
            s.name@ == "V2G (Vehicle-to-Grid)"@,
            s.description@ == "Bidirectional charging and grid feed-in"@,
            s.steps@.len() == 7,
            s.steps@[0].action == ScenarioAction::ConnectEV,
            s.steps@[0].delay is None,
            s.steps@[0].repeat is None,
            s.steps@[1].action is Authorize && s.steps@[1].action->token@ == "V2G-TOKEN"@,
            s.steps@[1].delay == (Some(Duration { millis: 1000 })),
            s.steps@[1].repeat is None,
            s.steps@[2].action == ScenarioAction::StartCharging,
            s.steps@[2].delay == (Some(Duration { millis: 2000 })),
            s.steps@[2].repeat is None,
            s.steps@[3].action == (ScenarioAction::WaitFor { condition: Condition::BatteryFull }),
            s.steps@[3].delay is None,
            s.steps@[3].repeat is None,
            s.steps@[4].action == (ScenarioAction::InjectFault { fault: FaultType::GridHighDemand }),
            s.steps@[4].delay == (Some(Duration { millis: 5000 })),
            s.steps@[4].repeat is None,
            s.steps@[5].action == (ScenarioAction::WaitFor { condition: Condition::V2GActive }),
            s.steps@[5].delay == (Some(Duration { millis: 5000 })),
            s.steps@[5].repeat is None,
            s.steps@[6].action == ScenarioAction::StopCharging,
            s.steps@[6].delay == (Some(Duration { millis: 2000 })),
            s.steps@[6].repeat is None,
            s.faults@.len() == 1,
            s.faults@[0] == (FaultInjection { fault_type: FaultType::GridHighDemand, probability: f64_one_bits(), duration: Duration { millis: 30000 }, condition: Some(Condition::BatteryFull) }),
            s.conditions == (ScenarioConditions { min_soc: Some(80), max_soc: Some(100), min_duration: None, max_duration: Some(Duration { millis: 7200000 }), min_energy: None, max_energy: None, error_rate: Some(f64_zero_bits()) }),
    {
        let mut steps: Vec<ScenarioStep> = Vec::new();
        steps.push(step(ScenarioAction::ConnectEV, None));
        steps.push(step(ScenarioAction::Authorize { token: "V2G-TOKEN".to_owned() }, Some(Duration::seconds(1))));
        steps.push(step(ScenarioAction::StartCharging, Some(Duration::seconds(2))));
        steps.push(step(ScenarioAction::WaitFor { condition: Condition::BatteryFull }, None));
        steps.push(step(ScenarioAction::InjectFault { fault: FaultType::GridHighDemand }, Some(Duration::seconds(5))));
        steps.push(step(ScenarioAction::WaitFor { condition: Condition::V2GActive }, Some(Duration::seconds(5))));
        steps.push(step(ScenarioAction::StopCharging, Some(Duration::seconds(2))));
        let mut faults: Vec<FaultInjection> = Vec::new();
        faults.push(FaultInjection { fault_type: FaultType::GridHighDemand, probability: 0x3FF0_0000_0000_0000u64, duration: Duration::seconds(30), condition: Some(Condition::BatteryFull) });
        Scenario {
            name: "V2G (Vehicle-to-Grid)".to_owned(),
            description: "Bidirectional charging and grid feed-in".to_owned(),
            steps,
            faults,
            conditions: ScenarioConditions { min_soc: Some(80), max_soc: Some(100), min_duration: None, max_duration: Some(Duration::hours(2)), min_energy: None, max_energy: None, error_rate: Some(0u64) },
        }
    }

    /// The "Certificate Failure" scenario: iso 15118 certificate validation failure.
    pub fn certificate_failure() -> (s: Scenario)
        ensures
            s.name@ == "Certificate Failure"@,
            s.description@ == "ISO 15118 certificate validation failure"@,
            s.steps@.len() == 4,
            s.steps@[0].action == ScenarioAction::ConnectEV,
            s.steps@[0].delay is None,
            s.steps@[0].repeat is None,
            s.steps@[1].action == (ScenarioAction::WaitFor { condition: Condition::Iso15118HandshakeComplete }),
            s.steps@[1].delay == (Some(Duration { millis: 3000 })),
            s.steps@[1].repeat is None,
            s.steps@[2].action == (ScenarioAction::InjectFault { fault: FaultType::CertificateFailure }),
            s.steps@[2].delay == (Some(Duration { millis: 1000 })),
            s.steps@[2].repeat is None,
            s.steps@[3].action is Log && s.steps@[3].action->message@ == "Certificate validation failed - as expected"@,
            s.steps@[3].delay == (Some(Duration { millis: 1000 })),
            s.steps@[3].repeat is None,
            s.faults@.len() == 1,
            s.faults@[0] == (FaultInjection { fault_type: FaultType::CertificateFailure, probability: f64_one_bits(), duration: Duration { millis: 5000 }, condition: Some(Condition::Iso15118HandshakeComplete) }),
            s.conditions == (ScenarioConditions { min_soc: None, max_soc: None, min_duration: None, max_duration: None, min_energy: None, max_energy: None, error_rate: Some(f64_one_bits()) }),
    {
        let mut steps: Vec<ScenarioStep> = Vec::new();
        steps.push(step(ScenarioAction::ConnectEV, None));
        steps.push(step(ScenarioAction::WaitFor { condition: Condition::Iso15118HandshakeComplete }, Some(Duration::seconds(3))));
        steps.push(step(ScenarioAction::InjectFault { fault: FaultType::CertificateFailure }, Some(Duration::seconds(1))));
        steps.push(step(ScenarioAction::Log { message: "Certificate validation failed - as expected".to_owned() }, Some(Duration::seconds(1))));
        let mut faults: Vec<FaultInjection> = Vec::new();
        faults.push(FaultInjection { fault_type: FaultType::CertificateFailure, probability: 0x3FF0_0000_0000_0000u64, duration: Duration::seconds(5), condition: Some(Condition::Iso15118HandshakeComplete) });
        Scenario {
            name: "Certificate Failure".to_owned(),
            description: "ISO 15118 certificate validation failure".to_owned(),
            steps,
            faults,
            conditions: ScenarioConditions { min_soc: None, max_soc: None, min_duration: None, max_duration: None, min_energy: None, max_energy: None, error_rate: Some(0x3FF0_0000_0000_0000u64) },
        }
    }
}

} // verus!
