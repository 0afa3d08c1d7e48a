//! The decisions of a scenario run and of a simulation run. The caller
//! performs what a decision asks for (printing, sleeping, drawing a random
//! number) and reports back.
use vstd::prelude::*;
use crate::core_types::Duration;
use crate::ocpp::json::JsonValue;
use crate::simulator::{SimulationStatus, SimulatorError};
use crate::simulator::config::SimulatorConfig;
use crate::simulator::faults::{ActiveFault, FaultInjection, FaultInjector, FaultType};
use crate::simulator::scenario::{ScenarioAction, ScenarioStep};

verus! {

/// What the caller does around one scenario step.
#[derive(Debug, Clone, Copy, PartialEq, Eq, Structural)]
pub struct StepPlan {
    /// Seconds to wait as part of the step (a `WaitFor` waits one second).
    pub wait_seconds: u64,
    /// Seconds to pause after the step, when it has a delay.
    pub delay_seconds: Option<i64>,
}

/// The plan of a step.
pub open spec fn plan_of(step: ScenarioStep) -> StepPlan {
    StepPlan {
        wait_seconds: if step.action is WaitFor { 1 } else { 0 },
        delay_seconds: match step.delay {
            Some(d) => Some(d.whole_seconds() as i64),
            None => None,
        },
    }
}

/// `after` is `before` with one more active fault of type `t` lasting `d`.
pub open spec fn one_more_fault(before: Seq<ActiveFault>, after: Seq<ActiveFault>, t: FaultType, d: Duration) -> bool {
    &&& after.len() == before.len() + 1
    &&& after.drop_last() == before
    &&& after.last().fault_type == t
    &&& after.last().duration == d
    &&& after.last().active
}

/// Runs the steps of a scenario and injects its faults.
#[derive(Debug)]
pub struct ScenarioRunner {
    fault_injector: FaultInjector,
    status: SimulationStatus,
}

impl ScenarioRunner {
    /// The faults injected so far.
    pub closed spec fn injected(&self) -> Seq<ActiveFault> {
        self.fault_injector.faults()
    }

    /// The run's status.
    pub closed spec fn current(&self) -> SimulationStatus {
        self.status
    }

    /// A runner that has not started, with no faults.
    pub fn new() -> (r: Self)
        ensures
            r.current() == SimulationStatus::Pending,
            r.injected().len() == 0,
    {
        ScenarioRunner { fault_injector: FaultInjector::new(), status: SimulationStatus::Pending }
    }

    /// The run's status.
    pub fn status(&self) -> (s: SimulationStatus)
        ensures
            s == self.current(),
    {
        self.status
    }

    /// The faults injected so far.
    pub fn injector(&self) -> (f: &FaultInjector)
        ensures
            f.faults() == self.injected(),
    {
        &self.fault_injector
    }

    /// Marks the run as running.
    pub fn begin(&mut self)
        ensures
            final(self).current() == SimulationStatus::Running,
            final(self).injected() == old(self).injected(),
    {
        self.status = SimulationStatus::Running;
    }

    /// Carries out a step: an `InjectFault` step injects its fault for five
    /// seconds with probability 1.0; every step says how long to wait and to
    /// pause afterwards.
    pub fn execute_step(&mut self, step: &ScenarioStep) -> (plan: StepPlan)
        ensures
            plan == plan_of(*step),
            final(self).current() == old(self).current(),
            (step.action matches ScenarioAction::InjectFault { fault }
                ==> one_more_fault(old(self).injected(), final(self).injected(), fault, Duration { millis: 5000 })),
            !(step.action is InjectFault) ==> final(self).injected() == old(self).injected(),
    {
        let mut wait_seconds: u64 = 0;
        match &step.action {
            ScenarioAction::InjectFault { fault } => {
                let injection = FaultInjection {
                    fault_type: *fault,
                    probability: 0x3FF0_0000_0000_0000u64,
                    duration: Duration::seconds(5),
                    condition: None,
                    parameters: JsonValue::Object(Vec::new()),
                };
                let _ = self.fault_injector.inject_fault(injection);
            },
            ScenarioAction::WaitFor { .. } => {
                wait_seconds = 1;
            },
            _ => {},
        }
        let delay_seconds = match &step.delay {
            Some(d) => Some(d.num_seconds()),
            None => None,
        };
        StepPlan { wait_seconds, delay_seconds }
    }

    /// Injects a scenario's fault when the random draw came out below its
    /// probability.
    pub fn inject_drawn(&mut self, fault: &crate::simulator::scenario::FaultInjection, drawn_below: bool)
        ensures
            final(self).current() == old(self).current(),
            drawn_below ==> one_more_fault(old(self).injected(), final(self).injected(), fault.fault_type, fault.duration),
            !drawn_below ==> final(self).injected() == old(self).injected(),
    {
        if drawn_below {
            let injection = FaultInjection {
                fault_type: fault.fault_type,
                probability: fault.probability,
                duration: fault.duration,
                condition: fault.condition,
                parameters: JsonValue::Object(Vec::new()),
            };
            let _ = self.fault_injector.inject_fault(injection);
        }
    }

    /// Marks the run as completed.
    pub fn finish(&mut self)
        ensures
            final(self).current() == SimulationStatus::Completed,
            final(self).injected() == old(self).injected(),
    {
        self.status = SimulationStatus::Completed;
    }
}

/// A simulation run: its configuration and status.
#[derive(Debug)]
pub struct Simulator {
    config: SimulatorConfig,
    status: SimulationStatus,
}

impl Simulator {
    /// The run's status.
    pub closed spec fn current(&self) -> SimulationStatus {
        self.status
    }

    /// The run's configuration.
    pub closed spec fn settings(&self) -> SimulatorConfig {
        self.config
    }

    /// A run that has not started.
    pub fn new(config: SimulatorConfig) -> (s: Self)
        ensures
            s.current() == SimulationStatus::Pending,
            s.settings() == config,
    {
        Simulator { config, status: SimulationStatus::Pending }
    }

    /// The run's configuration.
    pub fn config(&self) -> (c: &SimulatorConfig)
        ensures
            *c == self.settings(),
    {
        &self.config
    }

    /// The run's status.
    pub fn status(&self) -> (s: SimulationStatus)
        ensures
            s == self.current(),
    {
        self.status
    }

    /// Marks the run as running.
    pub fn start(&mut self) -> (r: Result<(), SimulatorError>)
        ensures
            r is Ok,
            final(self).current() == SimulationStatus::Running,
            final(self).settings() == old(self).settings(),
    {
        self.status = SimulationStatus::Running;
        Ok(())
    }

    /// Marks the run as completed.
    pub fn stop(&mut self) -> (r: Result<(), SimulatorError>)
        ensures
            r is Ok,
            final(self).current() == SimulationStatus::Completed,
            final(self).settings() == old(self).settings(),
    {
        self.status = SimulationStatus::Completed;
        Ok(())
    }

    /// Marks the run as paused.
    pub fn pause(&mut self) -> (r: Result<(), SimulatorError>)
        ensures
            r is Ok,
            final(self).current() == SimulationStatus::Paused,
            final(self).settings() == old(self).settings(),
    {
        self.status = SimulationStatus::Paused;
        Ok(())
    }

    /// Marks the run as running again.
    pub fn resume(&mut self) -> (r: Result<(), SimulatorError>)
        ensures
            r is Ok,
            final(self).current() == SimulationStatus::Running,
            final(self).settings() == old(self).settings(),
    {
        self.status = SimulationStatus::Running;
        Ok(())
    }

    /// Decides whether the run loop goes on after `elapsed_millis`: it stops
    /// when the run is no longer running, and stops the run when it has
    /// outlived its longest duration.
    pub fn keep_running(&mut self, elapsed_millis: i64) -> (go_on: bool)
        ensures
            final(self).settings() == old(self).settings(),
            go_on <==> (old(self).current() == SimulationStatus::Running
                && !(old(self).settings().max_duration matches Some(d) && elapsed_millis > d.millis)),
            go_on ==> final(self).current() == old(self).current(),
            !go_on && old(self).current() == SimulationStatus::Running ==> final(self).current() == SimulationStatus::Completed,
            old(self).current() != SimulationStatus::Running ==> final(self).current() == old(self).current(),
    {
        if self.status != SimulationStatus::Running {
            return false;
        }
        match self.config.max_duration {
            Some(d) => {
                if elapsed_millis > d.millis {
                    self.status = SimulationStatus::Completed;
                    return false;
                }
            },
            None => {},
        }
        true
    }
}

} // verus!
