//! The observability platform's configuration and start-up plan.
use vstd::prelude::*;

verus! {

/// Configuration of the platform.
#[derive(Debug, Clone, Copy, PartialEq, Eq, Structural)]
pub struct PlatformConfig {
    /// Metrics on.
    pub metrics_enabled: bool,
    /// Logging on.
    pub logging_enabled: bool,
    /// Tracing on.
    pub tracing_enabled: bool,
    /// Events on.
    pub events_enabled: bool,
    /// Dashboard on.
    pub dashboard_enabled: bool,
    /// Correlations on.
    pub correlations_enabled: bool,
    /// Days to keep data.
    pub retention_days: u32,
    /// Most metrics.
    pub max_metrics: usize,
    /// Most log entries.
    pub max_logs: usize,
    /// Most traces.
    pub max_traces: usize,
}

impl PlatformConfig {
    /// Everything on, 30 days of retention, 10000 metrics, 100000 log
    /// entries and 10000 traces.
    pub fn default_config() -> (c: Self)
        ensures
            c == (PlatformConfig {
                metrics_enabled: true,
                logging_enabled: true,
                tracing_enabled: true,
                events_enabled: true,
                dashboard_enabled: true,
                correlations_enabled: true,
                retention_days: 30,
                max_metrics: 10000,
                max_logs: 100000,
                max_traces: 10000,
            }),
    {
        PlatformConfig {
            metrics_enabled: true,
            logging_enabled: true,
            tracing_enabled: true,
            events_enabled: true,
            dashboard_enabled: true,
            correlations_enabled: true,
            retention_days: 30,
            max_metrics: 10000,
            max_logs: 100000,
            max_traces: 10000,
        }
    }
}

/// Status of the platform.
#[derive(Debug, Clone, Copy, PartialEq, Eq, Structural)]
pub enum PlatformStatus {
    /// Stopped.
    Stopped,
    /// Starting.
    Starting,
    /// Running.
    Running,
    /// Stopping.
    Stopping,
    /// Failed.
    Failed,
}

/// A component of the platform.
#[derive(Debug, Clone, Copy, PartialEq, Eq, Structural)]
pub enum Component {
    /// Metric registry.
    Metrics,
    /// Logger.
    Logging,
    /// Tracer.
    Tracing,
    /// Event bus.
    Events,
    /// Dashboard.
    Dashboard,
    /// Correlation tracer.
    Correlations,
}

/// The components to start, in start order.
pub open spec fn plan_of(c: PlatformConfig) -> Seq<Component> {
    (if c.metrics_enabled { seq![Component::Metrics] } else { Seq::empty() })
        + (if c.logging_enabled { seq![Component::Logging] } else { Seq::empty() })
        + (if c.tracing_enabled { seq![Component::Tracing] } else { Seq::empty() })
        + (if c.events_enabled { seq![Component::Events] } else { Seq::empty() })
        + (if c.dashboard_enabled { seq![Component::Dashboard] } else { Seq::empty() })
        + (if c.correlations_enabled { seq![Component::Correlations] } else { Seq::empty() })
}

/// The enabled components in the order the platform starts them: metrics,
/// logging, tracing, events, dashboard, correlations.
pub fn startup_plan(config: &PlatformConfig) -> (v: Vec<Component>)
    ensures
        v@ == plan_of(*config),
{
    let mut v: Vec<Component> = Vec::new();
    if config.metrics_enabled {
        v.push(Component::Metrics);
    }
    if config.logging_enabled {
        v.push(Component::Logging);
    }
    if config.tracing_enabled {
        v.push(Component::Tracing);
    }
    if config.events_enabled {
        v.push(Component::Events);
    }
    if config.dashboard_enabled {
        v.push(Component::Dashboard);
    }
    if config.correlations_enabled {
        v.push(Component::Correlations);
    }
    assert(v@ =~= plan_of(*config));
    v
}

/// The components stopped, in stop order: all of them, whether enabled or not.
pub fn shutdown_plan() -> (v: Vec<Component>)
    ensures
        v@ == seq![Component::Metrics, Component::Logging, Component::Tracing, Component::Events,
            Component::Dashboard, Component::Correlations],
{
    let mut v: Vec<Component> = Vec::new();
    v.push(Component::Metrics);
    v.push(Component::Logging);
    v.push(Component::Tracing);
    v.push(Component::Events);
    v.push(Component::Dashboard);
    v.push(Component::Correlations);
    assert(v@ =~= seq![Component::Metrics, Component::Logging, Component::Tracing, Component::Events,
        Component::Dashboard, Component::Correlations]);
    v
}

} // verus!
