//! Observability: correlations, logs, metrics, dashboard widgets and the
//! platform's life cycle.
pub mod correlation;
pub mod logging;
pub mod metrics;
pub mod widgets;
pub mod platform;
pub mod walk;
pub mod dfs;

use vstd::prelude::*;

verus! {

/// Error of the observability platform.
#[derive(Debug, Clone)]
pub enum ObservabilityError {
    /// Metric failure.
    Metric(String),
    /// Logging failure.
    Logging(String),
    /// Tracing failure.
    Tracing(String),
    /// Event bus failure.
    EventBus(String),
    /// Correlation failure.
    Correlation(String),
    /// Dashboard failure.
    Dashboard(String),
    /// Internal failure.
    Internal(String),
}

/// Severity of a log entry, from least to most severe.
#[derive(Debug, Clone, Copy, PartialEq, Eq, Structural)]
pub enum ObservabilityLevel {
    /// Debugging detail.
    Debug,
    /// Information.
    Info,
    /// Warning.
    Warning,
    /// Error.
    Error,
    /// Critical failure.
    Critical,
}

impl ObservabilityLevel {
    /// Position of the level in the order of severity.
    pub open spec fn rank(self) -> int {
        match self {
            ObservabilityLevel::Debug => 0,
            ObservabilityLevel::Info => 1,
            ObservabilityLevel::Warning => 2,
            ObservabilityLevel::Error => 3,
            ObservabilityLevel::Critical => 4,
        }
    }

    /// Position of the level in the order of severity (0 for `Debug` to 4
    /// for `Critical`).
    pub fn severity(&self) -> (r: u8)
        ensures
            r == self.rank(),
    {
        match self {
            ObservabilityLevel::Debug => 0,
            ObservabilityLevel::Info => 1,
            ObservabilityLevel::Warning => 2,
            ObservabilityLevel::Error => 3,
            ObservabilityLevel::Critical => 4,
        }
    }

    /// The level's label, with its symbol.
    pub open spec fn label_text(self) -> Seq<char> {
        match self {
            ObservabilityLevel::Debug => "🔍 DEBUG"@,
            ObservabilityLevel::Info => "ℹ️ INFO"@,
            ObservabilityLevel::Warning => "⚠️ WARNING"@,
            ObservabilityLevel::Error => "❌ ERROR"@,
            ObservabilityLevel::Critical => "🚨 CRITICAL"@,
        }
    }

    /// The level's label, with its symbol.
    pub fn label(&self) -> (s: &'static str)
        ensures
            s@ == self.label_text(),
    {
        match self {
            ObservabilityLevel::Debug => "🔍 DEBUG",
            ObservabilityLevel::Info => "ℹ️ INFO",
            ObservabilityLevel::Warning => "⚠️ WARNING",
            ObservabilityLevel::Error => "❌ ERROR",
            ObservabilityLevel::Critical => "🚨 CRITICAL",
        }
    }

    /// Whether the level is `Error` or more severe.
    pub fn is_error(&self) -> (b: bool)
        ensures
            b == (self.rank() >= ObservabilityLevel::Error.rank()),
    {
        self.severity() >= 3
    }
}

} // verus!
