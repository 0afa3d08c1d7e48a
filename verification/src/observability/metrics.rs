//! Metrics and the bounded series that hold them.
use vstd::prelude::*;
use crate::core_types::{F64Bits, Timestamp};
use crate::text::str_eq;

verus! {

/// Kind of metric.
#[derive(Debug, Clone, Copy, PartialEq, Eq, Structural)]
pub enum MetricType {
    /// Only grows.
    Counter,
    /// Goes up and down.
    Gauge,
    /// Distribution.
    Histogram,
    /// Quantiles.
    Summary,
}

/// One recorded value of a metric.
#[derive(Debug)]
pub struct Metric {
    /// Name.
    pub name: String,
    /// Value, as the bit pattern of an `f64`.
    pub value: F64Bits,
    /// When it was recorded.
    pub timestamp: Timestamp,
    /// Labels.
    pub labels: Vec<(String, String)>,
    /// Kind.
    pub metric_type: MetricType,
}

/// Most values a series holds before it is trimmed.
pub open spec fn series_limit() -> nat {
    10000
}

/// How many of the oldest values a trim drops.
pub open spec fn series_trim() -> nat {
    1000
}

/// A series after appending `m`: when it grows past the limit its oldest
/// values are dropped.
pub open spec fn appended(series: Seq<Metric>, m: Metric) -> Seq<Metric> {
    let all = series.push(m);
    if all.len() > series_limit() {
        all.skip(series_trim() as int)
    } else {
        all
    }
}

/// Appends a value to a series, dropping its 1000 oldest values when it
/// grows past 10000.
pub fn record_in_series(series: &mut Vec<Metric>, metric: Metric)
    ensures
        final(series)@ == appended(old(series)@, metric),
{
    let ghost before = series@;
    let ghost m = metric;
    series.push(metric);
    if series.len() > 10000 {
        let rest = series.split_off(1000);
        *series = rest;
    }
    proof {
        let all = before.push(m);
        if all.len() > series_limit() {
            assert(series@ =~= all.skip(series_trim() as int));
        } else {
            assert(series@ =~= all);
        }
    }
}

/// A series that starts within the limit stays within it.
pub proof fn law_series_stays_bounded(series: Seq<Metric>, m: Metric)
    requires
        series.len() <= series_limit(),
    ensures
        appended(series, m).len() <= series_limit(),
        appended(series, m).last() == m,
{
}

/// The value of the first metric named `name`.
pub fn first_metric_value(metrics: &Vec<Metric>, name: &str) -> (r: Option<F64Bits>)
    ensures
        match r {
            Some(v) => exists|i: int| 0 <= i < metrics@.len() && metrics@[i].name@ == name@
                && metrics@[i].value == v
                && forall|j: int| 0 <= j < i ==> (#[trigger] metrics@[j]).name@ != name@,
            None => forall|j: int| 0 <= j < metrics@.len() ==> (#[trigger] metrics@[j]).name@ != name@,
        },
{
    let mut i: usize = 0;
    while i < metrics.len()
        invariant
            i <= metrics.len(),
            forall|j: int| 0 <= j < i ==> (#[trigger] metrics@[j]).name@ != name@,
        decreases metrics.len() - i,
    {
        if str_eq(metrics[i].name.as_str(), name) {
            return Some(metrics[i].value);
        }
        i = i + 1;
    }
    None
}

/// Figures about the whole system; CPU use is the bit pattern of an `f64`.
#[derive(Debug, Clone, Copy, PartialEq, Eq, Structural)]
pub struct SystemMetrics {
    /// Uptime (s).
    pub uptime_seconds: u64,
    /// Memory in use (bytes).
    pub memory_usage_bytes: u64,
    /// CPU use (%).
    pub cpu_usage_percent: F64Bits,
    /// Sessions in progress.
    pub active_sessions: u32,
    /// Stations.
    pub total_stations: u32,
    /// Stations online.
    pub online_stations: u32,
    /// Stations charging.
    pub charging_stations: u32,
    /// Errors.
    pub error_count: u32,
    /// Protocol errors.
    pub protocol_errors: u32,
    /// ISO 15118 errors.
    pub iso15118_errors: u32,
    /// Network errors.
    pub network_errors: u32,
    /// Hardware errors.
    pub hardware_errors: u32,
}

} // verus!
