use chargemesh::observability::correlation::{
    Correlation, CorrelationSource, CorrelationSummary, CorrelationTarget, CorrelationTracer, RelationshipType,
};
use chargemesh::observability::logging::StructuredLogger;
use chargemesh::observability::metrics::{first_metric_value, record_in_series, Metric, MetricType};
use chargemesh::observability::platform::{shutdown_plan, startup_plan, Component, PlatformConfig};
use chargemesh::observability::widgets::{
    CorrelationsWidget, DashboardData, ErrorsWidget, OverviewWidget, ProtocolWidget, StationsWidget,
};
use chargemesh::observability::ObservabilityLevel;
use chargemesh::ocpp::json::JsonValue;

fn corr(id: &str, s: CorrelationSource, sid: &str, t: CorrelationTarget, tid: &str) -> Correlation {
    Correlation {
        id: id.to_string(),
        source_type: s,
        target_type: t,
        source_id: sid.to_string(),
        target_id: tid.to_string(),
        relationship: RelationshipType::RelatedTo,
        confidence: 0.5f64.to_bits(),
        evidence: Vec::new(),
        timestamp: 0,
    }
}

fn tracer_with_chain() -> CorrelationTracer {
    let mut t = CorrelationTracer::new();
    t.add_correlation(corr("c1", CorrelationSource::Device, "CP-1", CorrelationTarget::Session, "S-1")).unwrap();
    t.add_correlation(corr("c2", CorrelationSource::Session, "S-1", CorrelationTarget::Error, "E-1")).unwrap();
    t.add_correlation(corr("c3", CorrelationSource::Error, "E-1", CorrelationTarget::RootCause, "R-1")).unwrap();
    t.add_correlation(corr("c4", CorrelationSource::Session, "S-1", CorrelationTarget::Error, "E-2")).unwrap();
    t
}

#[test]
fn correlations_build_a_keyed_graph() {
    let t = tracer_with_chain();
    assert_eq!(t.get_correlations().len(), 4);
    let g = t.get_graph();
    let keys: Vec<&str> = g.nodes.iter().map(|n| n.id.as_str()).collect();
    assert_eq!(keys, vec!["Device:CP-1", "Session:S-1", "Error:E-1", "RootCause:R-1", "Error:E-2"]);
    assert_eq!(g.edges.len(), 4);
    assert_eq!(g.edges[1].source, "Session:S-1");
    assert_eq!(g.edges[1].target, "Error:E-1");
    assert_eq!(g.nodes[2].label, "Error");
}

#[test]
fn summary_lists_links_by_kind() {
    let t = tracer_with_chain();
    let s: CorrelationSummary = t.get_summary();
    assert_eq!(s.device_to_session, vec!["c1".to_string()]);
    assert_eq!(s.session_to_error, vec!["c2".to_string(), "c4".to_string()]);
    assert_eq!(s.error_to_root_cause, vec!["c3".to_string()]);
    assert_eq!(s.total_correlations, 4);
}

#[test]
fn trace_path_walks_depth_first_to_the_target_kind() {
    let t = tracer_with_chain();
    let path = t.trace_path("CP-1", CorrelationTarget::Error).unwrap();
    let targets: Vec<&str> = path.iter().map(|c| c.target_id.as_str()).collect();
    assert_eq!(targets, vec!["Error:E-1", "Error:E-2"]);
    for c in path.iter() {
        assert_eq!(c.source_id, "Session:S-1");
        assert_eq!(c.source_type, CorrelationSource::Error);
        assert_eq!(c.target_type, CorrelationTarget::Error);
        assert_eq!(c.id.len(), 36);
        assert!(c.evidence.is_empty());
    }
    let roots = t.trace_path("CP-1", CorrelationTarget::RootCause).unwrap();
    assert_eq!(roots.len(), 1);
    assert_eq!(roots[0].target_id, "RootCause:R-1");
    assert_eq!(roots[0].source_id, "Error:E-1");
}

#[test]
fn trace_path_from_unknown_start_is_empty() {
    let t = tracer_with_chain();
    assert!(t.trace_path("nowhere", CorrelationTarget::Error).unwrap().is_empty());
    // A start deeper in the chain only reaches what lies below it.
    let from_error = t.trace_path("E-1", CorrelationTarget::Error).unwrap();
    assert!(from_error.is_empty());
    let root = t.trace_path("E-1", CorrelationTarget::RootCause).unwrap();
    assert_eq!(root.len(), 1);
}

#[test]
fn trace_path_survives_cycles() {
    let mut t = CorrelationTracer::new();
    t.add_correlation(corr("a", CorrelationSource::Session, "S", CorrelationTarget::Transaction, "T")).unwrap();
    t.add_correlation(corr("b", CorrelationSource::Transaction, "T", CorrelationTarget::Session, "S")).unwrap();
    let p = t.trace_path("S", CorrelationTarget::Session).unwrap();
    assert_eq!(p.len(), 1);
    assert_eq!(p[0].target_id, "Session:S");
}

#[test]
fn logger_keeps_entries_and_finds_errors() {
    let mut log = StructuredLogger::new();
    log.log(ObservabilityLevel::Info, "booted", "station", Vec::new()).unwrap();
    log.log(ObservabilityLevel::Error, "meter lost", "station", Vec::new()).unwrap();
    log.log(ObservabilityLevel::Critical, "fire", "station", Vec::new()).unwrap();
    log.log(ObservabilityLevel::Warning, "hot", "station", Vec::new()).unwrap();
    assert_eq!(log.collect().len(), 4);
    let errors: Vec<&str> = log.get_errors().iter().map(|e| e.message.as_str()).collect();
    assert_eq!(errors, vec!["meter lost", "fire"]);
    assert_eq!(log.collect()[3].component, "station");
    assert_eq!(log.collect()[3].level, ObservabilityLevel::Warning);
}

fn metric(name: &str, value: f64) -> Metric {
    Metric {
        name: name.to_string(),
        value: value.to_bits(),
        timestamp: 0,
        labels: Vec::new(),
        metric_type: MetricType::Gauge,
    }
}

#[test]
fn series_are_trimmed_past_their_limit() {
    let mut series: Vec<Metric> = Vec::new();
    for i in 0..10000 {
        record_in_series(&mut series, metric("m", i as f64));
    }
    assert_eq!(series.len(), 10000);
    record_in_series(&mut series, metric("m", 10000.0));
    assert_eq!(series.len(), 9001);
    assert_eq!(f64::from_bits(series[0].value), 1000.0);
    assert_eq!(f64::from_bits(series[9000].value), 10000.0);
}

#[test]
fn first_metric_value_finds_the_first_of_a_name() {
    let ms = vec![metric("a", 1.0), metric("b", 2.0), metric("b", 3.0)];
    assert_eq!(first_metric_value(&ms, "b").map(f64::from_bits), Some(2.0));
    assert_eq!(first_metric_value(&ms, "c"), None);
}

fn empty_data() -> DashboardData {
    DashboardData {
        metrics: Vec::new(),
        logs: Vec::new(),
        trace_count: 0,
        event_count: 0,
        correlations: CorrelationSummary {
            device_to_session: Vec::new(),
            session_to_error: Vec::new(),
            error_to_root_cause: Vec::new(),
            total_correlations: 0,
        },
        timestamp: 0,
    }
}

#[test]
fn widgets_have_their_titles() {
    assert_eq!(OverviewWidget::new().name(), "Overview");
    assert_eq!(StationsWidget::new().name(), "Stations");
    assert_eq!(ErrorsWidget::new().name(), "Errors");
    assert_eq!(ProtocolWidget::new().name(), "Protocols");
    assert_eq!(CorrelationsWidget::new().name(), "Correlations");
}

#[test]
fn overview_renders_counts() {
    let mut data = empty_data();
    data.metrics.push(metric("x", 1.0));
    data.trace_count = 12;
    data.correlations.total_correlations = 3;
    let text = OverviewWidget::new().render(&data);
    let lines: Vec<&str> = text.lines().collect();
    assert_eq!(lines[1], "║  📊 OVERVIEW");
    assert_eq!(lines[3], "║    Metrics:        1  Logs:        0  Events:        0  ║");
    assert_eq!(lines[4], "║    Traces:        12  Correlations:      3              ║");
}

#[test]
fn stations_and_errors_render_counts() {
    let text = StationsWidget::new().render_counts(10, 8, 3, 1);
    let lines: Vec<&str> = text.lines().collect();
    assert_eq!(lines[3], "║    Total:       10  Online:        8  Charging:        3  ║");
    assert_eq!(lines[4], "║    Errors:       1                                          ║");
    let text = ErrorsWidget::new().render_counts(5, 0, 123456, 2);
    let lines: Vec<&str> = text.lines().collect();
    assert_eq!(lines[3], "║    Protocol:       5  ISO 15118:      0                 ║");
    assert_eq!(lines[4], "║    Network:    123456  Hardware:       2                 ║");
}

#[test]
fn protocol_widget_counts_log_fields() {
    let mut log = StructuredLogger::new();
    let field = |p: &str| vec![("protocol".to_string(), JsonValue::Str(p.to_string()))];
    log.log(ObservabilityLevel::Info, "a", "x", field("ocpp1.6")).unwrap();
    log.log(ObservabilityLevel::Info, "b", "x", field("ocpp1.6")).unwrap();
    log.log(ObservabilityLevel::Info, "c", "x", field("iso15118")).unwrap();
    log.log(ObservabilityLevel::Info, "d", "x", Vec::new()).unwrap();
    let counts = ProtocolWidget::count(log.collect());
    assert_eq!(counts.ocpp16, 2);
    assert_eq!(counts.ocpp201, 0);
    assert_eq!(counts.ocpp21, 0);
    assert_eq!(counts.iso15118, 1);
}

#[test]
fn correlations_widget_renders_summary() {
    let t = tracer_with_chain();
    let mut data = empty_data();
    data.correlations = t.get_summary();
    let text = CorrelationsWidget::new().render(&data);
    let lines: Vec<&str> = text.lines().collect();
    assert_eq!(lines[3], "║    Device → Session:     1                                ║");
    assert_eq!(lines[4], "║    Session → Error:      2                                ║");
    assert_eq!(lines[6], "║    Total:               4                                ║");
}

#[test]
fn platform_plans() {
    let config = PlatformConfig::default_config();
    let plan = startup_plan(&config);
    assert_eq!(plan.first(), Some(&Component::Metrics));
    assert_eq!(shutdown_plan().len(), 6);
}

#[test]
fn levels_are_ordered_by_severity() {
    assert!(ObservabilityLevel::Critical.is_error());
    assert!(ObservabilityLevel::Error.is_error());
    assert!(!ObservabilityLevel::Warning.is_error());
    assert_eq!(ObservabilityLevel::Debug.severity(), 0);
    assert_eq!(ObservabilityLevel::Critical.severity(), 4);
}

#[test]
fn logger_drops_the_oldest_entries_past_its_capacity() {
    let mut log = StructuredLogger::new();
    for i in 0..100_001u32 {
        let msg = if i == 0 { "first".to_string() } else if i == 1 { "second".to_string() } else { "x".to_string() };
        log.log(ObservabilityLevel::Debug, &msg, "c", Vec::new()).unwrap();
    }
    assert_eq!(log.collect().len(), 100_000);
    assert_eq!(log.collect()[0].message, "second");
    log.log(ObservabilityLevel::Info, "last", "c", Vec::new()).unwrap();
    assert_eq!(log.collect().len(), 100_000);
    assert_eq!(log.collect()[99_999].message, "last");
    assert_eq!(log.collect()[99_999].id.len(), 36);
}

#[test]
fn trace_path_goes_deep_before_wide() {
    let mut t = CorrelationTracer::new();
    t.add_correlation(corr("ab", CorrelationSource::Device, "A", CorrelationTarget::Session, "B")).unwrap();
    t.add_correlation(corr("ac", CorrelationSource::Device, "A", CorrelationTarget::Error, "C")).unwrap();
    t.add_correlation(corr("bd", CorrelationSource::Session, "B", CorrelationTarget::Error, "D")).unwrap();
    let p = t.trace_path("A", CorrelationTarget::Error).unwrap();
    let targets: Vec<&str> = p.iter().map(|c| c.target_id.as_str()).collect();
    assert_eq!(targets, vec!["Error:D", "Error:C"]);
}
