//! Dashboard widgets and the data they show.
use vstd::prelude::*;
use vstd::string::*;
use crate::core_types::Timestamp;
use crate::observability::correlation::CorrelationSummary;
use crate::observability::logging::LogEntry;
use crate::observability::metrics::Metric;
use crate::ocpp::json::{JsonValue, find_member, first_member};
use crate::text::{decimal, pad_number, right_aligned, str_eq};

verus! {

/// What the dashboard shows.
#[derive(Debug)]
pub struct DashboardData {
    /// Metrics.
    pub metrics: Vec<Metric>,
    /// Log entries.
    pub logs: Vec<LogEntry>,
    /// Number of traces.
    pub trace_count: usize,
    /// Number of events.
    pub event_count: usize,
    /// Correlation summary.
    pub correlations: CorrelationSummary,
    /// When the data was gathered.
    pub timestamp: Timestamp,
}

/// The overview widget.
#[derive(Debug)]
pub struct OverviewWidget {
    title: String,
}

/// The stations widget.
#[derive(Debug)]
pub struct StationsWidget {
    title: String,
}

/// The errors widget.
#[derive(Debug)]
pub struct ErrorsWidget {
    title: String,
}

/// The protocols widget.
#[derive(Debug)]
pub struct ProtocolWidget {
    title: String,
}

/// The correlations widget.
#[derive(Debug)]
pub struct CorrelationsWidget {
    title: String,
}

/// A number right-aligned in a field.
pub open spec fn col(n: nat, width: nat) -> Seq<char> {
    right_aligned(decimal(n), width)
}

impl OverviewWidget {
    /// The widget's title.
    pub closed spec fn title_text(&self) -> Seq<char> {
        self.title@
    }

    /// The widget titled "Overview".
    pub fn new() -> (w: Self)
        ensures
            w.title_text() == "Overview"@,
    {
        OverviewWidget { title: "Overview".to_owned() }
    }

    /// The title.
    pub fn name(&self) -> (s: &str)
        ensures
            s@ == self.title_text(),
    {
        self.title.as_str()
    }

    /// The text the widget shows.
    pub open spec fn text_of(data: DashboardData) -> Seq<char> {
        "║\n"@ + "║  📊 OVERVIEW\n"@ + "║\n"@
            + "║    Metrics: "@ + col(data.metrics@.len(), 8) + "  Logs: "@ + col(data.logs@.len(), 8)
            + "  Events: "@ + col(data.event_count as nat, 8) + "  ║\n"@
            + "║    Traces:  "@ + col(data.trace_count as nat, 8) + "  Correlations: "@
            + col(data.correlations.total_correlations as nat, 6) + "              ║\n"@
            + "║\n"@
    }

    /// Shows the number of metrics, logs, events, traces and correlations.
    pub fn render(&self, data: &DashboardData) -> (s: String)
        ensures
            s@ == Self::text_of(*data),
    {
        let mut out = "║\n".to_owned();
        out.append("║  📊 OVERVIEW\n");
        out.append("║\n");
        out.append("║    Metrics: ");
        out.append(pad_number(data.metrics.len() as u64, 8).as_str());
        out.append("  Logs: ");
        out.append(pad_number(data.logs.len() as u64, 8).as_str());
        out.append("  Events: ");
        out.append(pad_number(data.event_count as u64, 8).as_str());
        out.append("  ║\n");
        out.append("║    Traces:  ");
        out.append(pad_number(data.trace_count as u64, 8).as_str());
        out.append("  Correlations: ");
        out.append(pad_number(data.correlations.total_correlations as u64, 6).as_str());
        out.append("              ║\n");
        out.append("║\n");
        assert(out@ =~= Self::text_of(*data));
        out
    }
}

impl StationsWidget {
    /// The widget's title.
    pub closed spec fn title_text(&self) -> Seq<char> {
        self.title@
    }

    /// The widget titled "Stations".
    pub fn new() -> (w: Self)
        ensures
            w.title_text() == "Stations"@,
    {
        StationsWidget { title: "Stations".to_owned() }
    }

    /// The title.
    pub fn name(&self) -> (s: &str)
        ensures
            s@ == self.title_text(),
    {
        self.title.as_str()
    }

    /// The text the widget shows for the given counts.
    pub open spec fn text_of(total: u32, online: u32, charging: u32, errors: u32) -> Seq<char> {
        "║\n"@ + "║  🏭 STATIONS\n"@ + "║\n"@
            + "║    Total: "@ + col(total as nat, 8) + "  Online: "@ + col(online as nat, 8)
            + "  Charging: "@ + col(charging as nat, 8) + "  ║\n"@
            + "║    Errors: "@ + col(errors as nat, 7) + "                                          ║\n"@
            + "║\n"@
    }

    /// Shows the station counts (total, online, charging) and the error count.
    pub fn render_counts(&self, total: u32, online: u32, charging: u32, errors: u32) -> (s: String)
        ensures
            s@ == Self::text_of(total, online, charging, errors),
    {
        let mut out = "║\n".to_owned();
        out.append("║  🏭 STATIONS\n");
        out.append("║\n");
        out.append("║    Total: ");
        out.append(pad_number(total as u64, 8).as_str());
        out.append("  Online: ");
        out.append(pad_number(online as u64, 8).as_str());
        out.append("  Charging: ");
        out.append(pad_number(charging as u64, 8).as_str());
        out.append("  ║\n");
        out.append("║    Errors: ");
        out.append(pad_number(errors as u64, 7).as_str());
        out.append("                                          ║\n");
        out.append("║\n");
        assert(out@ =~= Self::text_of(total, online, charging, errors));
        out
    }
}

impl ErrorsWidget {
    /// The widget's title.
    pub closed spec fn title_text(&self) -> Seq<char> {
        self.title@
    }

    /// The widget titled "Errors".
    pub fn new() -> (w: Self)
        ensures
            w.title_text() == "Errors"@,
    {
        ErrorsWidget { title: "Errors".to_owned() }
    }

    /// The title.
    pub fn name(&self) -> (s: &str)
        ensures
            s@ == self.title_text(),
    {
        self.title.as_str()
    }

    /// The text the widget shows for the given error counts.
    pub open spec fn text_of(protocol: u32, iso15118: u32, network: u32, hardware: u32) -> Seq<char> {
        "║\n"@ + "║  ❌ ERRORS\n"@ + "║\n"@
            + "║    Protocol:   "@ + col(protocol as nat, 5) + "  ISO 15118:  "@ + col(iso15118 as nat, 5)
            + "                 ║\n"@
            + "║    Network:    "@ + col(network as nat, 5) + "  Hardware:   "@ + col(hardware as nat, 5)
            + "                 ║\n"@
            + "║\n"@
    }

    /// Shows the protocol, ISO 15118, network and hardware error counts.
    pub fn render_counts(&self, protocol: u32, iso15118: u32, network: u32, hardware: u32) -> (s: String)
        ensures
            s@ == Self::text_of(protocol, iso15118, network, hardware),
    {
        let mut out = "║\n".to_owned();
        out.append("║  ❌ ERRORS\n");
        out.append("║\n");
        out.append("║    Protocol:   ");
        out.append(pad_number(protocol as u64, 5).as_str());
        out.append("  ISO 15118:  ");
        out.append(pad_number(iso15118 as u64, 5).as_str());
        out.append("                 ║\n");
        out.append("║    Network:    ");
        out.append(pad_number(network as u64, 5).as_str());
        out.append("  Hardware:   ");
        out.append(pad_number(hardware as u64, 5).as_str());
        out.append("                 ║\n");
        out.append("║\n");
        assert(out@ =~= Self::text_of(protocol, iso15118, network, hardware));
        out
    }
}

/// The protocol a log entry names in its "protocol" field, when that field
/// is a string.
pub open spec fn protocol_of(e: LogEntry) -> Option<Seq<char>> {
    match first_member(e.fields@, "protocol"@) {
        Some(i) => match e.fields@[i].1 {
            JsonValue::Str(s) => Some(s@),
            _ => None,
        },
        None => None,
    }
}

/// Number of log entries naming protocol `p`.
pub open spec fn protocol_count(logs: Seq<LogEntry>, p: Seq<char>) -> nat
    decreases logs.len(),
{
    if logs.len() == 0 {
        0
    } else {
        protocol_count(logs.drop_last(), p) + if protocol_of(logs.last()) == Some(p) { 1nat } else { 0nat }
    }
}

/// Counts of log entries by protocol.
#[derive(Debug, Clone, Copy, PartialEq, Eq, Structural)]
pub struct ProtocolCounts {
    /// OCPP 1.6.
    pub ocpp16: u64,
    /// OCPP 2.0.1.
    pub ocpp201: u64,
    /// OCPP 2.1.
    pub ocpp21: u64,
    /// ISO 15118.
    pub iso15118: u64,
}

/// The protocol field of a log entry.
fn entry_protocol(e: &LogEntry) -> (r: Option<&str>)
    ensures
        match r {
            Some(s) => protocol_of(*e) == Some(s@),
            None => protocol_of(*e) is None,
        },
{
    match find_member(&e.fields, "protocol") {
        Some(i) => e.fields[i].1.as_str(),
        None => None,
    }
}

impl ProtocolWidget {
    /// The widget's title.
    pub closed spec fn title_text(&self) -> Seq<char> {
        self.title@
    }

    /// The widget titled "Protocols".
    pub fn new() -> (w: Self)
        ensures
            w.title_text() == "Protocols"@,
    {
        ProtocolWidget { title: "Protocols".to_owned() }
    }

    /// The title.
    pub fn name(&self) -> (s: &str)
        ensures
            s@ == self.title_text(),
    {
        self.title.as_str()
    }

    /// Counts the log entries naming "ocpp1.6", "ocpp2.0.1", "ocpp2.1" and
    /// "iso15118" in their "protocol" field.
    pub fn count(logs: &Vec<LogEntry>) -> (c: ProtocolCounts)
        requires
            logs@.len() <= u64::MAX,
        ensures
            c.ocpp16 == protocol_count(logs@, "ocpp1.6"@),
            c.ocpp201 == protocol_count(logs@, "ocpp2.0.1"@),
            c.ocpp21 == protocol_count(logs@, "ocpp2.1"@),
            c.iso15118 == protocol_count(logs@, "iso15118"@),
    {
        let mut c = ProtocolCounts { ocpp16: 0, ocpp201: 0, ocpp21: 0, iso15118: 0 };
        let mut i: usize = 0;
        while i < logs.len()
            invariant
                i <= logs.len(),
                logs@.len() <= u64::MAX,
                c.ocpp16 == protocol_count(logs@.take(i as int), "ocpp1.6"@),
                c.ocpp201 == protocol_count(logs@.take(i as int), "ocpp2.0.1"@),
                c.ocpp21 == protocol_count(logs@.take(i as int), "ocpp2.1"@),
                c.iso15118 == protocol_count(logs@.take(i as int), "iso15118"@),
                c.ocpp16 <= i && c.ocpp201 <= i && c.ocpp21 <= i && c.iso15118 <= i,
            decreases logs.len() - i,
        {
            assert(logs@.take(i + 1).drop_last() =~= logs@.take(i as int));
            assert(logs@.take(i + 1).last() == logs@[i as int]);
            match entry_protocol(&logs[i]) {
                Some(p) => {
                    proof {
                        reveal_strlit("ocpp1.6");
                        reveal_strlit("ocpp2.0.1");
                        reveal_strlit("ocpp2.1");
                        reveal_strlit("iso15118");
                        assert("ocpp1.6"@.len() == 7 && "ocpp2.0.1"@.len() == 9);
                        assert("ocpp2.1"@.len() == 7 && "iso15118"@.len() == 8);
                        assert("ocpp1.6"@[4] == '1' && "ocpp2.1"@[4] == '2');
                        assert("ocpp1.6"@ != "ocpp2.1"@);
                    }
                    if str_eq(p, "ocpp1.6") {
                        c.ocpp16 = c.ocpp16 + 1;
                    } else if str_eq(p, "ocpp2.0.1") {
                        c.ocpp201 = c.ocpp201 + 1;
                    } else if str_eq(p, "ocpp2.1") {
                        c.ocpp21 = c.ocpp21 + 1;
                    } else if str_eq(p, "iso15118") {
                        c.iso15118 = c.iso15118 + 1;
                    }
                },
                None => {},
            }
            i = i + 1;
        }
        assert(logs@.take(logs.len() as int) =~= logs@);
        c
    }

    /// The text the widget shows for given counts.
    pub open spec fn text_of(c: ProtocolCounts) -> Seq<char> {
        "║\n"@ + "║  📡 PROTOCOLS\n"@ + "║\n"@
            + "║    OCPP 1.6:  "@ + col(c.ocpp16 as nat, 5) + "  OCPP 2.0.1: "@ + col(c.ocpp201 as nat, 5)
            + "                  ║\n"@
            + "║    OCPP 2.1:  "@ + col(c.ocpp21 as nat, 5) + "  ISO 15118:  "@ + col(c.iso15118 as nat, 5)
            + "                  ║\n"@
            + "║\n"@
    }

    /// Shows how many log entries name each protocol.
    pub fn render(&self, data: &DashboardData) -> (s: String)
        requires
            data.logs@.len() <= u64::MAX,
        ensures
            s@ == Self::text_of(ProtocolCounts {
                ocpp16: protocol_count(data.logs@, "ocpp1.6"@) as u64,
                ocpp201: protocol_count(data.logs@, "ocpp2.0.1"@) as u64,
                ocpp21: protocol_count(data.logs@, "ocpp2.1"@) as u64,
                iso15118: protocol_count(data.logs@, "iso15118"@) as u64,
            }),
    {
        let c = Self::count(&data.logs);
        let mut out = "║\n".to_owned();
        out.append("║  📡 PROTOCOLS\n");
        out.append("║\n");
        out.append("║    OCPP 1.6:  ");
        out.append(pad_number(c.ocpp16, 5).as_str());
        out.append("  OCPP 2.0.1: ");
        out.append(pad_number(c.ocpp201, 5).as_str());
        out.append("                  ║\n");
        out.append("║    OCPP 2.1:  ");
        out.append(pad_number(c.ocpp21, 5).as_str());
        out.append("  ISO 15118:  ");
        out.append(pad_number(c.iso15118, 5).as_str());
        out.append("                  ║\n");
        out.append("║\n");
        assert(out@ =~= Self::text_of(c));
        out
    }
}

impl CorrelationsWidget {
    /// The widget's title.
    pub closed spec fn title_text(&self) -> Seq<char> {
        self.title@
    }

    /// The widget titled "Correlations".
    pub fn new() -> (w: Self)
        ensures
            w.title_text() == "Correlations"@,
    {
        CorrelationsWidget { title: "Correlations".to_owned() }
    }

    /// The title.
    pub fn name(&self) -> (s: &str)
        ensures
            s@ == self.title_text(),
    {
        self.title.as_str()
    }

    /// The text the widget shows.
    pub open spec fn text_of(data: DashboardData) -> Seq<char> {
        "║\n"@ + "║  🔗 CORRELATIONS\n"@ + "║\n"@
            + "║    Device → Session:   "@ + col(data.correlations.device_to_session@.len(), 3)
            + "                                ║\n"@
            + "║    Session → Error:    "@ + col(data.correlations.session_to_error@.len(), 3)
            + "                                ║\n"@
            + "║    Error → Root Cause: "@ + col(data.correlations.error_to_root_cause@.len(), 3)
            + "                                ║\n"@
            + "║    Total:             "@ + col(data.correlations.total_correlations as nat, 3)
            + "                                ║\n"@
            + "║\n"@
    }

    /// Shows the correlation summary.
    pub fn render(&self, data: &DashboardData) -> (s: String)
        ensures
            s@ == Self::text_of(*data),
    {
        let mut out = "║\n".to_owned();
        out.append("║  🔗 CORRELATIONS\n");
        out.append("║\n");
        out.append("║    Device → Session:   ");
        out.append(pad_number(data.correlations.device_to_session.len() as u64, 3).as_str());
        out.append("                                ║\n");
        out.append("║    Session → Error:    ");
        out.append(pad_number(data.correlations.session_to_error.len() as u64, 3).as_str());
        out.append("                                ║\n");
        out.append("║    Error → Root Cause: ");
        out.append(pad_number(data.correlations.error_to_root_cause.len() as u64, 3).as_str());
        out.append("                                ║\n");
        out.append("║    Total:             ");
        out.append(pad_number(data.correlations.total_correlations as u64, 3).as_str());
        out.append("                                ║\n");
        out.append("║\n");
        assert(out@ =~= Self::text_of(*data));
        out
    }
}

} // verus!
