//! Analysis of a captured OCPP 1.6 message timeline: the session state the
//! messages imply, the errors they carry, and how each message is classified.
use vstd::prelude::*;
use crate::core_types::Timestamp;
use crate::ocpp::MessageDirection;
use crate::ocpp::frame::{OcppMessage, ParsedMessage};
use crate::ocpp::messages::{StartTransactionRequest, StatusNotificationRequest, StopTransactionRequest};
use crate::ocpp::session::Ocpp16Session;
use crate::ocpp::types::ChargePointStatus;
use crate::text::str_eq;

verus! {

broadcast use vstd::std_specs::hash::group_hash_axioms;

/// The request a call's payload must be read as, by action.
#[derive(Debug, Clone, Copy, PartialEq, Eq, Structural)]
pub enum RequestKind {
    /// A BootNotification: no payload is needed.
    Boot,
    /// A StatusNotificationRequest.
    StatusNotification,
    /// A StartTransactionRequest.
    StartTransaction,
    /// A StopTransactionRequest.
    StopTransaction,
    /// Any other action: the payload is not read.
    Other,
}

/// What a call does to the session being reconstructed.
#[derive(Debug, Clone, PartialEq, Eq)]
pub enum TimelineEvent {
    /// The charge point booted.
    Boot,
    /// A connector reported its status.
    StatusReported {
        /// Connector.
        connector_id: u64,
        /// Status.
        status: ChargePointStatus,
    },
    /// A transaction started.
    TransactionStarted {
        /// Connector.
        connector_id: u64,
        /// Id tag.
        id_tag: String,
        /// Meter at start (Wh).
        meter_start: u64,
    },
    /// A transaction stopped.
    TransactionStopped {
        /// Transaction.
        transaction_id: u64,
    },
    /// Nothing (another action, a response, or a payload that could not be read).
    Ignored,
}

/// The spec of `request_kind`.
pub open spec fn kind_of_action(action: Seq<char>) -> RequestKind {
    if action == "BootNotification"@ {
        RequestKind::Boot
    } else if action == "StatusNotification"@ {
        RequestKind::StatusNotification
    } else if action == "StartTransaction"@ {
        RequestKind::StartTransaction
    } else if action == "StopTransaction"@ {
        RequestKind::StopTransaction
    } else {
        RequestKind::Other
    }
}

/// How the payload of a call with `action` is to be read.
pub fn request_kind(action: &str) -> (k: RequestKind)
    ensures
        k == kind_of_action(action@),
{
    if str_eq(action, "BootNotification") {
        RequestKind::Boot
    } else if str_eq(action, "StatusNotification") {
        RequestKind::StatusNotification
    } else if str_eq(action, "StartTransaction") {
        RequestKind::StartTransaction
    } else if str_eq(action, "StopTransaction") {
        RequestKind::StopTransaction
    } else {
        RequestKind::Other
    }
}

/// The event a message implies, given the requests its payload was read as
/// (`None` where it was not read, or could not be read).
pub open spec fn event_for(
    message: OcppMessage,
    status: Option<StatusNotificationRequest>,
    start: Option<StartTransactionRequest>,
    stop: Option<StopTransactionRequest>,
) -> TimelineEvent {
    match message {
        OcppMessage::Call(call) => match kind_of_action(call.action@) {
            RequestKind::Boot => TimelineEvent::Boot,
            RequestKind::StatusNotification => match status {
                Some(r) => TimelineEvent::StatusReported { connector_id: r.connector_id, status: r.status },
                None => TimelineEvent::Ignored,
            },
            RequestKind::StartTransaction => match start {
                Some(r) => TimelineEvent::TransactionStarted {
                    connector_id: r.connector_id,
                    id_tag: r.id_tag,
                    meter_start: r.meter_start,
                },
                None => TimelineEvent::Ignored,
            },
            RequestKind::StopTransaction => match stop {
                Some(r) => TimelineEvent::TransactionStopped { transaction_id: r.transaction_id },
                None => TimelineEvent::Ignored,
            },
            RequestKind::Other => TimelineEvent::Ignored,
        },
        _ => TimelineEvent::Ignored,
    }
}

/// What a message does to the session: a boot for a BootNotification call;
/// for a StatusNotification, StartTransaction or StopTransaction call, the
/// event its read request gives, or nothing when the payload was not read;
/// nothing for any other message. Only the request that the call's action
/// asks for is looked at.
pub fn event_of(
    message: &OcppMessage,
    status: Option<StatusNotificationRequest>,
    start: Option<StartTransactionRequest>,
    stop: Option<StopTransactionRequest>,
) -> (e: TimelineEvent)
    ensures
        e == event_for(*message, status, start, stop),
{
    let call = match message {
        OcppMessage::Call(call) => call,
        _ => return TimelineEvent::Ignored,
    };
    match request_kind(&call.action) {
        RequestKind::Boot => TimelineEvent::Boot,
        RequestKind::StatusNotification => match status {
            Some(r) => TimelineEvent::StatusReported { connector_id: r.connector_id, status: r.status },
            None => TimelineEvent::Ignored,
        },
        RequestKind::StartTransaction => match start {
            Some(r) => TimelineEvent::TransactionStarted {
                connector_id: r.connector_id,
                id_tag: r.id_tag,
                meter_start: r.meter_start,
            },
            None => TimelineEvent::Ignored,
        },
        RequestKind::StopTransaction => match stop {
            Some(r) => TimelineEvent::TransactionStopped { transaction_id: r.transaction_id },
            None => TimelineEvent::Ignored,
        },
        RequestKind::Other => TimelineEvent::Ignored,
    }
}

/// Identifier given to every transaction started in a timeline.
pub open spec fn timeline_transaction_id() -> u64 {
    12345
}

/// Connector statuses after a list of events.
pub open spec fn statuses_after(events: Seq<TimelineEvent>) -> Map<u64, ChargePointStatus>
    decreases events.len(),
{
    if events.len() == 0 {
        Map::empty()
    } else {
        let m = statuses_after(events.drop_last());
        match events.last() {
            TimelineEvent::StatusReported { connector_id, status } => m.insert(connector_id, status),
            _ => m,
        }
    }
}

/// Transactions open after a list of events.
pub open spec fn open_after(events: Seq<TimelineEvent>) -> Set<u64>
    decreases events.len(),
{
    if events.len() == 0 {
        Set::empty()
    } else {
        let s = open_after(events.drop_last());
        match events.last() {
            TimelineEvent::TransactionStarted { .. } => s.insert(timeline_transaction_id()),
            TimelineEvent::TransactionStopped { transaction_id } => s.remove(transaction_id),
            _ => s,
        }
    }
}

/// The connector, id tag and start meter value of the last transaction
/// start in a list of events, if there is one.
pub open spec fn last_start(events: Seq<TimelineEvent>) -> Option<(u64, Seq<char>, u64)>
    decreases events.len(),
{
    if events.len() == 0 {
        None
    } else {
        match events.last() {
            TimelineEvent::TransactionStarted { connector_id, id_tag, meter_start } =>
                Some((connector_id, id_tag@, meter_start)),
            _ => last_start(events.drop_last()),
        }
    }
}

/// Whether the open transaction of a session, if there is one, is the one
/// that the last transaction start in `events` recorded.
pub open spec fn open_transaction_recorded(session: Ocpp16Session, events: Seq<TimelineEvent>) -> bool {
    session.active_transactions@.contains_key(timeline_transaction_id()) ==> {
        &&& last_start(events) matches Some((connector_id, id_tag, meter_start))
        &&& session.active_transactions@[timeline_transaction_id()].is_new(
            timeline_transaction_id(), connector_id, id_tag, meter_start)
    }
}

/// Whether a list of events holds a boot.
pub open spec fn booted_in(events: Seq<TimelineEvent>) -> bool {
    exists|i: int| 0 <= i < events.len() && events[i] == TimelineEvent::Boot
}

/// Applies one event to the session: a boot records charge point "CP-001",
/// a status report updates the connector, a start opens transaction 12345
/// and a stop closes the given transaction.
pub fn apply_event(session: &mut Ocpp16Session, event: &TimelineEvent)
    ensures
        final(session).connector_status@ == (match *event {
            TimelineEvent::StatusReported { connector_id, status } => old(session).connector_status@.insert(connector_id, status),
            _ => old(session).connector_status@,
        }),
        final(session).active_transactions@.dom() == (match *event {
            TimelineEvent::TransactionStarted { .. } => old(session).active_transactions@.dom().insert(timeline_transaction_id()),
            TimelineEvent::TransactionStopped { transaction_id } => old(session).active_transactions@.dom().remove(transaction_id),
            _ => old(session).active_transactions@.dom(),
        }),
        *event matches TimelineEvent::TransactionStarted { connector_id, id_tag, meter_start } ==> {
            &&& final(session).active_transactions@[timeline_transaction_id()].is_new(
                timeline_transaction_id(), connector_id, id_tag@, meter_start)
            &&& forall|k: u64| k != timeline_transaction_id() && #[trigger] old(session).active_transactions@.contains_key(k)
                ==> final(session).active_transactions@[k] == old(session).active_transactions@[k]
        },
        *event matches TimelineEvent::TransactionStopped { transaction_id }
            ==> final(session).active_transactions@ == old(session).active_transactions@.remove(transaction_id),
        !(*event is TransactionStarted) && !(*event is TransactionStopped)
            ==> final(session).active_transactions@ == old(session).active_transactions@,
        *event == TimelineEvent::Boot ==> final(session).state == crate::ocpp::session::Ocpp16State::Booted
            && (final(session).charge_point_id matches Some(id) && id@ == "CP-001"@),
        *event != TimelineEvent::Boot ==> final(session).state == old(session).state
            && final(session).charge_point_id == old(session).charge_point_id,
{
    match event {
        TimelineEvent::Boot => {
            session.boot("CP-001".to_owned());
        },
        TimelineEvent::StatusReported { connector_id, status } => {
            session.update_connector_status(*connector_id, *status);
        },
        TimelineEvent::TransactionStarted { connector_id, id_tag, meter_start } => {
            session.start_transaction(12345, *connector_id, id_tag.clone(), *meter_start);
        },
        TimelineEvent::TransactionStopped { transaction_id } => {
            session.stop_transaction(*transaction_id);
            assert(session.active_transactions@.dom() =~= old(session).active_transactions@.dom().remove(*transaction_id));
        },
        TimelineEvent::Ignored => {},
    }
}

/// One line of the reconstructed timeline.
#[derive(Debug)]
pub struct TimelineRecord {
    /// When the message was parsed.
    pub timestamp: Timestamp,
    /// Direction.
    pub direction: MessageDirection,
    /// One-line description of the message.
    pub message: String,
}

/// An error found in the timeline.
#[derive(Debug)]
pub struct TimelineError {
    /// When the message was parsed.
    pub timestamp: Timestamp,
    /// Error code.
    pub error_code: String,
    /// Error description.
    pub error_description: String,
}

/// The result of a timeline analysis.
#[derive(Debug)]
pub struct TimelineAnalysis {
    /// One record per message.
    pub timeline: Vec<TimelineRecord>,
    /// The session the messages imply.
    pub session: Ocpp16Session,
    /// The errors, in order.
    pub errors: Vec<TimelineError>,
}

/// The events of a list of analysed messages.
pub open spec fn events_of(entries: Seq<(ParsedMessage, TimelineEvent)>) -> Seq<TimelineEvent> {
    entries.map_values(|e: (ParsedMessage, TimelineEvent)| e.1)
}

/// The positions of the error responses, in order.
pub open spec fn error_positions(entries: Seq<(ParsedMessage, TimelineEvent)>) -> Seq<int>
    decreases entries.len(),
{
    if entries.len() == 0 {
        Seq::empty()
    } else {
        let rest = error_positions(entries.drop_last());
        if entries.last().0.message is CallError {
            rest.push(entries.len() - 1)
        } else {
            rest
        }
    }
}

proof fn lemma_error_positions_bounded(entries: Seq<(ParsedMessage, TimelineEvent)>)
    ensures
        forall|k: int| 0 <= k < error_positions(entries).len() ==> 0 <= #[trigger] error_positions(entries)[k] < entries.len(),
    decreases entries.len(),
{
    if entries.len() > 0 {
        let rest = entries.drop_last();
        lemma_error_positions_bounded(rest);
        assert forall|k: int| 0 <= k < error_positions(entries).len() implies 0 <= #[trigger] error_positions(entries)[k] < entries.len() by {
            if k < error_positions(rest).len() {
                assert(error_positions(entries)[k] == error_positions(rest)[k]);
            }
        }
    }
}

/// Replays a list of parsed messages, each with the event its call implies,
/// on a fresh session. Every message gives a timeline record; every error
/// response gives an error.
pub fn analyze(entries: &Vec<(ParsedMessage, TimelineEvent)>) -> (a: TimelineAnalysis)
    ensures
        a.timeline@.len() == entries@.len(),
        forall|i: int| 0 <= i < entries@.len() ==> {
            &&& (#[trigger] a.timeline@[i]).timestamp == entries@[i].0.timestamp
            &&& a.timeline@[i].direction == entries@[i].0.direction
            &&& a.timeline@[i].message@ == entries@[i].0.message.description()
        },
        a.errors@.len() == error_positions(entries@).len(),
        forall|k: int| 0 <= k < a.errors@.len() ==> {
            let m = entries@[error_positions(entries@)[k]].0;
            &&& (#[trigger] a.errors@[k]).timestamp == m.timestamp
            &&& a.errors@[k].error_code@ == m.message->CallError_0.error_code@
            &&& a.errors@[k].error_description@ == m.message->CallError_0.error_description@
        },
        a.session.connector_status@ == statuses_after(events_of(entries@)),
        a.session.active_transactions@.dom() == open_after(events_of(entries@)),
        open_transaction_recorded(a.session, events_of(entries@)),
        booted_in(events_of(entries@)) ==> a.session.state == crate::ocpp::session::Ocpp16State::Booted,
        !booted_in(events_of(entries@)) ==> a.session.state == crate::ocpp::session::Ocpp16State::Disconnected,
{
    let mut timeline: Vec<TimelineRecord> = Vec::new();
    let mut errors: Vec<TimelineError> = Vec::new();
    let mut session = Ocpp16Session::new();
    let ghost all = entries@;
    let mut i: usize = 0;
    while i < entries.len()
        invariant
            i <= entries.len(),
            all == entries@,
            timeline@.len() == i,
            forall|j: int| 0 <= j < i ==> {
                &&& (#[trigger] timeline@[j]).timestamp == all[j].0.timestamp
                &&& timeline@[j].direction == all[j].0.direction
                &&& timeline@[j].message@ == all[j].0.message.description()
            },
            errors@.len() == error_positions(all.take(i as int)).len(),
            forall|k: int| 0 <= k < errors@.len() ==> {
                let m = all[error_positions(all.take(i as int))[k]].0;
                &&& (#[trigger] errors@[k]).timestamp == m.timestamp
                &&& errors@[k].error_code@ == m.message->CallError_0.error_code@
                &&& errors@[k].error_description@ == m.message->CallError_0.error_description@
            },
            session.connector_status@ == statuses_after(events_of(all.take(i as int))),
            session.active_transactions@.dom() == open_after(events_of(all.take(i as int))),
            open_transaction_recorded(session, events_of(all.take(i as int))),
            booted_in(events_of(all.take(i as int))) ==> session.state == crate::ocpp::session::Ocpp16State::Booted,
            !booted_in(events_of(all.take(i as int))) ==> session.state == crate::ocpp::session::Ocpp16State::Disconnected,
        decreases entries.len() - i,
    {
        let ghost before = all.take(i as int);
        let ghost after = all.take(i + 1);
        proof {
            assert(after.drop_last() =~= before);
            assert(events_of(after).drop_last() =~= events_of(before));
            assert(events_of(after).last() == all[i as int].1);
            lemma_error_positions_bounded(before);
            assert forall|k: int| 0 <= k < error_positions(before).len() implies
                #[trigger] all[error_positions(before)[k]] == after[error_positions(before)[k]] by {}
        }
        let parsed = &entries[i].0;
        match &parsed.message {
            OcppMessage::CallError(e) => {
                errors.push(TimelineError {
                    timestamp: parsed.timestamp,
                    error_code: e.error_code.clone(),
                    error_description: e.error_description.clone(),
                });
            },
            _ => {},
        }
        timeline.push(TimelineRecord {
            timestamp: parsed.timestamp,
            direction: parsed.direction,
            message: parsed.message.describe(),
        });
        let ghost s0 = session.state;
        apply_event(&mut session, &entries[i].1);
        proof {
            let ev = events_of(after);
            if booted_in(ev) {
                let j = choose|j: int| 0 <= j < ev.len() && ev[j] == TimelineEvent::Boot;
                if j < i {
                    assert(events_of(before)[j] == TimelineEvent::Boot);
                }
            }
            if booted_in(events_of(before)) {
                let j = choose|j: int| 0 <= j < events_of(before).len() && events_of(before)[j] == TimelineEvent::Boot;
                assert(ev[j] == TimelineEvent::Boot);
            }
            if all[i as int].1 == TimelineEvent::Boot {
                assert(ev[i as int] == TimelineEvent::Boot);
            }
        }
        i = i + 1;
    }
    proof {
        assert(all.take(entries.len() as int) =~= all);
    }
    TimelineAnalysis { timeline, session, errors }
}

/// Kind of a timeline entry for diagnostics.
#[derive(Debug, Clone, Copy, PartialEq, Eq, Structural)]
pub enum DiagnosticEventKind {
    /// BootNotification.
    BootNotification,
    /// Heartbeat.
    Heartbeat,
    /// StatusNotification.
    StatusNotification,
    /// Authorize.
    Authorize,
    /// StartTransaction.
    StartTransaction,
    /// StopTransaction.
    StopTransaction,
    /// MeterValues.
    MeterValues,
    /// Anything else.
    Info,
    /// An error response.
    Error,
}

/// Outcome of a timeline entry for diagnostics.
#[derive(Debug, Clone, Copy, PartialEq, Eq, Structural)]
pub enum EntryStatus {
    /// Succeeded.
    Success,
    /// Failed.
    Failure,
}

/// The diagnostic kind of a call's action.
pub open spec fn kind_of_call(action: Seq<char>) -> DiagnosticEventKind {
    if action == "BootNotification"@ {
        DiagnosticEventKind::BootNotification
    } else if action == "Heartbeat"@ {
        DiagnosticEventKind::Heartbeat
    } else if action == "StatusNotification"@ {
        DiagnosticEventKind::StatusNotification
    } else if action == "Authorize"@ {
        DiagnosticEventKind::Authorize
    } else if action == "StartTransaction"@ {
        DiagnosticEventKind::StartTransaction
    } else if action == "StopTransaction"@ {
        DiagnosticEventKind::StopTransaction
    } else if action == "MeterValues"@ {
        DiagnosticEventKind::MeterValues
    } else {
        DiagnosticEventKind::Info
    }
}

/// Classifies a message for diagnostics: a call by its action, a response
/// as information, an error response as an error that failed.
pub fn classify(message: &OcppMessage) -> (r: (DiagnosticEventKind, EntryStatus))
    ensures
        r == (match message {
            OcppMessage::Call(c) => (kind_of_call(c.action@), EntryStatus::Success),
            OcppMessage::CallResult(_) => (DiagnosticEventKind::Info, EntryStatus::Success),
            OcppMessage::CallError(_) => (DiagnosticEventKind::Error, EntryStatus::Failure),
        }),
{
    match message {
        OcppMessage::Call(call) => {
            let a = call.action.as_str();
            let kind = if str_eq(a, "BootNotification") {
                DiagnosticEventKind::BootNotification
            } else if str_eq(a, "Heartbeat") {
                DiagnosticEventKind::Heartbeat
            } else if str_eq(a, "StatusNotification") {
                DiagnosticEventKind::StatusNotification
            } else if str_eq(a, "Authorize") {
                DiagnosticEventKind::Authorize
            } else if str_eq(a, "StartTransaction") {
                DiagnosticEventKind::StartTransaction
            } else if str_eq(a, "StopTransaction") {
                DiagnosticEventKind::StopTransaction
            } else if str_eq(a, "MeterValues") {
                DiagnosticEventKind::MeterValues
            } else {
                DiagnosticEventKind::Info
            };
            (kind, EntryStatus::Success)
        },
        OcppMessage::CallResult(_) => (DiagnosticEventKind::Info, EntryStatus::Success),
        OcppMessage::CallError(_) => (DiagnosticEventKind::Error, EntryStatus::Failure),
    }
}

/// The action a diagnostic kind stands for: the OCPP action of the same
/// name for the seven call kinds, none for `Info` and `Error`.
pub open spec fn action_of_kind(k: DiagnosticEventKind) -> Option<Seq<char>> {
    match k {
        DiagnosticEventKind::BootNotification => Some("BootNotification"@),
        DiagnosticEventKind::Heartbeat => Some("Heartbeat"@),
        DiagnosticEventKind::StatusNotification => Some("StatusNotification"@),
        DiagnosticEventKind::Authorize => Some("Authorize"@),
        DiagnosticEventKind::StartTransaction => Some("StartTransaction"@),
        DiagnosticEventKind::StopTransaction => Some("StopTransaction"@),
        DiagnosticEventKind::MeterValues => Some("MeterValues"@),
        _ => None,
    }
}

/// A call is classified by its action's own name: each of the seven known
/// actions gives the kind of that name, a call classified as anything but
/// `Info` has exactly the action its kind names, and no call is classified
/// as an error.
pub proof fn law_calls_classified_by_name(action: Seq<char>, k: DiagnosticEventKind)
    ensures
        action_of_kind(k) matches Some(name) ==> kind_of_call(name) == k,
        kind_of_call(action) != DiagnosticEventKind::Info ==> action_of_kind(kind_of_call(action)) == Some(action),
        kind_of_call(action) != DiagnosticEventKind::Error,
{
    reveal_strlit("BootNotification");
    reveal_strlit("Heartbeat");
    reveal_strlit("StatusNotification");
    reveal_strlit("Authorize");
    reveal_strlit("StartTransaction");
    reveal_strlit("StopTransaction");
    reveal_strlit("MeterValues");
    assert("BootNotification"@.len() != "Heartbeat"@.len());
    assert("BootNotification"@.len() != "StatusNotification"@.len());
    assert("Heartbeat"@.len() != "StatusNotification"@.len());
    assert("BootNotification"@.len() != "Authorize"@.len());
    assert("Heartbeat"@[0] != "Authorize"@[0]);
    assert("StatusNotification"@.len() != "Authorize"@.len());
    assert("BootNotification"@[0] != "StartTransaction"@[0]);
    assert("Heartbeat"@.len() != "StartTransaction"@.len());
    assert("StatusNotification"@.len() != "StartTransaction"@.len());
    assert("Authorize"@.len() != "StartTransaction"@.len());
    assert("BootNotification"@.len() != "StopTransaction"@.len());
    assert("Heartbeat"@.len() != "StopTransaction"@.len());
    assert("StatusNotification"@.len() != "StopTransaction"@.len());
    assert("Authorize"@.len() != "StopTransaction"@.len());
    assert("StartTransaction"@.len() != "StopTransaction"@.len());
    assert("BootNotification"@.len() != "MeterValues"@.len());
    assert("Heartbeat"@.len() != "MeterValues"@.len());
    assert("StatusNotification"@.len() != "MeterValues"@.len());
    assert("Authorize"@.len() != "MeterValues"@.len());
    assert("StartTransaction"@.len() != "MeterValues"@.len());
    assert("StopTransaction"@.len() != "MeterValues"@.len());
}

/// The action whose payload a request kind reads: the action of the same
/// name, none for `Other`.
pub open spec fn action_of_request(k: RequestKind) -> Option<Seq<char>> {
    match k {
        RequestKind::Boot => Some("BootNotification"@),
        RequestKind::StatusNotification => Some("StatusNotification"@),
        RequestKind::StartTransaction => Some("StartTransaction"@),
        RequestKind::StopTransaction => Some("StopTransaction"@),
        RequestKind::Other => None,
    }
}

/// A call's payload is read as the request its action names: each of the
/// four actions gives its own kind, and any action given a kind other than
/// `Other` is exactly the action that kind names.
pub proof fn law_requests_read_by_name(action: Seq<char>, k: RequestKind)
    ensures
        action_of_request(k) matches Some(name) ==> kind_of_action(name) == k,
        kind_of_action(action) != RequestKind::Other ==> action_of_request(kind_of_action(action)) == Some(action),
{
    reveal_strlit("BootNotification");
    reveal_strlit("StatusNotification");
    reveal_strlit("StartTransaction");
    reveal_strlit("StopTransaction");
    assert("BootNotification"@.len() != "StatusNotification"@.len());
    assert("BootNotification"@[0] != "StartTransaction"@[0]);
    assert("StatusNotification"@.len() != "StartTransaction"@.len());
    assert("BootNotification"@.len() != "StopTransaction"@.len());
    assert("StatusNotification"@.len() != "StopTransaction"@.len());
    assert("StartTransaction"@.len() != "StopTransaction"@.len());
}

/// Replaying one more event: a status report sets that connector's status
/// and leaves the others; a start opens the timeline's transaction and
/// records its fields; a stop closes the transaction it names; no other
/// event changes the open transactions.
pub proof fn law_replay_step(events: Seq<TimelineEvent>, e: TimelineEvent, c: u64)
    ensures
        e matches TimelineEvent::StatusReported { connector_id, status } ==> {
            &&& statuses_after(events.push(e))[connector_id] == status
            &&& statuses_after(events.push(e)).dom().contains(connector_id)
            &&& c != connector_id ==> statuses_after(events.push(e)).dom().contains(c)
                == statuses_after(events).dom().contains(c)
        },
        e matches TimelineEvent::TransactionStarted { connector_id, id_tag, meter_start } ==> {
            &&& open_after(events.push(e)).contains(timeline_transaction_id())
            &&& last_start(events.push(e)) == Some((connector_id, id_tag@, meter_start))
        },
        e matches TimelineEvent::TransactionStopped { transaction_id } ==> {
            &&& !open_after(events.push(e)).contains(transaction_id)
            &&& c != transaction_id ==> open_after(events.push(e)).contains(c) == open_after(events).contains(c)
        },
        e is Boot || e is Ignored || e is StatusReported ==> open_after(events.push(e)) == open_after(events),
{
    assert(events.push(e).drop_last() =~= events);
}

} // verus!
