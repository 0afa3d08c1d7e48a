//! Structured logging with bounded retention.
use vstd::prelude::*;
use crate::core_types::{Timestamp, new_uuid, now};
use crate::observability::{ObservabilityError, ObservabilityLevel};
use crate::ocpp::json::JsonValue;
use crate::seq_facts::{lemma_filter_take_step, lemma_take_all};

verus! {

/// A log entry.
#[derive(Debug)]
pub struct LogEntry {
    /// Identifier.
    pub id: String,
    /// When it was written.
    pub timestamp: Timestamp,
    /// Severity.
    pub level: ObservabilityLevel,
    /// Message.
    pub message: String,
    /// Component that wrote it.
    pub component: String,
    /// Structured fields.
    pub fields: Vec<(String, JsonValue)>,
    /// Session.
    pub session_id: Option<String>,
    /// Station.
    pub station_id: Option<String>,
    /// Transaction.
    pub transaction_id: Option<String>,
    /// Trace.
    pub trace_id: Option<String>,
    /// Span.
    pub span_id: Option<String>,
}

/// Whether an entry is an error or worse.
pub open spec fn is_error_entry() -> spec_fn(LogEntry) -> bool {
    |e: LogEntry| e.level.rank() >= ObservabilityLevel::Error.rank()
}

/// The entries kept after appending `e` to `entries` with room for `max`:
/// the newest `max` of them.
pub open spec fn retained(entries: Seq<LogEntry>, e: LogEntry, max: nat) -> Seq<LogEntry> {
    let all = entries.push(e);
    if all.len() > max {
        all.skip(all.len() - max)
    } else {
        all
    }
}

/// A log that keeps its newest entries.
#[derive(Debug)]
pub struct StructuredLogger {
    entries: Vec<LogEntry>,
    max_entries: usize,
}

impl StructuredLogger {
    /// The entries kept, oldest first.
    pub closed spec fn kept(&self) -> Seq<LogEntry> {
        self.entries@
    }

    /// How many entries are kept at most.
    pub closed spec fn capacity(&self) -> nat {
        self.max_entries as nat
    }

    /// An empty log keeping up to 100000 entries.
    pub fn new() -> (l: Self)
        ensures
            l.kept().len() == 0,
            l.capacity() == 100000,
    {
        StructuredLogger { entries: Vec::new(), max_entries: 100000 }
    }

    /// Starts the logger.
    pub fn start(&self) -> (r: Result<(), ObservabilityError>)
        ensures
            r is Ok,
    {
        Ok(())
    }

    /// Stops the logger.
    pub fn stop(&self) -> (r: Result<(), ObservabilityError>)
        ensures
            r is Ok,
    {
        Ok(())
    }

    /// Writes an entry now; when the log is over capacity the oldest
    /// entries are dropped.
    pub fn log(&mut self, level: ObservabilityLevel, message: &str, component: &str, fields: Vec<(String, JsonValue)>)
        -> (r: Result<(), ObservabilityError>)
        ensures
            r is Ok,
            final(self).capacity() == old(self).capacity(),
            final(self).kept().len() == (if old(self).kept().len() + 1 > old(self).capacity() {
                old(self).capacity()
            } else {
                old(self).kept().len() + 1
            }),
            final(self).kept().len() > 0 ==> {
                let e = final(self).kept().last();
                &&& e.level == level && e.message@ == message@ && e.component@ == component@
                &&& e.fields == fields
                &&& e.id@.len() == 36
                &&& e.session_id is None && e.station_id is None && e.transaction_id is None
                &&& e.trace_id is None && e.span_id is None
            },
            final(self).kept() == retained(old(self).kept(), final(self).kept().last(), old(self).capacity()),
    {
        let entry = LogEntry {
            id: new_uuid(),
            timestamp: now(),
            level,
            message: message.to_owned(),
            component: component.to_owned(),
            fields,
            session_id: None,
            station_id: None,
            transaction_id: None,
            trace_id: None,
            span_id: None,
        };
        let ghost before = self.entries@;
        let ghost e = entry;
        self.entries.push(entry);
        if self.entries.len() > self.max_entries {
            let excess = self.entries.len() - self.max_entries;
            let kept = self.entries.split_off(excess);
            self.entries = kept;
        }
        proof {
            let all = before.push(e);
            if all.len() > self.max_entries {
                assert(self.entries@ =~= all.skip(all.len() - self.max_entries));
            } else {
                assert(self.entries@ =~= all);
            }
        }
        Ok(())
    }

    /// The entries kept, oldest first.
    pub fn collect(&self) -> (r: &Vec<LogEntry>)
        ensures
            r@ == self.kept(),
    {
        &self.entries
    }

    /// The kept entries that are errors or worse, oldest first.
    pub fn get_errors(&self) -> (r: Vec<&LogEntry>)
        ensures
            r@.len() == self.kept().filter(is_error_entry()).len(),
            forall|i: int| 0 <= i < r@.len() ==> *(#[trigger] r@[i]) == self.kept().filter(is_error_entry())[i],
    {
        let ghost s = self.entries@;
        let ghost p = is_error_entry();
        let mut r: Vec<&LogEntry> = Vec::new();
        let mut i: usize = 0;
        while i < self.entries.len()
            invariant
                i <= self.entries.len(),
                s == self.entries@,
                p == is_error_entry(),
                r@.len() == s.take(i as int).filter(p).len(),
                forall|k: int| 0 <= k < r@.len() ==> *(#[trigger] r@[k]) == s.take(i as int).filter(p)[k],
            decreases self.entries.len() - i,
        {
            proof {
                lemma_filter_take_step(s, p, i as int);
            }
            if self.entries[i].level.is_error() {
                r.push(&self.entries[i]);
            }
            i = i + 1;
        }
        proof {
            lemma_take_all(s);
        }
        r
    }
}

/// A log that is within its capacity stays within it after a write, and
/// its newest entry is the one written; the entries kept are the newest of
/// the old ones, in order.
pub proof fn law_log_retention(entries: Seq<LogEntry>, e: LogEntry, max: nat)
    requires
        max > 0,
        entries.len() <= max,
    ensures
        retained(entries, e, max).len() <= max,
        retained(entries, e, max).last() == e,
        retained(entries, e, max).drop_last() == entries.skip(entries.len() + 1 - retained(entries, e, max).len()),
{
    let r = retained(entries, e, max);
    assert(r.drop_last() =~= entries.skip(entries.len() + 1 - r.len()));
}

} // verus!
