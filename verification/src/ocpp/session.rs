//! The OCPP 1.6 session of a charge point, as the central system tracks it.
use vstd::prelude::*;
use std::collections::HashMap;
use crate::core_types::{Timestamp, now};
use crate::ocpp::types::{ChargePointStatus, MeterValue};

verus! {

broadcast use vstd::std_specs::hash::group_hash_axioms;

/// Connection state of a charge point.
#[derive(Debug, Clone, Copy, PartialEq, Eq, Structural)]
pub enum Ocpp16State {
    /// Not connected.
    Disconnected,
    /// Connecting.
    Connecting,
    /// Booted, not yet accepted.
    Booted,
    /// Online and accepted.
    Online,
    /// Faulted.
    Faulted,
}

/// A transaction in progress.
#[derive(Debug)]
pub struct Ocpp16Transaction {
    /// Transaction identifier.
    pub transaction_id: u64,
    /// Connector in use.
    pub connector_id: u64,
    /// Id tag that started it.
    pub id_tag: String,
    /// Meter value at start (Wh).
    pub meter_start: u64,
    /// When it started.
    pub start_time: Timestamp,
    /// Readings reported since.
    pub meter_readings: Vec<MeterValue>,
}

impl Ocpp16Transaction {
    /// A transaction as `start_transaction` records it, whatever its start time.
    pub open spec fn is_new(self, transaction_id: u64, connector_id: u64, id_tag: Seq<char>, meter_start: u64) -> bool {
        &&& self.transaction_id == transaction_id
        &&& self.connector_id == connector_id
        &&& self.id_tag@ == id_tag
        &&& self.meter_start == meter_start
        &&& self.meter_readings@ == Seq::<MeterValue>::empty()
    }

    /// The same transaction with one more reading.
    pub open spec fn with_reading(self, other: Ocpp16Transaction, reading: MeterValue) -> bool {
        &&& other.transaction_id == self.transaction_id
        &&& other.connector_id == self.connector_id
        &&& other.id_tag == self.id_tag
        &&& other.meter_start == self.meter_start
        &&& other.start_time == self.start_time
        &&& other.meter_readings@ == self.meter_readings@.push(reading)
    }
}

/// The session of one charge point.
#[derive(Debug)]
pub struct Ocpp16Session {
    /// Connection state.
    pub state: Ocpp16State,
    /// Charge point identifier, once booted.
    pub charge_point_id: Option<String>,
    /// Last reported status of each connector.
    pub connector_status: HashMap<u64, ChargePointStatus>,
    /// Transactions in progress, by identifier.
    pub active_transactions: HashMap<u64, Ocpp16Transaction>,
    /// Heartbeat interval in seconds.
    pub interval: u64,
    /// Time of the last heartbeat.
    pub last_heartbeat: Option<Timestamp>,
}

impl Ocpp16Session {
    /// A disconnected session with no connectors or transactions and a
    /// heartbeat interval of 60 seconds.
    pub fn new() -> (s: Self)
        ensures
            s.state == Ocpp16State::Disconnected,
            s.charge_point_id is None,
            s.connector_status@ == Map::<u64, ChargePointStatus>::empty(),
            s.active_transactions@ == Map::<u64, Ocpp16Transaction>::empty(),
            s.interval == 60,
            s.last_heartbeat is None,
    {
        Ocpp16Session {
            state: Ocpp16State::Disconnected,
            charge_point_id: None,
            connector_status: HashMap::new(),
            active_transactions: HashMap::new(),
            interval: 60,
            last_heartbeat: None,
        }
    }

    /// Records the boot of charge point `charge_point_id`.
    pub fn boot(&mut self, charge_point_id: String)
        ensures
            final(self).state == Ocpp16State::Booted,
            final(self).charge_point_id == Some(charge_point_id),
            final(self).connector_status@ == old(self).connector_status@,
            final(self).active_transactions@ == old(self).active_transactions@,
            final(self).interval == old(self).interval,
            final(self).last_heartbeat == old(self).last_heartbeat,
    {
        self.charge_point_id = Some(charge_point_id);
        self.state = Ocpp16State::Booted;
    }

    /// Marks the charge point online.
    pub fn online(&mut self)
        ensures
            final(self).state == Ocpp16State::Online,
            final(self).charge_point_id == old(self).charge_point_id,
            final(self).connector_status@ == old(self).connector_status@,
            final(self).active_transactions@ == old(self).active_transactions@,
            final(self).interval == old(self).interval,
            final(self).last_heartbeat == old(self).last_heartbeat,
    {
        self.state = Ocpp16State::Online;
    }

    /// Records the status of a connector, replacing any earlier one.
    pub fn update_connector_status(&mut self, connector_id: u64, status: ChargePointStatus)
        ensures
            final(self).connector_status@ == old(self).connector_status@.insert(connector_id, status),
            final(self).state == old(self).state,
            final(self).charge_point_id == old(self).charge_point_id,
            final(self).active_transactions@ == old(self).active_transactions@,
            final(self).interval == old(self).interval,
            final(self).last_heartbeat == old(self).last_heartbeat,
    {
        self.connector_status.insert(connector_id, status);
    }

    /// Records a new transaction, replacing any with the same identifier.
    /// Its start time is the current time.
    pub fn start_transaction(&mut self, transaction_id: u64, connector_id: u64, id_tag: String, meter_start: u64)
        ensures
            final(self).active_transactions@.dom() == old(self).active_transactions@.dom().insert(transaction_id),
            final(self).active_transactions@[transaction_id].is_new(transaction_id, connector_id, id_tag@, meter_start),
            forall|k: u64| k != transaction_id && #[trigger] old(self).active_transactions@.contains_key(k)
                ==> final(self).active_transactions@[k] == old(self).active_transactions@[k],
            final(self).state == old(self).state,
            final(self).charge_point_id == old(self).charge_point_id,
            final(self).connector_status@ == old(self).connector_status@,
            final(self).interval == old(self).interval,
            final(self).last_heartbeat == old(self).last_heartbeat,
    {
        let transaction = Ocpp16Transaction {
            transaction_id,
            connector_id,
            id_tag,
            meter_start,
            start_time: now(),
            meter_readings: Vec::new(),
        };
        self.active_transactions.insert(transaction_id, transaction);
        assert(self.active_transactions@.dom() =~= old(self).active_transactions@.dom().insert(transaction_id));
    }

    /// Removes a transaction; nothing happens when it is unknown.
    pub fn stop_transaction(&mut self, transaction_id: u64)
        ensures
            final(self).active_transactions@ == old(self).active_transactions@.remove(transaction_id),
            final(self).state == old(self).state,
            final(self).charge_point_id == old(self).charge_point_id,
            final(self).connector_status@ == old(self).connector_status@,
            final(self).interval == old(self).interval,
            final(self).last_heartbeat == old(self).last_heartbeat,
    {
        self.active_transactions.remove(&transaction_id);
    }

    /// Appends a reading to a transaction; nothing happens when it is unknown.
    pub fn add_meter_reading(&mut self, transaction_id: u64, meter_value: MeterValue)
        ensures
            final(self).active_transactions@.dom() == old(self).active_transactions@.dom(),
            old(self).active_transactions@.contains_key(transaction_id) ==>
                old(self).active_transactions@[transaction_id].with_reading(
                    final(self).active_transactions@[transaction_id], meter_value),
            forall|k: u64| k != transaction_id && #[trigger] old(self).active_transactions@.contains_key(k)
                ==> final(self).active_transactions@[k] == old(self).active_transactions@[k],
            final(self).state == old(self).state,
            final(self).charge_point_id == old(self).charge_point_id,
            final(self).connector_status@ == old(self).connector_status@,
            final(self).interval == old(self).interval,
            final(self).last_heartbeat == old(self).last_heartbeat,
    {
        match self.active_transactions.remove(&transaction_id) {
            Some(mut transaction) => {
                transaction.meter_readings.push(meter_value);
                self.active_transactions.insert(transaction_id, transaction);
                assert(self.active_transactions@.dom() =~= old(self).active_transactions@.dom());
            },
            None => {},
        }
    }

    /// Records a heartbeat at the current time.
    pub fn heartbeat(&mut self)
        ensures
            final(self).last_heartbeat is Some,
            final(self).state == old(self).state,
            final(self).charge_point_id == old(self).charge_point_id,
            final(self).connector_status@ == old(self).connector_status@,
            final(self).active_transactions@ == old(self).active_transactions@,
            final(self).interval == old(self).interval,
    {
        self.last_heartbeat = Some(now());
    }

    /// Whether the charge point is online.
    pub fn is_online(&self) -> (b: bool)
        ensures
            b == (self.state == Ocpp16State::Online),
    {
        matches!(self.state, Ocpp16State::Online)
    }

    /// The transaction with the given identifier.
    pub fn get_transaction(&self, transaction_id: u64) -> (r: Option<&Ocpp16Transaction>)
        ensures
            r is Some <==> self.active_transactions@.contains_key(transaction_id),
            r matches Some(t) ==> *t == self.active_transactions@[transaction_id],
    {
        self.active_transactions.get(&transaction_id)
    }

    /// Whether a transaction with the given identifier is in progress.
    pub fn has_transaction(&self, transaction_id: u64) -> (b: bool)
        ensures
            b == self.active_transactions@.contains_key(transaction_id),
    {
        self.active_transactions.contains_key(&transaction_id)
    }
}

/// Stopping a transaction undoes starting it: the table is as it would be
/// had the identifier merely been removed, and as it was before the start
/// when the identifier was not in use.
pub proof fn law_stop_undoes_start(before: Map<u64, Ocpp16Transaction>, id: u64, t: Ocpp16Transaction)
    ensures
        before.insert(id, t).remove(id) == before.remove(id),
        !before.contains_key(id) ==> before.insert(id, t).remove(id) == before,
{
    assert(before.insert(id, t).remove(id) =~= before.remove(id));
    if !before.contains_key(id) {
        assert(before.remove(id) =~= before);
    }
}

} // verus!
