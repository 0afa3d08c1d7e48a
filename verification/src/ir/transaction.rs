//! Transactions: the billing record of a session.
use vstd::prelude::*;
use crate::core_types::{Duration, F64Bits, Timestamp, now};
use crate::ir::authorization::Authorization;
use crate::ir::ids::{Energy, Money, SessionId, TransactionId};
use crate::ir::meter::MeterValue;
use crate::ir::tariff::Tariff;
use crate::ocpp::json::JsonValue;

verus! {

/// Status of a transaction.
#[derive(Debug, Clone, Copy, PartialEq, Eq, Structural)]
pub enum TransactionStatus {
    /// Open.
    Pending,
    /// Closed.
    Completed,
    /// Failed.
    Failed,
    /// Cancelled.
    Cancelled,
}

/// A charging detail record, for OCPI roaming.
#[derive(Debug)]
pub struct ChargingDetailRecord {
    /// Identifier.
    pub id: String,
    /// Session.
    pub session_id: String,
    /// Charge point operator.
    pub cpo_id: String,
    /// Mobility service provider.
    pub emsp_id: String,
    /// Authorization reference.
    pub auth_reference: String,
    /// Start.
    pub start_time: Timestamp,
    /// End.
    pub end_time: Timestamp,
    /// Energy (kWh), as the bit pattern of an `f64`.
    pub total_energy: F64Bits,
    /// Cost.
    pub total_cost: Money,
    /// Currency.
    pub currency: String,
    /// Tariff.
    pub tariff: Tariff,
    /// Readings.
    pub meter_values: Vec<MeterValue>,
}

/// A transaction.
#[derive(Debug)]
pub struct Transaction {
    /// Identifier.
    pub id: TransactionId,
    /// Session.
    pub session_id: SessionId,
    /// Reference given by the central system.
    pub transaction_ref: Option<String>,
    /// Authorization used.
    pub authorization: Authorization,
    /// Start.
    pub start_time: Timestamp,
    /// End.
    pub end_time: Option<Timestamp>,
    /// Meter at start.
    pub meter_start: MeterValue,
    /// Meter at end.
    pub meter_end: Option<MeterValue>,
    /// Energy delivered.
    pub energy_delivered: Energy,
    /// Tariff.
    pub tariff: Tariff,
    /// Cost, in minor units.
    pub cost: Money,
    /// Currency.
    pub currency: String,
    /// Charging detail record.
    pub cdr: Option<ChargingDetailRecord>,
    /// Status.
    pub status: TransactionStatus,
    /// Further data.
    pub metadata: Vec<(String, JsonValue)>,
}

/// Energy between two meter values, zero if the meter went back.
pub open spec fn delivered(start: MeterValue, end: MeterValue) -> Energy {
    Energy(if end.energy_import.0 >= start.energy_import.0 {
        (end.energy_import.0 - start.energy_import.0) as u64
    } else {
        0
    })
}

impl Transaction {
    /// A pending transaction started now, in USD, with nothing delivered or owed.
    pub fn new(session_id: SessionId, authorization: Authorization, meter_start: MeterValue, tariff: Tariff) -> (t: Self)
        ensures
            t.session_id == session_id && t.authorization == authorization,
            t.meter_start == meter_start && t.tariff == tariff,
            t.transaction_ref is None && t.end_time is None && t.meter_end is None,
            t.energy_delivered == Energy(0),
            t.cost == Money(0),
            t.currency@ == "USD"@,
            t.cdr is None,
            t.status == TransactionStatus::Pending,
            t.metadata@.len() == 0,
    {
        Transaction {
            id: TransactionId::new(),
            session_id,
            transaction_ref: None,
            authorization,
            start_time: now(),
            end_time: None,
            meter_start,
            meter_end: None,
            energy_delivered: Energy::new(0),
            tariff,
            cost: Money::new(0),
            currency: "USD".to_owned(),
            cdr: None,
            status: TransactionStatus::Pending,
            metadata: Vec::new(),
        }
    }

    /// Closes the transaction now with its final meter value: the energy
    /// delivered is the meter difference (zero if the meter went back) and
    /// `cost` is what the tariff charges for it, in minor units.
    pub fn complete(&mut self, meter_end: MeterValue, cost: Money)
        ensures
            final(self).meter_end == Some(meter_end),
            final(self).energy_delivered == delivered(old(self).meter_start, meter_end),
            final(self).end_time is Some,
            final(self).status == TransactionStatus::Completed,
            final(self).cost == cost,
            final(self).meter_start == old(self).meter_start,
            final(self).start_time == old(self).start_time,
            final(self).tariff == old(self).tariff,
    {
        let end = meter_end.energy_import.0;
        let start = self.meter_start.energy_import.0;
        self.energy_delivered = Energy::new(if end >= start { end - start } else { 0 });
        self.meter_end = Some(meter_end);
        self.end_time = Some(now());
        self.status = TransactionStatus::Completed;
        self.cost = cost;
    }

    /// Time from start to end, once ended.
    pub fn duration(&self) -> (d: Option<Duration>)
        requires
            self.end_time matches Some(e) ==> i64::MIN <= e - self.start_time <= i64::MAX,
        ensures
            match self.end_time {
                Some(e) => d == Some(Duration { millis: (e - self.start_time) as i64 }),
                None => d is None,
            },
    {
        match self.end_time {
            Some(e) => Some(Duration { millis: e - self.start_time }),
            None => None,
        }
    }

    /// Whether the transaction is completed.
    pub fn is_completed(&self) -> (b: bool)
        ensures
            b == (self.status == TransactionStatus::Completed),
    {
        matches!(self.status, TransactionStatus::Completed)
    }
}


/// The energy delivered between two meter values is what the import
/// counter advanced: added to the start reading it gives the end reading;
/// it is zero when the counter did not advance.
pub proof fn law_delivered_is_meter_advance(start: MeterValue, end: MeterValue)
    ensures
        end.energy_import.0 >= start.energy_import.0
            ==> delivered(start, end).0 + start.energy_import.0 == end.energy_import.0,
        end.energy_import.0 <= start.energy_import.0 ==> delivered(start, end).0 == 0,
        delivered(start, end).0 <= end.energy_import.0,
{
}

} // verus!
