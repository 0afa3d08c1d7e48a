//! Connector reservations.
use vstd::prelude::*;
use crate::core_types::{Timestamp, now};
use crate::ir::ids::{ConnectorId, EvseId, Id, StationId};
use crate::ocpp::json::JsonValue;

verus! {

/// Status of a reservation.
#[derive(Debug, Clone, Copy, PartialEq, Eq, Structural)]
pub enum ReservationStatus {
    /// Requested.
    Pending,
    /// Confirmed.
    Confirmed,
    /// In use.
    Active,
    /// Expired.
    Expired,
    /// Cancelled.
    Cancelled,
    /// Used.
    Completed,
}

/// A reservation of a connector.
#[derive(Debug)]
pub struct Reservation {
    /// Identifier.
    pub id: Id,
    /// Station.
    pub station_id: StationId,
    /// EVSE.
    pub evse_id: EvseId,
    /// Connector.
    pub connector_id: ConnectorId,
    /// User.
    pub user_id: String,
    /// Token to present.
    pub authorization_token: String,
    /// Start.
    pub start_time: Timestamp,
    /// End.
    pub end_time: Timestamp,
    /// Status.
    pub status: ReservationStatus,
    /// Creation time.
    pub created_at: Timestamp,
    /// Last change.
    pub updated_at: Timestamp,
    /// Expiry.
    pub expiry_time: Option<Timestamp>,
    /// Further data.
    pub metadata: Vec<(String, JsonValue)>,
}

impl Reservation {
    /// Whether the reservation holds at time `t`: it is confirmed or active
    /// and `t` is before its end.
    pub open spec fn active_at(self, t: Timestamp) -> bool {
        (self.status == ReservationStatus::Confirmed || self.status == ReservationStatus::Active) && t < self.end_time
    }

    /// A pending reservation starting now and ending at `end_time`.
    pub fn new(
        station_id: StationId,
        evse_id: EvseId,
        connector_id: ConnectorId,
        user_id: String,
        authorization_token: String,
        end_time: Timestamp,
    ) -> (r: Self)
        ensures
            r.station_id == station_id && r.evse_id == evse_id && r.connector_id == connector_id,
            r.user_id == user_id && r.authorization_token == authorization_token,
            r.end_time == end_time,
            r.status == ReservationStatus::Pending,
            r.start_time == r.created_at && r.created_at == r.updated_at,
            r.expiry_time is None,
            r.metadata@.len() == 0,
    {
        let t = now();
        Reservation {
            id: Id::new(),
            station_id,
            evse_id,
            connector_id,
            user_id,
            authorization_token,
            start_time: t,
            end_time,
            status: ReservationStatus::Pending,
            created_at: t,
            updated_at: t,
            expiry_time: None,
            metadata: Vec::new(),
        }
    }

    /// Whether the reservation holds at time `t`.
    pub fn is_active_at(&self, t: Timestamp) -> (b: bool)
        ensures
            b == self.active_at(t),
    {
        matches!(self.status, ReservationStatus::Confirmed | ReservationStatus::Active) && t < self.end_time
    }

    /// Whether the reservation holds now: never unless confirmed or active.
    pub fn is_active(&self) -> (b: bool)
        ensures
            b ==> (self.status == ReservationStatus::Confirmed || self.status == ReservationStatus::Active),
    {
        let t = now();
        self.is_active_at(t)
    }

    /// Confirms the reservation.
    pub fn confirm(&mut self)
        ensures
            final(self).status == ReservationStatus::Confirmed,
            final(self).end_time == old(self).end_time,
            final(self).created_at == old(self).created_at,
            final(self).connector_id == old(self).connector_id,
    {
        self.status = ReservationStatus::Confirmed;
        self.updated_at = now();
    }

    /// Cancels the reservation.
    pub fn cancel(&mut self)
        ensures
            final(self).status == ReservationStatus::Cancelled,
            final(self).end_time == old(self).end_time,
            final(self).created_at == old(self).created_at,
            final(self).connector_id == old(self).connector_id,
    {
        self.status = ReservationStatus::Cancelled;
        self.updated_at = now();
    }

    /// Marks the reservation expired.
    pub fn expire(&mut self)
        ensures
            final(self).status == ReservationStatus::Expired,
            final(self).end_time == old(self).end_time,
            final(self).created_at == old(self).created_at,
            final(self).connector_id == old(self).connector_id,
    {
        self.status = ReservationStatus::Expired;
        self.updated_at = now();
    }
}

} // verus!
