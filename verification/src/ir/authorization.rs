//! Authorization of users and vehicles.
use vstd::prelude::*;
use crate::core_types::{Duration, Timestamp, now};
use crate::ir::connector::ConnectorType;
use crate::ir::ids::{Energy, Id, Money, StationId};
use crate::ocpp::json::JsonValue;

verus! {

/// How a user or vehicle authenticated.
#[derive(Debug, Clone, PartialEq, Eq)]
pub enum AuthorizationType {
    /// RFID card.
    RFID,
    /// OCPI token.
    OCPI,
    /// ISO 15118 contract.
    ISO15118,
    /// Vendor-specific.
    Vendor,
    /// Another means, by name.
    Other(String),
}

/// Status of an authorization.
#[derive(Debug, Clone, Copy, PartialEq, Eq, Structural)]
pub enum AuthorizationStatus {
    /// Awaiting a decision.
    Pending,
    /// Granted.
    Authorized,
    /// Refused.
    Rejected,
    /// Expired.
    Expired,
    /// Withdrawn.
    Revoked,
}

/// Kind of restriction.
#[derive(Debug, Clone, Copy, PartialEq, Eq, Structural)]
pub enum RestrictionType {
    /// On time.
    TimeRestriction,
    /// On energy.
    EnergyRestriction,
    /// On location.
    LocationRestriction,
    /// On vehicle.
    VehicleRestriction,
}

/// Limits of a session.
#[derive(Debug, Clone, Copy, PartialEq, Eq, Structural)]
pub struct AuthorizationLimit {
    /// Most energy.
    pub max_energy: Option<Energy>,
    /// Most cost.
    pub max_cost: Option<Money>,
    /// Longest duration.
    pub max_duration: Option<Duration>,
}

/// A restriction of an authorization.
#[derive(Debug)]
pub struct AuthorizationRestriction {
    /// Kind.
    pub restriction_type: RestrictionType,
    /// Value.
    pub value: JsonValue,
}

/// Details of an authorization.
#[derive(Debug)]
pub struct AuthorizationDetails {
    /// User.
    pub user_id: Option<String>,
    /// Mobility service provider.
    pub emsp_id: Option<String>,
    /// Charge point operator.
    pub cpo_id: Option<String>,
    /// Contract.
    pub contract_id: Option<String>,
    /// Session limits.
    pub session_limit: Option<AuthorizationLimit>,
    /// Connector types allowed.
    pub allowed_connectors: Vec<ConnectorType>,
    /// Stations allowed.
    pub allowed_stations: Vec<StationId>,
    /// Restrictions.
    pub restrictions: Vec<AuthorizationRestriction>,
}

impl AuthorizationDetails {
    /// Whether nothing is set.
    pub open spec fn is_empty(self) -> bool {
        &&& self.user_id is None && self.emsp_id is None && self.cpo_id is None && self.contract_id is None
        &&& self.session_limit is None
        &&& self.allowed_connectors@.len() == 0 && self.allowed_stations@.len() == 0
        &&& self.restrictions@.len() == 0
    }
}

impl Default for AuthorizationDetails {
    fn default() -> (d: Self)
        ensures
            d.is_empty(),
    {
        AuthorizationDetails {
            user_id: None,
            emsp_id: None,
            cpo_id: None,
            contract_id: None,
            session_limit: None,
            allowed_connectors: Vec::new(),
            allowed_stations: Vec::new(),
            restrictions: Vec::new(),
        }
    }
}

/// An authorization of a user or vehicle.
#[derive(Debug)]
pub struct Authorization {
    /// Identifier.
    pub id: Id,
    /// How the user authenticated.
    pub auth_type: AuthorizationType,
    /// Token presented.
    pub token: String,
    /// Status.
    pub status: AuthorizationStatus,
    /// When it was granted.
    pub authorized_at: Timestamp,
    /// When it expires.
    pub expires_at: Option<Timestamp>,
    /// Details.
    pub details: AuthorizationDetails,
}

impl Authorization {
    /// Whether the authorization is valid at time `t`: it is granted and,
    /// if it expires, `t` is before its expiry.
    pub open spec fn valid_at(self, t: Timestamp) -> bool {
        self.status == AuthorizationStatus::Authorized && match self.expires_at {
            Some(e) => t < e,
            None => true,
        }
    }

    /// A pending authorization of `token`, granted now, with no expiry and
    /// no details.
    pub fn new(auth_type: AuthorizationType, token: String) -> (a: Self)
        ensures
            a.auth_type == auth_type,
            a.token == token,
            a.status == AuthorizationStatus::Pending,
            a.expires_at is None,
            a.details.is_empty(),
            a.id.0@.len() == 36,
    {
        Authorization {
            id: Id::new(),
            auth_type,
            token,
            status: AuthorizationStatus::Pending,
            authorized_at: now(),
            expires_at: None,
            details: AuthorizationDetails::default(),
        }
    }

    /// Whether the authorization is valid at time `t`.
    pub fn is_valid_at(&self, t: Timestamp) -> (b: bool)
        ensures
            b == self.valid_at(t),
    {
        match self.status {
            AuthorizationStatus::Authorized => match self.expires_at {
                Some(expires) => t < expires,
                None => true,
            },
            _ => false,
        }
    }

    /// Whether the authorization is valid now. It is never valid unless
    /// granted, and always valid when granted without expiry.
    pub fn is_valid(&self) -> (b: bool)
        ensures
            self.status != AuthorizationStatus::Authorized ==> !b,
            self.status == AuthorizationStatus::Authorized && self.expires_at is None ==> b,
    {
        let t = now();
        self.is_valid_at(t)
    }

    /// Marks the authorization expired.
    pub fn expire(&mut self)
        ensures
            *final(self) == (Authorization { status: AuthorizationStatus::Expired, ..*old(self) }),
    {
        self.status = AuthorizationStatus::Expired;
    }

    /// Marks the authorization revoked.
    pub fn revoke(&mut self)
        ensures
            *final(self) == (Authorization { status: AuthorizationStatus::Revoked, ..*old(self) }),
    {
        self.status = AuthorizationStatus::Revoked;
    }
}

} // verus!
