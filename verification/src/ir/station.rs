//! Charging station model.
use vstd::prelude::*;
use crate::core_types::{F64Bits, Timestamp};
use crate::ir::capability::{Capabilities, CapabilityType};
use crate::ir::connector::{Connector, ConnectorType};
use crate::ir::evse::{EVSE, first_connector, lacks_connector};
use crate::ir::ids::{Power, StationId};
use crate::ocpp::json::JsonValue;
use crate::text::str_eq;

verus! {

/// Station state lifecycle.
#[derive(Debug, Clone, Copy, PartialEq, Eq, Structural)]
pub enum StationState {
    /// Not connected.
    Offline,
    /// Booted, not yet enabled.
    Booted,
    /// In service.
    Enabled,
    /// Out of service by decision.
    Disabled,
    /// Out of service by fault.
    Faulted,
    /// Under maintenance.
    Maintenance,
    /// Installing firmware.
    Updating,
}

impl StationState {
    /// The variant's name.
    pub open spec fn name(self) -> Seq<char> {
        match self {
            StationState::Offline => "Offline"@,
            StationState::Booted => "Booted"@,
            StationState::Enabled => "Enabled"@,
            StationState::Disabled => "Disabled"@,
            StationState::Faulted => "Faulted"@,
            StationState::Maintenance => "Maintenance"@,
            StationState::Updating => "Updating"@,
        }
    }

    /// The variant's name as text.
    pub fn debug_name(&self) -> (s: &'static str)
        ensures
            s@ == self.name(),
    {
        match self {
            StationState::Offline => "Offline",
            StationState::Booted => "Booted",
            StationState::Enabled => "Enabled",
            StationState::Disabled => "Disabled",
            StationState::Faulted => "Faulted",
            StationState::Maintenance => "Maintenance",
            StationState::Updating => "Updating",
        }
    }
}

/// Protocol spoken by a station.
#[derive(Debug, Clone)]
pub struct ProtocolInfo {
    /// Protocol.
    pub name: ProtocolName,
    /// Version.
    pub version: String,
    /// Transport.
    pub transport: TransportType,
    /// Security profile.
    pub security_profile: String,
}

/// Protocol family.
#[derive(Debug, Clone, Copy, PartialEq, Eq, Structural)]
pub enum ProtocolName {
    /// OCPP.
    OCPP,
    /// ISO 15118.
    ISO15118,
    /// OCPI.
    OCPI,
    /// Vendor-specific.
    Vendor,
    /// Unknown.
    Unknown,
}

/// Transport of a protocol.
#[derive(Debug, Clone, Copy, PartialEq, Eq, Structural)]
pub enum TransportType {
    /// WebSocket.
    WebSocket,
    /// HTTP.
    HTTP,
    /// HTTPS.
    HTTPS,
    /// TCP.
    TCP,
    /// MQTT.
    MQTT,
    /// Other.
    Other,
}

/// Kind of network link.
#[derive(Debug, Clone, PartialEq, Eq)]
pub enum NetworkType {
    /// Ethernet.
    Ethernet,
    /// Wi-Fi.
    WiFi,
    /// Cellular.
    Cellular,
    /// Another kind, by name.
    Other(String),
}

/// Network configuration of a station.
#[derive(Debug, Clone)]
pub struct NetworkConfig {
    /// IP address.
    pub ip_address: Option<String>,
    /// MAC address.
    pub mac_address: Option<String>,
    /// Gateway.
    pub gateway: Option<String>,
    /// DNS servers.
    pub dns_servers: Vec<String>,
    /// Link kind.
    pub network_type: NetworkType,
}

impl Default for NetworkConfig {
    /// Ethernet, with nothing configured.
    fn default() -> (c: Self)
        ensures
            c.ip_address is None && c.mac_address is None && c.gateway is None,
            c.dns_servers@.len() == 0,
            c.network_type == NetworkType::Ethernet,
    {
        NetworkConfig {
            ip_address: None,
            mac_address: None,
            gateway: None,
            dns_servers: Vec::new(),
            network_type: NetworkType::Ethernet,
        }
    }
}

/// Security profile of a station.
#[derive(Debug, Clone, Copy, PartialEq, Eq, Structural)]
pub enum SecurityProfile {
    /// Basic authentication.
    Basic,
    /// TLS.
    TLS,
    /// TLS with client certificates.
    TLSWithCertificates,
    /// Advanced.
    Advanced,
}

/// A certificate.
#[derive(Debug, Clone)]
pub struct CertificateInfo {
    /// Issuer.
    pub issuer: String,
    /// Subject.
    pub subject: String,
    /// Start of validity.
    pub valid_from: Timestamp,
    /// End of validity.
    pub valid_to: Timestamp,
    /// Serial number.
    pub serial_number: String,
}

/// Security configuration of a station.
#[derive(Debug, Clone)]
pub struct SecurityConfig {
    /// TLS on.
    pub tls_enabled: bool,
    /// TLS version.
    pub tls_version: Option<String>,
    /// Profile.
    pub security_profile: SecurityProfile,
    /// Certificate.
    pub certificate_info: Option<CertificateInfo>,
}

impl Default for SecurityConfig {
    /// Basic profile without TLS.
    fn default() -> (c: Self)
        ensures
            !c.tls_enabled && c.tls_version is None && c.certificate_info is None,
            c.security_profile == SecurityProfile::Basic,
    {
        SecurityConfig { tls_enabled: false, tls_version: None, security_profile: SecurityProfile::Basic, certificate_info: None }
    }
}

/// Configuration of a station.
#[derive(Debug, Clone)]
pub struct StationConfiguration {
    /// Maximum power.
    pub max_power: Option<Power>,
    /// Number of connectors.
    pub connector_count: u8,
    /// Connector types.
    pub connector_types: Vec<ConnectorType>,
    /// Network.
    pub network: NetworkConfig,
    /// Security.
    pub security: SecurityConfig,
}

impl Default for StationConfiguration {
    /// Nothing configured.
    fn default() -> (c: Self)
        ensures
            c.max_power is None && c.connector_count == 0 && c.connector_types@.len() == 0,
            c.network.network_type == NetworkType::Ethernet && c.network.dns_servers@.len() == 0,
            c.security.security_profile == SecurityProfile::Basic && !c.security.tls_enabled,
    {
        StationConfiguration {
            max_power: None,
            connector_count: 0,
            connector_types: Vec::new(),
            network: NetworkConfig::default(),
            security: SecurityConfig::default(),
        }
    }
}

/// Geographic position, each coordinate the bit pattern of an `f64`.
#[derive(Debug, Clone, Copy, PartialEq, Eq, Structural)]
pub struct GeoLocation {
    /// Latitude.
    pub latitude: F64Bits,
    /// Longitude.
    pub longitude: F64Bits,
    /// Altitude.
    pub altitude: Option<F64Bits>,
}

/// Postal address.
#[derive(Debug, Clone)]
pub struct Address {
    /// Street.
    pub street: String,
    /// City.
    pub city: String,
    /// State.
    pub state: Option<String>,
    /// Postal code.
    pub postal_code: Option<String>,
    /// Country.
    pub country: String,
}

/// A charging station.
#[derive(Debug)]
pub struct ChargingStation {
    /// Identifier (the OCPP charge point id).
    pub id: StationId,
    /// Vendor.
    pub vendor: String,
    /// Model.
    pub model: String,
    /// Serial number.
    pub serial_number: Option<String>,
    /// Firmware version.
    pub firmware_version: Option<String>,
    /// State.
    pub state: StationState,
    /// Protocol.
    pub protocol: ProtocolInfo,
    /// EVSEs.
    pub evses: Vec<EVSE>,
    /// Capabilities.
    pub capabilities: Capabilities,
    /// Position.
    pub location: Option<GeoLocation>,
    /// Address.
    pub address: Option<Address>,
    /// Last heartbeat.
    pub last_heartbeat: Option<Timestamp>,
    /// Boot time.
    pub boot_time: Option<Timestamp>,
    /// Further data.
    pub metadata: Vec<(String, JsonValue)>,
    /// Configuration.
    pub configuration: StationConfiguration,
}

/// Number of connectors of a list of EVSEs.
pub open spec fn connector_total(evses: Seq<EVSE>) -> nat
    decreases evses.len(),
{
    if evses.len() == 0 {
        0
    } else {
        connector_total(evses.drop_last()) + evses.last().connectors@.len()
    }
}

/// `i` is the first EVSE with identifier `id`.
pub open spec fn first_evse(es: Seq<EVSE>, id: Seq<char>, i: int) -> bool {
    0 <= i < es.len() && es[i].id.0@ == id && forall|j: int| 0 <= j < i ==> (#[trigger] es[j]).id.0@ != id
}

/// No EVSE has identifier `id`.
pub open spec fn lacks_evse(es: Seq<EVSE>, id: Seq<char>) -> bool {
    forall|j: int| 0 <= j < es.len() ==> (#[trigger] es[j]).id.0@ != id
}

/// `i` is the first EVSE holding a connector with identifier `id`.
pub open spec fn first_evse_with_connector(es: Seq<EVSE>, id: Seq<char>, i: int) -> bool {
    0 <= i < es.len() && !lacks_connector(es[i].connectors@, id)
        && forall|j: int| 0 <= j < i ==> lacks_connector((#[trigger] es[j]).connectors@, id)
}

/// The position of the first EVSE with identifier `id`.
fn find_evse(es: &Vec<EVSE>, id: &str) -> (r: Option<usize>)
    ensures
        match r {
            Some(i) => first_evse(es@, id@, i as int),
            None => lacks_evse(es@, id@),
        },
{
    let mut i: usize = 0;
    while i < es.len()
        invariant
            i <= es.len(),
            forall|j: int| 0 <= j < i ==> (#[trigger] es@[j]).id.0@ != id@,
        decreases es.len() - i,
    {
        if str_eq(es[i].id.0.as_str(), id) {
            return Some(i);
        }
        i = i + 1;
    }
    None
}

/// The position of the first EVSE holding connector `id`, and of the connector in it.
fn find_evse_connector(es: &Vec<EVSE>, id: &str) -> (r: Option<(usize, usize)>)
    ensures
        match r {
            Some((i, k)) => first_evse_with_connector(es@, id@, i as int)
                && first_connector(es@[i as int].connectors@, id@, k as int),
            None => forall|j: int| 0 <= j < es@.len() ==> lacks_connector((#[trigger] es@[j]).connectors@, id@),
        },
{
    let mut i: usize = 0;
    while i < es.len()
        invariant
            i <= es.len(),
            forall|j: int| 0 <= j < i ==> lacks_connector((#[trigger] es@[j]).connectors@, id@),
        decreases es.len() - i,
    {
        match crate::ir::evse::find_connector(&es[i].connectors, id) {
            Some(k) => {
                return Some((i, k));
            },
            None => {},
        }
        i = i + 1;
    }
    None
}

impl ChargingStation {
    /// An offline station speaking OCPP 1.6 over WebSocket with the basic
    /// security profile, with no EVSEs and nothing else known.
    pub fn new(id: StationId, vendor: String, model: String) -> (s: Self)
        ensures
            s.id == id && s.vendor == vendor && s.model == model,
            s.serial_number is None && s.firmware_version is None,
            s.state == StationState::Offline,
            s.protocol.name == ProtocolName::OCPP,
            s.protocol.version@ == "1.6"@,
            s.protocol.transport == TransportType::WebSocket,
            s.protocol.security_profile@ == "Basic"@,
            s.evses@.len() == 0,
            s.capabilities.inv(),
            forall|k: CapabilityType| !s.capabilities.contains(k),
            s.location is None && s.address is None,
            s.last_heartbeat is None && s.boot_time is None,
            s.metadata@.len() == 0,
            s.configuration.max_power is None && s.configuration.connector_count == 0,
    {
        ChargingStation {
            id,
            vendor,
            model,
            serial_number: None,
            firmware_version: None,
            state: StationState::Offline,
            protocol: ProtocolInfo {
                name: ProtocolName::OCPP,
                version: "1.6".to_owned(),
                transport: TransportType::WebSocket,
                security_profile: "Basic".to_owned(),
            },
            evses: Vec::new(),
            capabilities: Capabilities::new(),
            location: None,
            address: None,
            last_heartbeat: None,
            boot_time: None,
            metadata: Vec::new(),
            configuration: StationConfiguration::default(),
        }
    }

    /// Appends an EVSE.
    pub fn add_evse(&mut self, evse: EVSE)
        ensures
            final(self).evses@ == old(self).evses@.push(evse),
            final(self).id == old(self).id,
            final(self).state == old(self).state,
    {
        self.evses.push(evse);
    }

    /// The first EVSE with identifier `id`.
    pub fn get_evse(&self, id: &str) -> (r: Option<&EVSE>)
        ensures
            match r {
                Some(e) => exists|i: int| first_evse(self.evses@, id@, i) && *e == self.evses@[i],
                None => lacks_evse(self.evses@, id@),
            },
    {
        match find_evse(&self.evses, id) {
            Some(i) => Some(&self.evses[i]),
            None => None,
        }
    }

    /// The first EVSE with identifier `id`, for changing it.
    pub fn get_evse_mut(&mut self, id: &str) -> (r: Option<&mut EVSE>)
        ensures
            match r {
                Some(e) => exists|i: int| first_evse(old(self).evses@, id@, i)
                    && *e == old(self).evses@[i]
                    && final(self).evses@ == old(self).evses@.update(i, *final(e))
                    && final(self).id == old(self).id,
                None => lacks_evse(old(self).evses@, id@) && *final(self) == *old(self),
            },
    {
        match find_evse(&self.evses, id) {
            Some(i) => {
                let ghost ii = i as int;
                assert(first_evse(old(self).evses@, id@, ii));
                Some(&mut self.evses[i])
            },
            None => None,
        }
    }

    /// The first connector with identifier `connector_id`, looking through
    /// the EVSEs in order.
    pub fn get_connector(&self, connector_id: &str) -> (r: Option<&Connector>)
        ensures
            match r {
                Some(c) => exists|i: int, k: int| first_evse_with_connector(self.evses@, connector_id@, i)
                    && first_connector(self.evses@[i].connectors@, connector_id@, k)
                    && *c == self.evses@[i].connectors@[k],
                None => forall|j: int| 0 <= j < self.evses@.len() ==> lacks_connector((#[trigger] self.evses@[j]).connectors@, connector_id@),
            },
    {
        match find_evse_connector(&self.evses, connector_id) {
            Some((i, k)) => Some(&self.evses[i].connectors[k]),
            None => None,
        }
    }

    /// The first connector with identifier `connector_id`, for changing it.
    pub fn get_connector_mut(&mut self, connector_id: &str) -> (r: Option<&mut Connector>)
        ensures
            match r {
                Some(c) => exists|i: int, k: int| first_evse_with_connector(old(self).evses@, connector_id@, i)
                    && first_connector(old(self).evses@[i].connectors@, connector_id@, k)
                    && *c == old(self).evses@[i].connectors@[k]
                    && final(self).evses@[i].connectors@ == old(self).evses@[i].connectors@.update(k, *final(c))
                    && final(self).evses@[i] == (EVSE { connectors: final(self).evses@[i].connectors, ..old(self).evses@[i] })
                    && final(self).evses@.len() == old(self).evses@.len()
                    && (forall|j: int| 0 <= j < old(self).evses@.len() && j != i ==> #[trigger] final(self).evses@[j] == old(self).evses@[j])
                    && *final(self) == (ChargingStation { evses: final(self).evses, ..*old(self) }),
                None => (forall|j: int| 0 <= j < old(self).evses@.len() ==> lacks_connector((#[trigger] old(self).evses@[j]).connectors@, connector_id@))
                    && *final(self) == *old(self),
            },
    {
        match find_evse_connector(&self.evses, connector_id) {
            Some((i, k)) => {
                let ghost ii = i as int;
                let ghost kk = k as int;
                assert(first_evse_with_connector(old(self).evses@, connector_id@, ii));
                Some(&mut self.evses[i].connectors[k])
            },
            None => None,
        }
    }

    /// Whether the station has a capability.
    pub fn has_capability(&self, capability: CapabilityType) -> (b: bool)
        ensures
            b == self.capabilities.contains(capability),
    {
        self.capabilities.has(capability)
    }

    /// Number of connectors over all EVSEs.
    pub fn total_connectors(&self) -> (n: usize)
        requires
            connector_total(self.evses@) <= usize::MAX,
        ensures
            n == connector_total(self.evses@),
    {
        let mut n: usize = 0;
        let mut i: usize = 0;
        while i < self.evses.len()
            invariant
                i <= self.evses.len(),
                n == connector_total(self.evses@.take(i as int)),
                connector_total(self.evses@) <= usize::MAX,
            decreases self.evses.len() - i,
        {
            assert(self.evses@.take(i + 1).drop_last() =~= self.evses@.take(i as int));
            proof {
                lemma_connector_total_prefix(self.evses@, i as int + 1);
            }
            n = n + self.evses[i].connectors.len();
            i = i + 1;
        }
        assert(self.evses@.take(self.evses.len() as int) =~= self.evses@);
        n
    }
}

/// A prefix has no more connectors than the whole list.
pub proof fn lemma_connector_total_prefix(es: Seq<EVSE>, k: int)
    requires
        0 <= k <= es.len(),
    ensures
        connector_total(es.take(k)) <= connector_total(es),
    decreases es.len(),
{
    if k < es.len() {
        assert(es.drop_last().take(k) =~= es.take(k));
        lemma_connector_total_prefix(es.drop_last(), k);
    } else {
        assert(es.take(k) =~= es);
    }
}

} // verus!
