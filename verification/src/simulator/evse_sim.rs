//! The simulated EVSE: a station with connectors that run transactions.
use vstd::prelude::*;
use crate::core_types::new_uuid;
use crate::simulator::SimulatorError;
use crate::text::str_eq;

verus! {

/// Configuration of one simulated connector.
#[derive(Debug, Clone)]
pub struct ConnectorConfig {
    /// Connector number.
    pub id: u8,
    /// Plug type.
    pub connector_type: String,
    /// Maximum power (W).
    pub max_power: u64,
}

/// Configuration of the simulated EVSE.
#[derive(Debug, Clone)]
pub struct EvseSimConfig {
    /// Station identifier.
    pub station_id: String,
    /// Vendor.
    pub vendor: String,
    /// Model.
    pub model: String,
    /// Firmware version.
    pub firmware_version: String,
    /// Connectors.
    pub connectors: Vec<ConnectorConfig>,
    /// Maximum power (W).
    pub max_power: u64,
    /// ISO 15118 support.
    pub has_iso15118: bool,
    /// Vehicle-to-grid support.
    pub has_v2g: bool,
}

/// Status of a simulated station.
#[derive(Debug, Clone, Copy, PartialEq, Eq, Structural)]
pub enum StationStatus {
    /// Not connected.
    Offline,
    /// Booted.
    Booted,
    /// In service.
    Enabled,
    /// Out of service.
    Disabled,
    /// Faulted.
    Faulted,
}

/// Status of a simulated connector.
#[derive(Debug, Clone, Copy, PartialEq, Eq, Structural)]
pub enum ConnectorStatus {
    /// Free.
    Available,
    /// Preparing.
    Preparing,
    /// Charging.
    Charging,
    /// Suspended by the EVSE.
    SuspendedEVSE,
    /// Suspended by the EV.
    SuspendedEV,
    /// Finishing.
    Finishing,
    /// Reserved.
    Reserved,
    /// Unavailable.
    Unavailable,
    /// Faulted.
    Faulted,
}

/// A simulated connector.
#[derive(Debug, Clone)]
pub struct Connector {
    /// Connector number.
    pub id: u8,
    /// Plug type.
    pub connector_type: String,
    /// Maximum power (W).
    pub max_power: u64,
    /// Status.
    pub status: ConnectorStatus,
    /// Power being delivered (W).
    pub current_power: u64,
    /// Transaction in progress.
    pub transaction_id: Option<String>,
    /// Meter value when the transaction started (Wh).
    pub meter_start: u64,
    /// Current meter value (Wh).
    pub meter_current: u64,
}

/// A simulated station.
#[derive(Debug, Clone)]
pub struct Station {
    /// Identifier.
    pub id: String,
    /// Vendor.
    pub vendor: String,
    /// Model.
    pub model: String,
    /// Firmware version.
    pub firmware_version: String,
    /// Status.
    pub status: StationStatus,
    /// Connectors.
    pub connectors: Vec<Connector>,
    /// Maximum power (W).
    pub max_power: u64,
    /// ISO 15118 support.
    pub has_iso15118: bool,
    /// Vehicle-to-grid support.
    pub has_v2g: bool,
}

/// `i` is the first connector numbered `id`.
pub open spec fn is_first_connector(cs: Seq<Connector>, id: u8, i: int) -> bool {
    0 <= i < cs.len() && cs[i].id == id && forall|j: int| 0 <= j < i ==> (#[trigger] cs[j]).id != id
}

/// No connector is numbered `id`.
pub open spec fn no_connector(cs: Seq<Connector>, id: u8) -> bool {
    forall|j: int| 0 <= j < cs.len() ==> (#[trigger] cs[j]).id != id
}

/// Finds the first connector numbered `id`.
fn find_connector(cs: &Vec<Connector>, id: u8) -> (r: Option<usize>)
    ensures
        match r {
            Some(i) => is_first_connector(cs@, id, i as int),
            None => no_connector(cs@, id),
        },
{
    let mut i: usize = 0;
    while i < cs.len()
        invariant
            i <= cs.len(),
            forall|j: int| 0 <= j < i ==> (#[trigger] cs@[j]).id != id,
        decreases cs.len() - i,
    {
        if cs[i].id == id {
            return Some(i);
        }
        i = i + 1;
    }
    None
}

/// A fresh connector of the default station.
fn default_connector(id: u8, connector_type: &str, max_power: u64) -> (c: Connector)
    ensures
        c.id == id,
        c.connector_type@ == connector_type@,
        c.max_power == max_power,
        c.status == ConnectorStatus::Available,
        c.current_power == 0,
        c.transaction_id is None,
        c.meter_start == 0,
        c.meter_current == 0,
{
    Connector {
        id,
        connector_type: connector_type.to_owned(),
        max_power,
        status: ConnectorStatus::Available,
        current_power: 0,
        transaction_id: None,
        meter_start: 0,
        meter_current: 0,
    }
}

impl Station {
    /// A booted station with firmware "1.0.0", 50 kW, ISO 15118 but no V2G,
    /// and two idle connectors: 1 (Type2, 22 kW) and 2 (CCS, 50 kW).
    pub fn new(id: String, vendor: String, model: String) -> (r: Result<Station, SimulatorError>)
        ensures
            r matches Ok(s) && {
                &&& s.id == id && s.vendor == vendor && s.model == model
                &&& s.firmware_version@ == "1.0.0"@
                &&& s.status == StationStatus::Booted
                &&& s.max_power == 50000 && s.has_iso15118 && !s.has_v2g
                &&& s.connectors@.len() == 2
                &&& s.connectors@[0].id == 1 && s.connectors@[0].connector_type@ == "Type2"@
                &&& s.connectors@[0].max_power == 22000
                &&& s.connectors@[1].id == 2 && s.connectors@[1].connector_type@ == "CCS"@
                &&& s.connectors@[1].max_power == 50000
                &&& forall|i: int| 0 <= i < 2 ==> {
                    &&& (#[trigger] s.connectors@[i]).status == ConnectorStatus::Available
                    &&& s.connectors@[i].current_power == 0
                    &&& s.connectors@[i].transaction_id is None
                    &&& s.connectors@[i].meter_start == 0
                    &&& s.connectors@[i].meter_current == 0
                }
            },
    {
        let mut connectors: Vec<Connector> = Vec::new();
        connectors.push(default_connector(1, "Type2", 22000));
        connectors.push(default_connector(2, "CCS", 50000));
        Ok(Station {
            id,
            vendor,
            model,
            firmware_version: "1.0.0".to_owned(),
            status: StationStatus::Booted,
            connectors,
            max_power: 50000,
            has_iso15118: true,
            has_v2g: false,
        })
    }

    /// Starts a transaction on the first connector numbered `connector_id`
    /// when it is available: the connector charges under a fresh transaction
    /// identifier with its meter at `meter_start`. Returns that identifier,
    /// or `None` (and changes nothing) when there is no such connector or it
    /// is not available.
    pub fn start_transaction(&mut self, connector_id: u8, meter_start: u64) -> (r: Option<String>)
        ensures
            r is Some <==> exists|i: int| is_first_connector(old(self).connectors@, connector_id, i)
                && old(self).connectors@[i].status == ConnectorStatus::Available,
            r is None ==> final(self).connectors@ == old(self).connectors@,
            forall|i: int| #[trigger] is_first_connector(old(self).connectors@, connector_id, i) && r is Some ==>
                final(self).connectors@ == old(self).connectors@.update(i, Connector {
                    status: ConnectorStatus::Charging,
                    transaction_id: r,
                    meter_start: meter_start,
                    meter_current: meter_start,
                    ..old(self).connectors@[i]
                }),
            final(self).id == old(self).id,
            final(self).status == old(self).status,
    {
        match find_connector(&self.connectors, connector_id) {
            Some(i) => {
                if self.connectors[i].status == ConnectorStatus::Available {
                    let transaction_id = new_uuid();
                    self.connectors[i].status = ConnectorStatus::Charging;
                    self.connectors[i].transaction_id = Some(transaction_id.clone());
                    self.connectors[i].meter_start = meter_start;
                    self.connectors[i].meter_current = meter_start;
                    return Some(transaction_id);
                }
                None
            },
            None => None,
        }
    }

    /// Stops the transaction on the first connector numbered `connector_id`:
    /// the connector becomes available with no transaction and no power, and
    /// its meter value is returned. Returns `None` (and changes nothing) when
    /// there is no such connector or it has no transaction.
    pub fn stop_transaction(&mut self, connector_id: u8) -> (r: Option<u64>)
        ensures
            r is Some <==> exists|i: int| is_first_connector(old(self).connectors@, connector_id, i)
                && old(self).connectors@[i].transaction_id is Some,
            r is None ==> final(self).connectors@ == old(self).connectors@,
            forall|i: int| #[trigger] is_first_connector(old(self).connectors@, connector_id, i) && r is Some ==> {
                &&& r == Some(old(self).connectors@[i].meter_current)
                &&& final(self).connectors@ == old(self).connectors@.update(i, Connector {
                    status: ConnectorStatus::Available,
                    transaction_id: None,
                    current_power: 0,
                    ..old(self).connectors@[i]
                })
            },
            final(self).id == old(self).id,
            final(self).status == old(self).status,
    {
        match find_connector(&self.connectors, connector_id) {
            Some(i) => {
                if self.connectors[i].transaction_id.is_some() {
                    let meter_stop = self.connectors[i].meter_current;
                    self.connectors[i].status = ConnectorStatus::Available;
                    self.connectors[i].transaction_id = None;
                    self.connectors[i].current_power = 0;
                    return Some(meter_stop);
                }
                None
            },
            None => None,
        }
    }

    /// Adds `energy` (Wh) to the meter of the first connector numbered
    /// `connector_id`; nothing happens when there is none.
    pub fn update_meter(&mut self, connector_id: u8, energy: u64)
        requires
            forall|i: int| #[trigger] is_first_connector(old(self).connectors@, connector_id, i)
                ==> old(self).connectors@[i].meter_current + energy <= u64::MAX,
        ensures
            no_connector(old(self).connectors@, connector_id) ==> final(self).connectors@ == old(self).connectors@,
            forall|i: int| #[trigger] is_first_connector(old(self).connectors@, connector_id, i) ==>
                final(self).connectors@ == old(self).connectors@.update(i, Connector {
                    meter_current: (old(self).connectors@[i].meter_current + energy) as u64,
                    ..old(self).connectors@[i]
                }),
            final(self).id == old(self).id,
            final(self).status == old(self).status,
    {
        match find_connector(&self.connectors, connector_id) {
            Some(i) => {
                let m = self.connectors[i].meter_current;
                self.connectors[i].meter_current = m + energy;
            },
            None => {},
        }
    }
}

/// The simulated EVSE.
#[derive(Debug)]
pub struct EvseSimulator {
    /// Configuration.
    pub config: EvseSimConfig,
    /// Stations.
    pub stations: Vec<Station>,
}

impl EvseSimulator {
    /// A simulator with one default station named after the configuration.
    pub fn new(config: EvseSimConfig) -> (r: Result<EvseSimulator, SimulatorError>)
        ensures
            r matches Ok(sim) && sim.stations@.len() == 1 && sim.stations@[0].id@ == config.station_id@
                && sim.stations@[0].vendor@ == config.vendor@ && sim.stations@[0].model@ == config.model@
                && sim.stations@[0].status == StationStatus::Booted,
    {
        let station = match Station::new(config.station_id.clone(), config.vendor.clone(), config.model.clone()) {
            Ok(s) => s,
            Err(e) => {
                return Err(e);
            },
        };
        let mut stations: Vec<Station> = Vec::new();
        stations.push(station);
        Ok(EvseSimulator { config, stations })
    }

    /// The first station named `id`.
    pub fn get_station(&self, id: &str) -> (r: Option<&Station>)
        ensures
            match r {
                Some(s) => exists|i: int| 0 <= i < self.stations@.len() && *s == self.stations@[i]
                    && s.id@ == id@ && forall|j: int| 0 <= j < i ==> (#[trigger] self.stations@[j]).id@ != id@,
                None => forall|j: int| 0 <= j < self.stations@.len() ==> (#[trigger] self.stations@[j]).id@ != id@,
            },
    {
        let mut i: usize = 0;
        while i < self.stations.len()
            invariant
                i <= self.stations.len(),
                forall|j: int| 0 <= j < i ==> (#[trigger] self.stations@[j]).id@ != id@,
            decreases self.stations.len() - i,
        {
            if str_eq(self.stations[i].id.as_str(), id) {
                return Some(&self.stations[i]);
            }
            i = i + 1;
        }
        None
    }
}

} // verus!
