//! Charging networks: a charge point operator's fleet of stations.
use vstd::prelude::*;
use crate::core_types::{Timestamp, now};
use crate::ir::capability::{Capabilities, CapabilityType};
use crate::ir::ids::StationId;
use crate::ir::station::{ChargingStation, connector_total};
use crate::ocpp::json::JsonValue;
use crate::text::str_eq;

verus! {

/// Status of a network.
#[derive(Debug, Clone, Copy, PartialEq, Eq, Structural)]
pub enum NetworkStatus {
    /// In service.
    Active,
    /// Under maintenance.
    Maintenance,
    /// Partly out of service.
    Degraded,
    /// Out of service.
    Inactive,
}

/// A network of charging stations.
#[derive(Debug)]
pub struct ChargingNetwork {
    /// Identifier.
    pub id: String,
    /// Name.
    pub name: String,
    /// Operator.
    pub operator: String,
    /// Stations.
    pub stations: Vec<ChargingStation>,
    /// Capabilities.
    pub capabilities: Capabilities,
    /// Status.
    pub status: NetworkStatus,
    /// Creation time.
    pub created_at: Timestamp,
    /// Last change.
    pub updated_at: Timestamp,
    /// Further data.
    pub metadata: Vec<(String, JsonValue)>,
}

/// `i` is the first station with identifier `id`.
pub open spec fn first_station(ss: Seq<ChargingStation>, id: Seq<char>, i: int) -> bool {
    0 <= i < ss.len() && ss[i].id.0@ == id && forall|j: int| 0 <= j < i ==> (#[trigger] ss[j]).id.0@ != id
}

/// No station has identifier `id`.
pub open spec fn lacks_station(ss: Seq<ChargingStation>, id: Seq<char>) -> bool {
    forall|j: int| 0 <= j < ss.len() ==> (#[trigger] ss[j]).id.0@ != id
}

/// Number of connectors over all stations.
pub open spec fn network_connectors(ss: Seq<ChargingStation>) -> nat
    decreases ss.len(),
{
    if ss.len() == 0 {
        0
    } else {
        network_connectors(ss.drop_last()) + connector_total(ss.last().evses@)
    }
}

/// Number of EVSEs over all stations.
pub open spec fn network_evses(ss: Seq<ChargingStation>) -> nat
    decreases ss.len(),
{
    if ss.len() == 0 {
        0
    } else {
        network_evses(ss.drop_last()) + ss.last().evses@.len()
    }
}

fn find_station(ss: &Vec<ChargingStation>, id: &StationId) -> (r: Option<usize>)
    ensures
        match r {
            Some(i) => first_station(ss@, id.0@, i as int),
            None => lacks_station(ss@, id.0@),
        },
{
    let mut i: usize = 0;
    while i < ss.len()
        invariant
            i <= ss.len(),
            forall|j: int| 0 <= j < i ==> (#[trigger] ss@[j]).id.0@ != id.0@,
        decreases ss.len() - i,
    {
        if str_eq(ss[i].id.0.as_str(), id.0.as_str()) {
            return Some(i);
        }
        i = i + 1;
    }
    None
}

/// A prefix has no more connectors than the whole list.
proof fn lemma_network_connectors_prefix(ss: Seq<ChargingStation>, k: int)
    requires
        0 <= k <= ss.len(),
    ensures
        network_connectors(ss.take(k)) <= network_connectors(ss),
    decreases ss.len(),
{
    if k < ss.len() {
        assert(ss.drop_last().take(k) =~= ss.take(k));
        lemma_network_connectors_prefix(ss.drop_last(), k);
    } else {
        assert(ss.take(k) =~= ss);
    }
}

/// A prefix has no more EVSEs than the whole list.
proof fn lemma_network_evses_prefix(ss: Seq<ChargingStation>, k: int)
    requires
        0 <= k <= ss.len(),
    ensures
        network_evses(ss.take(k)) <= network_evses(ss),
    decreases ss.len(),
{
    if k < ss.len() {
        assert(ss.drop_last().take(k) =~= ss.take(k));
        lemma_network_evses_prefix(ss.drop_last(), k);
    } else {
        assert(ss.take(k) =~= ss);
    }
}

impl ChargingNetwork {
    /// An active network with no stations, created now.
    pub fn new(id: String, name: String, operator: String) -> (n: Self)
        ensures
            n.id == id && n.name == name && n.operator == operator,
            n.stations@.len() == 0,
            n.capabilities.inv(),
            forall|k: CapabilityType| !n.capabilities.contains(k),
            n.status == NetworkStatus::Active,
            n.created_at == n.updated_at,
            n.metadata@.len() == 0,
    {
        let t = now();
        ChargingNetwork {
            id,
            name,
            operator,
            stations: Vec::new(),
            capabilities: Capabilities::new(),
            status: NetworkStatus::Active,
            created_at: t,
            updated_at: t,
            metadata: Vec::new(),
        }
    }

    /// Appends a station.
    pub fn add_station(&mut self, station: ChargingStation)
        ensures
            final(self).stations@ == old(self).stations@.push(station),
            final(self).id == old(self).id,
            final(self).status == old(self).status,
            final(self).created_at == old(self).created_at,
    {
        self.stations.push(station);
        self.updated_at = now();
    }

    /// The first station with identifier `id`.
    pub fn get_station(&self, id: &StationId) -> (r: Option<&ChargingStation>)
        ensures
            match r {
                Some(s) => exists|i: int| first_station(self.stations@, id.0@, i) && *s == self.stations@[i],
                None => lacks_station(self.stations@, id.0@),
            },
    {
        match find_station(&self.stations, id) {
            Some(i) => Some(&self.stations[i]),
            None => None,
        }
    }

    /// The first station with identifier `id`, for changing it.
    pub fn get_station_mut(&mut self, id: &StationId) -> (r: Option<&mut ChargingStation>)
        ensures
            match r {
                Some(s) => exists|i: int| first_station(old(self).stations@, id.0@, i)
                    && *s == old(self).stations@[i]
                    && final(self).stations@ == old(self).stations@.update(i, *final(s))
                    && final(self).id == old(self).id,
                None => lacks_station(old(self).stations@, id.0@) && *final(self) == *old(self),
            },
    {
        match find_station(&self.stations, id) {
            Some(i) => {
                let ghost ii = i as int;
                assert(first_station(old(self).stations@, id.0@, ii));
                Some(&mut self.stations[i])
            },
            None => None,
        }
    }

    /// Removes and returns the first station with identifier `id`.
    pub fn remove_station(&mut self, id: &StationId) -> (r: Option<ChargingStation>)
        ensures
            match r {
                Some(s) => exists|i: int| first_station(old(self).stations@, id.0@, i)
                    && s == old(self).stations@[i]
                    && final(self).stations@ == old(self).stations@.remove(i),
                None => lacks_station(old(self).stations@, id.0@) && final(self).stations@ == old(self).stations@,
            },
            final(self).id == old(self).id,
            final(self).created_at == old(self).created_at,
    {
        match find_station(&self.stations, id) {
            Some(i) => {
                self.updated_at = now();
                Some(self.stations.remove(i))
            },
            None => None,
        }
    }

    /// Number of connectors over all stations.
    pub fn total_connectors(&self) -> (n: usize)
        requires
            network_connectors(self.stations@) <= usize::MAX,
        ensures
            n == network_connectors(self.stations@),
    {
        let mut n: usize = 0;
        let mut i: usize = 0;
        while i < self.stations.len()
            invariant
                i <= self.stations.len(),
                n == network_connectors(self.stations@.take(i as int)),
                network_connectors(self.stations@) <= usize::MAX,
            decreases self.stations.len() - i,
        {
            assert(self.stations@.take(i + 1).drop_last() =~= self.stations@.take(i as int));
            proof {
                lemma_network_connectors_prefix(self.stations@, i as int + 1);
            }
            n = n + self.stations[i].total_connectors();
            i = i + 1;
        }
        assert(self.stations@.take(self.stations.len() as int) =~= self.stations@);
        n
    }

    /// Number of EVSEs over all stations.
    pub fn total_evses(&self) -> (n: usize)
        requires
            network_evses(self.stations@) <= usize::MAX,
        ensures
            n == network_evses(self.stations@),
    {
        let mut n: usize = 0;
        let mut i: usize = 0;
        while i < self.stations.len()
            invariant
                i <= self.stations.len(),
                n == network_evses(self.stations@.take(i as int)),
                network_evses(self.stations@) <= usize::MAX,
            decreases self.stations.len() - i,
        {
            assert(self.stations@.take(i + 1).drop_last() =~= self.stations@.take(i as int));
            proof {
                lemma_network_evses_prefix(self.stations@, i as int + 1);
            }
            n = n + self.stations[i].evses.len();
            i = i + 1;
        }
        assert(self.stations@.take(self.stations.len() as int) =~= self.stations@);
        n
    }
}

} // verus!
