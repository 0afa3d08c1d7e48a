//! Capabilities of stations, EVSEs and connectors.
use vstd::prelude::*;
use crate::ocpp::json::JsonValue;

verus! {

/// A capability.
#[allow(non_camel_case_types)]
#[derive(Debug, Clone, Copy, PartialEq, Eq, Structural, Hash, PartialOrd, Ord)]
pub enum CapabilityType {
    /// `SmartCharging`.
    SmartCharging,
    /// `V2G`.
    V2G,
    /// `V2H`.
    V2H,
    /// `Bidirectional`.
    Bidirectional,
    /// `LoadBalancing`.
    LoadBalancing,
    /// `OCPP1_6`.
    OCPP1_6,
    /// `OCPP2_0_1`.
    OCPP2_0_1,
    /// `OCPP2_1`.
    OCPP2_1,
    /// `ISO15118`.
    ISO15118,
    /// `ISO15118_20`.
    ISO15118_20,
    /// `OCPI`.
    OCPI,
    /// `VendorProtocol`.
    VendorProtocol,
    /// `PlugAndCharge`.
    PlugAndCharge,
    /// `BasicAuthentication`.
    BasicAuthentication,
    /// `TLSAuthentication`.
    TLSAuthentication,
    /// `CertificateManagement`.
    CertificateManagement,
    /// `RemoteFirmwareUpdate`.
    RemoteFirmwareUpdate,
    /// `RemoteDiagnostics`.
    RemoteDiagnostics,
    /// `RemoteReset`.
    RemoteReset,
    /// `SelfTest`.
    SelfTest,
    /// `DisplayMessaging`.
    DisplayMessaging,
    /// `Reservation`.
    Reservation,
    /// `RFIDAuthorization`.
    RFIDAuthorization,
    /// `PINAuthorization`.
    PINAuthorization,
    /// `BidirectionalMetering`.
    BidirectionalMetering,
    /// `SignedMetering`.
    SignedMetering,
    /// `RealTimeMetering`.
    RealTimeMetering,
    /// `TariffManagement`.
    TariffManagement,
    /// `ExternalConstraints`.
    ExternalConstraints,
    /// `LocalGeneration`.
    LocalGeneration,
    /// `Scheduling`.
    Scheduling,
    /// `PriorityCharging`.
    PriorityCharging,
    /// `EnergyManagement`.
    EnergyManagement,
    /// `OCPIRoaming`.
    OCPIRoaming,
}

/// Whether `params` has an entry for `c`.
pub open spec fn has_param(params: Seq<(CapabilityType, JsonValue)>, c: CapabilityType) -> bool {
    exists|i: int| 0 <= i < params.len() && (#[trigger] params[i]).0 == c
}

/// The value of the entry for `c` in `params`.
pub open spec fn param_lookup(params: Seq<(CapabilityType, JsonValue)>, c: CapabilityType) -> Option<JsonValue> {
    if has_param(params, c) {
        Some(params[choose|i: int| 0 <= i < params.len() && (#[trigger] params[i]).0 == c].1)
    } else {
        None
    }
}

/// Keys of `params` are distinct.
pub open spec fn keys_distinct(params: Seq<(CapabilityType, JsonValue)>) -> bool {
    forall|i: int, j: int| 0 <= i < j < params.len() ==> (#[trigger] params[i]).0 != (#[trigger] params[j]).0
}

/// With distinct keys, the entry at `i` is the one looked up for its key.
proof fn lemma_lookup_at(params: Seq<(CapabilityType, JsonValue)>, i: int)
    requires
        keys_distinct(params),
        0 <= i < params.len(),
    ensures
        param_lookup(params, params[i].0) == Some(params[i].1),
{
    let c = params[i].0;
    assert(has_param(params, c));
    let k = choose|k: int| 0 <= k < params.len() && (#[trigger] params[k]).0 == c;
    if k < i {
        assert(params[k].0 != params[i].0);
    } else if k > i {
        assert(params[i].0 != params[k].0);
    }
}

/// A set of capabilities, with a parameter for some of them.
#[derive(Debug)]
pub struct Capabilities {
    capabilities: Vec<CapabilityType>,
    parameters: Vec<(CapabilityType, JsonValue)>,
}

impl Capabilities {
    /// No capability occurs twice, and no capability has two parameters.
    pub closed spec fn inv(&self) -> bool {
        &&& forall|i: int, j: int| 0 <= i < j < self.capabilities@.len()
            ==> #[trigger] self.capabilities@[i] != #[trigger] self.capabilities@[j]
        &&& keys_distinct(self.parameters@)
    }

    /// Whether capability `c` is in the set.
    pub closed spec fn contains(&self, c: CapabilityType) -> bool {
        self.capabilities@.contains(c)
    }

    /// The parameter stored for capability `c`.
    pub closed spec fn parameter(&self, c: CapabilityType) -> Option<JsonValue> {
        param_lookup(self.parameters@, c)
    }

    /// The empty set, with no parameters.
    pub fn new() -> (caps: Self)
        ensures
            caps.inv(),
            forall|c: CapabilityType| !caps.contains(c),
            forall|c: CapabilityType| caps.parameter(c) is None,
    {
        Capabilities { capabilities: Vec::new(), parameters: Vec::new() }
    }

    /// The set holding `capability` alone.
    pub fn single(capability: CapabilityType) -> (caps: Self)
        ensures
            caps.inv(),
            forall|c: CapabilityType| caps.contains(c) <==> c == capability,
            forall|c: CapabilityType| caps.parameter(c) is None,
    {
        let mut v: Vec<CapabilityType> = Vec::new();
        v.push(capability);
        proof {
            assert forall|c: CapabilityType| v@.contains(c) <==> c == capability by {
                if c == capability {
                    assert(v@[0] == c);
                }
            }
        }
        Capabilities { capabilities: v, parameters: Vec::new() }
    }

    /// The position of `capability` in the set's list.
    fn find_capability(&self, capability: CapabilityType) -> (r: Option<usize>)
        ensures
            match r {
                Some(i) => i < self.capabilities@.len() && self.capabilities@[i as int] == capability,
                None => !self.capabilities@.contains(capability),
            },
    {
        let mut i: usize = 0;
        while i < self.capabilities.len()
            invariant
                i <= self.capabilities.len(),
                forall|j: int| 0 <= j < i ==> self.capabilities@[j] != capability,
            decreases self.capabilities.len() - i,
        {
            if self.capabilities[i] == capability {
                return Some(i);
            }
            i = i + 1;
        }
        None
    }

    /// Adds a capability.
    pub fn add(&mut self, capability: CapabilityType)
        requires
            old(self).inv(),
        ensures
            final(self).inv(),
            forall|c: CapabilityType| final(self).contains(c) <==> (old(self).contains(c) || c == capability),
            forall|c: CapabilityType| final(self).parameter(c) == old(self).parameter(c),
    {
        if self.find_capability(capability).is_none() {
            let ghost before = self.capabilities@;
            self.capabilities.push(capability);
            proof {
                let after = self.capabilities@;
                assert forall|c: CapabilityType| after.contains(c) <==> (before.contains(c) || c == capability) by {
                    if before.contains(c) {
                        let k = choose|k: int| 0 <= k < before.len() && before[k] == c;
                        assert(after[k] == c);
                    }
                    if c == capability {
                        assert(after[before.len() as int] == c);
                    }
                    if after.contains(c) {
                        let k = choose|k: int| 0 <= k < after.len() && after[k] == c;
                        if k < before.len() {
                            assert(before[k] == c);
                        }
                    }
                }
                assert forall|i: int, j: int| 0 <= i < j < after.len() implies #[trigger] after[i] != #[trigger] after[j] by {
                    if j == before.len() {
                        assert(before[i] == after[i]);
                    } else {
                        assert(before[i] != before[j]);
                    }
                }
            }
        }
    }

    /// Removes a capability.
    pub fn remove(&mut self, capability: CapabilityType)
        requires
            old(self).inv(),
        ensures
            final(self).inv(),
            forall|c: CapabilityType| final(self).contains(c) <==> (old(self).contains(c) && c != capability),
            forall|c: CapabilityType| final(self).parameter(c) == old(self).parameter(c),
    {
        match self.find_capability(capability) {
            Some(i) => {
                let ghost before = self.capabilities@;
                self.capabilities.remove(i);
                proof {
                    let after = self.capabilities@;
                    assert(after =~= before.remove(i as int));
                    assert forall|c: CapabilityType| after.contains(c) <==> (before.contains(c) && c != capability) by {
                        if before.contains(c) && c != capability {
                            let k = choose|k: int| 0 <= k < before.len() && before[k] == c;
                            if k < i {
                                assert(after[k] == c);
                            } else {
                                assert(k != i);
                                assert(after[k - 1] == c);
                            }
                        }
                        if after.contains(c) {
                            let k = choose|k: int| 0 <= k < after.len() && after[k] == c;
                            if k < i {
                                assert(before[k] == c);
                                assert(before[k] != before[i as int]);
                            } else {
                                assert(before[k + 1] == c);
                                assert(before[i as int] != before[k + 1]);
                            }
                        }
                    }
                    assert forall|x: int, y: int| 0 <= x < y < after.len() implies #[trigger] after[x] != #[trigger] after[y] by {
                        if y < i {
                            assert(before[x] != before[y]);
                        } else if x < i {
                            assert(before[x] != before[y + 1]);
                        } else {
                            assert(before[x + 1] != before[y + 1]);
                        }
                    }
                }
            },
            None => {},
        }
    }

    /// Whether the set holds `capability`.
    pub fn has(&self, capability: CapabilityType) -> (b: bool)
        ensures
            b == self.contains(capability),
    {
        self.find_capability(capability).is_some()
    }

    /// Stores `value` as the parameter of `capability`, replacing any earlier one.
    pub fn add_parameter(&mut self, capability: CapabilityType, value: JsonValue)
        requires
            old(self).inv(),
        ensures
            final(self).inv(),
            final(self).parameter(capability) == Some(value),
            forall|c: CapabilityType| c != capability ==> final(self).parameter(c) == old(self).parameter(c),
            forall|c: CapabilityType| final(self).contains(c) == old(self).contains(c),
    {
        let ghost before = self.parameters@;
        match self.find_parameter(capability) {
            Some(i) => {
                self.parameters.set(i, (capability, value));
                proof {
                    let after = self.parameters@;
                    assert(keys_distinct(after));
                    lemma_lookup_at(after, i as int);
                    assert forall|c: CapabilityType| c != capability implies param_lookup(after, c) == param_lookup(before, c) by {
                        if has_param(before, c) {
                            let k = choose|k: int| 0 <= k < before.len() && (#[trigger] before[k]).0 == c;
                            lemma_lookup_at(before, k);
                            lemma_lookup_at(after, k);
                        }
                        if has_param(after, c) {
                            let k = choose|k: int| 0 <= k < after.len() && (#[trigger] after[k]).0 == c;
                            assert(before[k].0 == c);
                        }
                    }
                }
            },
            None => {
                self.parameters.push((capability, value));
                proof {
                    let after = self.parameters@;
                    assert(keys_distinct(after));
                    lemma_lookup_at(after, before.len() as int);
                    assert forall|c: CapabilityType| c != capability implies param_lookup(after, c) == param_lookup(before, c) by {
                        if has_param(before, c) {
                            let k = choose|k: int| 0 <= k < before.len() && (#[trigger] before[k]).0 == c;
                            lemma_lookup_at(before, k);
                            lemma_lookup_at(after, k);
                        }
                        if has_param(after, c) {
                            let k = choose|k: int| 0 <= k < after.len() && (#[trigger] after[k]).0 == c;
                            assert(k < before.len());
                            assert(before[k].0 == c);
                        }
                    }
                }
            },
        }
    }

    /// The position of the entry for `capability`.
    fn find_parameter(&self, capability: CapabilityType) -> (r: Option<usize>)
        ensures
            match r {
                Some(i) => i < self.parameters@.len() && self.parameters@[i as int].0 == capability,
                None => !has_param(self.parameters@, capability),
            },
    {
        let mut i: usize = 0;
        while i < self.parameters.len()
            invariant
                i <= self.parameters.len(),
                forall|j: int| 0 <= j < i ==> (#[trigger] self.parameters@[j]).0 != capability,
            decreases self.parameters.len() - i,
        {
            if self.parameters[i].0 == capability {
                return Some(i);
            }
            i = i + 1;
        }
        None
    }

    /// The parameter stored for `capability`.
    pub fn get_parameter(&self, capability: CapabilityType) -> (r: Option<&JsonValue>)
        requires
            self.inv(),
        ensures
            r matches Some(v) ==> self.parameter(capability) == Some(*v),
            r is None ==> self.parameter(capability) is None,
    {
        match self.find_parameter(capability) {
            Some(i) => {
                proof { lemma_lookup_at(self.parameters@, i as int); }
                Some(&self.parameters[i].1)
            },
            None => None,
        }
    }
}

/// Removing a capability undoes adding it: after an add of `x` and then a
/// remove of `x`, the set holds what it held before except `x`, and exactly
/// what it held before when `x` was not in it.
pub proof fn law_remove_undoes_add(a: Capabilities, b: Capabilities, c: Capabilities, x: CapabilityType)
    requires
        forall|d: CapabilityType| b.contains(d) <==> (a.contains(d) || d == x),
        forall|d: CapabilityType| c.contains(d) <==> (b.contains(d) && d != x),
    ensures
        forall|d: CapabilityType| c.contains(d) <==> (a.contains(d) && d != x),
        !a.contains(x) ==> forall|d: CapabilityType| c.contains(d) == a.contains(d),
        !c.contains(x),
{
}

/// Adding a capability twice is adding it once.
pub proof fn law_add_idempotent(a: Capabilities, b: Capabilities, c: Capabilities, x: CapabilityType)
    requires
        forall|d: CapabilityType| b.contains(d) <==> (a.contains(d) || d == x),
        forall|d: CapabilityType| c.contains(d) <==> (b.contains(d) || d == x),
    ensures
        forall|d: CapabilityType| c.contains(d) == b.contains(d),
{
}

} // verus!
