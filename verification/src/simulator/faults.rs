//! Fault injection.
use vstd::prelude::*;

verus! {

/// Kinds of fault the simulator can inject.
#[derive(Debug, Clone, Copy, PartialEq, Eq, Structural)]
pub enum FaultType {
    /// `NetworkDisconnect`.
    NetworkDisconnect,
    /// `NetworkTimeout`.
    NetworkTimeout,
    /// `NetworkLatency`.
    NetworkLatency,
    /// `NetworkPacketLoss`.
    NetworkPacketLoss,
    /// `InvalidMessage`.
    InvalidMessage,
    /// `CorruptedMessage`.
    CorruptedMessage,
    /// `OutOfOrderMessage`.
    OutOfOrderMessage,
    /// `UnexpectedMessage`.
    UnexpectedMessage,
    /// `ConnectorLockFailure`.
    ConnectorLockFailure,
    /// `PowerMeterFailure`.
    PowerMeterFailure,
    /// `PowerSwitchFailure`.
    PowerSwitchFailure,
    /// `OverCurrent`.
    OverCurrent,
    /// `OverVoltage`.
    OverVoltage,
    /// `HighTemperature`.
    HighTemperature,
    /// `EVCommunicationError`.
    EVCommunicationError,
    /// `BatteryFailure`.
    BatteryFailure,
    /// `CertificateFailure`.
    CertificateFailure,
    /// `GridOutage`.
    GridOutage,
    /// `GridVoltageDip`.
    GridVoltageDip,
    /// `GridFrequencyDeviation`.
    GridFrequencyDeviation,
    /// `GridHighDemand`.
    GridHighDemand,
    /// `AuthorizationFailure`.
    AuthorizationFailure,
    /// `TokenExpired`.
    TokenExpired,
    /// `TokenRevoked`.
    TokenRevoked,
    /// `PaymentFailure`.
    PaymentFailure,
    /// `FirmwareBug`.
    FirmwareBug,
    /// `MemoryLeak`.
    MemoryLeak,
    /// `Timeout`.
    Timeout,
    /// `Crash`.
    Crash,
}

} // verus!

use crate::core_types::{Duration, F64Bits, Timestamp, now};
use crate::ocpp::json::JsonValue;
use crate::simulator::scenario::Condition;
use crate::seq_facts::{lemma_filter_take_step, lemma_filter_map_take_step, lemma_take_all};

verus! {

/// A fault to inject.
#[derive(Debug)]
pub struct FaultInjection {
    /// The fault.
    pub fault_type: FaultType,
    /// Probability of injection, as the bit pattern of an `f64`.
    pub probability: F64Bits,
    /// How long the fault lasts.
    pub duration: Duration,
    /// Condition under which it is injected.
    pub condition: Option<Condition>,
    /// Fault-specific parameters.
    pub parameters: JsonValue,
}

/// A fault that was injected.
#[derive(Debug, Clone, Copy, PartialEq, Eq, Structural)]
pub struct ActiveFault {
    /// The fault.
    pub fault_type: FaultType,
    /// When it was injected.
    pub injected_at: Timestamp,
    /// How long it lasts.
    pub duration: Duration,
    /// Whether it still holds.
    pub active: bool,
}

/// Whether a fault has outlived its duration at time `now`.
pub open spec fn expired(f: ActiveFault, now: Timestamp) -> bool {
    now - f.injected_at > f.duration.millis
}

/// The type of a fault when it is active.
pub open spec fn type_if_active() -> spec_fn(ActiveFault) -> Option<FaultType> {
    |f: ActiveFault| if f.active { Some(f.fault_type) } else { None }
}

/// Whether a fault is of another type than `t`.
pub open spec fn not_of_type(t: FaultType) -> spec_fn(ActiveFault) -> bool {
    |f: ActiveFault| f.fault_type != t
}

/// The types of the faults that are active, in injection order.
pub open spec fn active_types(faults: Seq<ActiveFault>) -> Seq<FaultType> {
    faults.filter_map(type_if_active())
}

/// The faults that are not of type `t`, in injection order.
pub open spec fn without_type(faults: Seq<ActiveFault>, t: FaultType) -> Seq<ActiveFault> {
    faults.filter(not_of_type(t))
}

/// `after` is `before` with every fault that has expired at time `now`
/// deactivated, and nothing else changed.
pub open spec fn updated_at(before: Seq<ActiveFault>, after: Seq<ActiveFault>, now: Timestamp) -> bool {
    &&& after.len() == before.len()
    &&& forall|i: int| 0 <= i < before.len() ==> {
        let f = #[trigger] before[i];
        after[i] == (if expired(f, now) {
            ActiveFault { active: false, ..f }
        } else {
            f
        })
    }
}

/// Keeps track of injected faults.
#[derive(Debug)]
pub struct FaultInjector {
    active_faults: Vec<ActiveFault>,
}

impl FaultInjector {
    /// The faults injected so far, in injection order.
    pub closed spec fn faults(&self) -> Seq<ActiveFault> {
        self.active_faults@
    }

    /// An injector with no faults.
    pub fn new() -> (fi: Self)
        ensures
            fi.faults() == Seq::<ActiveFault>::empty(),
    {
        FaultInjector { active_faults: Vec::new() }
    }

    /// Records a fault as active from now on.
    pub fn inject_fault(&mut self, fault: FaultInjection) -> (r: Result<(), crate::simulator::SimulatorError>)
        ensures
            r is Ok,
            final(self).faults().len() == old(self).faults().len() + 1,
            final(self).faults().drop_last() == old(self).faults(),
            final(self).faults().last().fault_type == fault.fault_type,
            final(self).faults().last().duration == fault.duration,
            final(self).faults().last().active,
    {
        let active = ActiveFault {
            fault_type: fault.fault_type,
            injected_at: now(),
            duration: fault.duration,
            active: true,
        };
        self.active_faults.push(active);
        assert(self.active_faults@.drop_last() =~= old(self).active_faults@);
        Ok(())
    }

    /// Forgets every fault of type `fault_type`.
    pub fn clear_fault(&mut self, fault_type: &FaultType)
        ensures
            final(self).faults() == without_type(old(self).faults(), *fault_type),
    {
        let ghost s = self.active_faults@;
        let ghost p = not_of_type(*fault_type);
        let mut kept: Vec<ActiveFault> = Vec::new();
        let mut i: usize = 0;
        while i < self.active_faults.len()
            invariant
                i <= self.active_faults.len(),
                self.active_faults@ == s,
                p == not_of_type(*fault_type),
                kept@ == s.take(i as int).filter(p),
            decreases self.active_faults.len() - i,
        {
            proof {
                lemma_filter_take_step(s, p, i as int);
            }
            let f = self.active_faults[i];
            assert(p(s[i as int]) == (f.fault_type != *fault_type));
            if f.fault_type != *fault_type {
                kept.push(f);
            }
            i = i + 1;
        }
        proof {
            lemma_take_all(s);
        }
        self.active_faults = kept;
    }

    /// Forgets every fault.
    pub fn clear_all_faults(&mut self)
        ensures
            final(self).faults() == Seq::<ActiveFault>::empty(),
    {
        self.active_faults.clear();
    }

    /// Whether a fault of type `fault_type` is active.
    pub fn is_fault_active(&self, fault_type: &FaultType) -> (b: bool)
        ensures
            b == exists|i: int| 0 <= i < self.faults().len()
                && (#[trigger] self.faults()[i]).fault_type == *fault_type && self.faults()[i].active,
    {
        let mut i: usize = 0;
        while i < self.active_faults.len()
            invariant
                i <= self.active_faults.len(),
                forall|j: int| 0 <= j < i ==> !((#[trigger] self.active_faults@[j]).fault_type == *fault_type
                    && self.active_faults@[j].active),
            decreases self.active_faults.len() - i,
        {
            let f = self.active_faults[i];
            if f.fault_type == *fault_type && f.active {
                assert(self.faults()[i as int].fault_type == *fault_type && self.faults()[i as int].active);
                return true;
            }
            i = i + 1;
        }
        false
    }

    /// The types of the active faults, in injection order.
    pub fn get_active_faults(&self) -> (v: Vec<FaultType>)
        ensures
            v@ == active_types(self.faults()),
    {
        let ghost s = self.active_faults@;
        let ghost f = type_if_active();
        let mut v: Vec<FaultType> = Vec::new();
        let mut i: usize = 0;
        while i < self.active_faults.len()
            invariant
                i <= self.active_faults.len(),
                self.active_faults@ == s,
                f == type_if_active(),
                v@ == s.take(i as int).filter_map(f),
            decreases self.active_faults.len() - i,
        {
            proof {
                lemma_filter_map_take_step(s, f, i as int);
            }
            let a = self.active_faults[i];
            assert(f(s[i as int]) == (if a.active { Some(a.fault_type) } else { None }));
            if a.active {
                v.push(a.fault_type);
            }
            i = i + 1;
        }
        proof {
            lemma_take_all(s);
        }
        v
    }

    /// Deactivates, as of time `now`, every fault that has outlived its
    /// duration; the others are kept as they are.
    pub fn update_at(&mut self, now: Timestamp)
        ensures
            final(self).faults().len() == old(self).faults().len(),
            forall|i: int| 0 <= i < old(self).faults().len() ==> {
                let f = #[trigger] old(self).faults()[i];
                final(self).faults()[i] == (if expired(f, now) {
                    ActiveFault { active: false, ..f }
                } else {
                    f
                })
            },
    {
        let ghost s = self.active_faults@;
        let mut i: usize = 0;
        while i < self.active_faults.len()
            invariant
                i <= self.active_faults.len(),
                self.active_faults@.len() == s.len(),
                forall|j: int| i <= j < s.len() ==> #[trigger] self.active_faults@[j] == s[j],
                forall|j: int| 0 <= j < i ==> {
                    let f = #[trigger] s[j];
                    self.active_faults@[j] == (if expired(f, now) {
                        ActiveFault { active: false, ..f }
                    } else {
                        f
                    })
                },
            decreases self.active_faults.len() - i,
        {
            let f = self.active_faults[i];
            let elapsed: i128 = (now as i128) - (f.injected_at as i128);
            if elapsed > f.duration.millis as i128 {
                self.active_faults.set(i, ActiveFault { active: false, ..f });
            }
            i = i + 1;
        }
    }

    /// Deactivates the faults that have outlived their duration now: the
    /// faults are as `update_at` leaves them for one reading of the clock.
    pub fn update(&mut self)
        ensures
            final(self).faults().len() == old(self).faults().len(),
            exists|t: Timestamp| #[trigger] updated_at(old(self).faults(), final(self).faults(), t),
    {
        let t = now();
        self.update_at(t);
        assert(updated_at(old(self).faults(), self.faults(), t));
    }
}

/// Once the faults of a type are cleared, no fault of that type is active.
pub proof fn law_cleared_type_inactive(faults: Seq<ActiveFault>, t: FaultType)
    ensures
        !active_types(without_type(faults, t)).contains(t),
{
    let kept = without_type(faults, t);
    if active_types(kept).contains(t) {
        kept.lemma_filter_map_contains(type_if_active(), t);
        let x = choose|x: ActiveFault| #[trigger] kept.contains(x) && type_if_active()(x) == Some(t);
        let i = choose|i: int| 0 <= i < kept.len() && kept[i] == x;
        faults.lemma_filter_pred(not_of_type(t), i);
    }
}

/// A fault just injected is active: its type ends the list of active types.
pub proof fn law_injected_type_active(faults: Seq<ActiveFault>, f: ActiveFault)
    requires
        f.active,
    ensures
        active_types(faults.push(f)) == active_types(faults).push(f.fault_type),
        active_types(faults.push(f)).contains(f.fault_type),
{
    let all = faults.push(f);
    assert(all.drop_last() =~= faults);
    assert(active_types(all) =~= active_types(faults).push(f.fault_type));
    assert(active_types(all)[active_types(faults).len() as int] == f.fault_type);
}

} // verus!
