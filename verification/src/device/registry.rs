//! The device registry: the in-memory set of known peer devices, kept in
//! increasing order of device id and bounded by `DEVICE_REGISTRY_LIMIT`.
use vstd::prelude::*;

use crate::text::{seq_lt, str_lt, lemma_seq_lt_transitive, lemma_seq_lt_total,
    lemma_seq_lt_irreflexive};
use super::fingerprint::DeviceFingerprint;
use super::identity::{DeviceClass, DeviceId, device_id_eq};
use super::pairing::{spec_pairing_transition_allowed, Pairing, PairingGrant, PairingState};

verus! {

/// The most devices the registry holds.
pub const DEVICE_REGISTRY_LIMIT: usize = 256;

/// One registry entry: the device's identity and its pairing record.
#[derive(Debug, Clone, PartialEq, Eq)]
pub struct RegisteredDevice {
    pub device_id: DeviceId,
    pub device_class: DeviceClass,
    pub fingerprint: DeviceFingerprint,
    pub pairing: Pairing,
}

/// Reasons a registry operation is invalid.
#[derive(Debug, Clone, PartialEq, Eq, Structural)]
pub enum DeviceRegistryError {
    /// The registry is at its bound.
    Full,
    /// The device id is already registered.
    AlreadyRegistered,
    /// The device id is unknown.
    UnknownDevice,
    /// The pairing lifecycle does not allow the requested move.
    InvalidTransition,
}

/// Entries are in strictly increasing order of device id (so no id occurs
/// twice).
pub open spec fn sorted_by_id(s: Seq<RegisteredDevice>) -> bool {
    forall|i: int, j: int| 0 <= i < j < s.len() ==> seq_lt(#[trigger] s[i].device_id@, #[trigger] s[j].device_id@)
}

/// Some entry of `s` has the id `id`.
pub open spec fn has_id(s: Seq<RegisteredDevice>, id: Seq<char>) -> bool {
    exists|i: int| 0 <= i < s.len() && s[i].device_id@ == id
}

/// The entry a fresh registration produces.
pub open spec fn is_fresh_entry(
    e: RegisteredDevice,
    id: Seq<char>,
    class: DeviceClass,
    fp: DeviceFingerprint,
    grant: PairingGrant,
    now_ms: u64,
) -> bool {
    &&& e.device_id@ == id
    &&& e.device_class == class
    &&& e.fingerprint == fp
    &&& e.pairing.device_id@ == id
    &&& e.pairing.device_class == class
    &&& e.pairing.fingerprint == fp
    &&& e.pairing.state == PairingState::Available
    &&& e.pairing.grant == grant
    &&& e.pairing.last_transition_ms == now_ms
}

/// The entries of `s` whose pairing state is `Paired`, in order.
pub open spec fn paired_entries(s: Seq<RegisteredDevice>) -> Seq<RegisteredDevice>
    decreases s.len(),
{
    if s.len() == 0 {
        Seq::empty()
    } else {
        let rest = paired_entries(s.drop_last());
        if s.last().pairing.state == PairingState::Paired {
            rest.push(s.last())
        } else {
            rest
        }
    }
}

/// The in-memory set of known peer devices.
#[derive(Debug)]
pub struct DeviceRegistry {
    devices: Vec<RegisteredDevice>,
}

impl DeviceRegistry {
    /// The registered devices in increasing order of id.
    pub closed spec fn spec_devices(&self) -> Seq<RegisteredDevice> {
        self.devices@
    }

    /// The registry's invariant: sorted by id and within its bound.
    pub open spec fn wf(&self) -> bool {
        sorted_by_id(self.spec_devices()) && self.spec_devices().len() <= DEVICE_REGISTRY_LIMIT
    }

    /// A new, empty registry.
    pub fn new() -> (r: DeviceRegistry)
        ensures
            r.wf(),
            r.spec_devices().len() == 0,
    {
        DeviceRegistry { devices: Vec::new() }
    }

    /// The number of registered devices.
    pub fn len(&self) -> (r: usize)
        ensures
            r == self.spec_devices().len(),
    {
        self.devices.len()
    }

    /// Whether no device is registered.
    pub fn is_empty(&self) -> (r: bool)
        ensures
            r == (self.spec_devices().len() == 0),
    {
        self.devices.len() == 0
    }

    /// The bound the registry enforces.
    pub fn capacity(&self) -> (r: usize)
        ensures
            r == DEVICE_REGISTRY_LIMIT,
    {
        DEVICE_REGISTRY_LIMIT
    }

    /// Whether the registry is at its bound.
    pub fn is_full(&self) -> (r: bool)
        ensures
            r == (self.spec_devices().len() >= DEVICE_REGISTRY_LIMIT),
    {
        self.devices.len() >= DEVICE_REGISTRY_LIMIT
    }

    /// The position of `id`, or the position where it would be inserted.
    fn search(&self, id: &DeviceId) -> (r: (usize, bool))
        requires
            self.wf(),
        ensures
            r.0 <= self.spec_devices().len(),
            r.1 ==> r.0 < self.spec_devices().len() && self.spec_devices()[r.0 as int].device_id@ == id@,
            !r.1 ==> !has_id(self.spec_devices(), id@),
            forall|j: int| 0 <= j < r.0 ==> seq_lt(self.spec_devices()[j].device_id@, id@),
            forall|j: int| r.0 <= j < self.spec_devices().len() && !r.1 ==> seq_lt(id@, self.spec_devices()[j].device_id@),
    {
        let mut i: usize = 0;
        while i < self.devices.len()
            invariant
                self.wf(),
                i <= self.devices@.len(),
                forall|j: int| 0 <= j < i ==> seq_lt(self.devices@[j].device_id@, id@),
            decreases self.devices@.len() - i,
        {
            if device_id_eq(&self.devices[i].device_id, id) {
                return (i, true);
            }
            if str_lt(id.as_str(), self.devices[i].device_id.as_str()) {
                proof {
                    let s = self.devices@;
                    assert forall|j: int| i <= j < s.len() implies seq_lt(id@, s[j].device_id@) by {
                        if j > i {
                            lemma_seq_lt_transitive(id@, s[i as int].device_id@, s[j].device_id@);
                        }
                    }
                    assert forall|j: int| 0 <= j < s.len() implies s[j].device_id@ != id@ by {
                        if j < i {
                            lemma_seq_lt_irreflexive(id@);
                        } else {
                            lemma_seq_lt_irreflexive(id@);
                        }
                    }
                }
                return (i, false);
            }
            proof {
                lemma_seq_lt_total(self.devices@[i as int].device_id@, id@);
            }
            i += 1;
        }
        proof {
            let s = self.devices@;
            assert forall|j: int| 0 <= j < s.len() implies s[j].device_id@ != id@ by {
                lemma_seq_lt_irreflexive(id@);
            }
        }
        (i, false)
    }

    /// Registers a device in the `Available` state. Fails with
    /// `AlreadyRegistered` when the id is present, else with `Full` when the
    /// registry is at its bound.
    pub fn register(
        &mut self,
        device_id: DeviceId,
        device_class: DeviceClass,
        fingerprint: DeviceFingerprint,
        grant: PairingGrant,
        now_ms: u64,
    ) -> (r: Result<(), DeviceRegistryError>)
        requires
            old(self).wf(),
        ensures
            final(self).wf(),
            has_id(old(self).spec_devices(), device_id@) ==> r == Err::<(), DeviceRegistryError>(
                DeviceRegistryError::AlreadyRegistered,
            ) && final(self).spec_devices() == old(self).spec_devices(),
            !has_id(old(self).spec_devices(), device_id@) && old(self).spec_devices().len()
                >= DEVICE_REGISTRY_LIMIT ==> r == Err::<(), DeviceRegistryError>(
                DeviceRegistryError::Full,
            ) && final(self).spec_devices() == old(self).spec_devices(),
            !has_id(old(self).spec_devices(), device_id@) && old(self).spec_devices().len()
                < DEVICE_REGISTRY_LIMIT ==> r is Ok && exists|p: int|
                0 <= p <= old(self).spec_devices().len() && final(self).spec_devices()
                    == old(self).spec_devices().insert(p, final(self).spec_devices()[p])
                    && is_fresh_entry(
                    final(self).spec_devices()[p],
                    device_id@,
                    device_class,
                    fingerprint,
                    grant,
                    now_ms,
                ),
    {
        let (pos, found) = self.search(&device_id);
        if found {
            return Err(DeviceRegistryError::AlreadyRegistered);
        }
        if self.is_full() {
            return Err(DeviceRegistryError::Full);
        }
        let ghost idv = device_id@;
        let ghost grant_v = grant;
        let pairing = Pairing {
            device_id: device_id.clone(),
            device_class,
            fingerprint,
            state: PairingState::Available,
            grant,
            last_transition_ms: now_ms,
        };
        let entry = RegisteredDevice { device_id, device_class, fingerprint, pairing };
        let ghost old_s = self.devices@;
        self.devices.insert(pos, entry);
        proof {
            let s = self.devices@;
            assert(s == old_s.insert(pos as int, s[pos as int]));
            assert(is_fresh_entry(s[pos as int], idv, device_class, fingerprint, grant_v, now_ms));
            assert(self.spec_devices() == old_s.insert(pos as int, self.spec_devices()[pos as int]));
            assert forall|i: int, j: int| 0 <= i < j < s.len() implies seq_lt(
                #[trigger] s[i].device_id@,
                #[trigger] s[j].device_id@,
            ) by {
                if j < pos {
                } else if i < pos && j == pos {
                } else if i < pos && j > pos {
                    assert(s[j] == old_s[j - 1]);
                } else if i == pos {
                    assert(s[j] == old_s[j - 1]);
                } else {
                    assert(s[i] == old_s[i - 1]);
                    assert(s[j] == old_s[j - 1]);
                }
            }
        }
        Ok(())
    }

    /// The registered device with the given id, if any.
    pub fn get(&self, id: &DeviceId) -> (r: Option<&RegisteredDevice>)
        requires
            self.wf(),
        ensures
            r is Some <==> has_id(self.spec_devices(), id@),
            r matches Some(d) ==> d.device_id@ == id@ && exists|i: int|
                0 <= i < self.spec_devices().len() && self.spec_devices()[i] == *d,
    {
        let (pos, found) = self.search(id);
        if found {
            Some(&self.devices[pos])
        } else {
            None
        }
    }

    /// All registered devices, in increasing order of id.
    pub fn devices(&self) -> (r: Vec<&RegisteredDevice>)
        ensures
            r@.len() == self.spec_devices().len(),
            forall|i: int| 0 <= i < r@.len() ==> *r@[i] == self.spec_devices()[i],
    {
        let mut out: Vec<&RegisteredDevice> = Vec::new();
        let mut i: usize = 0;
        while i < self.devices.len()
            invariant
                i <= self.devices@.len(),
                out@.len() == i,
                forall|j: int| 0 <= j < i ==> *out@[j] == self.devices@[j],
            decreases self.devices@.len() - i,
        {
            out.push(&self.devices[i]);
            i += 1;
        }
        out
    }

    /// The devices in the `Paired` state, in increasing order of id.
    pub fn paired(&self) -> (r: Vec<&RegisteredDevice>)
        ensures
            r@.len() == paired_entries(self.spec_devices()).len(),
            forall|i: int| 0 <= i < r@.len() ==> *r@[i] == paired_entries(self.spec_devices())[i],
    {
        let mut out: Vec<&RegisteredDevice> = Vec::new();
        let mut i: usize = 0;
        while i < self.devices.len()
            invariant
                i <= self.devices@.len(),
                out@.len() == paired_entries(self.devices@.subrange(0, i as int)).len(),
                forall|j: int| 0 <= j < out@.len() ==> *out@[j] == paired_entries(
                    self.devices@.subrange(0, i as int),
                )[j],
            decreases self.devices@.len() - i,
        {
            proof {
                let s1 = self.devices@.subrange(0, i + 1);
                assert(s1.drop_last() =~= self.devices@.subrange(0, i as int));
            }
            if self.devices[i].pairing.state.is_trusted() {
                out.push(&self.devices[i]);
            }
            i += 1;
        }
        assert(self.devices@.subrange(0, self.devices@.len() as int) =~= self.devices@);
        out
    }

    /// Moves a registered device to a new pairing state; `UnknownDevice`
    /// when the id is not registered, `InvalidTransition` (and nothing
    /// changes) when the lifecycle does not allow the move.
    pub fn transition(&mut self, id: &DeviceId, next: PairingState, now_ms: u64) -> (r: Result<
        (),
        DeviceRegistryError,
    >)
        requires
            old(self).wf(),
        ensures
            final(self).wf(),
            !has_id(old(self).spec_devices(), id@) ==> r == Err::<(), DeviceRegistryError>(
                DeviceRegistryError::UnknownDevice,
            ) && final(self).spec_devices() == old(self).spec_devices(),
            has_id(old(self).spec_devices(), id@) ==> exists|i: int|
                0 <= i < old(self).spec_devices().len() && old(self).spec_devices()[i].device_id@ == id@ && if spec_pairing_transition_allowed(
                    old(self).spec_devices()[i].pairing.state,
                    next,
                ) {
                    r is Ok && final(self).spec_devices() == old(self).spec_devices().update(
                        i,
                        RegisteredDevice {
                            pairing: Pairing {
                                state: next,
                                last_transition_ms: now_ms,
                                ..old(self).spec_devices()[i].pairing
                            },
                            ..old(self).spec_devices()[i]
                        },
                    )
                } else {
                    r == Err::<(), DeviceRegistryError>(DeviceRegistryError::InvalidTransition)
                        && final(self).spec_devices() == old(self).spec_devices()
                },
    {
        let (pos, found) = self.search(id);
        if !found {
            return Err(DeviceRegistryError::UnknownDevice);
        }
        if !self.devices[pos].pairing.state.can_transition_to(next) {
            return Err(DeviceRegistryError::InvalidTransition);
        }
        let mut entry = self.devices.remove(pos);
        entry.pairing.state = next;
        entry.pairing.last_transition_ms = now_ms;
        let ghost old_s = old(self).devices@;
        self.devices.insert(pos, entry);
        proof {
            let s = self.devices@;
            assert(s =~= old_s.update(
                pos as int,
                RegisteredDevice {
                    pairing: Pairing {
                        state: next,
                        last_transition_ms: now_ms,
                        ..old_s[pos as int].pairing
                    },
                    ..old_s[pos as int]
                },
            ));
            assert forall|i: int, j: int| 0 <= i < j < s.len() implies seq_lt(
                #[trigger] s[i].device_id@,
                #[trigger] s[j].device_id@,
            ) by {
                assert(s[i].device_id == old_s[i].device_id);
                assert(s[j].device_id == old_s[j].device_id);
            }
        }
        Ok(())
    }

    /// Removes a device; returns the removed entry, or `None` when the id is
    /// not registered.
    pub fn unregister(&mut self, id: &DeviceId) -> (r: Option<RegisteredDevice>)
        requires
            old(self).wf(),
        ensures
            final(self).wf(),
            r is None <==> !has_id(old(self).spec_devices(), id@),
            r is None ==> final(self).spec_devices() == old(self).spec_devices(),
            r matches Some(d) ==> d.device_id@ == id@ && exists|i: int|
                0 <= i < old(self).spec_devices().len() && old(self).spec_devices()[i] == d
                    && final(self).spec_devices() == old(self).spec_devices().remove(i),
    {
        let (pos, found) = self.search(id);
        if !found {
            return None;
        }
        let ghost old_s = self.devices@;
        let d = self.devices.remove(pos);
        proof {
            let s = self.devices@;
            assert forall|i: int, j: int| 0 <= i < j < s.len() implies seq_lt(
                #[trigger] s[i].device_id@,
                #[trigger] s[j].device_id@,
            ) by {
                if i >= pos {
                    assert(s[i] == old_s[i + 1]);
                }
                if j >= pos {
                    assert(s[j] == old_s[j + 1]);
                }
            }
        }
        Some(d)
    }
}

impl Default for DeviceRegistry {
    fn default() -> (r: DeviceRegistry)
        ensures
            r.wf(),
            r.spec_devices().len() == 0,
    {
        DeviceRegistry::new()
    }
}

/// A registered id cannot be registered a second time: after a successful
/// registration of `id`, `id` is present, so registering it again is
/// refused with `AlreadyRegistered`.
pub proof fn law_registered_id_is_present(
    s: Seq<RegisteredDevice>,
    p: int,
    e: RegisteredDevice,
    id: Seq<char>,
    class: DeviceClass,
    fp: DeviceFingerprint,
    grant: PairingGrant,
    now_ms: u64,
)
    requires
        0 <= p <= s.len(),
        is_fresh_entry(e, id, class, fp, grant, now_ms),
    ensures
        has_id(s.insert(p, e), id),
{
    assert(s.insert(p, e)[p] == e);
}

/// In a sorted registry every id occurs at most once.
pub proof fn law_sorted_ids_are_unique(s: Seq<RegisteredDevice>, i: int, j: int)
    requires
        sorted_by_id(s),
        0 <= i < s.len(),
        0 <= j < s.len(),
        i != j,
    ensures
        s[i].device_id@ != s[j].device_id@,
{
    if i < j {
        assert(seq_lt(s[i].device_id@, s[j].device_id@));
        lemma_seq_lt_irreflexive(s[i].device_id@);
    } else {
        assert(seq_lt(s[j].device_id@, s[i].device_id@));
        lemma_seq_lt_irreflexive(s[j].device_id@);
    }
}

} // verus!
