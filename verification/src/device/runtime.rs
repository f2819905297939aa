//! The device runtime: validates every incoming cross-device delivery
//! against the registry and the per-peer sequence numbers.
use vstd::prelude::*;

use super::registry::{DeviceRegistry, RegisteredDevice, has_id, law_sorted_ids_are_unique, sorted_by_id};
use super::remote::{
    RemoteDeliveryError, RemoteDeliveryKind, RemoteObservation, RemoteProposal, RemoteSource,
    accept_remote_delivery, spec_accept_remote_delivery,
};

verus! {

/// The last sequence numbers seen from one peer.
#[derive(Debug, Clone, Copy, Default)]
struct PeerState {
    last_obs_seq: u64,
    last_prop_seq: u64,
}

/// Configuration for the runtime's listener.
#[derive(Debug, Clone)]
pub struct TransportConfig {
    /// TCP listen address.
    pub listen_addr: String,
    /// Maximum clock skew for incoming sources, in milliseconds.
    pub skew_ms: u64,
}

impl Default for TransportConfig {
    fn default() -> (r: TransportConfig)
        ensures
            r.listen_addr@ == "127.0.0.1:4760"@,
            r.skew_ms == 60_000,
    {
        TransportConfig { listen_addr: "127.0.0.1:4760".to_string(), skew_ms: 60_000 }
    }
}

/// The outcome of a delivery.
#[derive(Debug, Clone, Structural, PartialEq, Eq)]
pub enum DeliveryOutcome {
    Accepted,
    Rejected(RemoteDeliveryError),
}

/// The registry entry for `id` in a registry sorted by id.
pub open spec fn entry_for(s: Seq<RegisteredDevice>, id: Seq<char>) -> RegisteredDevice {
    s[choose|i: int| 0 <= i < s.len() && s[i].device_id@ == id]
}

/// `i` is the first entry of the table for `key`.
spec fn is_first_peer(ps: Seq<(String, PeerState)>, key: Seq<char>, i: int) -> bool {
    0 <= i < ps.len() && ps[i].0@ == key && forall|j: int| 0 <= j < i ==> ps[j].0@ != key
}

spec fn peer_of(ps: Seq<(String, PeerState)>, key: Seq<char>) -> PeerState {
    if exists|i: int| is_first_peer(ps, key, i) {
        ps[choose|i: int| is_first_peer(ps, key, i)].1
    } else {
        PeerState { last_obs_seq: 0, last_prop_seq: 0 }
    }
}

proof fn lemma_peer_at(ps: Seq<(String, PeerState)>, key: Seq<char>, i: int)
    requires
        is_first_peer(ps, key, i),
    ensures
        peer_of(ps, key) == ps[i].1,
{
    let k = choose|k: int| is_first_peer(ps, key, k);
    if k < i {
    } else if k > i {
    }
}

proof fn lemma_exists_first_peer(ps: Seq<(String, PeerState)>, key: Seq<char>, j: int)
    requires
        0 <= j < ps.len(),
        ps[j].0@ == key,
    ensures
        exists|i: int| is_first_peer(ps, key, i),
    decreases j,
{
    if exists|k: int| 0 <= k < j && ps[k].0@ == key {
        let k = choose|k: int| 0 <= k < j && ps[k].0@ == key;
        lemma_exists_first_peer(ps, key, k);
    } else {
        assert(is_first_peer(ps, key, j));
    }
}

/// Other keys keep their state when `ps2` changes `ps` only at the first
/// entry for `key` or appends an entry for `key`.
proof fn lemma_other_peers_unchanged(
    ps: Seq<(String, PeerState)>,
    ps2: Seq<(String, PeerState)>,
    key: Seq<char>,
)
    requires
        ps.len() <= ps2.len() <= ps.len() + 1,
        forall|j: int| 0 <= j < ps.len() ==> ps2[j].0@ == ps[j].0@,
        forall|j: int| 0 <= j < ps.len() && ps[j].0@ != key ==> ps2[j].1 == ps[j].1,
        ps2.len() == ps.len() + 1 ==> ps2[ps.len() as int].0@ == key,
    ensures
        forall|h: Seq<char>| h != key ==> peer_of(ps2, h) == peer_of(ps, h),
{
    assert forall|h: Seq<char>| h != key implies peer_of(ps2, h) == peer_of(ps, h) by {
        if exists|i: int| is_first_peer(ps, h, i) {
            let i = choose|i: int| is_first_peer(ps, h, i);
            assert(is_first_peer(ps2, h, i));
            lemma_peer_at(ps, h, i);
            lemma_peer_at(ps2, h, i);
        } else {
            assert forall|j: int| 0 <= j < ps2.len() implies ps2[j].0@ != h by {
                if j < ps.len() && ps[j].0@ == h {
                    lemma_exists_first_peer(ps, h, j);
                }
            }
        }
    }
}

/// The device runtime: the registry, the per-peer sequence numbers, and
/// the skew window.
pub struct DeviceRuntime {
    registry: DeviceRegistry,
    peer_state: Vec<(String, PeerState)>,
    skew_ms: u64,
}

impl DeviceRuntime {
    /// The registered devices.
    pub closed spec fn spec_devices(&self) -> Seq<RegisteredDevice> {
        self.registry.spec_devices()
    }

    /// The skew window.
    pub closed spec fn spec_skew(&self) -> u64 {
        self.skew_ms
    }

    /// The last observation sequence number accepted from a peer (0 before
    /// the first).
    pub closed spec fn spec_last_obs(&self, key: Seq<char>) -> u64 {
        peer_of(self.peer_state@, key).last_obs_seq
    }

    /// The last proposal sequence number accepted from a peer (0 before
    /// the first).
    pub closed spec fn spec_last_prop(&self, key: Seq<char>) -> u64 {
        peer_of(self.peer_state@, key).last_prop_seq
    }

    /// The runtime's invariant: its registry is well formed.
    pub closed spec fn wf(&self) -> bool {
        self.registry.wf()
    }

    /// A runtime over `registry` with no deliveries seen yet.
    pub fn new(registry: DeviceRegistry, skew_ms: u64) -> (r: DeviceRuntime)
        requires
            registry.wf(),
        ensures
            r.wf(),
            r.spec_devices() == registry.spec_devices(),
            r.spec_skew() == skew_ms,
            forall|k: Seq<char>| r.spec_last_obs(k) == 0 && r.spec_last_prop(k) == 0,
    {
        DeviceRuntime { registry, peer_state: Vec::new(), skew_ms }
    }

    /// The registry.
    pub fn registry(&self) -> (r: &DeviceRegistry)
        ensures
            r.spec_devices() == self.spec_devices(),
            self.wf() ==> r.wf(),
    {
        &self.registry
    }

    fn peer_index(&self, key: &str) -> (r: Option<usize>)
        ensures
            match r {
                Some(i) => is_first_peer(self.peer_state@, key@, i as int),
                None => forall|j: int| 0 <= j < self.peer_state@.len() ==> self.peer_state@[j].0@ != key@,
            },
    {
        let mut i: usize = 0;
        while i < self.peer_state.len()
            invariant
                i <= self.peer_state@.len(),
                forall|j: int| 0 <= j < i ==> self.peer_state@[j].0@ != key@,
            decreases self.peer_state@.len() - i,
        {
            if crate::text::str_eq(self.peer_state[i].0.as_str(), key) {
                return Some(i);
            }
            i += 1;
        }
        None
    }

    fn peer(&self, key: &str) -> (r: PeerState)
        ensures
            r == peer_of(self.peer_state@, key@),
    {
        match self.peer_index(key) {
            Some(i) => {
                proof {
                    lemma_peer_at(self.peer_state@, key@, i as int);
                }
                self.peer_state[i].1
            },
            None => PeerState { last_obs_seq: 0, last_prop_seq: 0 },
        }
    }

    fn record_seq(&mut self, key: &str, seq: u64, kind: RemoteDeliveryKind)
        ensures
            final(self).registry == old(self).registry,
            final(self).skew_ms == old(self).skew_ms,
            kind == RemoteDeliveryKind::Observation ==> final(self).spec_last_obs(key@) == seq
                && final(self).spec_last_prop(key@) == old(self).spec_last_prop(key@),
            kind == RemoteDeliveryKind::Proposal ==> final(self).spec_last_prop(key@) == seq
                && final(self).spec_last_obs(key@) == old(self).spec_last_obs(key@),
            forall|h: Seq<char>|
                h != key@ ==> final(self).spec_last_obs(h) == old(self).spec_last_obs(h)
                    && final(self).spec_last_prop(h) == old(self).spec_last_prop(h),
    {
        let ghost ps = self.peer_state@;
        match self.peer_index(key) {
            Some(i) => {
                let name = self.peer_state[i].0.clone();
                let mut st = self.peer_state[i].1;
                match kind {
                    RemoteDeliveryKind::Observation => st.last_obs_seq = seq,
                    RemoteDeliveryKind::Proposal => st.last_prop_seq = seq,
                }
                proof {
                    lemma_peer_at(ps, key@, i as int);
                }
                self.peer_state.set(i, (name, st));
                proof {
                    let ps2 = self.peer_state@;
                    assert(is_first_peer(ps2, key@, i as int));
                    lemma_peer_at(ps2, key@, i as int);
                    lemma_other_peers_unchanged(ps, ps2, key@);
                }
            },
            None => {
                let mut st = PeerState { last_obs_seq: 0, last_prop_seq: 0 };
                match kind {
                    RemoteDeliveryKind::Observation => st.last_obs_seq = seq,
                    RemoteDeliveryKind::Proposal => st.last_prop_seq = seq,
                }
                self.peer_state.push((key.to_string(), st));
                proof {
                    let ps2 = self.peer_state@;
                    assert(is_first_peer(ps2, key@, ps.len() as int));
                    lemma_peer_at(ps2, key@, ps.len() as int);
                    lemma_other_peers_unchanged(ps, ps2, key@);
                }
            },
        }
    }

    fn accept(&mut self, source: &RemoteSource, now_ms: u64, kind: RemoteDeliveryKind) -> (r: DeliveryOutcome)
        requires
            old(self).wf(),
        ensures
            final(self).wf(),
            final(self).spec_devices() == old(self).spec_devices(),
            final(self).spec_skew() == old(self).spec_skew(),
            spec_delivery(*old(self), *final(self), *source, now_ms, kind, r),
    {
        let device_id = &source.device_id;
        let peer = match self.registry.get(device_id) {
            Some(p) => p,
            None => return DeliveryOutcome::Rejected(RemoteDeliveryError::UnknownPeer),
        };
        proof {
            let s = self.registry.spec_devices();
            let i = choose|i: int| 0 <= i < s.len() && s[i] == *peer;
            let k = choose|k: int| 0 <= k < s.len() && s[k].device_id@ == device_id@;
            if i != k {
                law_sorted_ids_are_unique(s, i, k);
            }
        }
        let grant = peer.pairing.grant.clone();
        let state = peer.pairing.state;
        let fp = peer.pairing.fingerprint;
        let ps = self.peer(device_id.as_str());
        let last_seq = match kind {
            RemoteDeliveryKind::Observation => ps.last_obs_seq,
            RemoteDeliveryKind::Proposal => ps.last_prop_seq,
        };
        let result = accept_remote_delivery(
            state,
            &grant,
            &fp,
            source,
            last_seq,
            self.skew_ms,
            now_ms,
            kind,
        );
        match result {
            Ok(()) => {
                self.record_seq(device_id.as_str(), source.seq, kind);
                DeliveryOutcome::Accepted
            },
            Err(e) => DeliveryOutcome::Rejected(e),
        }
    }

    /// Validates an incoming remote observation and, when it is accepted,
    /// records its sequence number as the last seen from the peer.
    pub fn accept_observation(&mut self, remote: &RemoteObservation, now_ms: u64) -> (r: DeliveryOutcome)
        requires
            old(self).wf(),
        ensures
            final(self).wf(),
            final(self).spec_devices() == old(self).spec_devices(),
            final(self).spec_skew() == old(self).spec_skew(),
            spec_delivery(*old(self), *final(self), remote.source, now_ms, RemoteDeliveryKind::Observation, r),
            delivered(*old(self), *final(self)),
    {
        self.accept(&remote.source, now_ms, RemoteDeliveryKind::Observation)
    }

    /// Validates an incoming remote proposal and, when it is accepted,
    /// records its sequence number as the last seen from the peer.
    pub fn accept_proposal(&mut self, remote: &RemoteProposal, now_ms: u64) -> (r: DeliveryOutcome)
        requires
            old(self).wf(),
        ensures
            final(self).wf(),
            final(self).spec_devices() == old(self).spec_devices(),
            final(self).spec_skew() == old(self).spec_skew(),
            spec_delivery(*old(self), *final(self), remote.source, now_ms, RemoteDeliveryKind::Proposal, r),
            delivered(*old(self), *final(self)),
    {
        self.accept(&remote.source, now_ms, RemoteDeliveryKind::Proposal)
    }
}

/// The last sequence number of `kind` seen from a peer.
pub open spec fn last_seen(rt: DeviceRuntime, key: Seq<char>, kind: RemoteDeliveryKind) -> u64 {
    match kind {
        RemoteDeliveryKind::Observation => rt.spec_last_obs(key),
        RemoteDeliveryKind::Proposal => rt.spec_last_prop(key),
    }
}

/// What a delivery does: an unregistered peer is rejected with
/// `UnknownPeer`; otherwise the check of `accept_remote_delivery` against
/// the peer's pairing record decides, and an accepted delivery's sequence
/// number becomes the last seen for that peer and kind, nothing else
/// changing; a rejected delivery changes nothing.
pub open spec fn spec_delivery(
    before: DeviceRuntime,
    after: DeviceRuntime,
    source: RemoteSource,
    now_ms: u64,
    kind: RemoteDeliveryKind,
    r: DeliveryOutcome,
) -> bool {
    let id = source.device_id@;
    let unchanged = forall|h: Seq<char>|
        after.spec_last_obs(h) == before.spec_last_obs(h) && after.spec_last_prop(h)
            == before.spec_last_prop(h);
    if !has_id(before.spec_devices(), id) {
        r == DeliveryOutcome::Rejected(RemoteDeliveryError::UnknownPeer) && unchanged
    } else {
        let d = entry_for(before.spec_devices(), id);
        match spec_accept_remote_delivery(
            d.pairing.state,
            d.pairing.grant,
            d.pairing.fingerprint,
            source,
            last_seen(before, id, kind),
            before.spec_skew(),
            now_ms,
            kind,
        ) {
            Ok(()) => {
                &&& r == DeliveryOutcome::Accepted
                &&& last_seen(after, id, kind) == source.seq
                &&& forall|k2: RemoteDeliveryKind| k2 != kind ==> last_seen(after, id, k2) == last_seen(before, id, k2)
                &&& forall|h: Seq<char>|
                    h != id ==> after.spec_last_obs(h) == before.spec_last_obs(h)
                        && after.spec_last_prop(h) == before.spec_last_prop(h)
            },
            Err(e) => r == DeliveryOutcome::Rejected(e) && unchanged,
        }
    }
}

/// `after` is `before` after one delivery, of either kind: the registry
/// and the skew window stay as they were.
pub open spec fn delivered(before: DeviceRuntime, after: DeviceRuntime) -> bool {
    &&& after.spec_devices() == before.spec_devices()
    &&& after.spec_skew() == before.spec_skew()
    &&& exists|source: RemoteSource, now_ms: u64, kind: RemoteDeliveryKind, r: DeliveryOutcome|
        #[trigger] spec_delivery(before, after, source, now_ms, kind, r)
}

/// Deliveries never change the registry: for a runtime made by
/// `DeviceRuntime::new(reg, skew_ms)` and then given any sequence of
/// `accept_observation` / `accept_proposal` calls (accepted or refused),
/// `registry()` holds exactly the devices of `reg`, each with the same
/// state, grant, fingerprint and transition time; the skew stays too.
/// `runs[k]` is the runtime after `k` deliveries.
pub proof fn law_deliveries_keep_registry(runs: Seq<DeviceRuntime>)
    requires
        runs.len() > 0,
        forall|i: int| 0 <= i < runs.len() - 1 ==> #[trigger] delivered(runs[i], runs[i + 1]),
    ensures
        runs.last().spec_devices() == runs[0].spec_devices(),
        runs.last().spec_skew() == runs[0].spec_skew(),
    decreases runs.len(),
{
    if runs.len() > 1 {
        let prefix = runs.drop_last();
        assert forall|i: int| 0 <= i < prefix.len() - 1 implies #[trigger] delivered(prefix[i], prefix[i + 1]) by {
            assert(delivered(runs[i], runs[i + 1]));
        }
        law_deliveries_keep_registry(prefix);
        let k: int = runs.len() - 2;
        assert(delivered(runs[k], runs[k + 1]));
        assert(prefix.last() == runs[k]);
    }
}

/// After a delivery from a peer is accepted, the same delivery (or any
/// with a sequence number not above it) is refused as out of order.
pub proof fn law_accepted_seq_cannot_be_replayed(
    before: DeviceRuntime,
    after: DeviceRuntime,
    source: RemoteSource,
    replay: RemoteSource,
    now_ms: u64,
    kind: RemoteDeliveryKind,
)
    requires
        spec_delivery(before, after, source, now_ms, kind, DeliveryOutcome::Accepted),
        replay.device_id@ == source.device_id@,
        replay.seq <= source.seq,
    ensures
        last_seen(after, replay.device_id@, kind) == source.seq,
        forall|d: RegisteredDevice, skew: u64, now2: u64|
            spec_accept_remote_delivery(
                d.pairing.state,
                d.pairing.grant,
                d.pairing.fingerprint,
                replay,
                last_seen(after, replay.device_id@, kind),
                skew,
                now2,
                kind,
            ) is Err,
{
    if !has_id(before.spec_devices(), source.device_id@) {
    }
}

} // verus!
