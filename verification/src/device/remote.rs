//! Cross-device delivery: observations and proposals pushed by paired peers,
//! and the check every delivery must pass.
use vstd::prelude::*;

use crate::agent_core::observation::Observation;
use crate::agent_core::proposal::Proposal;
use super::fingerprint::{DeviceFingerprint, fingerprint_eq};
use super::identity::DeviceId;
use super::pairing::{PairingGrant, PairingState, elapsed};

verus! {

/// Where a cross-device delivery came from.
#[derive(Debug, Clone, PartialEq, Eq, Hash)]
pub struct RemoteSource {
    /// The peer's device id.
    pub device_id: DeviceId,
    /// The peer's public-key fingerprint.
    pub fingerprint: DeviceFingerprint,
    /// A per-peer sequence number, increasing with every delivery.
    pub seq: u64,
    /// When the peer produced the delivery.
    pub timestamp_ms: u64,
}

/// An observation delivered by a paired peer.
#[derive(Debug, Clone, PartialEq, Eq)]
pub struct RemoteObservation {
    pub source: RemoteSource,
    pub observation: Observation,
}

/// A proposal delivered by a paired peer.
#[derive(Debug, Clone, PartialEq, Eq)]
pub struct RemoteProposal {
    pub source: RemoteSource,
    pub proposal: Proposal,
}

/// Reasons a cross-device delivery is rejected.
#[derive(Debug, Clone, PartialEq, Eq, Structural)]
pub enum RemoteDeliveryError {
    /// The peer is not registered.
    UnknownPeer,
    /// The peer is not in the `Paired` state.
    NotPaired,
    /// The peer's grant does not cover the delivery.
    GrantMissing,
    /// The source's fingerprint differs from the registered one.
    FingerprintMismatch,
    /// The source's sequence number is not above the last one seen.
    OutOfOrder { last_seq: u64, new_seq: u64 },
    /// The source is older than the skew window.
    TooOld,
}

/// What is being delivered.
#[derive(Debug, Clone, Copy, PartialEq, Eq, Structural)]
pub enum RemoteDeliveryKind {
    Observation,
    Proposal,
}

/// The outcome of checking a delivery: the first failing check among
/// pairing state, fingerprint, grant, sequence order and age.
pub open spec fn spec_accept_remote_delivery(
    state: PairingState,
    grant: PairingGrant,
    registered_fingerprint: DeviceFingerprint,
    source: RemoteSource,
    last_seq: u64,
    skew_ms: u64,
    now_ms: u64,
    kind: RemoteDeliveryKind,
) -> Result<(), RemoteDeliveryError> {
    if state != PairingState::Paired {
        Err(RemoteDeliveryError::NotPaired)
    } else if source.fingerprint.spec_bytes() != registered_fingerprint.spec_bytes() {
        Err(RemoteDeliveryError::FingerprintMismatch)
    } else if (kind == RemoteDeliveryKind::Observation && !grant.receive_observations) || (kind
        == RemoteDeliveryKind::Proposal && !grant.receive_proposals) {
        Err(RemoteDeliveryError::GrantMissing)
    } else if source.seq <= last_seq {
        Err(RemoteDeliveryError::OutOfOrder { last_seq, new_seq: source.seq })
    } else if elapsed(now_ms, source.timestamp_ms) > skew_ms {
        Err(RemoteDeliveryError::TooOld)
    } else {
        Ok(())
    }
}

/// Checks whether a delivery from a peer may be accepted, given the peer's
/// pairing state, grant and registered fingerprint, and the last sequence
/// number seen from it.
pub fn accept_remote_delivery(
    state: PairingState,
    grant: &PairingGrant,
    registered_fingerprint: &DeviceFingerprint,
    source: &RemoteSource,
    last_seq: u64,
    skew_ms: u64,
    now_ms: u64,
    kind: RemoteDeliveryKind,
) -> (r: Result<(), RemoteDeliveryError>)
    ensures
        r == spec_accept_remote_delivery(
            state,
            *grant,
            *registered_fingerprint,
            *source,
            last_seq,
            skew_ms,
            now_ms,
            kind,
        ),
{
    if !state.is_trusted() {
        return Err(RemoteDeliveryError::NotPaired);
    }
    if !fingerprint_eq(&source.fingerprint, registered_fingerprint) {
        return Err(RemoteDeliveryError::FingerprintMismatch);
    }
    match kind {
        RemoteDeliveryKind::Observation => {
            if !grant.receive_observations {
                return Err(RemoteDeliveryError::GrantMissing);
            }
        },
        RemoteDeliveryKind::Proposal => {
            if !grant.receive_proposals {
                return Err(RemoteDeliveryError::GrantMissing);
            }
        },
    }
    if source.seq <= last_seq {
        return Err(RemoteDeliveryError::OutOfOrder { last_seq, new_seq: source.seq });
    }
    if now_ms.saturating_sub(source.timestamp_ms) > skew_ms {
        return Err(RemoteDeliveryError::TooOld);
    }
    Ok(())
}

/// A delivery is accepted only from a `Paired` peer whose grant covers it,
/// whose fingerprint matches, with a sequence number above the last one
/// seen and within the skew window.
pub proof fn law_accepted_delivery_is_authorised(
    state: PairingState,
    grant: PairingGrant,
    fp: DeviceFingerprint,
    source: RemoteSource,
    last_seq: u64,
    skew_ms: u64,
    now_ms: u64,
    kind: RemoteDeliveryKind,
)
    requires
        spec_accept_remote_delivery(state, grant, fp, source, last_seq, skew_ms, now_ms, kind) is Ok,
    ensures
        state == PairingState::Paired,
        source.fingerprint.spec_bytes() == fp.spec_bytes(),
        kind == RemoteDeliveryKind::Observation ==> grant.receive_observations,
        kind == RemoteDeliveryKind::Proposal ==> grant.receive_proposals,
        source.seq > last_seq,
        elapsed(now_ms, source.timestamp_ms) <= skew_ms,
{
}

/// Replays are refused: once sequence number `last_seq` has been seen, no
/// delivery numbered at or below it is accepted.
pub proof fn law_replay_rejected(
    state: PairingState,
    grant: PairingGrant,
    fp: DeviceFingerprint,
    source: RemoteSource,
    last_seq: u64,
    skew_ms: u64,
    now_ms: u64,
    kind: RemoteDeliveryKind,
)
    requires
        source.seq <= last_seq,
    ensures
        spec_accept_remote_delivery(state, grant, fp, source, last_seq, skew_ms, now_ms, kind) is Err,
{
}

} // verus!
