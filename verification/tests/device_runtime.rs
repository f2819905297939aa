use aether_agent::agent_core::{Observation, ObservationSeverity, Proposal, ProposalRisk, TaskKind};
use aether_agent::device::{
    DeliveryOutcome, DeviceClass, DeviceFingerprint, DeviceId, DeviceRegistry, DeviceRuntime, PairingGrant,
    PairingState, RemoteDeliveryError, RemoteObservation, RemoteProposal, RemoteSource,
};

fn fp() -> DeviceFingerprint {
    DeviceFingerprint::from_bytes([0xAAu8; 32])
}

fn paired_registry() -> DeviceRegistry {
    let mut reg = DeviceRegistry::new();
    let dev_id = DeviceId::new("peer-1").unwrap();
    let grant = PairingGrant {
        receive_observations: true,
        receive_proposals: true,
        execute_remote_tasks: false,
    };
    reg.register(dev_id.clone(), DeviceClass::Laptop, fp(), grant, 1000).unwrap();
    reg.transition(&dev_id, PairingState::Paired, 2000).unwrap();
    reg
}

fn peer_source(seq: u64) -> RemoteSource {
    RemoteSource {
        device_id: DeviceId::new("peer-1").unwrap(),
        fingerprint: fp(),
        seq,
        timestamp_ms: 1_700_000_000_000,
    }
}

fn make_obs(id: &str) -> Observation {
    Observation::new(id, "storage", "disk full", ObservationSeverity::Warning, 1000).unwrap()
}

fn make_prop(id: &str) -> Proposal {
    Proposal::new(
        id,
        TaskKind::Notify,
        "cleanup",
        "free space",
        "disk full",
        ProposalRisk::Low,
        1000,
    )
    .unwrap()
}

#[test]
fn accept_observation_from_paired_peer() {
    let mut rt = DeviceRuntime::new(paired_registry(), 60_000);
    let remote = RemoteObservation { source: peer_source(1), observation: make_obs("obs-1") };
    let result = rt.accept_observation(&remote, 1_700_000_000_000);
    assert!(matches!(result, DeliveryOutcome::Accepted));
}

#[test]
fn reject_observation_from_unregistered_peer() {
    let mut rt = DeviceRuntime::new(DeviceRegistry::new(), 60_000);
    let remote = RemoteObservation { source: peer_source(1), observation: make_obs("obs-1") };
    let result = rt.accept_observation(&remote, 1_700_000_000_000);
    assert!(matches!(result, DeliveryOutcome::Rejected(RemoteDeliveryError::UnknownPeer)));
}

#[test]
fn reject_out_of_order_observation() {
    let mut rt = DeviceRuntime::new(paired_registry(), 60_000);
    let remote1 = RemoteObservation { source: peer_source(1), observation: make_obs("obs-1") };
    rt.accept_observation(&remote1, 1_700_000_000_000);

    // Deliver seq=1 again — should be rejected as out-of-order.
    let remote2 = RemoteObservation { source: peer_source(1), observation: make_obs("obs-2") };
    let result = rt.accept_observation(&remote2, 1_700_000_000_000);
    assert!(matches!(
        result,
        DeliveryOutcome::Rejected(RemoteDeliveryError::OutOfOrder { .. })
    ));
}

#[test]
fn accept_proposal_from_paired_peer() {
    let mut rt = DeviceRuntime::new(paired_registry(), 60_000);
    let remote = RemoteProposal { source: peer_source(1), proposal: make_prop("prop-1") };
    let result = rt.accept_proposal(&remote, 1_700_000_000_000);
    assert!(matches!(result, DeliveryOutcome::Accepted));
}

#[test]
fn monotonically_increasing_seq_accepted() {
    let mut rt = DeviceRuntime::new(paired_registry(), 60_000);
    for seq in 1..=5 {
        let remote = RemoteObservation {
            source: peer_source(seq),
            observation: make_obs(&format!("obs-{seq}")),
        };
        let result = rt.accept_observation(&remote, 1_700_000_000_000);
        assert!(matches!(result, DeliveryOutcome::Accepted), "seq={seq} should be accepted");
    }
}

#[test]
fn reject_too_old_source() {
    let mut rt = DeviceRuntime::new(paired_registry(), 1000);
    let remote = RemoteObservation {
        source: RemoteSource {
            device_id: DeviceId::new("peer-1").unwrap(),
            fingerprint: fp(),
            seq: 1,
            timestamp_ms: 0,
        },
        observation: make_obs("obs-old"),
    };
    let result = rt.accept_observation(&remote, 1_700_000_000_000);
    assert!(matches!(result, DeliveryOutcome::Rejected(RemoteDeliveryError::TooOld)));
}

#[test]
fn reject_proposal_from_unregistered_peer() {
    let mut rt = DeviceRuntime::new(DeviceRegistry::new(), 60_000);
    let remote = RemoteProposal { source: peer_source(1), proposal: make_prop("prop-1") };
    let result = rt.accept_proposal(&remote, 1_700_000_000_000);
    assert!(matches!(result, DeliveryOutcome::Rejected(RemoteDeliveryError::UnknownPeer)));
}
