use aether_agent::agent_core::{Observation, ObservationSeverity, Proposal, ProposalRisk, TaskKind};
use aether_agent::device::{
    accept_remote_delivery, validate_acceptance, DeviceClass, DeviceFingerprint, DeviceId, DeviceRegistry,
    DeviceRegistryError, PairingAcceptance, PairingCode, PairingError, PairingGrant, PairingRequest, PairingState,
    RemoteDeliveryError, RemoteDeliveryKind, RemoteObservation, RemoteProposal, RemoteSource, DEVICE_ID_MAX_LEN,
    DEVICE_REGISTRY_LIMIT,
};


#[test]
fn parses_device_id_only_for_non_empty_and_bounded() {
    assert!(DeviceId::new("").is_none());
    assert!(DeviceId::new("vikas-laptop").is_some());
    let too_long = "a".repeat(DEVICE_ID_MAX_LEN + 1);
    assert!(DeviceId::new(&too_long).is_none());
    let just_right = "a".repeat(DEVICE_ID_MAX_LEN);
    assert!(DeviceId::new(&just_right).is_some());
}

#[test]
fn device_class_as_str_is_stable() {
    assert_eq!(DeviceClass::Phone.as_str(), "phone");
    assert_eq!(DeviceClass::Tablet.as_str(), "tablet");
    assert_eq!(DeviceClass::Laptop.as_str(), "laptop");
    assert_eq!(DeviceClass::Desktop.as_str(), "desktop");
    assert_eq!(DeviceClass::Iot.as_str(), "iot");
    assert_eq!(DeviceClass::Server.as_str(), "server");
    assert_eq!(DeviceClass::External.as_str(), "external");
    assert_eq!(DeviceClass::Other.as_str(), "other");
}

#[test]
fn is_battery_powered_matches_handhelds_and_laptops() {
    assert!(DeviceClass::Phone.is_battery_powered());
    assert!(DeviceClass::Tablet.is_battery_powered());
    assert!(DeviceClass::Laptop.is_battery_powered());
    assert!(!DeviceClass::Desktop.is_battery_powered());
    assert!(!DeviceClass::Iot.is_battery_powered());
    assert!(!DeviceClass::Server.is_battery_powered());
}

#[test]
fn has_user_ui_matches_primary_devices() {
    assert!(DeviceClass::Phone.has_user_ui());
    assert!(DeviceClass::Tablet.has_user_ui());
    assert!(DeviceClass::Laptop.has_user_ui());
    assert!(DeviceClass::Desktop.has_user_ui());
    assert!(!DeviceClass::Iot.has_user_ui());
    assert!(!DeviceClass::Server.has_user_ui());
    assert!(!DeviceClass::External.has_user_ui());
}



#[test]
fn fingerprint_is_deterministic() {
    let key = [0x42u8; 32];
    let a = DeviceFingerprint::from_public_key(&key);
    let b = DeviceFingerprint::from_public_key(&key);
    assert_eq!(a, b);
}

#[test]
fn different_keys_produce_different_fingerprints() {
    let a = DeviceFingerprint::from_public_key(&[0x42u8; 32]);
    let b = DeviceFingerprint::from_public_key(&[0x43u8; 32]);
    assert_ne!(a, b);
}

#[test]
fn hex_round_trip() {
    let fp = DeviceFingerprint::from_public_key(&[0xabu8; 32]);
    let hex = fp.as_hex();
    assert_eq!(hex.len(), 64);
    // Lowercase only.
    assert_eq!(hex, hex.to_lowercase());
}

#[test]
fn from_bytes_matches_from_public_key() {
    let key = [0x11u8; 32];
    let computed = DeviceFingerprint::from_public_key(&key);
    let direct = DeviceFingerprint::from_bytes(*computed.as_bytes());
    assert_eq!(computed, direct);
}



fn req(id: &str, fp_hex: &str, code: &str) -> PairingRequest {
    let mut fp = [0u8; 32];
    for (i, h) in fp_hex.as_bytes().chunks(2).enumerate() {
        let s = std::str::from_utf8(h).unwrap();
        fp[i] = u8::from_str_radix(s, 16).unwrap();
    }
    PairingRequest {
        device_id: DeviceId::new(id).unwrap(),
        device_class: DeviceClass::Laptop,
        fingerprint: DeviceFingerprint::from_bytes(fp),
        code: PairingCode::new(code).unwrap(),
        grant: PairingGrant::default(),
        timestamp_ms: 1_700_000_000_000,
    }
}

fn acceptance(req: &PairingRequest) -> PairingAcceptance {
    PairingAcceptance {
        device_id: req.device_id.clone(),
        device_class: req.device_class,
        fingerprint: req.fingerprint,
        code: req.code,
        grant: req.grant.clone(),
        timestamp_ms: 1_700_000_000_000,
    }
}

#[test]
fn pairing_state_as_str_is_stable() {
    assert_eq!(PairingState::Available.as_str(), "available");
    assert_eq!(PairingState::Pairing.as_str(), "pairing");
    assert_eq!(PairingState::Paired.as_str(), "paired");
    assert_eq!(PairingState::Cancelled.as_str(), "cancelled");
    assert_eq!(PairingState::Revoked.as_str(), "revoked");
    assert_eq!(PairingState::Expired.as_str(), "expired");
}

#[test]
fn is_trusted_only_for_paired() {
    assert!(!PairingState::Available.is_trusted());
    assert!(!PairingState::Pairing.is_trusted());
    assert!(PairingState::Paired.is_trusted());
    assert!(!PairingState::Cancelled.is_trusted());
    assert!(!PairingState::Revoked.is_trusted());
    assert!(!PairingState::Expired.is_trusted());
}

#[test]
fn pairing_code_validates_six_decimal_digits() {
    assert!(!PairingCode::is_valid(""));
    assert!(!PairingCode::is_valid("12345"));
    assert!(!PairingCode::is_valid("1234567"));
    assert!(!PairingCode::is_valid("12345a"));
    assert!(!PairingCode::is_valid("-12345"));
    assert!(PairingCode::is_valid("000000"));
    assert!(PairingCode::is_valid("999999"));
}

#[test]
fn pairing_code_round_trip() {
    let c = PairingCode::new("123456").unwrap();
    assert_eq!(c.as_str(), "123456");
}

#[test]
fn pairing_grant_default_is_permissive_but_no_remote_exec() {
    let g = PairingGrant::default();
    assert!(g.receive_observations);
    assert!(g.receive_proposals);
    assert!(!g.execute_remote_tasks);
}

#[test]
fn validate_acceptance_accepts_matching() {
    let r = req("dev-a", "11".repeat(32).as_str(), "123456");
    let a = acceptance(&r);
    assert!(validate_acceptance(&r, &a, 60_000, 1_700_000_030_000).is_ok());
}

#[test]
fn validate_acceptance_rejects_code_mismatch() {
    let r = req("dev-a", "11".repeat(32).as_str(), "123456");
    let mut a = acceptance(&r);
    a.code = PairingCode::new("654321").unwrap();
    let err = validate_acceptance(&r, &a, 60_000, 1_700_000_030_000).unwrap_err();
    assert!(matches!(err, PairingError::CodeMismatch));
}

#[test]
fn validate_acceptance_rejects_fingerprint_mismatch() {
    let r = req("dev-a", "11".repeat(32).as_str(), "123456");
    let mut a = acceptance(&r);
    a.fingerprint = DeviceFingerprint::from_bytes([0x22u8; 32]);
    let err = validate_acceptance(&r, &a, 60_000, 1_700_000_030_000).unwrap_err();
    assert!(matches!(err, PairingError::FingerprintMismatch));
}

#[test]
fn validate_acceptance_rejects_identity_mismatch() {
    let r = req("dev-a", "11".repeat(32).as_str(), "123456");
    let mut a = acceptance(&r);
    a.device_id = DeviceId::new("dev-b").unwrap();
    let err = validate_acceptance(&r, &a, 60_000, 1_700_000_030_000).unwrap_err();
    assert!(matches!(err, PairingError::IdentityMismatch));
}

#[test]
fn validate_acceptance_rejects_expired_request() {
    let r = req("dev-a", "11".repeat(32).as_str(), "123456");
    let a = acceptance(&r);
    // 10 minutes later, 1 minute skew.
    let err = validate_acceptance(&r, &a, 60_000, 1_700_000_600_000).unwrap_err();
    assert!(matches!(err, PairingError::RequestExpired));
}



fn id(s: &str) -> DeviceId {
    DeviceId::new(s).unwrap()
}

fn fp(seed: u8) -> DeviceFingerprint {
    DeviceFingerprint::from_bytes([seed; 32])
}

#[test]
fn new_registry_is_empty() {
    let r = DeviceRegistry::new();
    assert!(r.is_empty());
    assert_eq!(r.len(), 0);
    assert_eq!(r.capacity(), DEVICE_REGISTRY_LIMIT);
}

#[test]
fn register_adds_device_in_available_state() {
    let mut r = DeviceRegistry::new();
    r.register(
        id("dev-a"),
        DeviceClass::Laptop,
        fp(0x11),
        PairingGrant::default(),
        1_700_000_000_000,
    )
    .expect("register");
    let entry = r.get(&id("dev-a")).expect("get");
    assert_eq!(entry.pairing.state, PairingState::Available);
    assert!(!r.is_empty());
}

#[test]
fn register_rejects_duplicate() {
    let mut r = DeviceRegistry::new();
    r.register(id("dev-a"), DeviceClass::Laptop, fp(0x11), PairingGrant::default(), 1).unwrap();
    let err = r
        .register(id("dev-a"), DeviceClass::Laptop, fp(0x11), PairingGrant::default(), 2)
        .unwrap_err();
    assert!(matches!(err, DeviceRegistryError::AlreadyRegistered));
}

#[test]
fn register_rejects_when_full() {
    let mut r = DeviceRegistry::new();
    // Fill the registry with 256 devices.
    for i in 0..DEVICE_REGISTRY_LIMIT {
        let s = format!("dev-{i:04}");
        r.register(id(&s), DeviceClass::Laptop, fp(i as u8), PairingGrant::default(), i as u64)
            .unwrap();
    }
    assert!(r.is_full());
    // 257th must be rejected.
    let err = r
        .register(
            id("dev-overflow"),
            DeviceClass::Laptop,
            fp(0xff),
            PairingGrant::default(),
            999,
        )
        .unwrap_err();
    assert!(matches!(err, DeviceRegistryError::Full));
}

#[test]
fn transition_advances_state() {
    let mut r = DeviceRegistry::new();
    r.register(id("dev-a"), DeviceClass::Phone, fp(0x11), PairingGrant::default(), 1).unwrap();
    r.transition(&id("dev-a"), PairingState::Pairing, 2).unwrap();
    assert_eq!(r.get(&id("dev-a")).unwrap().pairing.state, PairingState::Pairing);
    r.transition(&id("dev-a"), PairingState::Paired, 3).unwrap();
    assert_eq!(r.get(&id("dev-a")).unwrap().pairing.state, PairingState::Paired);
    assert_eq!(r.paired().len(), 1);
}

#[test]
fn transition_rejects_unknown_device() {
    let mut r = DeviceRegistry::new();
    let err = r.transition(&id("nope"), PairingState::Pairing, 1).unwrap_err();
    assert!(matches!(err, DeviceRegistryError::UnknownDevice));
}

#[test]
fn unregister_removes_device() {
    let mut r = DeviceRegistry::new();
    r.register(id("dev-a"), DeviceClass::Laptop, fp(0x11), PairingGrant::default(), 1).unwrap();
    let removed = r.unregister(&id("dev-a")).expect("removed");
    assert_eq!(removed.device_id, id("dev-a"));
    assert!(r.is_empty());
}

#[test]
fn paired_returns_only_paired_devices() {
    let mut r = DeviceRegistry::new();
    r.register(id("dev-a"), DeviceClass::Laptop, fp(0x11), PairingGrant::default(), 1).unwrap();
    r.register(id("dev-b"), DeviceClass::Phone, fp(0x22), PairingGrant::default(), 1).unwrap();
    r.transition(&id("dev-a"), PairingState::Paired, 2).unwrap();
    let p = r.paired();
    assert_eq!(p.len(), 1);
    assert_eq!(p[0].device_id, id("dev-a"));
}

#[test]
fn devices_returns_all_sorted_by_id() {
    let mut r = DeviceRegistry::new();
    for s in ["dev-c", "dev-a", "dev-b"] {
        r.register(id(s), DeviceClass::Laptop, fp(0x11), PairingGrant::default(), 1).unwrap();
    }
    let d = r.devices();
    assert_eq!(d[0].device_id, id("dev-a"));
    assert_eq!(d[1].device_id, id("dev-b"));
    assert_eq!(d[2].device_id, id("dev-c"));
}




fn source(seq: u64) -> RemoteSource {
    RemoteSource {
        device_id: DeviceId::new("dev-peer").unwrap(),
        fingerprint: DeviceFingerprint::from_bytes([0x33u8; 32]),
        seq,
        timestamp_ms: 1_700_000_000_000,
    }
}

fn obs() -> Observation {
    Observation::new(
        "obs-1",
        "storage",
        "disk is full",
        ObservationSeverity::Warning,
        1_700_000_000_000,
    )
    .unwrap()
}

fn prop() -> Proposal {
    Proposal::new(
        "prop-1",
        TaskKind::ProposeCleanup,
        "free up space",
        "delete cached files",
        "disk is full",
        ProposalRisk::Medium,
        1_700_000_000_000,
    )
    .unwrap()
}

#[test]
fn accept_when_paired_granted_fresh_in_order() {
    let s = source(1);
    let grant = PairingGrant::default();
    let fp = s.fingerprint;
    let r = accept_remote_delivery(
        PairingState::Paired,
        &grant,
        &fp,
        &s,
        0,
        60_000,
        1_700_000_030_000,
        RemoteDeliveryKind::Observation,
    );
    assert!(r.is_ok());
}

#[test]
fn reject_when_not_paired() {
    let s = source(1);
    let grant = PairingGrant::default();
    let fp = s.fingerprint;
    let err = accept_remote_delivery(
        PairingState::Available,
        &grant,
        &fp,
        &s,
        0,
        60_000,
        1_700_000_030_000,
        RemoteDeliveryKind::Observation,
    )
    .unwrap_err();
    assert!(matches!(err, RemoteDeliveryError::NotPaired));
}

#[test]
fn reject_when_fingerprint_mismatch() {
    let s = source(1);
    let grant = PairingGrant::default();
    let other_fp = DeviceFingerprint::from_bytes([0x44u8; 32]);
    let err = accept_remote_delivery(
        PairingState::Paired,
        &grant,
        &other_fp,
        &s,
        0,
        60_000,
        1_700_000_030_000,
        RemoteDeliveryKind::Observation,
    )
    .unwrap_err();
    assert!(matches!(err, RemoteDeliveryError::FingerprintMismatch));
}

#[test]
fn reject_when_grant_missing_for_observation() {
    let s = source(1);
    let grant = PairingGrant {
        receive_observations: false,
        receive_proposals: true,
        execute_remote_tasks: false,
    };
    let fp = s.fingerprint;
    let err = accept_remote_delivery(
        PairingState::Paired,
        &grant,
        &fp,
        &s,
        0,
        60_000,
        1_700_000_030_000,
        RemoteDeliveryKind::Observation,
    )
    .unwrap_err();
    assert!(matches!(err, RemoteDeliveryError::GrantMissing));
}

#[test]
fn reject_when_grant_missing_for_proposal() {
    let s = source(1);
    let grant = PairingGrant {
        receive_observations: true,
        receive_proposals: false,
        execute_remote_tasks: false,
    };
    let fp = s.fingerprint;
    let err = accept_remote_delivery(
        PairingState::Paired,
        &grant,
        &fp,
        &s,
        0,
        60_000,
        1_700_000_030_000,
        RemoteDeliveryKind::Proposal,
    )
    .unwrap_err();
    assert!(matches!(err, RemoteDeliveryError::GrantMissing));
}

#[test]
fn reject_out_of_order() {
    let s = source(5);
    let grant = PairingGrant::default();
    let fp = s.fingerprint;
    let err = accept_remote_delivery(
        PairingState::Paired,
        &grant,
        &fp,
        &s,
        10,
        60_000,
        1_700_000_030_000,
        RemoteDeliveryKind::Observation,
    )
    .unwrap_err();
    assert!(matches!(err, RemoteDeliveryError::OutOfOrder { .. }));
}

#[test]
fn reject_too_old() {
    let mut s = source(1);
    s.timestamp_ms = 1_700_000_000_000;
    let grant = PairingGrant::default();
    let fp = s.fingerprint;
    let err = accept_remote_delivery(
        PairingState::Paired,
        &grant,
        &fp,
        &s,
        0,
        60_000,
        // 10 minutes later, 1 minute skew
        // -> too old.
        1_700_000_660_000,
        RemoteDeliveryKind::Observation,
    )
    .unwrap_err();
    assert!(matches!(err, RemoteDeliveryError::TooOld));
}

#[test]
fn remote_observation_carries_observation_and_source() {
    let r = RemoteObservation {
        source: source(1),
        observation: obs(),
    };
    assert_eq!(r.observation.id, "obs-1");
    assert_eq!(r.source.seq, 1);
}

#[test]
fn remote_proposal_carries_proposal_and_source() {
    let r = RemoteProposal {
        source: source(1),
        proposal: prop(),
    };
    assert_eq!(r.proposal.id.as_str(), "prop-1");
    assert_eq!(r.source.seq, 1);
}




#[test]
fn device_id_limit_counts_characters() {
    assert!(DeviceId::new(&"é".repeat(64)).is_some());
    assert!(DeviceId::new(&"é".repeat(65)).is_none());
    assert!(DeviceId::new("").is_none());
}

#[test]
fn transition_refuses_moves_the_lifecycle_forbids() {
    let mut r = DeviceRegistry::new();
    r.register(id("dev-a"), DeviceClass::Phone, fp(0x11), PairingGrant::default(), 1).unwrap();
    r.transition(&id("dev-a"), PairingState::Paired, 2).unwrap();
    r.transition(&id("dev-a"), PairingState::Revoked, 3).unwrap();
    let err = r.transition(&id("dev-a"), PairingState::Paired, 4).unwrap_err();
    assert!(matches!(err, DeviceRegistryError::InvalidTransition));
    let e = r.get(&id("dev-a")).unwrap();
    assert_eq!(e.pairing.state, PairingState::Revoked);
    assert_eq!(e.pairing.last_transition_ms, 3);
    r.transition(&id("dev-a"), PairingState::Pairing, 5).unwrap();
    r.transition(&id("dev-a"), PairingState::Paired, 6).unwrap();
    assert!(PairingState::Expired.can_transition_to(PairingState::Available));
    assert!(!PairingState::Paired.can_transition_to(PairingState::Paired));
}

#[test]
fn pairing_code_gives_back_its_digits() {
    for s in ["000000", "123456", "987650"] {
        assert_eq!(PairingCode::new(s).unwrap().as_str(), s);
    }
    assert!(PairingCode::new("12345é").is_none());
    assert!(PairingCode::new("1234567").is_none());
}
