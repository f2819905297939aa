//! Devices: identities, fingerprints, pairing, the registry of known
//! devices, the acceptance of deliveries from paired peers, and the
//! runtime that tracks each peer's sequence numbers.

pub mod fingerprint;
pub mod identity;
pub mod pairing;
pub mod registry;
pub mod remote;
pub mod runtime;

pub use fingerprint::DeviceFingerprint;
pub use identity::{DeviceClass, DeviceId, DEVICE_ID_MAX_LEN};
pub use pairing::{
    validate_acceptance, Pairing, PairingAcceptance, PairingCode, PairingError, PairingGrant, PairingRequest,
    PairingState,
};
pub use registry::{DeviceRegistry, DeviceRegistryError, RegisteredDevice, DEVICE_REGISTRY_LIMIT};
pub use remote::{
    accept_remote_delivery, RemoteDeliveryError, RemoteDeliveryKind, RemoteObservation, RemoteProposal, RemoteSource,
};
pub use runtime::{DeliveryOutcome, DeviceRuntime, TransportConfig};
