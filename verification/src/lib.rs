//! Coordination core of a fleet of remote-attested enclave workers: the
//! registry of admitted workers, the appraisal of their attestation, the
//! one-time launch of the network's master key, and the sweep that retires
//! workers which stopped proving activity.

pub mod attestation;
pub mod crypto;
pub mod error;
pub mod keyed;
pub mod keys;
pub mod laws;
pub mod master_key;
pub mod model;
pub mod pallet;
pub mod sweep;
pub mod types;

pub use attestation::{
    Attestation, AttestationPolicy, AttestationReport, Evidence, Quote, TrustResult,
};
pub use error::{AttestationError, DcapError, DispatchError, Error};
pub use keys::{AccountId, EcdhPublicKey, MasterPublicKey, WorkerPublicKey, H256};
pub use master_key::MasterKeyState;
pub use pallet::{Config, Pallet};
pub use types::{
    Action, AttestationProvider, BlockNumber, DecodedMessage, Event, MasterKeyApplyPayload,
    MasterKeySubmission, MessageOrigin, Origin, OutboundMessage, WorkerEndpointPayload, WorkerInfo,
    WorkerRegistrationInfo,
};
