//! The values that the fleet's operations take and give.

use crate::keys::{AccountId, EcdhPublicKey, MasterPublicKey, WorkerPublicKey, H256};
use vstd::prelude::*;

verus! {

/// Height of the ledger.
pub type BlockNumber = u64;

/// Who vouches for a worker's evidence.
#[derive(Clone, Copy, Debug, PartialEq, Eq)]
pub enum AttestationProvider {
    /// The root origin admitted the worker without evidence.
    Root,
    /// Intel's attestation service (EPID quotes).
    Ias,
    /// A DCAP quote with its collateral.
    Dcap,
}

/// What the registry knows of an admitted worker.
#[derive(Clone, Debug, PartialEq, Eq)]
pub struct WorkerInfo {
    /// The identity of the worker.
    pub pubkey: WorkerPublicKey,
    /// The key for ECDH with the worker.
    pub ecdh_pubkey: EcdhPublicKey,
    /// The version that the worker reported when it registered.
    pub version: u32,
    /// Unix time, in seconds, of the admission.
    pub last_updated: u64,
    /// The account that may control the worker.
    pub stash_account: Option<AccountId>,
    /// Who vouched for the worker's evidence.
    pub attestation_provider: Option<AttestationProvider>,
    /// How strong the evidence was found to be.
    pub confidence_level: u8,
    /// Feature flags that the worker reported.
    pub features: Vec<u32>,
}

/// What a worker states about itself when it asks to be admitted.
#[derive(Clone, Debug, PartialEq, Eq)]
pub struct WorkerRegistrationInfo {
    pub version: u32,
    pub pubkey: WorkerPublicKey,
    pub ecdh_pubkey: EcdhPublicKey,
    pub features: Vec<u32>,
    pub operator: Option<AccountId>,
}

/// A worker's claim to a network endpoint.
#[derive(Clone, Debug, PartialEq, Eq)]
pub struct WorkerEndpointPayload {
    pub pubkey: WorkerPublicKey,
    pub endpoint: Option<String>,
    /// Unix time, in milliseconds, at which the worker signed the claim.
    pub signing_time: u64,
}

/// A worker's request for a copy of the master key.
#[derive(Clone, Copy, Debug, PartialEq, Eq)]
pub struct MasterKeyApplyPayload {
    pub pubkey: WorkerPublicKey,
    pub ecdh_pubkey: EcdhPublicKey,
    /// Unix time, in milliseconds, at which the worker signed the request.
    pub signing_time: u64,
}

/// On whose behalf an operation is called.
#[derive(Clone, Copy, Debug, PartialEq, Eq)]
pub enum Origin {
    /// The ledger's root.
    Root,
    /// The body that governs the fleet.
    Governance,
    /// An account that signed the call.
    Signed(AccountId),
    /// Nobody.
    Unsigned,
}

/// Who sent a message over the bus.
#[derive(Clone, Copy, Debug, PartialEq, Eq)]
pub enum MessageOrigin {
    /// A worker, named by its identity.
    Worker(WorkerPublicKey),
    /// The logical sender that speaks for the holders of the master key.
    Keyfairy,
    /// The body that governs the fleet.
    Governance,
}

/// What the holder designate submits once it has generated the master key.
#[derive(Clone, Copy, Debug, PartialEq, Eq)]
pub enum MasterKeySubmission {
    /// The public half of the key.
    MasterPubkey { master_pubkey: MasterPublicKey },
}

/// A message from the bus, with its sender.
#[derive(Clone, Copy, Debug, PartialEq, Eq)]
pub struct DecodedMessage {
    pub sender: MessageOrigin,
    pub payload: MasterKeySubmission,
}

/// A message for the workers, to be handed to the bus.
#[derive(Clone, Copy, Debug, PartialEq, Eq)]
pub enum OutboundMessage {
    /// A worker was admitted.
    WorkerRegistered { pubkey: WorkerPublicKey },
    /// The holder designate is asked to generate the master key.
    LaunchRequest { holder: WorkerPublicKey, ecdh_pubkey: EcdhPublicKey },
    /// The master key is on record.
    OnChainLaunched { master_pubkey: MasterPublicKey },
    /// A worker asks the holders for a copy of the master key.
    Apply { pubkey: WorkerPublicKey, ecdh_pubkey: EcdhPublicKey },
}

/// What an operation lets the world know.
#[derive(Clone, Copy, Debug, PartialEq, Eq)]
pub enum Event {
    Exit { tee: WorkerPublicKey },
    MasterKeyLaunching { holder: WorkerPublicKey },
    MasterKeyLaunched,
    MasterKeyApplied { worker_pubkey: WorkerPublicKey },
    WorkerAdded {
        pubkey: WorkerPublicKey,
        attestation_provider: Option<AttestationProvider>,
        confidence_level: u8,
    },
    WorkerUpdated {
        pubkey: WorkerPublicKey,
        attestation_provider: Option<AttestationProvider>,
        confidence_level: u8,
    },
    ChangeFirstHolder { pubkey: WorkerPublicKey },
    ClearInvalidTee { pubkey: WorkerPublicKey },
    RefreshStatus { pubkey: WorkerPublicKey, level: u8 },
    MinimumPflixVersionChangedTo(u32, u32, u32),
    PflixBinAdded(H256),
    PflixBinRemoved(H256),
}

/// What an operation that succeeded leaves for its caller to carry out, in
/// the order in which it is to happen.
#[derive(Clone, Copy, Debug, PartialEq, Eq)]
pub enum Action {
    /// Record the event.
    Deposit(Event),
    /// Hand the message to the bus.
    Push(OutboundMessage),
    /// Let the bus count the messages of this sender from the start again.
    ResetIngressSequence(MessageOrigin),
}

} // verus!
