//! The fleet as a mathematical value, and what each operation makes of it.
//!
//! Every operation is a function from the state before and its arguments to
//! either a rejection, which leaves the state as it was, or the state after
//! together with what the caller is to carry out.

use crate::attestation::{appraisal, AttestationPolicy, AttestationReport, TrustResult};
use crate::crypto::{blake2_256_of, sr25519_valid};
use crate::error::{attestation_error, AttestationError, DispatchError, Error};
use crate::keyed::without_key;
use crate::keys::{AccountId, EcdhPublicKey, MasterPublicKey, WorkerPublicKey, H256};
use crate::master_key::MasterKeyState;
use crate::types::{
    Action, AttestationProvider, BlockNumber, DecodedMessage, Event, MasterKeyApplyPayload,
    MasterKeySubmission, MessageOrigin, Origin, OutboundMessage, WorkerEndpointPayload, WorkerInfo,
    WorkerRegistrationInfo,
};
use vstd::prelude::*;

verus! {

/// For how long after its signing a claim to an endpoint is heard, in
/// milliseconds: four hours.
pub const ENDPOINT_WINDOW: u64 = 4 * 60 * 60 * 1000;

/// For how long after its signing a request for the master key is heard, in
/// milliseconds: thirty minutes.
pub const APPLY_WINDOW: u64 = 30 * 60 * 1000;

/// A worker's profile as a mathematical value.
pub struct WorkerInfoView {
    pub pubkey: WorkerPublicKey,
    pub ecdh_pubkey: EcdhPublicKey,
    pub version: u32,
    pub last_updated: u64,
    pub stash_account: Option<AccountId>,
    pub attestation_provider: Option<AttestationProvider>,
    pub confidence_level: u8,
    pub features: Seq<u32>,
}

impl View for WorkerInfo {
    type V = WorkerInfoView;

    open spec fn view(&self) -> WorkerInfoView {
        WorkerInfoView {
            pubkey: self.pubkey,
            ecdh_pubkey: self.ecdh_pubkey,
            version: self.version,
            last_updated: self.last_updated,
            stash_account: self.stash_account,
            attestation_provider: self.attestation_provider,
            confidence_level: self.confidence_level,
            features: self.features@,
        }
    }
}

/// The fleet's state as a mathematical value. Maps are keyed by the bytes of
/// a worker's identity, or of a binary's digest.
pub struct PalletView {
    /// The switches for the appraisal of evidence.
    pub policy: AttestationPolicy,
    /// How many heights lie between two sweeps, and for how long a worker may
    /// go without work.
    pub interval: BlockNumber,
    /// The profile of each registered worker.
    pub workers: Map<[u8; 32], WorkerInfoView>,
    /// The registered identities in the order of their admission.
    pub worker_order: Seq<[u8; 32]>,
    /// The height at which each worker was admitted.
    pub added_at: Map<[u8; 32], BlockNumber>,
    /// The endpoint bound to each identity.
    pub endpoints: Map<[u8; 32], Seq<char>>,
    /// The height at which each worker last proved work.
    pub last_work: Map<[u8; 32], BlockNumber>,
    /// The height at which each worker last refreshed its attestation.
    pub last_refresh: Map<[u8; 32], BlockNumber>,
    /// The digests of the binaries that may register.
    pub allowlist: Seq<H256>,
    /// The height at which each binary came onto the allow-list.
    pub bin_added_at: Map<[u8; 32], BlockNumber>,
    /// Where the launch of the master key stands.
    pub master_key: MasterKeyState,
    /// The master public key that was in force before the current one.
    pub old_master_pubkey: Option<MasterPublicKey>,
    /// Every master public key that was retired, oldest first.
    pub history: Seq<MasterPublicKey>,
    /// The lowest version that a worker may run.
    pub minimum_version: (u32, u32, u32),
    /// Whether the fleet is known to be stalled, if anyone said.
    pub note_stalled: Option<bool>,
}

/// How an operation ends: rejected, or with the state after it and the
/// actions that it leaves to its caller.
pub type Outcome = Result<(PalletView, Seq<Action>), DispatchError>;

/// One call of an operation of the fleet, with its arguments.
#[allow(inconsistent_fields)]
pub enum Call {
    RefreshTeeStatus {
        origin: Origin,
        info: WorkerRegistrationInfo,
        encoded: Seq<u8>,
        attestation: Option<AttestationReport>,
        height: BlockNumber,
    },
    ForceRegisterWorker {
        origin: Origin,
        pubkey: WorkerPublicKey,
        ecdh_pubkey: EcdhPublicKey,
        stash_account: Option<AccountId>,
        confidence_level: u8,
        height: BlockNumber,
    },
    LaunchMasterKey { origin: Origin, worker: WorkerPublicKey },
    ClearMasterKey { origin: Origin },
    RegisterWorker {
        origin: Origin,
        info: WorkerRegistrationInfo,
        encoded: Seq<u8>,
        attestation: Option<AttestationReport>,
        now: u64,
        height: BlockNumber,
    },
    UpdateWorkerEndpoint {
        origin: Origin,
        payload: WorkerEndpointPayload,
        signed_content: Seq<u8>,
        signature: Seq<u8>,
        now: u64,
    },
    ApplyMasterKey {
        origin: Origin,
        payload: MasterKeyApplyPayload,
        signed_content: Seq<u8>,
        signature: Seq<u8>,
        now: u64,
    },
    AddPflix { origin: Origin, digest: H256, height: BlockNumber },
    ChangeFirstHolder { origin: Origin, pubkey: WorkerPublicKey },
    RemovePflix { origin: Origin, digest: H256 },
    SetMinimumPflixVersion { origin: Origin, version: (u32, u32, u32) },
    MigrationLastWork { origin: Origin, height: BlockNumber },
    PatchClearInvalidTee { origin: Origin, now: BlockNumber },
    PatchClearNotWorkTee { origin: Origin },
    ForceClearTee { origin: Origin, worker: WorkerPublicKey },
    SetNoteStalled { origin: Origin, note_stalled: bool },
    OnMessageReceived { message: DecodedMessage, height: BlockNumber, now: u64 },
    OnInitialize { now: BlockNumber },
    RecordWork { worker: WorkerPublicKey, height: BlockNumber },
    SetOldMasterPubkey { previous: Option<MasterPublicKey> },
}

/// The rejection of an operation for a reason of its own.
pub open spec fn rejected(error: Error) -> Outcome {
    Err(DispatchError::Module(error))
}

/// Whether `signature` has the length of a signature and verifies as one of
/// `signer` over `content`; if not, what is wrong with it.
pub open spec fn signed_by(signature: Seq<u8>, content: Seq<u8>, signer: WorkerPublicKey) -> Result<
    (),
    Error,
> {
    if signature.len() != 64 {
        Err(Error::InvalidSignatureLength)
    } else if !sr25519_valid(signature, content, signer.0@) {
        Err(Error::InvalidSignature)
    } else {
        Ok(())
    }
}

/// Whether something signed at `signing_time` is heard at `now`: after the
/// signing, and no later than `window` after it.
pub open spec fn within_window(signing_time: u64, now: u64, window: u64) -> bool {
    signing_time < now && now <= signing_time + window
}

/// Whether version `a` is lower than version `b`.
pub open spec fn version_below(a: (u32, u32, u32), b: (u32, u32, u32)) -> bool {
    a.0 < b.0 || (a.0 == b.0 && (a.1 < b.1 || (a.1 == b.1 && a.2 < b.2)))
}

/// `list` without every occurrence of `digest`.
pub open spec fn without_digest(list: Seq<H256>, digest: H256) -> Seq<H256>
    decreases list.len(),
{
    if list.len() == 0 {
        list
    } else if list.last() == digest {
        without_digest(list.drop_last(), digest)
    } else {
        without_digest(list.drop_last(), digest).push(list.last())
    }
}

/// The events that tell of the exit of `keys`, one each and in order.
pub open spec fn exit_events(keys: Seq<[u8; 32]>) -> Seq<Action> {
    Seq::new(keys.len(), |i: int| Action::Deposit(Event::Exit { tee: WorkerPublicKey(keys[i]) }))
}

impl PalletView {
    /// Whether `worker` is registered.
    pub open spec fn is_registered(self, worker: WorkerPublicKey) -> bool {
        self.workers.contains_key(worker.0)
    }

    /// Whether the fleet is taken to be stalled.
    pub open spec fn stalled(self) -> bool {
        self.note_stalled == Some(true)
    }

    /// The profile of a worker that `force_register_worker` admits.
    pub open spec fn root_profile(
        pubkey: WorkerPublicKey,
        ecdh_pubkey: EcdhPublicKey,
        stash_account: Option<AccountId>,
        confidence_level: u8,
    ) -> WorkerInfoView {
        WorkerInfoView {
            pubkey,
            ecdh_pubkey,
            version: 0,
            last_updated: 1,
            stash_account,
            attestation_provider: Some(AttestationProvider::Root),
            confidence_level,
            features: seq![1u32, 4u32],
        }
    }

    /// The state with `profile` stored for its worker. A worker that is new
    /// goes to the end of the order.
    pub open spec fn with_profile(self, profile: WorkerInfoView) -> PalletView {
        let key = profile.pubkey.0;
        PalletView {
            workers: self.workers.insert(key, profile),
            worker_order: if self.workers.contains_key(key) {
                self.worker_order
            } else {
                self.worker_order.push(key)
            },
            ..self
        }
    }

    /// `force_register_worker`: the root origin admits a worker without
    /// evidence, whether or not it was registered before.
    pub open spec fn force_registered(
        self,
        origin: Origin,
        pubkey: WorkerPublicKey,
        ecdh_pubkey: EcdhPublicKey,
        stash_account: Option<AccountId>,
        confidence_level: u8,
        height: BlockNumber,
    ) -> Outcome {
        if origin != Origin::Root {
            Err(DispatchError::BadOrigin)
        } else {
            let profile = Self::root_profile(pubkey, ecdh_pubkey, stash_account, confidence_level);
            let admitted = self.with_profile(profile);
            Ok(
                (
                    PalletView { added_at: self.added_at.insert(pubkey.0, height), ..admitted },
                    seq![
                        Action::Push(OutboundMessage::WorkerRegistered { pubkey }),
                        Action::Deposit(
                            Event::WorkerAdded {
                                pubkey,
                                attestation_provider: Some(AttestationProvider::Root),
                                confidence_level,
                            },
                        ),
                    ],
                ),
            )
        }
    }

    /// What the evidence earns that came with a registration payload, whose
    /// encoding is `encoded`.
    pub open spec fn appraised(self, encoded: Seq<u8>, attestation: Option<AttestationReport>)
        -> Result<TrustResult, AttestationError> {
        appraisal(attestation, H256(blake2_256_of(encoded)), self.policy, self.allowlist)
    }

    /// `register_worker` and `register_worker_v2`: a worker is admitted on
    /// the strength of its evidence.
    pub open spec fn registered(
        self,
        origin: Origin,
        info: WorkerRegistrationInfo,
        encoded: Seq<u8>,
        attestation: Option<AttestationReport>,
        now: u64,
        height: BlockNumber,
    ) -> Outcome {
        self.registered_with(origin, info, self.appraised(encoded, attestation), now, height)
    }

    /// The admission of a worker whose evidence earned `verdict`.
    pub open spec fn registered_with(
        self,
        origin: Origin,
        info: WorkerRegistrationInfo,
        verdict: Result<TrustResult, AttestationError>,
        now: u64,
        height: BlockNumber,
    ) -> Outcome {
        if !(origin is Signed) {
            Err(DispatchError::BadOrigin)
        } else {
            match verdict {
                Err(reason) => rejected(attestation_error(reason)),
                Ok(trust) => if self.is_registered(info.pubkey) {
                    rejected(Error::PflixAlreadyExists)
                } else {
                    let key = info.pubkey.0;
                    let profile = WorkerInfoView {
                        pubkey: info.pubkey,
                        ecdh_pubkey: info.ecdh_pubkey,
                        version: info.version,
                        last_updated: now,
                        stash_account: info.operator,
                        attestation_provider: trust.provider,
                        confidence_level: trust.confidence_level,
                        features: info.features@,
                    };
                    Ok(
                        (
                            PalletView {
                                added_at: self.added_at.insert(key, height),
                                last_work: self.last_work.insert(key, height),
                                last_refresh: self.last_refresh.insert(key, height),
                                ..self.with_profile(profile)
                            },
                            seq![
                                Action::Push(
                                    OutboundMessage::WorkerRegistered { pubkey: info.pubkey },
                                ),
                                Action::Deposit(
                                    Event::WorkerAdded {
                                        pubkey: info.pubkey,
                                        attestation_provider: trust.provider,
                                        confidence_level: trust.confidence_level,
                                    },
                                ),
                            ],
                        ),
                    )
                },
            }
        }
    }

    /// `refresh_tee_status`: a registered worker shows fresh evidence, and
    /// its confidence follows the evidence.
    pub open spec fn refreshed(
        self,
        origin: Origin,
        info: WorkerRegistrationInfo,
        encoded: Seq<u8>,
        attestation: Option<AttestationReport>,
        height: BlockNumber,
    ) -> Outcome {
        self.refreshed_with(origin, info, self.appraised(encoded, attestation), height)
    }

    /// The refresh of a worker whose fresh evidence earned `verdict`.
    pub open spec fn refreshed_with(
        self,
        origin: Origin,
        info: WorkerRegistrationInfo,
        verdict: Result<TrustResult, AttestationError>,
        height: BlockNumber,
    ) -> Outcome {
        if !(origin is Signed) {
            Err(DispatchError::BadOrigin)
        } else {
            match verdict {
                Err(reason) => rejected(attestation_error(reason)),
                Ok(trust) => if !self.is_registered(info.pubkey) {
                    rejected(Error::NonTeeWorker)
                } else {
                    let key = info.pubkey.0;
                    let profile = WorkerInfoView {
                        confidence_level: trust.confidence_level,
                        ..self.workers[key]
                    };
                    Ok(
                        (
                            PalletView {
                                workers: self.workers.insert(key, profile),
                                last_refresh: self.last_refresh.insert(key, height),
                                ..self
                            },
                            seq![
                                Action::Deposit(
                                    Event::RefreshStatus {
                                        pubkey: info.pubkey,
                                        level: trust.confidence_level,
                                    },
                                ),
                            ],
                        ),
                    )
                },
            }
        }
    }

    /// `update_worker_endpoint`: a registered worker binds an endpoint to its
    /// identity, by a claim that it signed not long ago.
    pub open spec fn endpoint_updated(
        self,
        origin: Origin,
        payload: WorkerEndpointPayload,
        signed_content: Seq<u8>,
        signature: Seq<u8>,
        now: u64,
    ) -> Outcome {
        self.endpoint_updated_with(
            origin,
            payload,
            signed_by(signature, signed_content, payload.pubkey),
            now,
        )
    }

    /// The binding of an endpoint by a claim whose signature was found to be
    /// as `checked` says.
    pub open spec fn endpoint_updated_with(
        self,
        origin: Origin,
        payload: WorkerEndpointPayload,
        checked: Result<(), Error>,
        now: u64,
    ) -> Outcome {
        if !(origin is Signed) {
            Err(DispatchError::BadOrigin)
        } else if checked is Err {
            rejected(checked->Err_0)
        } else if payload.endpoint is None || payload.endpoint->Some_0@.len() == 0 {
            rejected(Error::EmptyEndpoint)
        } else if !within_window(payload.signing_time, now, ENDPOINT_WINDOW) {
            rejected(Error::InvalidEndpointSigningTime)
        } else if !self.is_registered(payload.pubkey) {
            rejected(Error::InvalidWorkerPubKey)
        } else {
            Ok(
                (
                    PalletView {
                        endpoints: self.endpoints.insert(
                            payload.pubkey.0,
                            payload.endpoint->Some_0@,
                        ),
                        ..self
                    },
                    Seq::empty(),
                ),
            )
        }
    }

    /// `apply_master_key`: a registered worker asks for a copy of the master
    /// key, by a request that it signed not long ago. The request is passed
    /// on; the state stays as it is.
    pub open spec fn master_key_applied(
        self,
        origin: Origin,
        payload: MasterKeyApplyPayload,
        signed_content: Seq<u8>,
        signature: Seq<u8>,
        now: u64,
    ) -> Outcome {
        self.master_key_applied_with(
            origin,
            payload,
            signed_by(signature, signed_content, payload.pubkey),
            now,
        )
    }

    /// The passing on of a request whose signature was found to be as
    /// `checked` says.
    pub open spec fn master_key_applied_with(
        self,
        origin: Origin,
        payload: MasterKeyApplyPayload,
        checked: Result<(), Error>,
        now: u64,
    ) -> Outcome {
        if !(origin is Signed) {
            Err(DispatchError::BadOrigin)
        } else if checked is Err {
            rejected(checked->Err_0)
        } else if !within_window(payload.signing_time, now, APPLY_WINDOW) {
            rejected(Error::InvalidMasterKeyApplySigningTime)
        } else if !self.is_registered(payload.pubkey) {
            rejected(Error::InvalidWorkerPubKey)
        } else {
            Ok(
                (
                    self,
                    seq![
                        Action::Push(
                            OutboundMessage::Apply {
                                pubkey: payload.pubkey,
                                ecdh_pubkey: payload.ecdh_pubkey,
                            },
                        ),
                        Action::Deposit(Event::MasterKeyApplied { worker_pubkey: payload.pubkey }),
                    ],
                ),
            )
        }
    }

    /// `launch_master_key`: governance designates a registered worker to
    /// generate the master key.
    pub open spec fn master_key_launched(self, origin: Origin, worker: WorkerPublicKey) -> Outcome {
        if origin != Origin::Governance {
            Err(DispatchError::BadOrigin)
        } else {
            match self.master_key.launched_to(worker, self.is_registered(worker)) {
                Err(error) => rejected(error),
                Ok(next) => Ok(
                    (
                        PalletView { master_key: next, ..self },
                        seq![
                            Action::Push(
                                OutboundMessage::LaunchRequest {
                                    holder: worker,
                                    ecdh_pubkey: self.workers[worker.0].ecdh_pubkey,
                                },
                            ),
                            Action::Deposit(Event::MasterKeyLaunching { holder: worker }),
                        ],
                    ),
                ),
            }
        }
    }

    /// The history after the key `retiring` has left office: it is appended,
    /// and after it the key that was in force before it, if one is on record.
    pub open spec fn history_with(self, retiring: MasterPublicKey) -> Seq<MasterPublicKey> {
        match self.old_master_pubkey {
            Some(previous) => self.history.push(retiring).push(previous),
            None => self.history.push(retiring),
        }
    }

    /// `clear_master_key`: governance retires the master key on record.
    pub open spec fn master_key_cleared(self, origin: Origin) -> Outcome {
        if origin != Origin::Governance {
            Err(DispatchError::BadOrigin)
        } else {
            match self.master_key.cleared() {
                Err(error) => rejected(error),
                Ok((next, retiring)) => Ok(
                    (
                        PalletView {
                            master_key: next,
                            history: self.history_with(retiring),
                            ..self
                        },
                        seq![Action::ResetIngressSequence(MessageOrigin::Keyfairy)],
                    ),
                ),
            }
        }
    }

    /// `change_first_holder`: governance passes the designation on.
    pub open spec fn first_holder_changed(self, origin: Origin, pubkey: WorkerPublicKey) -> Outcome {
        if origin != Origin::Governance {
            Err(DispatchError::BadOrigin)
        } else {
            match self.master_key.with_holder(pubkey) {
                Err(error) => rejected(error),
                Ok(next) => Ok(
                    (
                        PalletView { master_key: next, ..self },
                        seq![Action::Deposit(Event::ChangeFirstHolder { pubkey })],
                    ),
                ),
            }
        }
    }

    /// `on_message_received`: a submission of the master public key arrives
    /// from the bus.
    pub open spec fn message_received(self, message: DecodedMessage, height: BlockNumber, now: u64)
        -> Outcome {
        let key = match message.payload {
            MasterKeySubmission::MasterPubkey { master_pubkey } => master_pubkey,
        };
        match self.master_key.submitted(message.sender, key, height, now) {
            Err(error) => rejected(error),
            Ok(next) => Ok(
                (
                    PalletView { master_key: next, ..self },
                    if self.master_key is Launching {
                        seq![
                            Action::Push(OutboundMessage::OnChainLaunched { master_pubkey: key }),
                            Action::Deposit(Event::MasterKeyLaunched),
                        ]
                    } else {
                        Seq::empty()
                    },
                ),
            ),
        }
    }

    /// `add_pflix`: governance puts a binary onto the allow-list.
    pub open spec fn pflix_added(self, origin: Origin, digest: H256, height: BlockNumber)
        -> Outcome {
        if origin != Origin::Governance {
            Err(DispatchError::BadOrigin)
        } else if self.allowlist.contains(digest) {
            rejected(Error::PflixBinAlreadyExists)
        } else {
            Ok(
                (
                    PalletView {
                        allowlist: self.allowlist.push(digest),
                        bin_added_at: self.bin_added_at.insert(digest.0, height),
                        ..self
                    },
                    seq![Action::Deposit(Event::PflixBinAdded(digest))],
                ),
            )
        }
    }

    /// `remove_pflix`: governance takes a binary off the allow-list.
    pub open spec fn pflix_removed(self, origin: Origin, digest: H256) -> Outcome {
        if origin != Origin::Governance {
            Err(DispatchError::BadOrigin)
        } else if !self.allowlist.contains(digest) {
            rejected(Error::PflixBinNotFound)
        } else {
            Ok(
                (
                    PalletView {
                        allowlist: without_digest(self.allowlist, digest),
                        bin_added_at: self.bin_added_at.remove(digest.0),
                        ..self
                    },
                    seq![Action::Deposit(Event::PflixBinRemoved(digest))],
                ),
            )
        }
    }

    /// `set_minimum_pflix_version`: governance raises the lowest version
    /// that a worker may run. A version below the one in force changes
    /// nothing.
    pub open spec fn minimum_version_set(self, origin: Origin, version: (u32, u32, u32))
        -> Outcome {
        if origin != Origin::Governance {
            Err(DispatchError::BadOrigin)
        } else if version_below(version, self.minimum_version) {
            Ok((self, Seq::empty()))
        } else {
            Ok(
                (
                    PalletView { minimum_version: version, ..self },
                    seq![
                        Action::Deposit(
                            Event::MinimumPflixVersionChangedTo(version.0, version.1, version.2),
                        ),
                    ],
                ),
            )
        }
    }

    /// `set_note_stalled`: the root origin says whether the fleet is
    /// stalled.
    pub open spec fn note_stalled_set(self, origin: Origin, note_stalled: bool) -> Outcome {
        if origin != Origin::Root {
            Err(DispatchError::BadOrigin)
        } else {
            Ok((PalletView { note_stalled: Some(note_stalled), ..self }, Seq::empty()))
        }
    }

    /// The state once every registered worker has proved work at `height`.
    pub open spec fn all_worked_at(self, height: BlockNumber) -> PalletView {
        PalletView {
            last_work: Map::new(
                |key: [u8; 32]| self.last_work.contains_key(key) || self.workers.contains_key(key),
                |key: [u8; 32]|
                    if self.workers.contains_key(key) {
                        height
                    } else {
                        self.last_work[key]
                    },
            ),
            ..self
        }
    }

    /// `migration_last_work`: governance credits every registered worker
    /// with work at the current height.
    pub open spec fn last_work_migrated(self, origin: Origin, height: BlockNumber) -> Outcome {
        if origin != Origin::Governance {
            Err(DispatchError::BadOrigin)
        } else {
            Ok((self.all_worked_at(height), Seq::empty()))
        }
    }

    /// The state without anything that is known of the identity `key`: its
    /// profile, endpoint, admission height and both liveness marks.
    pub open spec fn exited(self, key: [u8; 32]) -> PalletView {
        PalletView {
            workers: self.workers.remove(key),
            worker_order: without_key(self.worker_order, key),
            added_at: self.added_at.remove(key),
            endpoints: self.endpoints.remove(key),
            last_work: self.last_work.remove(key),
            last_refresh: self.last_refresh.remove(key),
            ..self
        }
    }

    /// The state after each of `keys` has left, one after the other.
    pub open spec fn exited_all(self, keys: Seq<[u8; 32]>) -> PalletView
        decreases keys.len(),
    {
        if keys.len() == 0 {
            self
        } else {
            self.exited_all(keys.drop_last()).exited(keys.last())
        }
    }

    /// Whether `key` names the worker that is designated to hold the master
    /// key first.
    pub open spec fn is_holder(self, key: [u8; 32]) -> bool {
        self.master_key.holder() == Some(WorkerPublicKey(key))
    }

    /// `force_clear_tee`: governance removes a worker, unless it is the
    /// holder designate.
    pub open spec fn force_cleared(self, origin: Origin, worker: WorkerPublicKey) -> Outcome {
        if origin != Origin::Governance {
            Err(DispatchError::BadOrigin)
        } else if self.is_holder(worker.0) {
            rejected(Error::CannotExitMasterKeyHolder)
        } else {
            Ok((self.exited(worker.0), seq![Action::Deposit(Event::Exit { tee: worker })]))
        }
    }

    /// The height from which the idle time of the worker `key` counts: that
    /// of its last work, else that of its admission, else the ledger's start.
    pub open spec fn active_since(self, key: [u8; 32]) -> BlockNumber {
        if self.last_work.contains_key(key) {
            self.last_work[key]
        } else if self.added_at.contains_key(key) {
            self.added_at[key]
        } else {
            0
        }
    }

    /// Whether a sweep at height `now` retires the worker `key`: the fleet
    /// is not stalled, the worker is not the holder designate, and it has
    /// been idle for longer than the interval.
    pub open spec fn evictable(self, key: [u8; 32], now: BlockNumber) -> bool {
        !self.stalled() && !self.is_holder(key) && self.active_since(key) + self.interval < now
    }

    /// Those of `keys` that a sweep at height `now` retires, in order.
    pub open spec fn evictable_among(self, keys: Seq<[u8; 32]>, now: BlockNumber) -> Seq<[u8; 32]>
        decreases keys.len(),
    {
        if keys.len() == 0 {
            keys
        } else if self.evictable(keys.last(), now) {
            self.evictable_among(keys.drop_last(), now).push(keys.last())
        } else {
            self.evictable_among(keys.drop_last(), now)
        }
    }

    /// The workers that a sweep at height `now` retires, in the order of
    /// their admission.
    pub open spec fn victims(self, now: BlockNumber) -> Seq<[u8; 32]> {
        self.evictable_among(self.worker_order, now)
    }

    /// The sweep at height `now`: every worker that has been idle for too
    /// long leaves.
    pub open spec fn swept(self, now: BlockNumber) -> (PalletView, Seq<Action>) {
        (self.exited_all(self.victims(now)), exit_events(self.victims(now)))
    }

    /// `on_initialize`: at every height that the interval divides, the
    /// sweep runs.
    pub open spec fn initialized(self, now: BlockNumber) -> (PalletView, Seq<Action>) {
        if self.interval != 0 && now % self.interval == 0 {
            self.swept(now)
        } else {
            (self, Seq::empty())
        }
    }

    /// `patch_clear_invalid_tee`: governance has the sweep run now.
    pub open spec fn invalid_tee_cleared(self, origin: Origin, now: BlockNumber) -> Outcome {
        if origin != Origin::Governance {
            Err(DispatchError::BadOrigin)
        } else {
            Ok(self.swept(now))
        }
    }

    /// Those of `keys` that have no mark of work, in order.
    pub open spec fn unmarked_among(self, keys: Seq<[u8; 32]>) -> Seq<[u8; 32]>
        decreases keys.len(),
    {
        if keys.len() == 0 {
            keys
        } else if !self.last_work.contains_key(keys.last()) {
            self.unmarked_among(keys.drop_last()).push(keys.last())
        } else {
            self.unmarked_among(keys.drop_last())
        }
    }

    /// `patch_clear_not_work_tee`: governance removes every worker that has
    /// no mark of work. If the holder designate is one of them, nothing is
    /// removed.
    pub open spec fn not_work_tee_cleared(self, origin: Origin) -> Outcome {
        let unmarked = self.unmarked_among(self.worker_order);
        if origin != Origin::Governance {
            Err(DispatchError::BadOrigin)
        } else if exists|i: int| 0 <= i < unmarked.len() && self.is_holder(#[trigger] unmarked[i]) {
            rejected(Error::CannotExitMasterKeyHolder)
        } else {
            Ok((self.exited_all(unmarked), exit_events(unmarked)))
        }
    }

    /// Whether the registry is sound: no identity stands twice in the order
    /// of admission, and the identities in it are those that have a profile.
    pub open spec fn wf(self) -> bool {
        &&& self.worker_order.no_duplicates()
        &&& forall|key: [u8; 32]|
            self.worker_order.contains(key) <==> #[trigger] self.workers.contains_key(key)
    }

    /// How `call` ends on this state.
    pub open spec fn applied(self, call: Call) -> Outcome {
        match call {
            Call::RefreshTeeStatus { origin, info, encoded, attestation, height } => self.refreshed(
                origin,
                info,
                encoded,
                attestation,
                height,
            ),
            Call::ForceRegisterWorker {
                origin,
                pubkey,
                ecdh_pubkey,
                stash_account,
                confidence_level,
                height,
            } => self.force_registered(
                origin,
                pubkey,
                ecdh_pubkey,
                stash_account,
                confidence_level,
                height,
            ),
            Call::LaunchMasterKey { origin, worker } => self.master_key_launched(origin, worker),
            Call::ClearMasterKey { origin } => self.master_key_cleared(origin),
            Call::RegisterWorker { origin, info, encoded, attestation, now, height } => self.registered(
                origin,
                info,
                encoded,
                attestation,
                now,
                height,
            ),
            Call::UpdateWorkerEndpoint { origin, payload, signed_content, signature, now } =>
                self.endpoint_updated(origin, payload, signed_content, signature, now),
            Call::ApplyMasterKey { origin, payload, signed_content, signature, now } =>
                self.master_key_applied(origin, payload, signed_content, signature, now),
            Call::AddPflix { origin, digest, height } => self.pflix_added(origin, digest, height),
            Call::ChangeFirstHolder { origin, pubkey } => self.first_holder_changed(origin, pubkey),
            Call::RemovePflix { origin, digest } => self.pflix_removed(origin, digest),
            Call::SetMinimumPflixVersion { origin, version } => self.minimum_version_set(
                origin,
                version,
            ),
            Call::MigrationLastWork { origin, height } => self.last_work_migrated(origin, height),
            Call::PatchClearInvalidTee { origin, now } => self.invalid_tee_cleared(origin, now),
            Call::PatchClearNotWorkTee { origin } => self.not_work_tee_cleared(origin),
            Call::ForceClearTee { origin, worker } => self.force_cleared(origin, worker),
            Call::SetNoteStalled { origin, note_stalled } => self.note_stalled_set(
                origin,
                note_stalled,
            ),
            Call::OnMessageReceived { message, height, now } => self.message_received(
                message,
                height,
                now,
            ),
            Call::OnInitialize { now } => Ok(self.initialized(now)),
            Call::RecordWork { worker, height } => Ok(
                (
                    PalletView { last_work: self.last_work.insert(worker.0, height), ..self },
                    Seq::empty(),
                ),
            ),
            Call::SetOldMasterPubkey { previous } => Ok(
                (PalletView { old_master_pubkey: previous, ..self }, Seq::empty()),
            ),
        }
    }
}

} // verus!
