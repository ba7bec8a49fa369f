//! The fleet's state and the operations on it.

use crate::attestation::{
    is_allowed, validate, Attestation, AttestationPolicy, AttestationReport, TrustResult,
};
use crate::crypto::{blake2_256, check_signature};
use crate::error::{AttestationError, DispatchError, Error};
use crate::keyed::{lemma_domain, KeyedMap};
use crate::keys::{AccountId, EcdhPublicKey, MasterPublicKey, WorkerPublicKey, H256};
use crate::master_key::MasterKeyState;
use crate::model::{
    within_window, without_digest, Outcome, PalletView, APPLY_WINDOW, ENDPOINT_WINDOW,
};
use crate::types::{
    Action, AttestationProvider, BlockNumber, DecodedMessage, Event, MasterKeyApplyPayload,
    MasterKeySubmission, MessageOrigin, Origin, OutboundMessage, WorkerEndpointPayload, WorkerInfo,
    WorkerRegistrationInfo,
};
use vstd::prelude::*;

verus! {

/// What is settled for a fleet once and for all.
#[derive(Clone, Copy, Debug, PartialEq, Eq)]
pub struct Config {
    /// Whether a worker may be admitted without evidence. Not for a fleet
    /// in production.
    pub none_attestation_enabled: bool,
    /// How many heights lie between two sweeps, and for how long a worker
    /// may go without work. With zero, no sweep runs by itself.
    pub at_least_work_block: BlockNumber,
    /// Whether the measured binary must be on the allow-list. Always so for
    /// a fleet in production.
    pub verify_pflix: bool,
}

/// The fleet: its registry of workers, the allow-list of binaries, and the
/// state of the master key.
pub struct Pallet {
    config: Config,
    workers: KeyedMap<WorkerInfo>,
    worker_added_at: KeyedMap<BlockNumber>,
    endpoints: KeyedMap<String>,
    last_work: KeyedMap<BlockNumber>,
    last_refresh: KeyedMap<BlockNumber>,
    allowlist: Vec<H256>,
    bin_added_at: KeyedMap<BlockNumber>,
    master_key: MasterKeyState,
    old_master_pubkey: Option<MasterPublicKey>,
    old_master_pubkey_list: Vec<MasterPublicKey>,
    minimum_version: (u32, u32, u32),
    note_stalled: Option<bool>,
}

impl View for Pallet {
    type V = PalletView;

    closed spec fn view(&self) -> PalletView {
        PalletView {
            policy: AttestationPolicy {
                verify_pflix: self.config.verify_pflix,
                none_attestation_enabled: self.config.none_attestation_enabled,
            },
            interval: self.config.at_least_work_block,
            workers: self.workers@.map_values(|info: WorkerInfo| info@),
            worker_order: self.workers.keys(),
            added_at: self.worker_added_at@,
            endpoints: self.endpoints@.map_values(|endpoint: String| endpoint@),
            last_work: self.last_work@,
            last_refresh: self.last_refresh@,
            allowlist: self.allowlist@,
            bin_added_at: self.bin_added_at@,
            master_key: self.master_key,
            old_master_pubkey: self.old_master_pubkey,
            history: self.old_master_pubkey_list@,
            minimum_version: self.minimum_version,
            note_stalled: self.note_stalled,
        }
    }
}

/// The marks of work once each of `keys` has worked at `height`.
spec fn marked(marks: Map<[u8; 32], BlockNumber>, keys: Seq<[u8; 32]>, height: BlockNumber)
    -> Map<[u8; 32], BlockNumber> {
    Map::new(
        |key: [u8; 32]| marks.contains_key(key) || keys.contains(key),
        |key: [u8; 32]|
            if keys.contains(key) {
                height
            } else {
                marks[key]
            },
    )
}

/// The first `i + 1` of `keys` hold what the first `i` hold, and `keys[i]`.
proof fn lemma_take_next(keys: Seq<[u8; 32]>, i: int)
    requires
        0 <= i < keys.len(),
    ensures
        keys.take(i + 1) == keys.take(i).push(keys[i]),
        forall|key: [u8; 32]|
            keys.take(i + 1).contains(key) <==> keys.take(i).contains(key) || key == keys[i],
{
    let longer = keys.take(i + 1);
    let shorter = keys.take(i);
    assert(longer =~= shorter.push(keys[i]));
    assert forall|key: [u8; 32]|
        longer.contains(key) <==> shorter.contains(key) || key == keys[i] by {
        if longer.contains(key) {
            let j = choose|j: int| 0 <= j < longer.len() && longer[j] == key;
            if j < i {
                assert(shorter[j] == key);
            }
        }
        if shorter.contains(key) {
            let j = choose|j: int| 0 <= j < shorter.len() && shorter[j] == key;
            assert(longer[j] == key);
        }
        if key == keys[i] {
            assert(longer[i] == key);
        }
    }
}

/// Whether something signed at `signing_time` is heard at `now`.
pub fn in_window(signing_time: u64, now: u64, window: u64) -> (heard: bool)
    ensures
        heard == within_window(signing_time, now, window),
{
    signing_time < now && now - signing_time <= window
}

/// Whether an operation that found the fleet as `before` and gave `result`
/// ended as `outcome` says: rejected with the fleet left as it was, or with
/// the fleet as `after`, its registry sound, and the actions of `result`.
pub open spec fn ends_as(
    before: Pallet,
    after: Pallet,
    result: Result<Vec<Action>, DispatchError>,
    outcome: Outcome,
) -> bool {
    match result {
        Ok(actions) => outcome == Ok::<(PalletView, Seq<Action>), DispatchError>(
            (after@, actions@),
        ) && after@.wf(),
        Err(error) => outcome == Err::<(PalletView, Seq<Action>), DispatchError>(error) && after
            == before,
    }
}

impl Pallet {
    /// A fleet without workers, with an empty allow-list and no master key.
    pub fn new(config: Config) -> (pallet: Pallet)
        ensures
            pallet@ == (PalletView {
                policy: AttestationPolicy {
                    verify_pflix: config.verify_pflix,
                    none_attestation_enabled: config.none_attestation_enabled,
                },
                interval: config.at_least_work_block,
                workers: Map::empty(),
                worker_order: Seq::empty(),
                added_at: Map::empty(),
                endpoints: Map::empty(),
                last_work: Map::empty(),
                last_refresh: Map::empty(),
                allowlist: Seq::empty(),
                bin_added_at: Map::empty(),
                master_key: MasterKeyState::Uninitialized,
                old_master_pubkey: None,
                history: Seq::empty(),
                minimum_version: (0u32, 0u32, 0u32),
                note_stalled: None,
            }),
            pallet@.wf(),
    {
        let pallet = Pallet {
            config,
            workers: KeyedMap::new(),
            worker_added_at: KeyedMap::new(),
            endpoints: KeyedMap::new(),
            last_work: KeyedMap::new(),
            last_refresh: KeyedMap::new(),
            allowlist: Vec::new(),
            bin_added_at: KeyedMap::new(),
            master_key: MasterKeyState::Uninitialized,
            old_master_pubkey: None,
            old_master_pubkey_list: Vec::new(),
            minimum_version: (0, 0, 0),
            note_stalled: None,
        };
        assert(pallet@.workers =~= Map::empty());
        assert(pallet@.endpoints =~= Map::empty());
        pallet.recall_soundness();
        pallet
    }

    /// The switches for the appraisal of evidence.
    pub fn policy(&self) -> (policy: AttestationPolicy)
        ensures
            policy == self@.policy,
    {
        AttestationPolicy {
            verify_pflix: self.config.verify_pflix,
            none_attestation_enabled: self.config.none_attestation_enabled,
        }
    }

    /// Recalls that the registry is sound: no identity stands twice in it,
    /// and each identity in it has one profile.
    fn recall_soundness(&self)
        ensures
            self@.wf(),
    {
        let _ = self.worker_count();
    }

    /// Admits a worker on the word of the root origin, without evidence.
    pub fn force_register_worker(
        &mut self,
        origin: Origin,
        pubkey: WorkerPublicKey,
        ecdh_pubkey: EcdhPublicKey,
        stash_account: Option<AccountId>,
        confidence_level: u8,
        height: BlockNumber,
    ) -> (result: Result<Vec<Action>, DispatchError>)
        ensures
            ends_as(
                *old(self),
                *final(self),
                result,
                old(self)@.force_registered(
                    origin,
                    pubkey,
                    ecdh_pubkey,
                    stash_account,
                    confidence_level,
                    height,
                ),
            ),
    {
        match origin {
            Origin::Root => {},
            _ => {
                return Err(DispatchError::BadOrigin);
            },
        }
        let mut features: Vec<u32> = Vec::new();
        features.push(1);
        features.push(4);
        let worker_info = WorkerInfo {
            pubkey,
            ecdh_pubkey,
            version: 0,
            last_updated: 1,
            stash_account,
            attestation_provider: Some(AttestationProvider::Root),
            confidence_level,
            features,
        };
        assert(worker_info@.features =~= seq![1u32, 4u32]);
        self.workers.insert(pubkey.0, worker_info);
        self.worker_added_at.insert(pubkey.0, height);
        let mut actions: Vec<Action> = Vec::new();
        actions.push(Action::Push(OutboundMessage::WorkerRegistered { pubkey }));
        actions.push(
            Action::Deposit(
                Event::WorkerAdded {
                    pubkey,
                    attestation_provider: Some(AttestationProvider::Root),
                    confidence_level,
                },
            ),
        );
        proof {
            let expected = old(self)@.force_registered(
                origin,
                pubkey,
                ecdh_pubkey,
                stash_account,
                confidence_level,
                height,
            )->Ok_0;
            assert(self@.workers =~= expected.0.workers);
            assert(self@.endpoints =~= expected.0.endpoints);
            assert(actions@ =~= expected.1);
        }
        self.recall_soundness();
        Ok(actions)
    }

    /// Admits a worker on the strength of evidence in the legacy form.
    /// `encoded_info` is the encoding of `pflix_info` that the evidence is
    /// bound to; `now` is the unix time in seconds.
    pub fn register_worker(
        &mut self,
        origin: Origin,
        pflix_info: WorkerRegistrationInfo,
        encoded_info: &[u8],
        attestation: Attestation,
        now: u64,
        height: BlockNumber,
    ) -> (result: Result<Vec<Action>, DispatchError>)
        ensures
            ends_as(
                *old(self),
                *final(self),
                result,
                old(self)@.registered(
                    origin,
                    pflix_info,
                    encoded_info@,
                    Some(attestation.report()),
                    now,
                    height,
                ),
            ),
    {
        self.register_worker_v2(
            origin,
            pflix_info,
            encoded_info,
            Some(attestation.into_report()),
            now,
            height,
        )
    }

    /// Admits a worker on the strength of its evidence, or without evidence
    /// where the fleet allows that. `encoded_info` is the encoding of
    /// `pflix_info` that the evidence is bound to; `now` is the unix time in
    /// seconds.
    pub fn register_worker_v2(
        &mut self,
        origin: Origin,
        pflix_info: WorkerRegistrationInfo,
        encoded_info: &[u8],
        attestation: Option<AttestationReport>,
        now: u64,
        height: BlockNumber,
    ) -> (result: Result<Vec<Action>, DispatchError>)
        ensures
            ends_as(
                *old(self),
                *final(self),
                result,
                old(self)@.registered(origin, pflix_info, encoded_info@, attestation, now, height),
            ),
    {
        match origin {
            Origin::Signed(_) => {},
            _ => {
                return Err(DispatchError::BadOrigin);
            },
        }
        let binding_hash = H256(blake2_256(encoded_info));
        let verdict = validate(attestation, &binding_hash, self.policy(), &self.allowlist);
        self.register_appraised(origin, pflix_info, verdict, now, height)
    }

    /// Admits a worker whose evidence earned `verdict`; `now` is the unix
    /// time in seconds.
    pub fn register_appraised(
        &mut self,
        origin: Origin,
        pflix_info: WorkerRegistrationInfo,
        verdict: Result<TrustResult, AttestationError>,
        now: u64,
        height: BlockNumber,
    ) -> (result: Result<Vec<Action>, DispatchError>)
        ensures
            ends_as(
                *old(self),
                *final(self),
                result,
                old(self)@.registered_with(origin, pflix_info, verdict, now, height),
            ),
    {
        match origin {
            Origin::Signed(_) => {},
            _ => {
                return Err(DispatchError::BadOrigin);
            },
        }
        let trust = match verdict {
            Ok(trust) => trust,
            Err(reason) => {
                return Err(DispatchError::Module(Error::from(reason)));
            },
        };
        let pubkey = pflix_info.pubkey;
        if self.workers.contains_key(&pubkey.0) {
            return Err(DispatchError::Module(Error::PflixAlreadyExists));
        }
        let worker_info = WorkerInfo {
            pubkey,
            ecdh_pubkey: pflix_info.ecdh_pubkey,
            version: pflix_info.version,
            last_updated: now,
            stash_account: pflix_info.operator,
            attestation_provider: trust.provider,
            confidence_level: trust.confidence_level,
            features: pflix_info.features,
        };
        self.workers.insert(pubkey.0, worker_info);
        self.last_work.insert(pubkey.0, height);
        self.last_refresh.insert(pubkey.0, height);
        self.worker_added_at.insert(pubkey.0, height);
        let mut actions: Vec<Action> = Vec::new();
        actions.push(Action::Push(OutboundMessage::WorkerRegistered { pubkey }));
        actions.push(
            Action::Deposit(
                Event::WorkerAdded {
                    pubkey,
                    attestation_provider: trust.provider,
                    confidence_level: trust.confidence_level,
                },
            ),
        );
        proof {
            let expected = old(self)@.registered_with(origin, pflix_info, verdict, now, height)->Ok_0;
            assert(self@.workers =~= expected.0.workers);
            assert(self@.endpoints =~= expected.0.endpoints);
            assert(actions@ =~= expected.1);
        }
        self.recall_soundness();
        Ok(actions)
    }

    /// Takes fresh evidence of a registered worker, and lets the worker's
    /// confidence follow it. `encoded_info` is the encoding of `pflix_info`
    /// that the evidence is bound to.
    pub fn refresh_tee_status(
        &mut self,
        origin: Origin,
        pflix_info: WorkerRegistrationInfo,
        encoded_info: &[u8],
        attestation: Option<AttestationReport>,
        height: BlockNumber,
    ) -> (result: Result<Vec<Action>, DispatchError>)
        ensures
            ends_as(
                *old(self),
                *final(self),
                result,
                old(self)@.refreshed(origin, pflix_info, encoded_info@, attestation, height),
            ),
    {
        match origin {
            Origin::Signed(_) => {},
            _ => {
                return Err(DispatchError::BadOrigin);
            },
        }
        let binding_hash = H256(blake2_256(encoded_info));
        let verdict = validate(attestation, &binding_hash, self.policy(), &self.allowlist);
        self.refresh_appraised(origin, pflix_info, verdict, height)
    }

    /// Lets the confidence of a registered worker follow fresh evidence that
    /// earned `verdict`.
    pub fn refresh_appraised(
        &mut self,
        origin: Origin,
        pflix_info: WorkerRegistrationInfo,
        verdict: Result<TrustResult, AttestationError>,
        height: BlockNumber,
    ) -> (result: Result<Vec<Action>, DispatchError>)
        ensures
            ends_as(
                *old(self),
                *final(self),
                result,
                old(self)@.refreshed_with(origin, pflix_info, verdict, height),
            ),
    {
        match origin {
            Origin::Signed(_) => {},
            _ => {
                return Err(DispatchError::BadOrigin);
            },
        }
        let trust = match verdict {
            Ok(trust) => trust,
            Err(reason) => {
                return Err(DispatchError::Module(Error::from(reason)));
            },
        };
        let pubkey = pflix_info.pubkey;
        let refreshed = match self.workers.get(&pubkey.0) {
            None => {
                return Err(DispatchError::Module(Error::NonTeeWorker));
            },
            Some(worker) => WorkerInfo {
                pubkey: worker.pubkey,
                ecdh_pubkey: worker.ecdh_pubkey,
                version: worker.version,
                last_updated: worker.last_updated,
                stash_account: worker.stash_account,
                attestation_provider: worker.attestation_provider,
                confidence_level: trust.confidence_level,
                features: worker.features.clone(),
            },
        };
        self.workers.insert(pubkey.0, refreshed);
        self.last_refresh.insert(pubkey.0, height);
        let mut actions: Vec<Action> = Vec::new();
        actions.push(
            Action::Deposit(Event::RefreshStatus { pubkey, level: trust.confidence_level }),
        );
        proof {
            let expected = old(self)@.refreshed_with(origin, pflix_info, verdict, height)->Ok_0;
            assert(refreshed@.features =~= old(self).workers@[pubkey.0]@.features);
            assert(self@.workers =~= expected.0.workers);
            assert(self@.endpoints =~= expected.0.endpoints);
            assert(actions@ =~= expected.1);
        }
        self.recall_soundness();
        Ok(actions)
    }

    /// Binds an endpoint to the identity of a registered worker.
    /// `signed_content` is what the worker signed: the encoding of
    /// `endpoint_payload`, marked as a claim to an endpoint; `now` is the
    /// unix time in milliseconds.
    pub fn update_worker_endpoint(
        &mut self,
        origin: Origin,
        endpoint_payload: WorkerEndpointPayload,
        signed_content: &[u8],
        signature: &[u8],
        now: u64,
    ) -> (result: Result<Vec<Action>, DispatchError>)
        ensures
            ends_as(
                *old(self),
                *final(self),
                result,
                old(self)@.endpoint_updated(
                    origin,
                    endpoint_payload,
                    signed_content@,
                    signature@,
                    now,
                ),
            ),
    {
        match origin {
            Origin::Signed(_) => {},
            _ => {
                return Err(DispatchError::BadOrigin);
            },
        }
        let checked = check_signature(signature, signed_content, &endpoint_payload.pubkey);
        self.bind_endpoint(origin, endpoint_payload, checked, now)
    }

    /// Binds an endpoint to the identity of a registered worker, by a claim
    /// whose signature was found to be as `checked` says; `now` is the unix
    /// time in milliseconds.
    pub fn bind_endpoint(
        &mut self,
        origin: Origin,
        endpoint_payload: WorkerEndpointPayload,
        checked: Result<(), Error>,
        now: u64,
    ) -> (result: Result<Vec<Action>, DispatchError>)
        ensures
            ends_as(
                *old(self),
                *final(self),
                result,
                old(self)@.endpoint_updated_with(origin, endpoint_payload, checked, now),
            ),
    {
        match origin {
            Origin::Signed(_) => {},
            _ => {
                return Err(DispatchError::BadOrigin);
            },
        }
        match checked {
            Ok(()) => {},
            Err(error) => {
                return Err(DispatchError::Module(error));
            },
        }
        let pubkey = endpoint_payload.pubkey;
        let endpoint = match endpoint_payload.endpoint {
            Some(endpoint) => endpoint,
            None => {
                return Err(DispatchError::Module(Error::EmptyEndpoint));
            },
        };
        if endpoint.as_str().is_empty() {
            return Err(DispatchError::Module(Error::EmptyEndpoint));
        }
        if !in_window(endpoint_payload.signing_time, now, ENDPOINT_WINDOW) {
            return Err(DispatchError::Module(Error::InvalidEndpointSigningTime));
        }
        if !self.workers.contains_key(&pubkey.0) {
            return Err(DispatchError::Module(Error::InvalidWorkerPubKey));
        }
        self.endpoints.insert(pubkey.0, endpoint);
        let actions: Vec<Action> = Vec::new();
        proof {
            let expected = old(self)@.endpoint_updated_with(
                origin,
                endpoint_payload,
                checked,
                now,
            )->Ok_0;
            assert(self@.workers =~= expected.0.workers);
            assert(self@.endpoints =~= expected.0.endpoints);
            assert(actions@ =~= expected.1);
        }
        self.recall_soundness();
        Ok(actions)
    }

    /// Passes on a registered worker's request for a copy of the master key.
    /// `signed_content` is what the worker signed: the encoding of
    /// `payload`, marked as a request for the master key; `now` is the unix
    /// time in milliseconds.
    pub fn apply_master_key(
        &self,
        origin: Origin,
        payload: MasterKeyApplyPayload,
        signed_content: &[u8],
        signature: &[u8],
        now: u64,
    ) -> (result: Result<Vec<Action>, DispatchError>)
        ensures
            ends_as(
                *self,
                *self,
                result,
                self@.master_key_applied(origin, payload, signed_content@, signature@, now),
            ),
    {
        match origin {
            Origin::Signed(_) => {},
            _ => {
                return Err(DispatchError::BadOrigin);
            },
        }
        let checked = check_signature(signature, signed_content, &payload.pubkey);
        self.forward_master_key_request(origin, payload, checked, now)
    }

    /// Passes on a registered worker's request for a copy of the master key,
    /// whose signature was found to be as `checked` says; `now` is the unix
    /// time in milliseconds.
    pub fn forward_master_key_request(
        &self,
        origin: Origin,
        payload: MasterKeyApplyPayload,
        checked: Result<(), Error>,
        now: u64,
    ) -> (result: Result<Vec<Action>, DispatchError>)
        ensures
            ends_as(
                *self,
                *self,
                result,
                self@.master_key_applied_with(origin, payload, checked, now),
            ),
    {
        match origin {
            Origin::Signed(_) => {},
            _ => {
                return Err(DispatchError::BadOrigin);
            },
        }
        match checked {
            Ok(()) => {},
            Err(error) => {
                return Err(DispatchError::Module(error));
            },
        }
        if !in_window(payload.signing_time, now, APPLY_WINDOW) {
            return Err(DispatchError::Module(Error::InvalidMasterKeyApplySigningTime));
        }
        if !self.workers.contains_key(&payload.pubkey.0) {
            return Err(DispatchError::Module(Error::InvalidWorkerPubKey));
        }
        let mut actions: Vec<Action> = Vec::new();
        actions.push(
            Action::Push(
                OutboundMessage::Apply { pubkey: payload.pubkey, ecdh_pubkey: payload.ecdh_pubkey },
            ),
        );
        actions.push(Action::Deposit(Event::MasterKeyApplied { worker_pubkey: payload.pubkey }));
        proof {
            let expected = self@.master_key_applied_with(origin, payload, checked, now)->Ok_0;
            assert(actions@ =~= expected.1);
        }
        self.recall_soundness();
        Ok(actions)
    }

    /// Designates a registered worker to generate the master key.
    pub fn launch_master_key(&mut self, origin: Origin, worker_pubkey: WorkerPublicKey) -> (result:
        Result<Vec<Action>, DispatchError>)
        ensures
            ends_as(
                *old(self),
                *final(self),
                result,
                old(self)@.master_key_launched(origin, worker_pubkey),
            ),
    {
        match origin {
            Origin::Governance => {},
            _ => {
                return Err(DispatchError::BadOrigin);
            },
        }
        let found = self.workers.get(&worker_pubkey.0);
        let next = match self.master_key.launch(worker_pubkey, found.is_some()) {
            Ok(next) => next,
            Err(error) => {
                return Err(DispatchError::Module(error));
            },
        };
        let ecdh_pubkey = match found {
            Some(worker_info) => worker_info.ecdh_pubkey,
            None => {
                return Err(DispatchError::Module(Error::WorkerNotFound));
            },
        };
        self.master_key = next;
        let mut actions: Vec<Action> = Vec::new();
        actions.push(
            Action::Push(OutboundMessage::LaunchRequest { holder: worker_pubkey, ecdh_pubkey }),
        );
        actions.push(Action::Deposit(Event::MasterKeyLaunching { holder: worker_pubkey }));
        proof {
            let expected = old(self)@.master_key_launched(origin, worker_pubkey)->Ok_0;
            assert(actions@ =~= expected.1);
        }
        self.recall_soundness();
        Ok(actions)
    }

    /// Retires the master key on record. The key goes into the history, and
    /// after it the key that was in force before it, if one is on record.
    pub fn clear_master_key(&mut self, origin: Origin) -> (result: Result<
        Vec<Action>,
        DispatchError,
    >)
        ensures
            ends_as(*old(self), *final(self), result, old(self)@.master_key_cleared(origin)),
    {
        match origin {
            Origin::Governance => {},
            _ => {
                return Err(DispatchError::BadOrigin);
            },
        }
        let (next, retiring) = match self.master_key.clear() {
            Ok(cleared) => cleared,
            Err(error) => {
                return Err(DispatchError::Module(error));
            },
        };
        self.old_master_pubkey_list.push(retiring);
        match self.old_master_pubkey {
            Some(previous) => {
                self.old_master_pubkey_list.push(previous);
            },
            None => {},
        }
        self.master_key = next;
        let mut actions: Vec<Action> = Vec::new();
        actions.push(Action::ResetIngressSequence(MessageOrigin::Keyfairy));
        proof {
            let expected = old(self)@.master_key_cleared(origin)->Ok_0;
            assert(actions@ =~= expected.1);
        }
        self.recall_soundness();
        Ok(actions)
    }

    /// Passes the designation of the first holder on to `pubkey`.
    pub fn change_first_holder(&mut self, origin: Origin, pubkey: WorkerPublicKey) -> (result:
        Result<Vec<Action>, DispatchError>)
        ensures
            ends_as(
                *old(self),
                *final(self),
                result,
                old(self)@.first_holder_changed(origin, pubkey),
            ),
    {
        match origin {
            Origin::Governance => {},
            _ => {
                return Err(DispatchError::BadOrigin);
            },
        }
        let next = match self.master_key.change_holder(pubkey) {
            Ok(next) => next,
            Err(error) => {
                return Err(DispatchError::Module(error));
            },
        };
        self.master_key = next;
        let mut actions: Vec<Action> = Vec::new();
        actions.push(Action::Deposit(Event::ChangeFirstHolder { pubkey }));
        proof {
            let expected = old(self)@.first_holder_changed(origin, pubkey)->Ok_0;
            assert(actions@ =~= expected.1);
        }
        self.recall_soundness();
        Ok(actions)
    }

    /// Hears a submission of the master public key that came over the bus,
    /// at the height `height` and the unix time `now`, in seconds.
    pub fn on_message_received(&mut self, message: DecodedMessage, height: BlockNumber, now: u64)
        -> (result: Result<Vec<Action>, DispatchError>)
        ensures
            ends_as(
                *old(self),
                *final(self),
                result,
                old(self)@.message_received(message, height, now),
            ),
    {
        let master_pubkey = match message.payload {
            MasterKeySubmission::MasterPubkey { master_pubkey } => master_pubkey,
        };
        let next = match self.master_key.submit(message.sender, master_pubkey, height, now) {
            Ok(next) => next,
            Err(error) => {
                return Err(DispatchError::Module(error));
            },
        };
        let mut actions: Vec<Action> = Vec::new();
        match self.master_key {
            MasterKeyState::Launching { .. } => {
                actions.push(Action::Push(OutboundMessage::OnChainLaunched { master_pubkey }));
                actions.push(Action::Deposit(Event::MasterKeyLaunched));
            },
            _ => {},
        }
        self.master_key = next;
        proof {
            let expected = old(self)@.message_received(message, height, now)->Ok_0;
            assert(actions@ =~= expected.1);
        }
        self.recall_soundness();
        Ok(actions)
    }

    /// The master public key on record.
    pub fn try_get(&self) -> (pubkey: Option<MasterPublicKey>)
        ensures
            pubkey == self@.master_key.pubkey(),
    {
        self.master_key.master_pubkey()
    }

    /// Puts a binary onto the allow-list.
    pub fn add_pflix(&mut self, origin: Origin, pflix_hash: H256, height: BlockNumber) -> (result:
        Result<Vec<Action>, DispatchError>)
        ensures
            ends_as(
                *old(self),
                *final(self),
                result,
                old(self)@.pflix_added(origin, pflix_hash, height),
            ),
    {
        match origin {
            Origin::Governance => {},
            _ => {
                return Err(DispatchError::BadOrigin);
            },
        }
        if is_allowed(&self.allowlist, &pflix_hash) {
            return Err(DispatchError::Module(Error::PflixBinAlreadyExists));
        }
        self.allowlist.push(pflix_hash);
        self.bin_added_at.insert(pflix_hash.0, height);
        let mut actions: Vec<Action> = Vec::new();
        actions.push(Action::Deposit(Event::PflixBinAdded(pflix_hash)));
        proof {
            let expected = old(self)@.pflix_added(origin, pflix_hash, height)->Ok_0;
            assert(actions@ =~= expected.1);
        }
        self.recall_soundness();
        Ok(actions)
    }

    /// Takes a binary off the allow-list.
    pub fn remove_pflix(&mut self, origin: Origin, pflix_hash: H256) -> (result: Result<
        Vec<Action>,
        DispatchError,
    >)
        ensures
            ends_as(*old(self), *final(self), result, old(self)@.pflix_removed(origin, pflix_hash)),
    {
        match origin {
            Origin::Governance => {},
            _ => {
                return Err(DispatchError::BadOrigin);
            },
        }
        if !is_allowed(&self.allowlist, &pflix_hash) {
            return Err(DispatchError::Module(Error::PflixBinNotFound));
        }
        let mut kept: Vec<H256> = Vec::new();
        let mut i: usize = 0;
        while i < self.allowlist.len()
            invariant
                i <= self.allowlist@.len(),
                *self == *old(self),
                kept@ == without_digest(self.allowlist@.take(i as int), pflix_hash),
            decreases self.allowlist@.len() - i,
        {
            proof {
                let next = self.allowlist@.take(i + 1);
                assert(next.drop_last() =~= self.allowlist@.take(i as int));
                assert(next.last() == self.allowlist@[i as int]);
            }
            if !self.allowlist[i].same(&pflix_hash) {
                kept.push(self.allowlist[i]);
            }
            i += 1;
        }
        assert(self.allowlist@.take(i as int) =~= self.allowlist@);
        self.allowlist = kept;
        self.bin_added_at.remove(&pflix_hash.0);
        let mut actions: Vec<Action> = Vec::new();
        actions.push(Action::Deposit(Event::PflixBinRemoved(pflix_hash)));
        proof {
            let expected = old(self)@.pflix_removed(origin, pflix_hash)->Ok_0;
            assert(actions@ =~= expected.1);
        }
        self.recall_soundness();
        Ok(actions)
    }

    /// Raises the lowest version that a worker may run. A version below the
    /// one in force changes nothing. No worker leaves on this account.
    pub fn set_minimum_pflix_version(&mut self, origin: Origin, major: u32, minor: u32, patch: u32)
        -> (result: Result<Vec<Action>, DispatchError>)
        ensures
            ends_as(
                *old(self),
                *final(self),
                result,
                old(self)@.minimum_version_set(origin, (major, minor, patch)),
            ),
    {
        match origin {
            Origin::Governance => {},
            _ => {
                return Err(DispatchError::BadOrigin);
            },
        }
        let mut actions: Vec<Action> = Vec::new();
        let (cur_major, cur_minor, cur_patch) = self.minimum_version;
        let below = major < cur_major || (major == cur_major && (minor < cur_minor || (minor
            == cur_minor && patch < cur_patch)));
        if !below {
            self.minimum_version = (major, minor, patch);
            actions.push(Action::Deposit(Event::MinimumPflixVersionChangedTo(major, minor, patch)));
        }
        proof {
            let expected = old(self)@.minimum_version_set(origin, (major, minor, patch))->Ok_0;
            assert(actions@ =~= expected.1);
        }
        self.recall_soundness();
        Ok(actions)
    }

    /// Says whether the fleet is stalled. While it is, no sweep retires a
    /// worker.
    pub fn set_note_stalled(&mut self, origin: Origin, note_stalled: bool) -> (result: Result<
        Vec<Action>,
        DispatchError,
    >)
        ensures
            ends_as(
                *old(self),
                *final(self),
                result,
                old(self)@.note_stalled_set(origin, note_stalled),
            ),
    {
        match origin {
            Origin::Root => {},
            _ => {
                return Err(DispatchError::BadOrigin);
            },
        }
        self.note_stalled = Some(note_stalled);
        self.recall_soundness();
        Ok(Vec::new())
    }

    /// Credits every registered worker with work at the height `height`.
    pub fn migration_last_work(&mut self, origin: Origin, height: BlockNumber) -> (result: Result<
        Vec<Action>,
        DispatchError,
    >)
        ensures
            ends_as(
                *old(self),
                *final(self),
                result,
                old(self)@.last_work_migrated(origin, height),
            ),
    {
        match origin {
            Origin::Governance => {},
            _ => {
                return Err(DispatchError::BadOrigin);
            },
        }
        let ghost marks = self.last_work@;
        let ghost order = self.workers.keys();
        let count = self.workers.len();
        let mut i: usize = 0;
        while i < count
            invariant
                i <= count,
                count == order.len(),
                order == self.workers.keys(),
                self.last_work@ == marked(marks, order.take(i as int), height),
                self.config == old(self).config,
                self.workers == old(self).workers,
                self.worker_added_at == old(self).worker_added_at,
                self.endpoints == old(self).endpoints,
                self.last_refresh == old(self).last_refresh,
                self.allowlist == old(self).allowlist,
                self.bin_added_at == old(self).bin_added_at,
                self.master_key == old(self).master_key,
                self.old_master_pubkey == old(self).old_master_pubkey,
                self.old_master_pubkey_list == old(self).old_master_pubkey_list,
                self.minimum_version == old(self).minimum_version,
                self.note_stalled == old(self).note_stalled,
            decreases count - i,
        {
            let key = self.workers.entry_at(i).key;
            proof {
                lemma_take_next(order, i as int);
                assert(key == order[i as int]);
                let before = marked(marks, order.take(i as int), height).insert(key, height);
                let after = marked(marks, order.take(i + 1), height);
                assert forall|k: [u8; 32]| before.contains_key(k) <==> after.contains_key(k) by {
                    assert(order.take(i + 1).contains(k) <==> order.take(i as int).contains(k) || k
                        == order[i as int]);
                }
                assert forall|k: [u8; 32]| before.contains_key(k) implies before[k] == after[k] by {
                    assert(order.take(i + 1).contains(k) <==> order.take(i as int).contains(k) || k
                        == order[i as int]);
                }
                assert(before =~= after);
            }
            self.last_work.insert(key, height);
            i += 1;
        }
        proof {
            assert(order.take(count as int) =~= order);
            let expected = old(self)@.all_worked_at(height);
            assert forall|key: [u8; 32]|
                order.contains(key) <==> old(self)@.workers.contains_key(key) by {
                lemma_domain(old(self).workers.entries(), key);
            }
            assert(self@.last_work =~= expected.last_work);
        }
        self.recall_soundness();
        Ok(Vec::new())
    }

    /// Removes all that is known of `worker`, unless it is the designated
    /// holder of the master key. Tells of the exit.
    pub fn execute_exit(&mut self, worker: &WorkerPublicKey) -> (result: Result<Event, Error>)
        ensures
            match result {
                Ok(event) => {
                    &&& !old(self)@.is_holder(worker.0)
                    &&& final(self)@ == old(self)@.exited(worker.0)
                    &&& final(self)@.wf()
                    &&& event == (Event::Exit { tee: *worker })
                },
                Err(error) => {
                    &&& old(self)@.is_holder(worker.0)
                    &&& error == Error::CannotExitMasterKeyHolder
                    &&& *final(self) == *old(self)
                },
            },
    {
        if self.master_key.is_holder(worker) {
            return Err(Error::CannotExitMasterKeyHolder);
        }
        self.workers.remove(&worker.0);
        self.worker_added_at.remove(&worker.0);
        self.endpoints.remove(&worker.0);
        self.last_work.remove(&worker.0);
        self.last_refresh.remove(&worker.0);
        proof {
            let expected = old(self)@.exited(worker.0);
            assert(self@.workers =~= expected.workers);
            assert(self@.endpoints =~= expected.endpoints);
        }
        self.recall_soundness();
        Ok(Event::Exit { tee: *worker })
    }

    /// Removes a worker from the fleet.
    pub fn force_clear_tee(&mut self, origin: Origin, puk: WorkerPublicKey) -> (result: Result<
        Vec<Action>,
        DispatchError,
    >)
        ensures
            ends_as(*old(self), *final(self), result, old(self)@.force_cleared(origin, puk)),
    {
        match origin {
            Origin::Governance => {},
            _ => {
                return Err(DispatchError::BadOrigin);
            },
        }
        let event = match self.execute_exit(&puk) {
            Ok(event) => event,
            Err(error) => {
                return Err(DispatchError::Module(error));
            },
        };
        let mut actions: Vec<Action> = Vec::new();
        actions.push(Action::Deposit(event));
        proof {
            let expected = old(self)@.force_cleared(origin, puk)->Ok_0;
            assert(actions@ =~= expected.1);
        }
        self.recall_soundness();
        Ok(actions)
    }

    /// Records that `worker` proved work at the height `height`.
    pub fn record_work(&mut self, worker: &WorkerPublicKey, height: BlockNumber)
        ensures
            final(self)@ == (PalletView {
                last_work: old(self)@.last_work.insert(worker.0, height),
                ..old(self)@
            }),
            final(self)@.wf(),
    {
        self.last_work.insert(worker.0, height);
        self.recall_soundness();
    }

    /// Puts on record which master public key was in force before the
    /// current one.
    pub fn set_old_master_pubkey(&mut self, previous: Option<MasterPublicKey>)
        ensures
            final(self)@ == (PalletView { old_master_pubkey: previous, ..old(self)@ }),
            final(self)@.wf(),
    {
        self.old_master_pubkey = previous;
        self.recall_soundness();
    }

    /// The number of registered workers. No identity is registered twice.
    pub fn worker_count(&self) -> (count: usize)
        ensures
            count == self@.worker_order.len(),
            self@.worker_order.no_duplicates(),
            forall|key: [u8; 32]|
                self@.worker_order.contains(key) <==> #[trigger] self@.workers.contains_key(key),
    {
        proof {
            assert forall|key: [u8; 32]|
                self@.worker_order.contains(key) <==> #[trigger] self@.workers.contains_key(
                    key,
                ) by {
                lemma_domain(self.workers.entries(), key);
            }
        }
        self.workers.len()
    }

    /// The identity that was admitted as the `index`-th of those registered.
    pub fn worker_at(&self, index: usize) -> (worker: WorkerPublicKey)
        requires
            index < self@.worker_order.len(),
        ensures
            worker.0 == self@.worker_order[index as int],
            self@.workers.contains_key(worker.0),
    {
        WorkerPublicKey(self.workers.entry_at(index).key)
    }

    /// The profile of `worker`, if it is registered.
    pub fn worker(&self, worker: &WorkerPublicKey) -> (profile: Option<&WorkerInfo>)
        ensures
            match profile {
                Some(info) => self@.workers.contains_key(worker.0) && info@
                    == self@.workers[worker.0],
                None => !self@.workers.contains_key(worker.0),
            },
    {
        self.workers.get(&worker.0)
    }

    /// Whether `worker` is registered.
    pub fn contains_worker(&self, worker: &WorkerPublicKey) -> (registered: bool)
        ensures
            registered == self@.is_registered(*worker),
    {
        self.workers.contains_key(&worker.0)
    }

    /// The height at which `worker` was admitted.
    pub fn worker_added_at(&self, worker: &WorkerPublicKey) -> (height: Option<BlockNumber>)
        ensures
            height == self@.added_at.get(worker.0),
    {
        match self.worker_added_at.get(&worker.0) {
            Some(height) => Some(*height),
            None => None,
        }
    }

    /// The endpoint bound to `worker`.
    pub fn endpoint(&self, worker: &WorkerPublicKey) -> (endpoint: Option<&String>)
        ensures
            match endpoint {
                Some(bound) => self@.endpoints.contains_key(worker.0) && bound@
                    == self@.endpoints[worker.0],
                None => !self@.endpoints.contains_key(worker.0),
            },
    {
        self.endpoints.get(&worker.0)
    }

    /// The height at which `worker` last proved work.
    pub fn last_work(&self, worker: &WorkerPublicKey) -> (height: Option<BlockNumber>)
        ensures
            height == self@.last_work.get(worker.0),
    {
        match self.last_work.get(&worker.0) {
            Some(height) => Some(*height),
            None => None,
        }
    }

    /// The height at which `worker` last refreshed its attestation.
    pub fn last_refresh(&self, worker: &WorkerPublicKey) -> (height: Option<BlockNumber>)
        ensures
            height == self@.last_refresh.get(worker.0),
    {
        match self.last_refresh.get(&worker.0) {
            Some(height) => Some(*height),
            None => None,
        }
    }

    /// The digests of the binaries that may register.
    pub fn pflix_bin_allowlist(&self) -> (allowlist: &Vec<H256>)
        ensures
            allowlist@ == self@.allowlist,
    {
        &self.allowlist
    }

    /// The height at which the binary `pflix_hash` came onto the allow-list.
    pub fn pflix_bin_added_at(&self, pflix_hash: &H256) -> (height: Option<BlockNumber>)
        ensures
            height == self@.bin_added_at.get(pflix_hash.0),
    {
        match self.bin_added_at.get(&pflix_hash.0) {
            Some(height) => Some(*height),
            None => None,
        }
    }

    /// Where the launch of the master key stands.
    pub fn master_key_state(&self) -> (state: MasterKeyState)
        ensures
            state == self@.master_key,
    {
        self.master_key
    }

    /// Every master public key that was retired, oldest first.
    pub fn old_master_pubkey_list(&self) -> (history: &Vec<MasterPublicKey>)
        ensures
            history@ == self@.history,
    {
        &self.old_master_pubkey_list
    }

    /// The lowest version that a worker may run.
    pub fn minimum_pflix_version(&self) -> (version: (u32, u32, u32))
        ensures
            version == self@.minimum_version,
    {
        self.minimum_version
    }

    /// Whether the fleet is known to be stalled, if anyone said.
    pub fn is_note_stalled(&self) -> (note_stalled: Option<bool>)
        ensures
            note_stalled == self@.note_stalled,
    {
        self.note_stalled
    }

    /// How many heights lie between two sweeps.
    pub fn sweep_interval(&self) -> (interval: BlockNumber)
        ensures
            interval == self@.interval,
    {
        self.config.at_least_work_block
    }

    /// Whether a sweep at the height `now` retires `worker`.
    pub fn is_evictable(&self, worker: &WorkerPublicKey, now: BlockNumber) -> (evictable: bool)
        ensures
            evictable == self@.evictable(worker.0, now),
    {
        let stalled = match self.note_stalled {
            Some(flag) => flag,
            None => false,
        };
        if stalled || self.master_key.is_holder(worker) {
            return false;
        }
        let since = match self.last_work.get(&worker.0) {
            Some(height) => *height,
            None => match self.worker_added_at.get(&worker.0) {
                Some(height) => *height,
                None => 0,
            },
        };
        since < now && now - since > self.config.at_least_work_block
    }
}

} // verus!
