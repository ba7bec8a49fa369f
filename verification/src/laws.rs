//! What holds of the fleet whatever is called on it, and of the single
//! operations whatever they are given.

use crate::attestation::{AttestationReport, Evidence};
use crate::crypto::{blake2_256_of, sr25519_valid};
use crate::error::{lemma_attestation_error_is_about_evidence, DispatchError, Error};
use crate::keyed::without_key;
use crate::keys::{MasterPublicKey, WorkerPublicKey, H256};
use crate::master_key::MasterKeyState;
use crate::model::{
    rejected, without_digest, Call, PalletView, WorkerInfoView, ENDPOINT_WINDOW,
};
use crate::sweep::lemma_exits_keep_rest;
use crate::types::{
    Action, BlockNumber, DecodedMessage, Event, MasterKeySubmission, MessageOrigin, Origin,
    WorkerEndpointPayload, WorkerRegistrationInfo,
};
use vstd::prelude::*;

verus! {

/// Taking `key` out of keys that are all different leaves keys that are all
/// different: those that were there, but for `key`.
pub proof fn lemma_without_key(keys: Seq<[u8; 32]>, key: [u8; 32])
    requires
        keys.no_duplicates(),
    ensures
        without_key(keys, key).no_duplicates(),
        forall|other: [u8; 32]|
            #![trigger without_key(keys, key).contains(other)]
            #![trigger keys.contains(other)]
            without_key(keys, key).contains(other) <==> keys.contains(other) && other != key,
{
    let rest = without_key(keys, key);
    if keys.contains(key) {
        let at = keys.index_of(key);
        assert(0 <= at < keys.len() && keys[at] == key);
        assert forall|i: int, j: int| 0 <= i < rest.len() && 0 <= j < rest.len() && i != j implies rest[i]
            != rest[j] by {
            let i0 = if i < at { i } else { i + 1 };
            let j0 = if j < at { j } else { j + 1 };
            assert(rest[i] == keys[i0]);
            assert(rest[j] == keys[j0]);
        }
        assert forall|other: [u8; 32]|
            rest.contains(other) <==> keys.contains(other) && other != key by {
            if rest.contains(other) {
                let i = choose|i: int| 0 <= i < rest.len() && rest[i] == other;
                let i0 = if i < at { i } else { i + 1 };
                assert(rest[i] == keys[i0]);
                assert(i0 != at);
            }
            if keys.contains(other) && other != key {
                let i0 = choose|i0: int| 0 <= i0 < keys.len() && keys[i0] == other;
                let i = if i0 < at { i0 } else { i0 - 1 };
                assert(rest[i] == keys[i0]);
            }
        }
    } else {
        assert forall|other: [u8; 32]|
            rest.contains(other) <==> keys.contains(other) && other != key by {}
    }
}

/// The exit of an identity keeps the registry sound.
pub proof fn lemma_exit_keeps_registry_sound(state: PalletView, key: [u8; 32])
    requires
        state.wf(),
    ensures
        state.exited(key).wf(),
{
    lemma_without_key(state.worker_order, key);
    let after = state.exited(key);
    assert forall|other: [u8; 32]|
        after.worker_order.contains(other) <==> #[trigger] after.workers.contains_key(other) by {
        assert(state.worker_order.contains(other) <==> state.workers.contains_key(other));
    }
}

/// After the exit of `keys`, a profile is on record exactly for those that
/// had one and are not among `keys`; and so for the endpoint, the height of
/// admission and both marks. What stays on record stays as it was.
pub proof fn lemma_exits(state: PalletView, keys: Seq<[u8; 32]>)
    requires
        state.wf(),
    ensures
        state.exited_all(keys).wf(),
        state.exited_all(keys).workers == state.workers.remove_keys(keys.to_set()),
        state.exited_all(keys).added_at == state.added_at.remove_keys(keys.to_set()),
        state.exited_all(keys).endpoints == state.endpoints.remove_keys(keys.to_set()),
        state.exited_all(keys).last_work == state.last_work.remove_keys(keys.to_set()),
        state.exited_all(keys).last_refresh == state.last_refresh.remove_keys(keys.to_set()),
        state.exited_all(keys).master_key == state.master_key,
        state.exited_all(keys).history == state.history,
    decreases keys.len(),
{
    if keys.len() == 0 {
        assert(state.workers =~= state.workers.remove_keys(keys.to_set()));
        assert(state.added_at =~= state.added_at.remove_keys(keys.to_set()));
        assert(state.endpoints =~= state.endpoints.remove_keys(keys.to_set()));
        assert(state.last_work =~= state.last_work.remove_keys(keys.to_set()));
        assert(state.last_refresh =~= state.last_refresh.remove_keys(keys.to_set()));
    } else {
        let front = keys.drop_last();
        let last = keys.last();
        lemma_exits(state, front);
        let before = state.exited_all(front);
        lemma_exit_keeps_registry_sound(before, last);
        assert forall|key: [u8; 32]|
            keys.to_set().contains(key) <==> front.to_set().contains(key) || key == last by {
            if keys.contains(key) {
                let i = choose|i: int| 0 <= i < keys.len() && keys[i] == key;
                if i < front.len() {
                    assert(front[i] == key);
                }
            }
            if front.contains(key) {
                let i = choose|i: int| 0 <= i < front.len() && front[i] == key;
                assert(keys[i] == key);
            }
            if key == last {
                assert(keys[keys.len() - 1] == key);
            }
        }
        let after = before.exited(last);
        assert(after.workers =~= state.workers.remove_keys(keys.to_set()));
        assert(after.added_at =~= state.added_at.remove_keys(keys.to_set()));
        assert(after.endpoints =~= state.endpoints.remove_keys(keys.to_set()));
        assert(after.last_work =~= state.last_work.remove_keys(keys.to_set()));
        assert(after.last_refresh =~= state.last_refresh.remove_keys(keys.to_set()));
    }
}

/// Those of `keys` that a sweep retires are the evictable ones among them.
pub proof fn lemma_evictable_among(state: PalletView, keys: Seq<[u8; 32]>, now: BlockNumber)
    ensures
        forall|key: [u8; 32]|
            #![trigger state.evictable_among(keys, now).contains(key)]
            #![trigger keys.contains(key)]
            state.evictable_among(keys, now).contains(key) <==> keys.contains(key)
                && state.evictable(key, now),
    decreases keys.len(),
{
    let chosen = state.evictable_among(keys, now);
    if keys.len() == 0 {
        assert forall|key: [u8; 32]|
            chosen.contains(key) <==> keys.contains(key) && state.evictable(key, now) by {}
    } else {
        let front = keys.drop_last();
        let last = keys.last();
        let rest = state.evictable_among(front, now);
        lemma_evictable_among(state, front, now);
        assert forall|key: [u8; 32]|
            chosen.contains(key) <==> keys.contains(key) && state.evictable(key, now) by {
            assert(rest.contains(key) <==> front.contains(key) && state.evictable(key, now));
            if chosen.contains(key) {
                let i = choose|i: int| 0 <= i < chosen.len() && chosen[i] == key;
                if i < rest.len() {
                    assert(rest[i] == key);
                    let j = choose|j: int| 0 <= j < front.len() && front[j] == key;
                    assert(keys[j] == key);
                } else {
                    assert(key == last);
                    assert(keys[keys.len() - 1] == key);
                }
            }
            if keys.contains(key) && state.evictable(key, now) {
                let j = choose|j: int| 0 <= j < keys.len() && keys[j] == key;
                if j < front.len() {
                    assert(front[j] == key);
                    let i = choose|i: int| 0 <= i < rest.len() && rest[i] == key;
                    assert(chosen[i] == key);
                } else {
                    assert(chosen[chosen.len() - 1] == key);
                }
            }
        }
    }
}

/// Those of `keys` that have no mark of work are among `keys`.
pub proof fn lemma_unmarked_among(state: PalletView, keys: Seq<[u8; 32]>)
    ensures
        forall|key: [u8; 32]|
            #![trigger state.unmarked_among(keys).contains(key)]
            #![trigger keys.contains(key)]
            state.unmarked_among(keys).contains(key) <==> keys.contains(key)
                && !state.last_work.contains_key(key),
    decreases keys.len(),
{
    let chosen = state.unmarked_among(keys);
    if keys.len() == 0 {
        assert forall|key: [u8; 32]|
            chosen.contains(key) <==> keys.contains(key) && !state.last_work.contains_key(
                key,
            ) by {}
    } else {
        let front = keys.drop_last();
        let last = keys.last();
        let rest = state.unmarked_among(front);
        lemma_unmarked_among(state, front);
        assert forall|key: [u8; 32]|
            chosen.contains(key) <==> keys.contains(key) && !state.last_work.contains_key(
                key,
            ) by {
            assert(rest.contains(key) <==> front.contains(key) && !state.last_work.contains_key(
                key,
            ));
            if chosen.contains(key) {
                let i = choose|i: int| 0 <= i < chosen.len() && chosen[i] == key;
                if i < rest.len() {
                    assert(rest[i] == key);
                    let j = choose|j: int| 0 <= j < front.len() && front[j] == key;
                    assert(keys[j] == key);
                } else {
                    assert(key == last);
                    assert(keys[keys.len() - 1] == key);
                }
            }
            if keys.contains(key) && !state.last_work.contains_key(key) {
                let j = choose|j: int| 0 <= j < keys.len() && keys[j] == key;
                if j < front.len() {
                    assert(front[j] == key);
                    let i = choose|i: int| 0 <= i < rest.len() && rest[i] == key;
                    assert(chosen[i] == key);
                } else {
                    assert(chosen[chosen.len() - 1] == key);
                }
            }
        }
    }
}

/// Storing a profile keeps the registry sound.
pub proof fn lemma_profile_keeps_registry_sound(state: PalletView, profile: WorkerInfoView)
    requires
        state.wf(),
    ensures
        state.with_profile(profile).wf(),
{
    let key = profile.pubkey.0;
    let after = state.with_profile(profile);
    if state.workers.contains_key(key) {
        assert forall|other: [u8; 32]|
            after.worker_order.contains(other) <==> #[trigger] after.workers.contains_key(
                other,
            ) by {
            assert(state.worker_order.contains(other) <==> state.workers.contains_key(other));
        }
    } else {
        assert(!state.worker_order.contains(key));
        let order = state.worker_order;
        let longer = order.push(key);
        assert forall|i: int, j: int|
            0 <= i < longer.len() && 0 <= j < longer.len() && i != j implies longer[i]
            != longer[j] by {
            if i < order.len() && j < order.len() {
            } else if i < order.len() {
                assert(order.contains(order[i]));
            } else {
                assert(order.contains(order[j]));
            }
        }
        assert forall|other: [u8; 32]|
            longer.contains(other) <==> #[trigger] after.workers.contains_key(other) by {
            assert(order.contains(other) <==> state.workers.contains_key(other));
            if longer.contains(other) {
                let i = choose|i: int| 0 <= i < longer.len() && longer[i] == other;
                if i < order.len() {
                    assert(order[i] == other);
                }
            }
            if after.workers.contains_key(other) {
                if other == key {
                    assert(longer[order.len() as int] == other);
                } else {
                    let i = choose|i: int| 0 <= i < order.len() && order[i] == other;
                    assert(longer[i] == other);
                }
            }
        }
    }
}

/// At most one profile per identity, at any time: whatever is called on a
/// fleet whose registry is sound, the registry is sound afterwards. No
/// identity stands twice in it, and each has one profile.
pub proof fn lemma_one_profile_per_identity(state: PalletView, call: Call)
    requires
        state.wf(),
    ensures
        state.applied(call) is Ok ==> state.applied(call)->Ok_0.0.wf(),
{
    match call {
        Call::RefreshTeeStatus { origin, info, encoded, attestation, height } => {
            if state.applied(call) is Ok {
                let after = state.applied(call)->Ok_0.0;
                assert forall|other: [u8; 32]|
                    after.worker_order.contains(other) <==> #[trigger] after.workers.contains_key(
                        other,
                    ) by {
                    assert(state.worker_order.contains(other) <==> state.workers.contains_key(
                        other,
                    ));
                }
            }
        },
        Call::ForceRegisterWorker {
            origin,
            pubkey,
            ecdh_pubkey,
            stash_account,
            confidence_level,
            height,
        } => {
            lemma_profile_keeps_registry_sound(
                state,
                PalletView::root_profile(pubkey, ecdh_pubkey, stash_account, confidence_level),
            );
        },
        Call::RegisterWorker { origin, info, encoded, attestation, now, height } => {
            if state.applied(call) is Ok {
                let trust = state.appraised(encoded, attestation)->Ok_0;
                let profile = WorkerInfoView {
                    pubkey: info.pubkey,
                    ecdh_pubkey: info.ecdh_pubkey,
                    version: info.version,
                    last_updated: now,
                    stash_account: info.operator,
                    attestation_provider: trust.provider,
                    confidence_level: trust.confidence_level,
                    features: info.features@,
                };
                lemma_profile_keeps_registry_sound(state, profile);
            }
        },
        Call::PatchClearInvalidTee { origin, now } => {
            lemma_exits(state, state.victims(now));
        },
        Call::PatchClearNotWorkTee { origin } => {
            lemma_exits(state, state.unmarked_among(state.worker_order));
        },
        Call::ForceClearTee { origin, worker } => {
            lemma_exit_keeps_registry_sound(state, worker.0);
        },
        Call::OnInitialize { now } => {
            lemma_exits(state, state.victims(now));
        },
        _ => {},
    }
}

/// Whether the verifier accepted the evidence, the evidence carries the
/// digest of the payload encoded as `encoded`, and the binary it measures
/// is on the allow-list of `state` or the policy of `state` does not ask.
pub open spec fn evidence_holds(state: PalletView, encoded: Seq<u8>, report: AttestationReport)
    -> bool {
    match report.evidence() {
        Evidence::Refused(_) => false,
        Evidence::Accepted(quote) => {
            &&& quote.user_data_hash == H256(blake2_256_of(encoded))
            &&& !state.policy.verify_pflix || state.allowlist.contains(quote.measurement)
        },
    }
}

/// An admission by a signed origin fails exactly if the evidence does not
/// hold (the verifier refused it, it is bound to another payload, or the
/// measured binary is off the allow-list while the policy asks for it), or
/// there is no evidence and the fleet admits none without, or the identity
/// is registered already.
pub proof fn lemma_admission_fails_iff(
    state: PalletView,
    origin: Origin,
    info: WorkerRegistrationInfo,
    encoded: Seq<u8>,
    attestation: Option<AttestationReport>,
    now: u64,
    height: BlockNumber,
)
    requires
        origin is Signed,
    ensures
        state.registered(origin, info, encoded, attestation, now, height) is Err <==> {
            ||| attestation is Some && !evidence_holds(state, encoded, attestation->Some_0)
            ||| attestation is None && !state.policy.none_attestation_enabled
            ||| state.is_registered(info.pubkey)
        },
        state.registered(origin, info, encoded, attestation, now, height) == rejected(
            Error::PflixAlreadyExists,
        ) <==> state.is_registered(info.pubkey) && state.appraised(encoded, attestation) is Ok,
{
    if state.appraised(encoded, attestation) is Err {
        lemma_attestation_error_is_about_evidence(
            state.appraised(encoded, attestation)->Err_0,
        );
    }
}

/// A claim to an endpoint that a signed origin brings is honoured exactly
/// if the signature has 64 bytes and verifies under the claimed identity,
/// the claim names an endpoint that is not empty, it was signed before now
/// and no more than four hours ago, and the identity is registered. The
/// endpoint is then bound to the identity, and nothing else changes.
pub proof fn lemma_endpoint_binding_succeeds_iff(
    state: PalletView,
    origin: Origin,
    payload: WorkerEndpointPayload,
    signed_content: Seq<u8>,
    signature: Seq<u8>,
    now: u64,
)
    requires
        origin is Signed,
    ensures
        state.endpoint_updated(origin, payload, signed_content, signature, now) is Ok <==> {
            &&& signature.len() == 64
            &&& sr25519_valid(signature, signed_content, payload.pubkey.0@)
            &&& payload.endpoint is Some
            &&& payload.endpoint->Some_0@.len() > 0
            &&& payload.signing_time < now <= payload.signing_time + ENDPOINT_WINDOW
            &&& state.is_registered(payload.pubkey)
        },
        state.endpoint_updated(origin, payload, signed_content, signature, now) is Ok
            ==> state.endpoint_updated(origin, payload, signed_content, signature, now)->Ok_0.0
            == (PalletView {
            endpoints: state.endpoints.insert(payload.pubkey.0, payload.endpoint->Some_0@),
            ..state
        }),
{
}

/// A launch fails where a key is on record or a holder is designated.
/// Otherwise, called by governance for a registered worker, it designates
/// that worker, and leaves the rest of the fleet as it was.
pub proof fn lemma_launch_of_master_key(state: PalletView, origin: Origin, worker: WorkerPublicKey)
    ensures
        state.master_key.pubkey() is Some || state.master_key.holder() is Some
            ==> state.master_key_launched(origin, worker) is Err,
        state.master_key.pubkey() is None && state.master_key.holder() is None && origin
            == Origin::Governance && state.is_registered(worker) ==> {
            &&& state.master_key_launched(origin, worker) is Ok
            &&& state.master_key_launched(origin, worker)->Ok_0.0 == (PalletView {
                master_key: MasterKeyState::Launching { holder: worker },
                ..state
            })
        },
{
}

/// A submission puts a key on record only if it is the first of the
/// designated holder: the fleet is then launched, at the height and time
/// of the submission. If the holder repeats the key on record, nothing
/// changes and nothing is announced. If it submits another key, the
/// submission fails with `MasterKeyMismatch`.
pub proof fn lemma_submission_of_master_key(
    state: PalletView,
    sender: MessageOrigin,
    key: MasterPublicKey,
    height: BlockNumber,
    now: u64,
)
    ensures
        ({
            let message = DecodedMessage {
                sender,
                payload: MasterKeySubmission::MasterPubkey { master_pubkey: key },
            };
            let outcome = state.message_received(message, height, now);
            &&& outcome is Ok && outcome->Ok_0.0 != state ==> {
                &&& state.master_key is Launching
                &&& sender == MessageOrigin::Worker(state.master_key.holder()->Some_0)
                &&& outcome->Ok_0.0 == (PalletView {
                    master_key: MasterKeyState::Launched {
                        holder: state.master_key.holder()->Some_0,
                        pubkey: key,
                        launched_at: (height, now),
                    },
                    ..state
                })
            }
            &&& state.master_key is Launching && sender == MessageOrigin::Worker(
                state.master_key.holder()->Some_0,
            ) ==> outcome is Ok && outcome->Ok_0.0.master_key.pubkey() == Some(key)
            &&& state.master_key is Launched && sender == MessageOrigin::Worker(
                state.master_key.holder()->Some_0,
            ) ==> {
                &&& state.master_key.pubkey() == Some(key) ==> outcome == Ok::<
                    (PalletView, Seq<Action>),
                    DispatchError,
                >((state, Seq::empty()))
                &&& state.master_key.pubkey() != Some(key) ==> outcome == rejected(
                    Error::MasterKeyMismatch,
                )
            }
            &&& sender != MessageOrigin::Worker(state.master_key.holder()->Some_0)
                || state.master_key.holder() is None ==> outcome is Err
        }),
{
}

/// A clearing by governance of a launched fleet moves the key on record
/// into the history, and after it the key that was in force before, if one
/// is on record, and no other; the fleet is uninitialised afterwards.
/// Whatever the state and the origin, no other clearing succeeds.
pub proof fn lemma_clearing_of_master_key(state: PalletView, origin: Origin)
    ensures
        state.master_key_cleared(origin) is Ok <==> origin == Origin::Governance
            && state.master_key is Launched,
        state.master_key_cleared(origin) is Ok ==> {
            let after = state.master_key_cleared(origin)->Ok_0.0;
            let current = state.master_key.pubkey()->Some_0;
            &&& after.master_key == MasterKeyState::Uninitialized
            &&& after.history == match state.old_master_pubkey {
                Some(previous) => state.history + seq![current, previous],
                None => state.history + seq![current],
            }
            &&& after == (PalletView {
                master_key: after.master_key,
                history: after.history,
                ..state
            })
        },
{
    if state.master_key_cleared(origin) is Ok {
        let after = state.master_key_cleared(origin)->Ok_0.0;
        let current = state.master_key.pubkey()->Some_0;
        match state.old_master_pubkey {
            Some(previous) => {
                assert(after.history =~= state.history + seq![current, previous]);
            },
            None => {
                assert(after.history =~= state.history + seq![current]);
            },
        }
    }
}

/// The history of master keys only grows: whatever is called, what was in
/// the history stays in it, at its place.
pub proof fn lemma_history_only_grows(state: PalletView, call: Call)
    ensures
        state.applied(call) is Ok ==> state.history.is_prefix_of(
            state.applied(call)->Ok_0.0.history,
        ),
{
    match call {
        Call::PatchClearInvalidTee { origin, now } => {
            lemma_exits_keep_rest(state, state.victims(now));
        },
        Call::PatchClearNotWorkTee { origin } => {
            lemma_exits_keep_rest(state, state.unmarked_among(state.worker_order));
        },
        Call::OnInitialize { now } => {
            lemma_exits_keep_rest(state, state.victims(now));
        },
        _ => {},
    }
}

/// The master key goes through its states in one order. Whatever is called,
/// the state stays, or goes from uninitialised to launching, from launching
/// to launched, or from launched to uninitialised; only the holder may
/// change within a state. A key on record is never replaced by another.
pub proof fn lemma_master_key_keeps_order(state: PalletView, call: Call)
    ensures
        state.applied(call) is Ok ==> {
            let before = state.master_key;
            let after = state.applied(call)->Ok_0.0.master_key;
            &&& before is Uninitialized ==> after is Uninitialized || after is Launching
            &&& before is Launching ==> after is Launching || after is Launched
            &&& before is Launched ==> after is Launched || after is Uninitialized
            &&& before is Launched && after is Launched ==> before.pubkey() == after.pubkey()
                && before.launched_at() == after.launched_at()
        },
{
    match call {
        Call::PatchClearInvalidTee { origin, now } => {
            lemma_exits_keep_rest(state, state.victims(now));
        },
        Call::PatchClearNotWorkTee { origin } => {
            lemma_exits_keep_rest(state, state.unmarked_among(state.worker_order));
        },
        Call::OnInitialize { now } => {
            lemma_exits_keep_rest(state, state.victims(now));
        },
        _ => {},
    }
}

/// A worker that was admitted at the height `admitted` and has no mark of
/// work is not retired by a sweep at any height up to `admitted` plus the
/// interval: it keeps its profile.
pub proof fn lemma_no_early_eviction(state: PalletView, worker: WorkerPublicKey, now: BlockNumber)
    requires
        state.wf(),
        state.is_registered(worker),
        state.added_at.contains_key(worker.0),
        !state.last_work.contains_key(worker.0),
        now <= state.added_at[worker.0] + state.interval,
    ensures
        !state.evictable(worker.0, now),
        !state.victims(now).contains(worker.0),
        state.swept(now).0.is_registered(worker),
        state.swept(now).0.workers[worker.0] == state.workers[worker.0],
        state.initialized(now).0.is_registered(worker),
{
    lemma_evictable_among(state, state.worker_order, now);
    lemma_exits(state, state.victims(now));
}

/// A worker with a mark of work is not retired by a sweep at any height up
/// to the mark plus the interval.
pub proof fn lemma_no_eviction_within_window(state: PalletView, worker: WorkerPublicKey, now: BlockNumber)
    requires
        state.wf(),
        state.is_registered(worker),
        state.last_work.contains_key(worker.0),
        now <= state.last_work[worker.0] + state.interval,
    ensures
        !state.evictable(worker.0, now),
        state.swept(now).0.is_registered(worker),
        state.swept(now).0.workers[worker.0] == state.workers[worker.0],
{
    lemma_evictable_among(state, state.worker_order, now);
    lemma_exits(state, state.victims(now));
}

/// A registered worker whose mark of work is older than the interval is
/// retired by a sweep, with all that is on record of it, and its exit is
/// told; unless the fleet is stalled, or the worker is the designated
/// holder of the master key, which never leaves.
pub proof fn lemma_idle_worker_is_evicted(state: PalletView, worker: WorkerPublicKey, now: BlockNumber)
    requires
        state.wf(),
        state.is_registered(worker),
        state.last_work.contains_key(worker.0),
        state.last_work[worker.0] + state.interval < now,
        !state.stalled(),
        !state.is_holder(worker.0),
    ensures
        state.victims(now).contains(worker.0),
        !state.swept(now).0.is_registered(worker),
        !state.swept(now).0.added_at.contains_key(worker.0),
        !state.swept(now).0.endpoints.contains_key(worker.0),
        !state.swept(now).0.last_work.contains_key(worker.0),
        !state.swept(now).0.last_refresh.contains_key(worker.0),
        state.swept(now).1.contains(Action::Deposit(Event::Exit { tee: worker })),
{
    lemma_evictable_among(state, state.worker_order, now);
    lemma_exits(state, state.victims(now));
    let victims = state.victims(now);
    let at = choose|at: int| 0 <= at < victims.len() && victims[at] == worker.0;
    assert(state.swept(now).1[at] == Action::Deposit(Event::Exit { tee: worker }));
}

/// While the fleet is stalled, a sweep retires nobody.
pub proof fn lemma_stalled_fleet_keeps_everyone(state: PalletView, now: BlockNumber)
    requires
        state.stalled(),
    ensures
        state.swept(now) == (state, Seq::<Action>::empty()),
{
    lemma_evictable_among(state, state.worker_order, now);
    let victims = state.victims(now);
    if victims.len() > 0 {
        let first = victims[0];
        assert(victims.contains(first));
        assert(state.evictable(first, now));
    }
    assert(victims =~= Seq::empty());
    assert(state.swept(now).1 =~= Seq::<Action>::empty());
}

/// A sweep retires those registered workers that are evictable, and keeps
/// all others as they were.
pub proof fn lemma_sweep_retires_the_evictable(state: PalletView, now: BlockNumber, key: [u8; 32])
    requires
        state.wf(),
    ensures
        state.swept(now).0.workers.contains_key(key) <==> state.workers.contains_key(key)
            && !state.evictable(key, now),
        state.swept(now).0.workers.contains_key(key) ==> state.swept(now).0.workers[key]
            == state.workers[key],
{
    lemma_evictable_among(state, state.worker_order, now);
    lemma_exits(state, state.victims(now));
}

/// An identity that left and registers again starts afresh: after a forced
/// exit nothing is on record of it, and after the admission that follows,
/// the height of admission and both marks are the height of that admission,
/// the profile is the new one, and no endpoint is bound.
pub proof fn lemma_reregistration_is_fresh(
    state: PalletView,
    info: WorkerRegistrationInfo,
    encoded: Seq<u8>,
    attestation: Option<AttestationReport>,
    now: u64,
    height: BlockNumber,
    origin: Origin,
)
    requires
        state.force_cleared(Origin::Governance, info.pubkey) is Ok,
        state.force_cleared(Origin::Governance, info.pubkey)->Ok_0.0.registered(
            origin,
            info,
            encoded,
            attestation,
            now,
            height,
        ) is Ok,
    ensures
        ({
            let key = info.pubkey.0;
            let gone = state.force_cleared(Origin::Governance, info.pubkey)->Ok_0.0;
            let back = gone.registered(origin, info, encoded, attestation, now, height)->Ok_0.0;
            &&& !gone.workers.contains_key(key)
            &&& !gone.added_at.contains_key(key)
            &&& !gone.endpoints.contains_key(key)
            &&& !gone.last_work.contains_key(key)
            &&& !gone.last_refresh.contains_key(key)
            &&& back.added_at[key] == height
            &&& back.last_work[key] == height
            &&& back.last_refresh[key] == height
            &&& back.workers[key].last_updated == now
            &&& back.workers[key].pubkey == info.pubkey
            &&& back.workers[key].features == info.features@
            &&& !back.endpoints.contains_key(key)
        }),
{
}

/// The clearing of workers without a mark of work removes exactly those
/// registered workers that have none, with all that is on record of them,
/// and keeps the others as they were; or nothing at all, if the designated
/// holder of the master key is registered and has no mark.
pub proof fn lemma_clearing_removes_the_unmarked(state: PalletView, key: [u8; 32])
    requires
        state.wf(),
    ensures
        state.not_work_tee_cleared(Origin::Governance) is Err <==> exists|holder: [u8; 32]|
            #![trigger state.is_holder(holder)]
            state.is_holder(holder) && state.workers.contains_key(holder)
                && !state.last_work.contains_key(holder),
        state.not_work_tee_cleared(Origin::Governance) is Ok ==> {
            let after = state.not_work_tee_cleared(Origin::Governance)->Ok_0.0;
            &&& after.workers.contains_key(key) <==> state.workers.contains_key(key)
                && state.last_work.contains_key(key)
            &&& after.workers.contains_key(key) ==> after.workers[key] == state.workers[key]
            &&& after.last_work == state.last_work
        },
{
    let unmarked = state.unmarked_among(state.worker_order);
    lemma_unmarked_among(state, state.worker_order);
    lemma_exits(state, unmarked);
    if state.not_work_tee_cleared(Origin::Governance) is Err {
        let i = choose|i: int| 0 <= i < unmarked.len() && state.is_holder(#[trigger] unmarked[i]);
        assert(unmarked.contains(unmarked[i]));
    }
    if exists|holder: [u8; 32]|
        #![trigger state.is_holder(holder)]
        state.is_holder(holder) && state.workers.contains_key(holder)
            && !state.last_work.contains_key(holder) {
        let holder = choose|holder: [u8; 32]|
            #![trigger state.is_holder(holder)]
            state.is_holder(holder) && state.workers.contains_key(holder)
                && !state.last_work.contains_key(holder);
        assert(state.worker_order.contains(holder));
        assert(unmarked.contains(holder));
        let i = choose|i: int| 0 <= i < unmarked.len() && unmarked[i] == holder;
        assert(state.is_holder(unmarked[i]));
    }
    if state.not_work_tee_cleared(Origin::Governance) is Ok {
        let after = state.not_work_tee_cleared(Origin::Governance)->Ok_0.0;
        assert(after.last_work =~= state.last_work) by {
            assert forall|k: [u8; 32]| state.last_work.contains_key(k) implies !unmarked.to_set().contains(
                k,
            ) by {}
        }
    }
}

/// A digest that is taken off a list is not on it afterwards, however often
/// it was; every other digest is on the list exactly if it was.
pub proof fn lemma_without_digest(list: Seq<H256>, digest: H256, other: H256)
    ensures
        !without_digest(list, digest).contains(digest),
        other != digest ==> (without_digest(list, digest).contains(other) <==> list.contains(other)),
    decreases list.len(),
{
    let kept = without_digest(list, digest);
    if list.len() > 0 {
        let front = list.drop_last();
        let rest = without_digest(front, digest);
        lemma_without_digest(front, digest, other);
        if kept.contains(digest) {
            let i = choose|i: int| 0 <= i < kept.len() && kept[i] == digest;
            if i < rest.len() {
                assert(rest[i] == digest);
            }
        }
        if other != digest {
            if kept.contains(other) {
                let i = choose|i: int| 0 <= i < kept.len() && kept[i] == other;
                if i < rest.len() {
                    assert(rest[i] == other);
                    let j = choose|j: int| 0 <= j < front.len() && front[j] == other;
                    assert(list[j] == other);
                } else {
                    assert(list[list.len() - 1] == other);
                }
            }
            if list.contains(other) {
                let j = choose|j: int| 0 <= j < list.len() && list[j] == other;
                if j < front.len() {
                    assert(front[j] == other);
                    let i = choose|i: int| 0 <= i < rest.len() && rest[i] == other;
                    assert(kept[i] == other);
                } else {
                    assert(kept[kept.len() - 1] == other);
                }
            }
        }
    }
}

} // verus!
