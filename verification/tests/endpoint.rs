use sp_core::Pair;
use tee_worker::{
    AccountId, Action, Config, DispatchError, EcdhPublicKey, Error, Event, MasterKeyApplyPayload,
    Origin, OutboundMessage, Pallet, WorkerEndpointPayload, WorkerPublicKey,
};

const FOUR_HOURS: u64 = 14_400_000;
const THIRTY_MINUTES: u64 = 1_800_000;
const SIGNED_AT: u64 = 1_700_000_000_000;

fn signed() -> Origin {
    Origin::Signed(AccountId([7; 32]))
}

fn keypair(seed: u8) -> sp_core::sr25519::Pair {
    sp_core::sr25519::Pair::from_seed(&[seed; 32])
}

fn identity(pair: &sp_core::sr25519::Pair) -> WorkerPublicKey {
    WorkerPublicKey(pair.public().0)
}

fn fleet_with(workers: &[WorkerPublicKey]) -> Pallet {
    let mut pallet =
        Pallet::new(Config { none_attestation_enabled: false, at_least_work_block: 10, verify_pflix: true });
    for worker in workers {
        pallet.force_register_worker(Origin::Root, *worker, EcdhPublicKey([5; 32]), None, 128, 1).unwrap();
    }
    pallet
}

fn claim(pubkey: WorkerPublicKey, endpoint: Option<&str>) -> WorkerEndpointPayload {
    WorkerEndpointPayload { pubkey, endpoint: endpoint.map(String::from), signing_time: SIGNED_AT }
}

fn request(pubkey: WorkerPublicKey) -> MasterKeyApplyPayload {
    MasterKeyApplyPayload { pubkey, ecdh_pubkey: EcdhPublicKey([6; 32]), signing_time: SIGNED_AT }
}

#[test]
fn update_worker_endpoint_binds_a_signed_claim() {
    let pair = keypair(1);
    let a = identity(&pair);
    let mut pallet = fleet_with(&[a]);
    let content = b"endpoint claim".to_vec();
    let signature = pair.sign(&content);
    let actions = pallet
        .update_worker_endpoint(signed(), claim(a, Some("https://worker.example:443")), &content, &signature.0, SIGNED_AT + 1)
        .unwrap();
    assert!(actions.is_empty());
    assert_eq!(pallet.endpoint(&a), Some(&String::from("https://worker.example:443")));

    let content = b"second claim".to_vec();
    let signature = pair.sign(&content);
    pallet
        .update_worker_endpoint(signed(), claim(a, Some("https://other.example")), &content, &signature.0, SIGNED_AT + 5)
        .unwrap();
    assert_eq!(pallet.endpoint(&a), Some(&String::from("https://other.example")));
}

#[test]
fn update_worker_endpoint_checks_the_signature() {
    let pair = keypair(1);
    let other = keypair(2);
    let a = identity(&pair);
    let mut pallet = fleet_with(&[a, identity(&other)]);
    let content = b"endpoint claim".to_vec();
    let signature = pair.sign(&content);
    let now = SIGNED_AT + 1;

    assert_eq!(
        pallet.update_worker_endpoint(signed(), claim(a, Some("e")), &content, &signature.0[..63], now),
        Err(DispatchError::Module(Error::InvalidSignatureLength))
    );
    let mut long = signature.0.to_vec();
    long.push(0);
    assert_eq!(
        pallet.update_worker_endpoint(signed(), claim(a, Some("e")), &content, &long, now),
        Err(DispatchError::Module(Error::InvalidSignatureLength))
    );
    assert_eq!(
        pallet.update_worker_endpoint(signed(), claim(a, Some("e")), &content, &[], now),
        Err(DispatchError::Module(Error::InvalidSignatureLength))
    );
    // Signed over other bytes.
    assert_eq!(
        pallet.update_worker_endpoint(signed(), claim(a, Some("e")), b"endpoint claiM", &signature.0, now),
        Err(DispatchError::Module(Error::InvalidSignature))
    );
    // Signed by another worker.
    let forged = other.sign(&content);
    assert_eq!(
        pallet.update_worker_endpoint(signed(), claim(a, Some("e")), &content, &forged.0, now),
        Err(DispatchError::Module(Error::InvalidSignature))
    );
    // The message itself is no signature of it.
    assert_eq!(
        pallet.update_worker_endpoint(signed(), claim(a, Some("e")), &[3u8; 64], &[3u8; 64], now),
        Err(DispatchError::Module(Error::InvalidSignature))
    );
    assert_eq!(pallet.endpoint(&a), None);
}

#[test]
fn update_worker_endpoint_rejects_an_empty_endpoint() {
    let pair = keypair(1);
    let a = identity(&pair);
    let mut pallet = fleet_with(&[a]);
    let content = b"endpoint claim".to_vec();
    let signature = pair.sign(&content);
    assert_eq!(
        pallet.update_worker_endpoint(signed(), claim(a, None), &content, &signature.0, SIGNED_AT + 1),
        Err(DispatchError::Module(Error::EmptyEndpoint))
    );
    assert_eq!(
        pallet.update_worker_endpoint(signed(), claim(a, Some("")), &content, &signature.0, SIGNED_AT + 1),
        Err(DispatchError::Module(Error::EmptyEndpoint))
    );
    assert_eq!(pallet.endpoint(&a), None);
}

#[test]
fn update_worker_endpoint_holds_for_four_hours() {
    let pair = keypair(1);
    let a = identity(&pair);
    let mut pallet = fleet_with(&[a]);
    let content = b"endpoint claim".to_vec();
    let signature = pair.sign(&content);
    for now in [0, SIGNED_AT - 1, SIGNED_AT, SIGNED_AT + FOUR_HOURS + 1, u64::MAX] {
        assert_eq!(
            pallet.update_worker_endpoint(signed(), claim(a, Some("e")), &content, &signature.0, now),
            Err(DispatchError::Module(Error::InvalidEndpointSigningTime))
        );
    }
    assert_eq!(pallet.endpoint(&a), None);
    for now in [SIGNED_AT + 1, SIGNED_AT + FOUR_HOURS - 1, SIGNED_AT + FOUR_HOURS] {
        assert_eq!(
            pallet.update_worker_endpoint(signed(), claim(a, Some("e")), &content, &signature.0, now),
            Ok(vec![])
        );
    }
    let late = WorkerEndpointPayload { pubkey: a, endpoint: Some(String::from("e")), signing_time: u64::MAX - 5 };
    assert_eq!(
        pallet.update_worker_endpoint(signed(), late, &content, &signature.0, u64::MAX),
        Ok(vec![])
    );
}

#[test]
fn update_worker_endpoint_needs_a_registered_identity_and_a_signed_origin() {
    let pair = keypair(1);
    let a = identity(&pair);
    let mut pallet = fleet_with(&[]);
    let content = b"endpoint claim".to_vec();
    let signature = pair.sign(&content);
    assert_eq!(
        pallet.update_worker_endpoint(signed(), claim(a, Some("e")), &content, &signature.0, SIGNED_AT + 1),
        Err(DispatchError::Module(Error::InvalidWorkerPubKey))
    );
    for origin in [Origin::Root, Origin::Governance, Origin::Unsigned] {
        assert_eq!(
            pallet.update_worker_endpoint(origin, claim(a, Some("e")), &content, &signature.0, SIGNED_AT + 1),
            Err(DispatchError::BadOrigin)
        );
    }
}

#[test]
fn an_endpoint_outlives_a_refresh_but_not_an_exit() {
    let pair = keypair(1);
    let a = identity(&pair);
    let mut pallet = fleet_with(&[a]);
    let content = b"endpoint claim".to_vec();
    let signature = pair.sign(&content);
    pallet.update_worker_endpoint(signed(), claim(a, Some("e")), &content, &signature.0, SIGNED_AT + 1).unwrap();
    pallet.force_register_worker(Origin::Root, a, EcdhPublicKey([8; 32]), None, 1, 3).unwrap();
    assert_eq!(pallet.endpoint(&a), Some(&String::from("e")));
    pallet.force_clear_tee(Origin::Governance, a).unwrap();
    assert_eq!(pallet.endpoint(&a), None);
}

#[test]
fn apply_master_key_passes_the_request_on() {
    let pair = keypair(1);
    let a = identity(&pair);
    let pallet = fleet_with(&[a]);
    let content = b"key request".to_vec();
    let signature = pair.sign(&content);
    assert_eq!(
        pallet.apply_master_key(signed(), request(a), &content, &signature.0, SIGNED_AT + THIRTY_MINUTES),
        Ok(vec![
            Action::Push(OutboundMessage::Apply { pubkey: a, ecdh_pubkey: EcdhPublicKey([6; 32]) }),
            Action::Deposit(Event::MasterKeyApplied { worker_pubkey: a }),
        ])
    );
}

#[test]
fn apply_master_key_rejections() {
    let pair = keypair(1);
    let a = identity(&pair);
    let pallet = fleet_with(&[a]);
    let content = b"key request".to_vec();
    let signature = pair.sign(&content);
    assert_eq!(
        pallet.apply_master_key(Origin::Governance, request(a), &content, &signature.0, SIGNED_AT + 1),
        Err(DispatchError::BadOrigin)
    );
    assert_eq!(
        pallet.apply_master_key(signed(), request(a), &content, &signature.0[1..], SIGNED_AT + 1),
        Err(DispatchError::Module(Error::InvalidSignatureLength))
    );
    assert_eq!(
        pallet.apply_master_key(signed(), request(a), b"key requesT", &signature.0, SIGNED_AT + 1),
        Err(DispatchError::Module(Error::InvalidSignature))
    );
    for now in [SIGNED_AT, SIGNED_AT + THIRTY_MINUTES + 1, SIGNED_AT + FOUR_HOURS] {
        assert_eq!(
            pallet.apply_master_key(signed(), request(a), &content, &signature.0, now),
            Err(DispatchError::Module(Error::InvalidMasterKeyApplySigningTime))
        );
    }
    let stranger = keypair(9);
    let signature = stranger.sign(&content);
    assert_eq!(
        pallet.apply_master_key(signed(), request(identity(&stranger)), &content, &signature.0, SIGNED_AT + 1),
        Err(DispatchError::Module(Error::InvalidWorkerPubKey))
    );
}
