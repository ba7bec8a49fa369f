use tee_worker::{
    AccountId, Action, AttestationError, AttestationProvider, Config, DcapError, DispatchError,
    EcdhPublicKey, Error, Event, MasterKeyApplyPayload, Origin, OutboundMessage, Pallet, TrustResult,
    WorkerEndpointPayload, WorkerPublicKey, WorkerRegistrationInfo,
};

fn signed() -> Origin {
    Origin::Signed(AccountId([7; 32]))
}

fn fleet() -> Pallet {
    Pallet::new(Config { none_attestation_enabled: false, at_least_work_block: 10, verify_pflix: true })
}

fn info(byte: u8) -> WorkerRegistrationInfo {
    WorkerRegistrationInfo {
        version: 1,
        pubkey: WorkerPublicKey([byte; 32]),
        ecdh_pubkey: EcdhPublicKey([byte; 32]),
        features: vec![],
        operator: None,
    }
}

fn trust(confidence_level: u8) -> TrustResult {
    TrustResult { provider: Some(AttestationProvider::Ias), confidence_level }
}

#[test]
fn register_appraised_follows_the_verdict() {
    let mut pallet = fleet();
    let a = WorkerPublicKey([1; 32]);
    assert_eq!(
        pallet.register_appraised(signed(), info(1), Err(AttestationError::PflixRejected), 5, 6),
        Err(DispatchError::Module(Error::PflixRejected))
    );
    assert_eq!(
        pallet.register_appraised(
            signed(),
            info(1),
            Err(AttestationError::InvalidDCAPQuote(DcapError::FmspcMismatch)),
            5,
            6
        ),
        Err(DispatchError::Module(Error::FmspcMismatch))
    );
    assert_eq!(pallet.register_appraised(Origin::Root, info(1), Ok(trust(3)), 5, 6), Err(DispatchError::BadOrigin));
    assert_eq!(pallet.worker_count(), 0);
    assert_eq!(
        pallet.register_appraised(signed(), info(1), Ok(trust(3)), 5, 6),
        Ok(vec![
            Action::Push(OutboundMessage::WorkerRegistered { pubkey: a }),
            Action::Deposit(Event::WorkerAdded {
                pubkey: a,
                attestation_provider: Some(AttestationProvider::Ias),
                confidence_level: 3
            }),
        ])
    );
    assert_eq!(pallet.worker(&a).unwrap().last_updated, 5);
    assert_eq!(pallet.worker_added_at(&a), Some(6));
    assert_eq!(
        pallet.register_appraised(signed(), info(1), Ok(trust(3)), 5, 6),
        Err(DispatchError::Module(Error::PflixAlreadyExists))
    );
}

#[test]
fn refresh_appraised_follows_the_verdict() {
    let mut pallet = fleet();
    let a = WorkerPublicKey([1; 32]);
    assert_eq!(
        pallet.refresh_appraised(signed(), info(1), Ok(trust(9)), 8),
        Err(DispatchError::Module(Error::NonTeeWorker))
    );
    pallet.register_appraised(signed(), info(1), Ok(trust(3)), 5, 6).unwrap();
    assert_eq!(
        pallet.refresh_appraised(signed(), info(1), Err(AttestationError::BadIASReport), 8),
        Err(DispatchError::Module(Error::BadIASReport))
    );
    assert_eq!(pallet.worker(&a).unwrap().confidence_level, 3);
    assert_eq!(
        pallet.refresh_appraised(signed(), info(1), Ok(TrustResult { provider: None, confidence_level: 9 }), 8),
        Ok(vec![Action::Deposit(Event::RefreshStatus { pubkey: a, level: 9 })])
    );
    assert_eq!(pallet.worker(&a).unwrap().confidence_level, 9);
    assert_eq!(pallet.worker(&a).unwrap().attestation_provider, Some(AttestationProvider::Ias));
    assert_eq!(pallet.last_refresh(&a), Some(8));
}

#[test]
fn bind_endpoint_follows_the_signature_check() {
    let mut pallet = fleet();
    let a = WorkerPublicKey([1; 32]);
    pallet.register_appraised(signed(), info(1), Ok(trust(3)), 5, 6).unwrap();
    let claim = |endpoint: &str| WorkerEndpointPayload {
        pubkey: a,
        endpoint: Some(String::from(endpoint)),
        signing_time: 1000,
    };
    assert_eq!(
        pallet.bind_endpoint(signed(), claim("e"), Err(Error::InvalidSignature), 1001),
        Err(DispatchError::Module(Error::InvalidSignature))
    );
    assert_eq!(
        pallet.bind_endpoint(signed(), claim("e"), Err(Error::InvalidSignatureLength), 1001),
        Err(DispatchError::Module(Error::InvalidSignatureLength))
    );
    assert_eq!(pallet.bind_endpoint(Origin::Unsigned, claim("e"), Ok(()), 1001), Err(DispatchError::BadOrigin));
    // A bad signature is reported before an empty endpoint, and that before the time.
    assert_eq!(
        pallet.bind_endpoint(signed(), claim(""), Err(Error::InvalidSignature), 1),
        Err(DispatchError::Module(Error::InvalidSignature))
    );
    assert_eq!(
        pallet.bind_endpoint(signed(), claim(""), Ok(()), 1),
        Err(DispatchError::Module(Error::EmptyEndpoint))
    );
    assert_eq!(
        pallet.bind_endpoint(signed(), claim("e"), Ok(()), 1000),
        Err(DispatchError::Module(Error::InvalidEndpointSigningTime))
    );
    assert_eq!(pallet.endpoint(&a), None);
    assert_eq!(pallet.bind_endpoint(signed(), claim("e"), Ok(()), 1000 + 14_400_000), Ok(vec![]));
    assert_eq!(pallet.endpoint(&a), Some(&String::from("e")));
}

#[test]
fn forward_master_key_request_follows_the_signature_check() {
    let mut pallet = fleet();
    let a = WorkerPublicKey([1; 32]);
    pallet.register_appraised(signed(), info(1), Ok(trust(3)), 5, 6).unwrap();
    let request = MasterKeyApplyPayload { pubkey: a, ecdh_pubkey: EcdhPublicKey([4; 32]), signing_time: 1000 };
    assert_eq!(
        pallet.forward_master_key_request(signed(), request, Err(Error::InvalidSignature), 1001),
        Err(DispatchError::Module(Error::InvalidSignature))
    );
    assert_eq!(
        pallet.forward_master_key_request(signed(), request, Ok(()), 1000 + 1_800_001),
        Err(DispatchError::Module(Error::InvalidMasterKeyApplySigningTime))
    );
    assert_eq!(
        pallet.forward_master_key_request(signed(), request, Ok(()), 1000 + 1_800_000),
        Ok(vec![
            Action::Push(OutboundMessage::Apply { pubkey: a, ecdh_pubkey: EcdhPublicKey([4; 32]) }),
            Action::Deposit(Event::MasterKeyApplied { worker_pubkey: a }),
        ])
    );
}
