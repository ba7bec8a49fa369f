use tee_worker::{
    Action, Config, DecodedMessage, DispatchError, EcdhPublicKey, Error, Event, MasterKeySubmission,
    MasterPublicKey, MessageOrigin, Origin, Pallet, WorkerPublicKey,
};

fn fleet(interval: u64) -> Pallet {
    Pallet::new(Config { none_attestation_enabled: false, at_least_work_block: interval, verify_pflix: true })
}

fn worker(byte: u8) -> WorkerPublicKey {
    WorkerPublicKey([byte; 32])
}

fn enrol(pallet: &mut Pallet, who: WorkerPublicKey, height: u64) {
    pallet.force_register_worker(Origin::Root, who, EcdhPublicKey([0; 32]), None, 128, height).unwrap();
}

fn exits(workers: &[WorkerPublicKey]) -> Vec<Action> {
    workers.iter().map(|w| Action::Deposit(Event::Exit { tee: *w })).collect()
}

#[test]
fn on_initialize_sweeps_only_where_the_interval_divides_the_height() {
    let mut pallet = fleet(10);
    let a = worker(1);
    enrol(&mut pallet, a, 0);
    pallet.record_work(&a, 0);
    for now in [11, 15, 19, 21, 99] {
        assert!(pallet.on_initialize(now).is_empty());
        assert!(pallet.contains_worker(&a));
    }
    assert_eq!(pallet.on_initialize(20), exits(&[a]));
    assert!(!pallet.contains_worker(&a));
    assert_eq!(pallet.last_work(&a), None);
    assert_eq!(pallet.worker_added_at(&a), None);
}

#[test]
fn on_initialize_with_a_zero_interval_never_sweeps() {
    let mut pallet = fleet(0);
    let a = worker(1);
    enrol(&mut pallet, a, 0);
    pallet.record_work(&a, 0);
    for now in [0, 1, 100, u64::MAX] {
        assert!(pallet.on_initialize(now).is_empty());
    }
    assert!(pallet.contains_worker(&a));
    assert_eq!(pallet.clear_mission(1), exits(&[a]));
}

#[test]
fn a_worker_is_retired_once_idle_for_longer_than_the_interval() {
    let mut pallet = fleet(10);
    let a = worker(1);
    enrol(&mut pallet, a, 3);
    pallet.record_work(&a, 25);
    assert!(!pallet.is_evictable(&a, 0));
    assert!(!pallet.is_evictable(&a, 25));
    assert!(!pallet.is_evictable(&a, 34));
    assert!(!pallet.is_evictable(&a, 35));
    assert!(pallet.is_evictable(&a, 36));
    assert!(pallet.is_evictable(&a, u64::MAX));
    assert!(pallet.clear_mission(35).is_empty());
    assert!(pallet.contains_worker(&a));
    assert_eq!(pallet.clear_mission(36), exits(&[a]));
    assert!(!pallet.contains_worker(&a));
}

#[test]
fn a_worker_without_work_is_measured_from_its_admission() {
    let mut pallet = fleet(10);
    let a = worker(1);
    enrol(&mut pallet, a, 95);
    assert_eq!(pallet.last_work(&a), None);
    // Admitted at 95: the sweeps at 100 and before 95 + 10 leave it alone.
    assert!(pallet.on_initialize(100).is_empty());
    assert!(pallet.clear_mission(104).is_empty());
    assert!(pallet.clear_mission(105).is_empty());
    assert!(pallet.contains_worker(&a));
    assert_eq!(pallet.on_initialize(110), exits(&[a]));
    assert!(!pallet.contains_worker(&a));
}

#[test]
fn a_marked_height_near_the_top_does_not_overflow() {
    let mut pallet = fleet(u64::MAX);
    let a = worker(1);
    enrol(&mut pallet, a, 0);
    pallet.record_work(&a, u64::MAX - 1);
    assert!(!pallet.is_evictable(&a, u64::MAX));
    let mut pallet = fleet(10);
    enrol(&mut pallet, a, 0);
    pallet.record_work(&a, u64::MAX - 3);
    assert!(!pallet.is_evictable(&a, u64::MAX));
    assert!(pallet.clear_mission(u64::MAX).is_empty());
}

#[test]
fn a_stalled_fleet_keeps_everyone() {
    let mut pallet = fleet(10);
    let a = worker(1);
    enrol(&mut pallet, a, 0);
    pallet.record_work(&a, 0);
    pallet.set_note_stalled(Origin::Root, true).unwrap();
    assert!(!pallet.is_evictable(&a, 1000));
    assert!(pallet.on_initialize(1000).is_empty());
    assert!(pallet.contains_worker(&a));
    pallet.set_note_stalled(Origin::Root, false).unwrap();
    assert_eq!(pallet.on_initialize(1000), exits(&[a]));
}

#[test]
fn the_sweep_spares_the_master_key_holder_and_the_busy() {
    let mut pallet = fleet(10);
    let idle = worker(1);
    let holder = worker(2);
    let busy = worker(3);
    let idle_too = worker(4);
    for who in [idle, holder, busy, idle_too] {
        enrol(&mut pallet, who, 0);
        pallet.record_work(&who, 5);
    }
    pallet.record_work(&busy, 95);
    pallet.launch_master_key(Origin::Governance, holder).unwrap();
    assert_eq!(pallet.on_initialize(100), exits(&[idle, idle_too]));
    assert_eq!(pallet.worker_count(), 2);
    assert_eq!(pallet.worker_at(0), holder);
    assert_eq!(pallet.worker_at(1), busy);
    assert_eq!(pallet.last_work(&holder), Some(5));
    assert_eq!(pallet.last_work(&busy), Some(95));
    assert_eq!(pallet.last_work(&idle), None);
    assert_eq!(pallet.worker_added_at(&idle_too), None);
}

#[test]
fn patch_clear_invalid_tee_sweeps_at_any_height() {
    let mut pallet = fleet(10);
    let a = worker(1);
    enrol(&mut pallet, a, 0);
    pallet.record_work(&a, 0);
    assert_eq!(pallet.patch_clear_invalid_tee(Origin::Root, 17), Err(DispatchError::BadOrigin));
    assert_eq!(pallet.patch_clear_invalid_tee(Origin::Governance, 10), Ok(vec![]));
    assert_eq!(pallet.patch_clear_invalid_tee(Origin::Governance, 17), Ok(exits(&[a])));
    assert_eq!(pallet.worker_count(), 0);
}

#[test]
fn patch_clear_not_work_tee_removes_workers_without_a_mark() {
    let mut pallet = fleet(10);
    let a = worker(1);
    let b = worker(2);
    let c = worker(3);
    for who in [a, b, c] {
        enrol(&mut pallet, who, 0);
    }
    pallet.record_work(&b, 4);
    assert_eq!(pallet.patch_clear_not_work_tee(Origin::Unsigned), Err(DispatchError::BadOrigin));
    assert_eq!(pallet.patch_clear_not_work_tee(Origin::Governance), Ok(exits(&[a, c])));
    assert_eq!(pallet.worker_count(), 1);
    assert!(pallet.contains_worker(&b));
    assert_eq!(pallet.patch_clear_not_work_tee(Origin::Governance), Ok(vec![]));
}

#[test]
fn patch_clear_not_work_tee_removes_nothing_if_the_holder_has_no_mark() {
    let mut pallet = fleet(10);
    let a = worker(1);
    let holder = worker(2);
    enrol(&mut pallet, a, 0);
    enrol(&mut pallet, holder, 0);
    pallet.launch_master_key(Origin::Governance, holder).unwrap();
    assert_eq!(
        pallet.patch_clear_not_work_tee(Origin::Governance),
        Err(DispatchError::Module(Error::CannotExitMasterKeyHolder))
    );
    assert_eq!(pallet.worker_count(), 2);
    assert!(pallet.contains_worker(&a));
    pallet.record_work(&holder, 1);
    assert_eq!(pallet.patch_clear_not_work_tee(Origin::Governance), Ok(exits(&[a])));
    assert!(pallet.contains_worker(&holder));
}

#[test]
fn migration_last_work_marks_every_registered_worker() {
    let mut pallet = fleet(10);
    let a = worker(1);
    let b = worker(2);
    let outsider = worker(3);
    enrol(&mut pallet, a, 0);
    enrol(&mut pallet, b, 0);
    pallet.record_work(&b, 4);
    pallet.record_work(&outsider, 6);
    assert_eq!(pallet.migration_last_work(Origin::Root, 50), Err(DispatchError::BadOrigin));
    assert_eq!(pallet.last_work(&a), None);
    assert_eq!(pallet.migration_last_work(Origin::Governance, 50), Ok(vec![]));
    assert_eq!(pallet.last_work(&a), Some(50));
    assert_eq!(pallet.last_work(&b), Some(50));
    assert_eq!(pallet.last_work(&outsider), Some(6));
    assert_eq!(pallet.worker_count(), 2);
}

#[test]
fn a_launched_holder_stays_through_every_sweep() {
    let mut pallet = fleet(10);
    let holder = worker(2);
    enrol(&mut pallet, holder, 0);
    pallet.launch_master_key(Origin::Governance, holder).unwrap();
    pallet
        .on_message_received(
            DecodedMessage {
                sender: MessageOrigin::Worker(holder),
                payload: MasterKeySubmission::MasterPubkey { master_pubkey: MasterPublicKey([1; 32]) },
            },
            1,
            1,
        )
        .unwrap();
    assert!(pallet.on_initialize(1000).is_empty());
    assert!(pallet.contains_worker(&holder));
    pallet.clear_master_key(Origin::Governance).unwrap();
    assert_eq!(pallet.on_initialize(1000), exits(&[holder]));
}
