use tee_worker::{Action, Config, DispatchError, Error, Event, Origin, Pallet, H256};

fn fleet() -> Pallet {
    Pallet::new(Config { none_attestation_enabled: false, at_least_work_block: 10, verify_pflix: true })
}

#[test]
fn add_pflix_appends_and_records_the_height() {
    let mut pallet = fleet();
    let x = H256([1; 32]);
    let y = H256([2; 32]);
    assert_eq!(pallet.add_pflix(Origin::Governance, x, 5), Ok(vec![Action::Deposit(Event::PflixBinAdded(x))]));
    pallet.add_pflix(Origin::Governance, y, 6).unwrap();
    assert_eq!(pallet.pflix_bin_allowlist(), &vec![x, y]);
    assert_eq!(pallet.pflix_bin_added_at(&x), Some(5));
    assert_eq!(pallet.pflix_bin_added_at(&y), Some(6));
    assert_eq!(
        pallet.add_pflix(Origin::Governance, x, 9),
        Err(DispatchError::Module(Error::PflixBinAlreadyExists))
    );
    assert_eq!(pallet.pflix_bin_added_at(&x), Some(5));
    assert_eq!(pallet.add_pflix(Origin::Root, H256([3; 32]), 9), Err(DispatchError::BadOrigin));
    assert_eq!(pallet.pflix_bin_allowlist().len(), 2);
}

#[test]
fn remove_pflix_takes_the_binary_off() {
    let mut pallet = fleet();
    let x = H256([1; 32]);
    let y = H256([2; 32]);
    let z = H256([3; 32]);
    for (height, digest) in [x, y, z].into_iter().enumerate() {
        pallet.add_pflix(Origin::Governance, digest, height as u64).unwrap();
    }
    assert_eq!(
        pallet.remove_pflix(Origin::Governance, H256([4; 32])),
        Err(DispatchError::Module(Error::PflixBinNotFound))
    );
    assert_eq!(pallet.remove_pflix(Origin::Unsigned, y), Err(DispatchError::BadOrigin));
    assert_eq!(pallet.remove_pflix(Origin::Governance, y), Ok(vec![Action::Deposit(Event::PflixBinRemoved(y))]));
    assert_eq!(pallet.pflix_bin_allowlist(), &vec![x, z]);
    assert_eq!(pallet.pflix_bin_added_at(&y), None);
    assert_eq!(pallet.pflix_bin_added_at(&z), Some(2));
    assert_eq!(
        pallet.remove_pflix(Origin::Governance, y),
        Err(DispatchError::Module(Error::PflixBinNotFound))
    );
}

#[test]
fn the_minimum_version_only_rises() {
    let mut pallet = fleet();
    assert_eq!(pallet.minimum_pflix_version(), (0, 0, 0));
    assert_eq!(
        pallet.set_minimum_pflix_version(Origin::Governance, 1, 2, 3),
        Ok(vec![Action::Deposit(Event::MinimumPflixVersionChangedTo(1, 2, 3))])
    );
    assert_eq!(pallet.minimum_pflix_version(), (1, 2, 3));
    assert_eq!(pallet.set_minimum_pflix_version(Origin::Governance, 1, 2, 2), Ok(vec![]));
    assert_eq!(pallet.set_minimum_pflix_version(Origin::Governance, 1, 1, 9), Ok(vec![]));
    assert_eq!(pallet.set_minimum_pflix_version(Origin::Governance, 0, 9, 9), Ok(vec![]));
    assert_eq!(pallet.minimum_pflix_version(), (1, 2, 3));
    pallet.set_minimum_pflix_version(Origin::Governance, 1, 2, 3).unwrap();
    pallet.set_minimum_pflix_version(Origin::Governance, 1, 3, 0).unwrap();
    assert_eq!(pallet.minimum_pflix_version(), (1, 3, 0));
    pallet.set_minimum_pflix_version(Origin::Governance, 2, 0, 0).unwrap();
    assert_eq!(pallet.minimum_pflix_version(), (2, 0, 0));
    assert_eq!(pallet.set_minimum_pflix_version(Origin::Root, 3, 0, 0), Err(DispatchError::BadOrigin));
    assert_eq!(pallet.minimum_pflix_version(), (2, 0, 0));
}

#[test]
fn the_stalled_flag_is_for_root_to_set() {
    let mut pallet = fleet();
    assert_eq!(pallet.is_note_stalled(), None);
    assert_eq!(pallet.set_note_stalled(Origin::Governance, true), Err(DispatchError::BadOrigin));
    assert_eq!(pallet.is_note_stalled(), None);
    assert_eq!(pallet.set_note_stalled(Origin::Root, true), Ok(vec![]));
    assert_eq!(pallet.is_note_stalled(), Some(true));
    pallet.set_note_stalled(Origin::Root, false).unwrap();
    assert_eq!(pallet.is_note_stalled(), Some(false));
}

#[test]
fn a_new_fleet_is_empty_and_keeps_its_settings() {
    let pallet =
        Pallet::new(Config { none_attestation_enabled: true, at_least_work_block: 7, verify_pflix: false });
    assert_eq!(pallet.sweep_interval(), 7);
    assert!(pallet.policy().none_attestation_enabled);
    assert!(!pallet.policy().verify_pflix);
    assert_eq!(pallet.worker_count(), 0);
    assert!(pallet.pflix_bin_allowlist().is_empty());
    assert!(pallet.old_master_pubkey_list().is_empty());
    assert_eq!(pallet.master_key_state(), tee_worker::MasterKeyState::Uninitialized);
    assert_eq!(pallet.try_get(), None);
    assert_eq!(pallet.minimum_pflix_version(), (0, 0, 0));
    assert_eq!(pallet.is_note_stalled(), None);
}
