use evm_changeset::bundle_account::BundleAccount;
use evm_changeset::maps::U256Map;
use evm_changeset::primitives::{AccountInfo, StorageSlot, B256, U256};
use evm_changeset::reverts::{AccountInfoRevert, RevertToSlot};
use evm_changeset::status::AccountStatus;
use evm_changeset::transition::TransitionAccount;

fn balance_info(balance: u64) -> AccountInfo {
    AccountInfo { balance: U256::from_u64(balance), nonce: 0, code_hash: B256::keccak_empty() }
}

fn slot(original: u64, present: u64) -> StorageSlot {
    StorageSlot::new_changed(U256::from_u64(original), U256::from_u64(present))
}

fn transition(
    status: AccountStatus,
    info: Option<AccountInfo>,
    previous_status: AccountStatus,
    previous_info: Option<AccountInfo>,
    storage: U256Map<StorageSlot>,
) -> TransitionAccount {
    TransitionAccount { info, status, previous_info, previous_status, storage }
}

#[test]
fn concrete_changed_fold_and_revert() {
    // bundle starts {status: Loaded, info: {balance: 100}, storage: {}}
    let mut bundle = BundleAccount::new(
        Some(balance_info(100)),
        Some(balance_info(100)),
        U256Map::new(),
        AccountStatus::Loaded,
    );
    let mut tstorage = U256Map::new();
    tstorage.insert(U256::from_u64(1), slot(0, 5));
    let t = transition(
        AccountStatus::Changed,
        Some(balance_info(150)),
        AccountStatus::Loaded,
        Some(balance_info(100)),
        tstorage,
    );
    let revert = bundle.update_and_create_revert(t).expect("a revert is owed");

    assert_eq!(bundle.status, AccountStatus::Changed);
    assert_eq!(bundle.info, Some(balance_info(150)));
    let held = *bundle.storage.get(&U256::from_u64(1)).expect("slot cached");
    assert_eq!(held.present_value, U256::from_u64(5));

    assert_eq!(revert.account, AccountInfoRevert::RevertTo(balance_info(100)));
    assert_eq!(revert.previous_status, AccountStatus::Loaded);
    assert_eq!(
        *revert.storage.get(&U256::from_u64(1)).expect("slot revert owed"),
        RevertToSlot::Value(U256::from_u64(0))
    );
    assert_eq!(revert.storage.len(), 1);

    let removable = bundle.revert(revert);
    assert!(!removable);
    assert_eq!(bundle.status, AccountStatus::Loaded);
    assert_eq!(bundle.info, Some(balance_info(100)));
    let back = *bundle.storage.get(&U256::from_u64(1)).expect("slot restored");
    assert_eq!(back.present_value, U256::from_u64(0));
}

#[test]
fn refresh_target_is_noop() {
    let mut bundle = BundleAccount::new(
        Some(balance_info(7)),
        Some(balance_info(7)),
        U256Map::new(),
        AccountStatus::Loaded,
    );
    let t = transition(
        AccountStatus::Loaded,
        Some(balance_info(7)),
        AccountStatus::Loaded,
        Some(balance_info(7)),
        U256Map::new(),
    );
    assert!(bundle.update_and_create_revert(t).is_none());
    assert_eq!(bundle.status, AccountStatus::Loaded);
    assert_eq!(bundle.info, Some(balance_info(7)));
    assert_eq!(bundle.storage.len(), 0);
}

#[test]
fn unchanged_slot_stays_out_of_revert() {
    let mut bundle = BundleAccount::new(
        Some(balance_info(1)),
        Some(balance_info(1)),
        U256Map::new(),
        AccountStatus::Changed,
    );
    let mut tstorage = U256Map::new();
    tstorage.insert(U256::from_u64(3), slot(9, 9));
    tstorage.insert(U256::from_u64(4), slot(1, 2));
    let t = transition(
        AccountStatus::Changed,
        Some(balance_info(1)),
        AccountStatus::Changed,
        Some(balance_info(1)),
        tstorage,
    );
    let revert = bundle.update_and_create_revert(t).expect("a revert is owed");
    assert!(revert.storage.get(&U256::from_u64(3)).is_none());
    assert_eq!(
        *revert.storage.get(&U256::from_u64(4)).expect("changed slot reverts"),
        RevertToSlot::Value(U256::from_u64(1))
    );
    assert_eq!(revert.storage.len(), 1);
}

#[test]
fn selfdestruct_recreate_in_one_fold_restores_changed_state() {
    let mut storage = U256Map::new();
    storage.insert(U256::from_u64(1), slot(0, 5));
    let mut bundle = BundleAccount::new(
        Some(balance_info(100)),
        Some(balance_info(100)),
        storage,
        AccountStatus::Changed,
    );
    let mut tstorage = U256Map::new();
    tstorage.insert(U256::from_u64(2), slot(0, 9));
    let t = transition(
        AccountStatus::DestroyedChanged,
        Some(balance_info(42)),
        AccountStatus::Changed,
        Some(balance_info(100)),
        tstorage,
    );
    let revert = bundle.update_and_create_revert(t).expect("a revert is owed");

    assert_eq!(bundle.status, AccountStatus::DestroyedChanged);
    assert_eq!(bundle.info, Some(balance_info(42)));
    assert!(bundle.storage.get(&U256::from_u64(1)).is_none());
    assert!(bundle.storage.get(&U256::from_u64(2)).is_some());

    assert_eq!(revert.account, AccountInfoRevert::RevertTo(balance_info(100)));
    assert_eq!(revert.previous_status, AccountStatus::Changed);
    assert_eq!(
        *revert.storage.get(&U256::from_u64(1)).expect("pre-destruction slot reverts"),
        RevertToSlot::Value(U256::from_u64(5))
    );
    assert_eq!(
        *revert.storage.get(&U256::from_u64(2)).expect("re-created slot is removed"),
        RevertToSlot::Destroyed
    );

    bundle.revert(revert);
    assert_eq!(bundle.status, AccountStatus::Changed);
    assert_eq!(bundle.info, Some(balance_info(100)));
    let back = *bundle.storage.get(&U256::from_u64(1)).expect("slot restored");
    assert_eq!(back.present_value, U256::from_u64(5));
    assert!(bundle.storage.get(&U256::from_u64(2)).is_none());
}

#[test]
fn destroying_a_never_existing_account_is_noop() {
    let mut bundle = BundleAccount::new(
        None,
        None,
        U256Map::new(),
        AccountStatus::LoadedNotExisting,
    );
    let t = transition(
        AccountStatus::Destroyed,
        None,
        AccountStatus::LoadedNotExisting,
        None,
        U256Map::new(),
    );
    assert!(bundle.update_and_create_revert(t).is_none());
    assert_eq!(bundle.status, AccountStatus::LoadedNotExisting);
    assert!(bundle.info.is_none());
}

#[test]
fn destruction_wipes_and_its_revert_restores() {
    let mut storage = U256Map::new();
    storage.insert(U256::from_u64(1), slot(2, 6));
    let mut bundle = BundleAccount::new(
        Some(balance_info(10)),
        Some(balance_info(10)),
        storage,
        AccountStatus::Changed,
    );
    let t = transition(
        AccountStatus::Destroyed,
        None,
        AccountStatus::Changed,
        Some(balance_info(10)),
        U256Map::new(),
    );
    let revert = bundle.update_and_create_revert(t).expect("a revert is owed");
    assert_eq!(bundle.status, AccountStatus::Destroyed);
    assert!(bundle.info.is_none());
    assert_eq!(bundle.storage.len(), 0);
    assert!(revert.wipe_storage);
    assert_eq!(revert.account, AccountInfoRevert::RevertTo(balance_info(10)));

    bundle.revert(revert);
    assert_eq!(bundle.status, AccountStatus::Changed);
    assert_eq!(bundle.info, Some(balance_info(10)));
    let back = *bundle.storage.get(&U256::from_u64(1)).expect("slot restored");
    assert_eq!(back.present_value, U256::from_u64(6));
}

#[test]
fn delete_it_revert_makes_account_removable() {
    let mut bundle = BundleAccount::new(
        None,
        None,
        U256Map::new(),
        AccountStatus::LoadedNotExisting,
    );
    let mut tstorage = U256Map::new();
    tstorage.insert(U256::from_u64(8), slot(0, 4));
    let t = transition(
        AccountStatus::InMemoryChange,
        Some(balance_info(5)),
        AccountStatus::LoadedNotExisting,
        None,
        tstorage,
    );
    let revert = bundle.update_and_create_revert(t).expect("a revert is owed");
    assert_eq!(revert.account, AccountInfoRevert::DeleteIt);
    assert_eq!(bundle.status, AccountStatus::InMemoryChange);

    let removable = bundle.revert(revert);
    assert!(removable);
    assert!(bundle.info.is_none());
    assert_eq!(bundle.storage.len(), 0);
    assert_eq!(bundle.status, AccountStatus::LoadedNotExisting);
}

#[test]
fn extend_keeps_original_slot_values() {
    let mut storage = U256Map::new();
    storage.insert(U256::from_u64(1), slot(1, 2));
    let mut bundle = BundleAccount::new(
        Some(balance_info(1)),
        Some(balance_info(2)),
        storage,
        AccountStatus::Changed,
    );

    let mut other_storage = U256Map::new();
    other_storage.insert(U256::from_u64(1), slot(9, 7));
    other_storage.insert(U256::from_u64(2), slot(0, 3));
    let other = BundleAccount::new(
        Some(balance_info(1)),
        Some(balance_info(8)),
        other_storage,
        AccountStatus::Changed,
    );

    bundle.extend(other);
    assert_eq!(bundle.info, Some(balance_info(8)));
    let merged = *bundle.storage.get(&U256::from_u64(1)).expect("slot kept");
    assert_eq!(merged.original_value, U256::from_u64(1));
    assert_eq!(merged.present_value, U256::from_u64(7));
    let added = *bundle.storage.get(&U256::from_u64(2)).expect("slot added");
    assert_eq!(added.original_value, U256::from_u64(0));
    assert_eq!(added.present_value, U256::from_u64(3));
}

#[test]
fn storage_slot_resolves_by_status() {
    let mut storage = U256Map::new();
    storage.insert(U256::from_u64(1), slot(0, 5));
    let loaded = BundleAccount::new(
        Some(balance_info(1)),
        Some(balance_info(1)),
        storage,
        AccountStatus::Loaded,
    );
    assert_eq!(loaded.storage_slot(U256::from_u64(1)), Some(U256::from_u64(5)));
    assert_eq!(loaded.storage_slot(U256::from_u64(2)), None);

    let destroyed = BundleAccount::new(
        Some(balance_info(1)),
        None,
        U256Map::new(),
        AccountStatus::Destroyed,
    );
    assert_eq!(destroyed.storage_slot(U256::from_u64(2)), Some(U256::zero()));
}

#[test]
fn info_and_contract_change_flags() {
    let original = balance_info(1);
    let mut changed = balance_info(1);
    changed.code_hash = B256 { hi: 1, lo: 2 };
    let bundle = BundleAccount::new(
        Some(original),
        Some(changed),
        U256Map::new(),
        AccountStatus::Changed,
    );
    assert!(bundle.is_info_changed());
    assert!(bundle.is_contract_changed());
    assert!(!bundle.was_destroyed());
    assert_eq!(bundle.account_info(), Some(changed));

    let same = BundleAccount::new(
        Some(original),
        Some(original),
        U256Map::new(),
        AccountStatus::Loaded,
    );
    assert!(!same.is_info_changed());
    assert!(!same.is_contract_changed());
}

#[test]
fn fold_sequence_reverts_in_reverse_order() {
    // Loaded(100) --Changed(150, slot1=5)--> --Destroyed--> --DestroyedChanged(42, slot2=9)-->
    // then the three reverts applied newest first restore Loaded(100).
    let mut bundle = BundleAccount::new(
        Some(balance_info(100)),
        Some(balance_info(100)),
        U256Map::new(),
        AccountStatus::Loaded,
    );

    let mut s1 = U256Map::new();
    s1.insert(U256::from_u64(1), slot(0, 5));
    let r1 = bundle
        .update_and_create_revert(transition(
            AccountStatus::Changed,
            Some(balance_info(150)),
            AccountStatus::Loaded,
            Some(balance_info(100)),
            s1,
        ))
        .expect("first revert");

    let r2 = bundle
        .update_and_create_revert(transition(
            AccountStatus::Destroyed,
            None,
            AccountStatus::Changed,
            Some(balance_info(150)),
            U256Map::new(),
        ))
        .expect("second revert");

    let mut s3 = U256Map::new();
    s3.insert(U256::from_u64(2), slot(0, 9));
    let r3 = bundle
        .update_and_create_revert(transition(
            AccountStatus::DestroyedChanged,
            Some(balance_info(42)),
            AccountStatus::Destroyed,
            None,
            s3,
        ))
        .expect("third revert");
    assert_eq!(bundle.status, AccountStatus::DestroyedChanged);

    bundle.revert(r3);
    assert_eq!(bundle.status, AccountStatus::Destroyed);
    assert!(bundle.info.is_none());

    bundle.revert(r2);
    assert_eq!(bundle.status, AccountStatus::Changed);
    assert_eq!(bundle.info, Some(balance_info(150)));
    let s = *bundle.storage.get(&U256::from_u64(1)).expect("slot restored");
    assert_eq!(s.present_value, U256::from_u64(5));

    bundle.revert(r1);
    assert_eq!(bundle.status, AccountStatus::Loaded);
    assert_eq!(bundle.info, Some(balance_info(100)));
    let s = *bundle.storage.get(&U256::from_u64(1)).expect("slot present");
    assert_eq!(s.present_value, U256::from_u64(0));
}

#[test]
fn second_destruction_of_recreated_account() {
    // DestroyedChanged --DestroyedAgain--> : info cleared, storage cleared,
    // revert restores the re-created info; its storage map mirrors only the
    // update's own diff, which is empty for a destruction.
    let mut storage = U256Map::new();
    storage.insert(U256::from_u64(1), slot(0, 5));
    let mut bundle = BundleAccount::new(
        None,
        Some(balance_info(42)),
        storage,
        AccountStatus::DestroyedChanged,
    );
    let t = transition(
        AccountStatus::DestroyedAgain,
        None,
        AccountStatus::DestroyedChanged,
        Some(balance_info(42)),
        U256Map::new(),
    );
    let revert = bundle.update_and_create_revert(t).expect("a revert is owed");
    assert_eq!(bundle.status, AccountStatus::DestroyedAgain);
    assert!(bundle.info.is_none());
    assert_eq!(bundle.storage.len(), 0);
    assert_eq!(revert.account, AccountInfoRevert::RevertTo(balance_info(42)));
    assert_eq!(revert.previous_status, AccountStatus::DestroyedChanged);
    assert_eq!(revert.storage.len(), 0);

    bundle.revert(revert);
    assert_eq!(bundle.status, AccountStatus::DestroyedChanged);
    assert_eq!(bundle.info, Some(balance_info(42)));
}

#[test]
fn recreation_after_second_destruction_marks_new_slots() {
    // DestroyedAgain --DestroyedChanged--> : every slot the re-creation
    // writes gets a removal marker, and the revert deletes the info back to
    // the empty account.
    let mut bundle = BundleAccount::new(
        None,
        None,
        U256Map::new(),
        AccountStatus::DestroyedAgain,
    );
    let mut tstorage = U256Map::new();
    tstorage.insert(U256::from_u64(1), slot(0, 5));
    let t = transition(
        AccountStatus::DestroyedChanged,
        Some(balance_info(9)),
        AccountStatus::DestroyedAgain,
        None,
        tstorage,
    );
    let revert = bundle.update_and_create_revert(t).expect("a revert is owed");
    assert_eq!(bundle.status, AccountStatus::DestroyedChanged);
    assert_eq!(
        revert.account,
        AccountInfoRevert::RevertTo(AccountInfo::empty())
    );
    assert_eq!(revert.previous_status, AccountStatus::DestroyedAgain);
    assert_eq!(
        *revert.storage.get(&U256::from_u64(1)).expect("new slot marked"),
        RevertToSlot::Destroyed
    );

    bundle.revert(revert);
    assert_eq!(bundle.status, AccountStatus::DestroyedAgain);
    assert_eq!(bundle.storage.len(), 0);
}

#[test]
fn loaded_empty_collapses_to_loaded_on_revert() {
    // LoadedEmptyEIP161 --Changed--> : only balance funding can leave the
    // empty state; the revert's prior status is plain Loaded by convention.
    let mut bundle = BundleAccount::new(
        Some(AccountInfo::empty()),
        Some(AccountInfo::empty()),
        U256Map::new(),
        AccountStatus::LoadedEmptyEIP161,
    );
    let t = transition(
        AccountStatus::Changed,
        Some(balance_info(3)),
        AccountStatus::LoadedEmptyEIP161,
        Some(AccountInfo::empty()),
        U256Map::new(),
    );
    let revert = bundle.update_and_create_revert(t).expect("a revert is owed");
    assert_eq!(bundle.status, AccountStatus::Changed);
    assert_eq!(bundle.info, Some(balance_info(3)));
    assert_eq!(revert.previous_status, AccountStatus::Loaded);
    assert_eq!(revert.storage.len(), 0);
    assert_eq!(
        revert.account,
        AccountInfoRevert::RevertTo(AccountInfo::empty())
    );
}
