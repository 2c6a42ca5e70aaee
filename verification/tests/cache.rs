use evm_changeset::cache::{CacheState, EvmAccount};
use evm_changeset::maps::U256Map;
use evm_changeset::primitives::{AccountInfo, Address, StorageSlot, B256, U256};
use evm_changeset::status::AccountStatus;

fn balance_info(balance: u64) -> AccountInfo {
    AccountInfo { balance: U256::from_u64(balance), nonce: 0, code_hash: B256::keccak_empty() }
}

fn raw(
    info: AccountInfo,
    storage: U256Map<StorageSlot>,
    touched: bool,
    selfdestructed: bool,
    created: bool,
) -> EvmAccount {
    EvmAccount { info, storage, touched, selfdestructed, created }
}

#[test]
fn untouched_accounts_are_skipped() {
    let mut cache = CacheState::new();
    let addr = Address::from_u64(1);
    cache.insert_account(addr, balance_info(10));
    let batch = vec![(addr, raw(balance_info(99), U256Map::new(), false, false, false))];
    let transitions = cache.apply_evm_state(batch);
    assert!(transitions.is_empty());
    let entry = cache.accounts.get(&addr).expect("still cached");
    assert_eq!(entry.status, AccountStatus::Loaded);
    assert_eq!(entry.account.as_ref().expect("account kept").info, balance_info(10));
}

#[test]
fn selfdestruct_of_loaded_account_emits_destroyed_transition() {
    let mut cache = CacheState::new();
    let addr = Address::from_u64(2);
    cache.insert_account(addr, balance_info(10));
    let batch = vec![(addr, raw(balance_info(10), U256Map::new(), true, true, false))];
    let transitions = cache.apply_evm_state(batch);
    assert_eq!(transitions.len(), 1);
    let (a, t) = &transitions[0];
    assert_eq!(*a, addr);
    assert_eq!(t.status, AccountStatus::Destroyed);
    assert_eq!(t.previous_status, AccountStatus::Loaded);
    assert_eq!(t.previous_info, Some(balance_info(10)));
    assert!(t.info.is_none());
    let entry = cache.accounts.get(&addr).expect("entry kept");
    assert_eq!(entry.status, AccountStatus::Destroyed);
    assert!(entry.account.is_none());
}

#[test]
fn selfdestruct_of_unknown_address_inserts_not_existing() {
    let mut cache = CacheState::new();
    let addr = Address::from_u64(3);
    let batch = vec![(addr, raw(balance_info(0), U256Map::new(), true, true, false))];
    let transitions = cache.apply_evm_state(batch);
    assert!(transitions.is_empty());
    let entry = cache.accounts.get(&addr).expect("placeholder inserted");
    assert_eq!(entry.status, AccountStatus::LoadedNotExisting);
}

#[test]
fn creation_over_unknown_address_synthesizes_transition() {
    let mut cache = CacheState::new();
    let addr = Address::from_u64(4);
    let mut storage = U256Map::new();
    storage.insert(
        U256::from_u64(1),
        StorageSlot::new_changed(U256::from_u64(0), U256::from_u64(7)),
    );
    let batch = vec![(addr, raw(balance_info(5), storage, true, false, true))];
    let transitions = cache.apply_evm_state(batch);
    assert_eq!(transitions.len(), 1);
    let (_, t) = &transitions[0];
    assert_eq!(t.status, AccountStatus::InMemoryChange);
    assert_eq!(t.previous_status, AccountStatus::LoadedNotExisting);
    assert!(t.previous_info.is_none());
    assert_eq!(t.info, Some(balance_info(5)));
    let entry = cache.accounts.get(&addr).expect("created entry");
    assert_eq!(entry.status, AccountStatus::InMemoryChange);
    let plain = entry.account.as_ref().expect("account exists");
    assert_eq!(*plain.storage.get(&U256::from_u64(1)).expect("present value"), U256::from_u64(7));
}

#[test]
fn creation_over_destroyed_account_becomes_recreated() {
    let mut cache = CacheState::new();
    let addr = Address::from_u64(5);
    cache.insert_account(addr, balance_info(10));
    let first = vec![(addr, raw(balance_info(10), U256Map::new(), true, true, false))];
    cache.apply_evm_state(first);
    let second = vec![(addr, raw(balance_info(3), U256Map::new(), true, false, true))];
    let transitions = cache.apply_evm_state(second);
    assert_eq!(transitions.len(), 1);
    assert_eq!(transitions[0].1.status, AccountStatus::DestroyedChanged);
    assert_eq!(transitions[0].1.previous_status, AccountStatus::Destroyed);
}

#[test]
fn touched_empty_account_cleared_when_state_clear_enabled() {
    let mut cache = CacheState::new();
    let addr = Address::from_u64(6);
    cache.insert_account(addr, AccountInfo::empty());
    let entry = cache.accounts.get(&addr).expect("cached");
    assert_eq!(entry.status, AccountStatus::LoadedEmptyEIP161);

    let batch = vec![(addr, raw(AccountInfo::empty(), U256Map::new(), true, false, false))];
    let transitions = cache.apply_evm_state(batch);
    assert_eq!(transitions.len(), 1);
    assert_eq!(transitions[0].1.status, AccountStatus::Destroyed);
    assert_eq!(transitions[0].1.previous_status, AccountStatus::LoadedEmptyEIP161);
    let entry = cache.accounts.get(&addr).expect("entry kept");
    assert_eq!(entry.status, AccountStatus::Destroyed);
    assert!(entry.account.is_none());
}

#[test]
fn touched_empty_account_retained_without_state_clear() {
    let mut cache = CacheState::new_legacy();
    let addr = Address::from_u64(7);
    cache.insert_account(addr, AccountInfo::empty());
    let batch = vec![(addr, raw(AccountInfo::empty(), U256Map::new(), true, false, false))];
    let transitions = cache.apply_evm_state(batch);
    assert!(transitions.is_empty());
    let entry = cache.accounts.get(&addr).expect("entry kept");
    assert_eq!(entry.status, AccountStatus::LoadedEmptyEIP161);
    assert!(entry.account.is_some());
}

#[test]
fn plain_change_records_previous_info() {
    let mut cache = CacheState::new();
    let addr = Address::from_u64(8);
    let mut held = U256Map::new();
    held.insert(U256::from_u64(1), U256::from_u64(5));
    cache.insert_account_with_storage(addr, balance_info(10), held);

    let mut upd = U256Map::new();
    upd.insert(
        U256::from_u64(1),
        StorageSlot::new_changed(U256::from_u64(5), U256::from_u64(6)),
    );
    upd.insert(
        U256::from_u64(2),
        StorageSlot::new_changed(U256::from_u64(0), U256::from_u64(3)),
    );
    let batch = vec![(addr, raw(balance_info(11), upd, true, false, false))];
    let transitions = cache.apply_evm_state(batch);
    assert_eq!(transitions.len(), 1);
    let t = &transitions[0].1;
    assert_eq!(t.status, AccountStatus::Changed);
    assert_eq!(t.previous_status, AccountStatus::Loaded);
    assert_eq!(t.previous_info, Some(balance_info(10)));
    assert_eq!(t.info, Some(balance_info(11)));

    let entry = cache.accounts.get(&addr).expect("entry kept");
    let plain = entry.account.as_ref().expect("account exists");
    assert_eq!(plain.info, balance_info(11));
    assert_eq!(*plain.storage.get(&U256::from_u64(1)).expect("updated"), U256::from_u64(6));
    assert_eq!(*plain.storage.get(&U256::from_u64(2)).expect("added"), U256::from_u64(3));
}

#[test]
fn trie_account_lists_existing_accounts() {
    let mut cache = CacheState::new();
    let a1 = Address::from_u64(10);
    let a2 = Address::from_u64(11);
    cache.insert_account(a1, balance_info(1));
    cache.insert_not_existing(a2);
    let accounts = cache.trie_account();
    assert_eq!(accounts.len(), 1);
    assert_eq!(accounts[0].0, a1);
    assert_eq!(accounts[0].1.info, balance_info(1));
}

#[test]
fn default_cache_has_state_clear_enabled() {
    let cache = CacheState::default();
    assert!(cache.has_state_clear);
    assert_eq!(cache.accounts.len(), 0);
    let legacy = CacheState::new_legacy();
    assert!(!legacy.has_state_clear);
}
