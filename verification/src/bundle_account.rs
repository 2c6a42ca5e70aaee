//! The bundle account: one address's accumulated net change across a window
//! of execution, folded one transition at a time, each fold emitting the
//! exact compensating revert that undoes it.

use vstd::prelude::*;
use crate::maps::{assoc_map, lemma_assoc_map_push, lemma_prefix_key_absent, U256Map};
use crate::primitives::{
    info_or_empty, spec_info_or_empty, AccountInfo, StorageSlot, B256, U256,
};
use crate::reverts::{
    build_revert_storage, destroyed_again_storage, revert_storage_of_update, wiped_to_values,
    AccountInfoRevert, AccountRevert, RevertToSlot, RevertView,
};
use crate::status::AccountStatus;
use crate::transition::{TransitionAccount, TransitionView};

verus! {

/// Account state accumulated for creating changesets and reverts: the
/// present info, the true original on-disk info, storage with both original
/// and present values, and the lifecycle status.
#[derive(Debug)]
pub struct BundleAccount {
    pub info: Option<AccountInfo>,
    pub original_info: Option<AccountInfo>,
    pub storage: U256Map<StorageSlot>,
    pub status: AccountStatus,
}

/// The mathematical value of a bundle account.
pub struct BundleView {
    pub info: Option<AccountInfo>,
    pub original_info: Option<AccountInfo>,
    pub storage: Map<U256, StorageSlot>,
    pub status: AccountStatus,
}

impl View for BundleAccount {
    type V = BundleView;

    open spec fn view(&self) -> BundleView {
        BundleView {
            info: self.info,
            original_info: self.original_info,
            storage: self.storage@,
            status: self.status,
        }
    }
}

/// Merge an update's slots into held storage: present values are taken from
/// the update, while a slot already held keeps its original value.
pub open spec fn merged_storage(
    base: Map<U256, StorageSlot>,
    upd: Map<U256, StorageSlot>,
) -> Map<U256, StorageSlot> {
    Map::new(
        |k: U256| base.dom().contains(k) || upd.dom().contains(k),
        |k: U256|
            if upd.dom().contains(k) {
                StorageSlot {
                    original_value: if base.dom().contains(k) {
                        base[k].original_value
                    } else {
                        upd[k].original_value
                    },
                    present_value: upd[k].present_value,
                }
            } else {
                base[k]
            },
    )
}

/// Exec counterpart of `merged_storage`.
pub fn extend_storage(this: &mut U256Map<StorageSlot>, update: U256Map<StorageSlot>)
    requires
        old(this).wf(),
        update.wf(),
    ensures
        final(this).wf(),
        final(this)@ == merged_storage(old(this)@, update@),
{
    let ghost base = old(this)@;
    let mut i: usize = 0;
    proof {
        assert(this@ =~= merged_storage(base, assoc_map(update.entries@.take(0))));
    }
    while i < update.entries.len()
        invariant
            update.wf(),
            i <= update.entries@.len(),
            this.wf(),
            this@ == merged_storage(base, assoc_map(update.entries@.take(i as int))),
        decreases update.entries@.len() - i,
    {
        let ghost prefix = update.entries@.take(i as int);
        let (key, slot) = update.entries[i];
        proof {
            assert(update.entries@.take(i + 1 as int) =~= prefix.push((key, slot)));
            lemma_assoc_map_push(prefix, key, slot);
            lemma_prefix_key_absent(update.entries@, i as int);
        }
        this.merge_slot(key, slot.original_value, slot.present_value);
        proof {
            assert(this@ =~= merged_storage(base, assoc_map(prefix).insert(key, slot)));
        }
        i = i + 1;
    }
    proof {
        assert(update.entries@.take(update.entries@.len() as int) =~= update.entries@);
    }
}

/// Statuses whose pre-destruction state a fold into `DestroyedChanged` or
/// `DestroyedAgain` must first capture as a selfdestruct revert.
pub open spec fn bundle_can_capture(status: AccountStatus) -> bool {
    ||| status == AccountStatus::InMemoryChange
    ||| status == AccountStatus::Changed
    ||| status == AccountStatus::LoadedEmptyEIP161
    ||| status == AccountStatus::Loaded
}

/// The pairs of (current status, target status) a fold may legally carry;
/// every other pair is an internal-invariant breach.
pub open spec fn transition_allowed(current: AccountStatus, target: AccountStatus) -> bool {
    match target {
        AccountStatus::Loaded => true,
        AccountStatus::LoadedNotExisting => true,
        AccountStatus::LoadedEmptyEIP161 => true,
        AccountStatus::Changed => current == AccountStatus::Changed || current
            == AccountStatus::Loaded || current == AccountStatus::LoadedEmptyEIP161,
        AccountStatus::InMemoryChange => current == AccountStatus::LoadedEmptyEIP161 || current
            == AccountStatus::Loaded || current == AccountStatus::LoadedNotExisting || current
            == AccountStatus::InMemoryChange,
        AccountStatus::Destroyed => bundle_can_capture(current) || current
            == AccountStatus::LoadedNotExisting,
        AccountStatus::DestroyedChanged => true,
        AccountStatus::DestroyedAgain => true,
    }
}

/// What the info part of a revert is when the held info must be restored on
/// change: restore the held info if the update changes it, else nothing.
pub open spec fn info_revert_to_held(
    held: Option<AccountInfo>,
    updated: Option<AccountInfo>,
) -> AccountInfoRevert {
    if held != updated {
        AccountInfoRevert::RevertTo(spec_info_or_empty(held))
    } else {
        AccountInfoRevert::DoNothing
    }
}

/// As above, but restoring the empty account: used where the prior
/// persisted truth was empty.
pub open spec fn info_revert_to_empty(
    held: Option<AccountInfo>,
    updated: Option<AccountInfo>,
) -> AccountInfoRevert {
    if held != updated {
        AccountInfoRevert::RevertTo(AccountInfo::spec_empty())
    } else {
        AccountInfoRevert::DoNothing
    }
}

/// The transition matrix: what folding one transition into a bundle yields,
/// as the new bundle value and the revert that undoes the fold (`None` for
/// a true no-op). Only pairs `transition_allowed` admits are meaningful.
pub open spec fn spec_apply_transition(b: BundleView, t: TransitionView) -> (
    BundleView,
    Option<RevertView>,
) {
    let rsou = revert_storage_of_update(t.storage);
    match t.status {
        AccountStatus::Loaded => (b, None::<RevertView>),
        AccountStatus::LoadedNotExisting => (b, None::<RevertView>),
        AccountStatus::LoadedEmptyEIP161 => (b, None::<RevertView>),
        AccountStatus::Changed => {
            if b.status == AccountStatus::LoadedEmptyEIP161 {
                // Only a balance-funding change is possible from the empty
                // state, so no storage moves; an empty account collapses to
                // Loaded on revert.
                (
                    BundleView {
                        info: t.info,
                        original_info: b.original_info,
                        storage: b.storage,
                        status: AccountStatus::Changed,
                    },
                    Some(
                        RevertView {
                            account: info_revert_to_held(b.info, t.info),
                            storage: Map::<U256, RevertToSlot>::empty(),
                            previous_status: AccountStatus::Loaded,
                            wipe_storage: false,
                        },
                    ),
                )
            } else {
                (
                    BundleView {
                        info: t.info,
                        original_info: b.original_info,
                        storage: merged_storage(b.storage, t.storage),
                        status: AccountStatus::Changed,
                    },
                    Some(
                        RevertView {
                            account: info_revert_to_held(b.info, t.info),
                            storage: rsou,
                            previous_status: b.status,
                            wipe_storage: false,
                        },
                    ),
                )
            }
        },
        AccountStatus::InMemoryChange => {
            if b.status == AccountStatus::LoadedNotExisting {
                // An account springing into existence: storage is replaced
                // wholesale and a revert removes the account entirely.
                (
                    BundleView {
                        info: t.info,
                        original_info: b.original_info,
                        storage: t.storage,
                        status: AccountStatus::InMemoryChange,
                    },
                    Some(
                        RevertView {
                            account: AccountInfoRevert::DeleteIt,
                            storage: rsou,
                            previous_status: AccountStatus::LoadedNotExisting,
                            wipe_storage: false,
                        },
                    ),
                )
            } else {
                let acct = if b.status == AccountStatus::InMemoryChange {
                    info_revert_to_held(b.info, t.info)
                } else {
                    info_revert_to_empty(b.info, t.info)
                };
                (
                    BundleView {
                        info: t.info,
                        original_info: b.original_info,
                        storage: merged_storage(b.storage, t.storage),
                        status: AccountStatus::InMemoryChange,
                    },
                    Some(
                        RevertView {
                            account: acct,
                            storage: rsou,
                            previous_status: b.status,
                            wipe_storage: false,
                        },
                    ),
                )
            }
        },
        AccountStatus::Destroyed => {
            if b.status == AccountStatus::LoadedNotExisting {
                // Destroying what never existed is a true no-op, though the
                // held (necessarily empty) info and storage are dropped.
                (
                    BundleView {
                        info: None,
                        original_info: b.original_info,
                        storage: Map::<U256, StorageSlot>::empty(),
                        status: AccountStatus::LoadedNotExisting,
                    },
                    None::<RevertView>,
                )
            } else {
                (
                    BundleView {
                        info: None,
                        original_info: b.original_info,
                        storage: Map::<U256, StorageSlot>::empty(),
                        status: AccountStatus::Destroyed,
                    },
                    Some(
                        RevertView {
                            account: AccountInfoRevert::RevertTo(spec_info_or_empty(b.info)),
                            storage: wiped_to_values(b.storage),
                            previous_status: b.status,
                            wipe_storage: true,
                        },
                    ),
                )
            }
        },
        AccountStatus::DestroyedChanged => {
            let nb = BundleView {
                info: t.info,
                original_info: b.original_info,
                storage: t.storage,
                status: AccountStatus::DestroyedChanged,
            };
            if bundle_can_capture(b.status) {
                // Destruction and re-creation folded in one step: capture
                // the pre-destruction state from the bundle itself.
                (
                    nb,
                    Some(
                        RevertView {
                            account: AccountInfoRevert::RevertTo(spec_info_or_empty(b.info)),
                            storage: destroyed_again_storage(b.storage, t.storage),
                            previous_status: b.status,
                            wipe_storage: false,
                        },
                    ),
                )
            } else if b.status == AccountStatus::DestroyedChanged {
                (
                    nb,
                    Some(
                        RevertView {
                            account: info_revert_to_empty(b.info, t.info),
                            storage: rsou,
                            previous_status: AccountStatus::DestroyedChanged,
                            wipe_storage: false,
                        },
                    ),
                )
            } else if b.status == AccountStatus::DestroyedAgain {
                (
                    nb,
                    Some(
                        RevertView {
                            account: AccountInfoRevert::RevertTo(AccountInfo::spec_empty()),
                            storage: destroyed_again_storage(
                                Map::<U256, StorageSlot>::empty(),
                                t.storage,
                            ),
                            previous_status: AccountStatus::DestroyedAgain,
                            wipe_storage: false,
                        },
                    ),
                )
            } else {
                // From Destroyed or LoadedNotExisting: a new account where
                // none existed, removed entirely on revert.
                (
                    nb,
                    Some(
                        RevertView {
                            account: AccountInfoRevert::DeleteIt,
                            storage: rsou,
                            previous_status: b.status,
                            wipe_storage: false,
                        },
                    ),
                )
            }
        },
        AccountStatus::DestroyedAgain => {
            let nb = BundleView {
                info: None,
                original_info: b.original_info,
                storage: Map::<U256, StorageSlot>::empty(),
                status: AccountStatus::DestroyedAgain,
            };
            if bundle_can_capture(b.status) {
                (
                    nb,
                    Some(
                        RevertView {
                            account: AccountInfoRevert::RevertTo(spec_info_or_empty(b.info)),
                            storage: destroyed_again_storage(
                                b.storage,
                                Map::<U256, StorageSlot>::empty(),
                            ),
                            previous_status: b.status,
                            wipe_storage: false,
                        },
                    ),
                )
            } else if b.status == AccountStatus::DestroyedChanged {
                (
                    nb,
                    Some(
                        RevertView {
                            account: AccountInfoRevert::RevertTo(spec_info_or_empty(b.info)),
                            storage: rsou,
                            previous_status: AccountStatus::DestroyedChanged,
                            wipe_storage: false,
                        },
                    ),
                )
            } else {
                (nb, None::<RevertView>)
            }
        },
    }
}

/// How one slot revert lands on held storage: a value revert sets the slot
/// back (inserting it if absent, then with the value as its original too),
/// and a removal marker takes the slot out.
pub open spec fn apply_revert_storage(
    base: Map<U256, StorageSlot>,
    rs: Map<U256, RevertToSlot>,
) -> Map<U256, StorageSlot> {
    Map::new(
        |k: U256| (rs.dom().contains(k) && rs[k] is Value) || (base.dom().contains(k)
            && !rs.dom().contains(k)),
        |k: U256|
            if rs.dom().contains(k) {
                StorageSlot {
                    original_value: if base.dom().contains(k) {
                        base[k].original_value
                    } else {
                        rs[k].spec_to_value()
                    },
                    present_value: rs[k].spec_to_value(),
                }
            } else {
                base[k]
            },
    )
}

/// What applying one revert to a bundle yields, and whether the account can
/// then be dropped from the bundle altogether.
pub open spec fn spec_apply_revert(b: BundleView, r: RevertView) -> (BundleView, bool) {
    match r.account {
        AccountInfoRevert::DeleteIt => (
            BundleView {
                info: None,
                original_info: b.original_info,
                storage: Map::<U256, StorageSlot>::empty(),
                status: r.previous_status,
            },
            true,
        ),
        AccountInfoRevert::DoNothing => (
            BundleView {
                info: b.info,
                original_info: b.original_info,
                storage: apply_revert_storage(b.storage, r.storage),
                status: r.previous_status,
            },
            false,
        ),
        AccountInfoRevert::RevertTo(info) => (
            BundleView {
                info: Some(info),
                original_info: b.original_info,
                storage: apply_revert_storage(b.storage, r.storage),
                status: r.previous_status,
            },
            false,
        ),
    }
}

/// Exec comparison of two optional infos.
pub fn opt_info_eq(a: &Option<AccountInfo>, b: &Option<AccountInfo>) -> (r: bool)
    ensures
        r == (*a == *b),
{
    match (a, b) {
        (Option::Some(x), Option::Some(y)) => *x == *y,
        (Option::None, Option::None) => true,
        _ => false,
    }
}

/// The code hash an optional info carries.
pub open spec fn spec_opt_code_hash(i: Option<AccountInfo>) -> Option<B256> {
    match i {
        Option::Some(a) => Some(a.code_hash),
        Option::None => None,
    }
}

impl BundleAccount {
    /// Create a bundle account from its parts.
    pub fn new(
        original_info: Option<AccountInfo>,
        present_info: Option<AccountInfo>,
        storage: U256Map<StorageSlot>,
        status: AccountStatus,
    ) -> (r: Self)
        ensures
            r.info == present_info,
            r.original_info == original_info,
            r.storage == storage,
            r.status == status,
    {
        BundleAccount { info: present_info, original_info, storage, status }
    }

    /// What a slot lookup yields: the cached present value; else zero where
    /// the status settles every uncached slot; else unknown, meaning the
    /// persistence layer must be consulted.
    pub open spec fn spec_storage_slot(b: BundleView, slot: U256) -> Option<U256> {
        if b.storage.dom().contains(slot) {
            Some(b.storage[slot].present_value)
        } else if b.status.spec_storage_known() {
            Some(U256::spec_zero())
        } else {
            None
        }
    }

    /// Return the slot's present value if cached; `Some(0)` when the
    /// account is known to have no uncached storage; else `None`.
    pub fn storage_slot(&self, slot: U256) -> (r: Option<U256>)
        requires
            self.storage.wf(),
        ensures
            r == BundleAccount::spec_storage_slot(self@, slot),
    {
        match self.storage.get(&slot) {
            Option::Some(s) => Option::Some(s.present_value),
            Option::None => {
                if self.status.storage_known() {
                    Option::Some(U256::zero())
                } else {
                    Option::None
                }
            },
        }
    }

    /// Fetch the present account info, if the account exists.
    pub fn account_info(&self) -> (r: Option<AccountInfo>)
        ensures
            r == self.info,
    {
        self.info
    }

    /// Was this account destroyed during the window?
    pub fn was_destroyed(&self) -> (r: bool)
        ensures
            r == self.status.spec_was_destroyed(),
    {
        self.status.was_destroyed()
    }

    /// True when the present info differs from the true original.
    pub fn is_info_changed(&self) -> (r: bool)
        ensures
            r == (self.info != self.original_info),
    {
        !opt_info_eq(&self.info, &self.original_info)
    }

    /// True when the account's code hash differs from the original's.
    pub fn is_contract_changed(&self) -> (r: bool)
        ensures
            r == (spec_opt_code_hash(self.info) != spec_opt_code_hash(self.original_info)),
    {
        let a = match &self.info {
            Option::Some(i) => Option::Some(i.code_hash),
            Option::None => Option::None,
        };
        let b = match &self.original_info {
            Option::Some(i) => Option::Some(i.code_hash),
            Option::None => Option::None,
        };
        match (a, b) {
            (Option::Some(x), Option::Some(y)) => !(x == y),
            (Option::None, Option::None) => false,
            _ => true,
        }
    }

    /// Apply one revert, restoring the prior status, info and slots; true
    /// means the account can now be removed from the bundle.
    pub fn revert(&mut self, revert: AccountRevert) -> (r: bool)
        requires
            old(self).storage.wf(),
            revert.storage.wf(),
        ensures
            final(self).storage.wf(),
            final(self)@ == spec_apply_revert(old(self)@, revert@).0,
            r == spec_apply_revert(old(self)@, revert@).1,
    {
        self.status = revert.previous_status;
        match revert.account {
            AccountInfoRevert::DoNothing => {},
            AccountInfoRevert::DeleteIt => {
                self.info = None;
                self.storage = U256Map::new();
                return true;
            },
            AccountInfoRevert::RevertTo(info) => {
                self.info = Option::Some(info);
            },
        }
        let ghost base = old(self).storage@;
        let mut i: usize = 0;
        proof {
            assert(self.storage@ =~= apply_revert_storage(
                base,
                assoc_map(revert.storage.entries@.take(0)),
            ));
        }
        while i < revert.storage.entries.len()
            invariant
                revert.storage.wf(),
                i <= revert.storage.entries@.len(),
                self.storage.wf(),
                self.storage@ == apply_revert_storage(
                    base,
                    assoc_map(revert.storage.entries@.take(i as int)),
                ),
                self.status == revert.previous_status,
                self.info == spec_apply_revert(old(self)@, revert@).0.info,
                self.original_info == old(self).original_info,
            decreases revert.storage.entries@.len() - i,
        {
            let ghost prefix = revert.storage.entries@.take(i as int);
            let (key, rts) = revert.storage.entries[i];
            proof {
                assert(revert.storage.entries@.take(i + 1 as int) =~= prefix.push((key, rts)));
                lemma_assoc_map_push(prefix, key, rts);
                lemma_prefix_key_absent(revert.storage.entries@, i as int);
            }
            match rts {
                RevertToSlot::Value(value) => {
                    self.storage.merge_slot(key, value, value);
                },
                RevertToSlot::Destroyed => {
                    let _ = self.storage.remove(&key);
                },
            }
            proof {
                assert(self.storage@ =~= apply_revert_storage(
                    base,
                    assoc_map(prefix).insert(key, rts),
                ));
            }
            i = i + 1;
        }
        proof {
            assert(revert.storage.entries@.take(revert.storage.entries@.len() as int)
                =~= revert.storage.entries@);
        }
        false
    }

    /// What extending with a later snapshot yields: its status, info and
    /// present values, while this bundle's originals stay untouched.
    pub open spec fn spec_extend(b: BundleView, other: BundleView) -> BundleView {
        BundleView {
            info: other.info,
            original_info: b.original_info,
            storage: merged_storage(b.storage, other.storage),
            status: other.status,
        }
    }

    /// Fold a later bundle snapshot of the same address into this one,
    /// keeping this bundle's original info and original slot values.
    pub fn extend(&mut self, other: Self)
        requires
            old(self).storage.wf(),
            other.storage.wf(),
        ensures
            final(self).storage.wf(),
            final(self)@ == BundleAccount::spec_extend(old(self)@, other@),
    {
        self.status = other.status;
        self.info = other.info;
        extend_storage(&mut self.storage, other.storage);
    }
}

impl AccountRevert {
    /// Capture the bundle's pre-destruction state, when a fold into a
    /// destroyed-and-re-created status must first record what destruction
    /// wiped: the held info and slots leave the bundle and become a
    /// selfdestruct revert, with removal markers for the update's new slots.
    pub fn new_selfdestructed_from_bundle(
        bundle: &mut BundleAccount,
        updated_storage: &U256Map<StorageSlot>,
    ) -> (r: Option<AccountRevert>)
        requires
            old(bundle).storage.wf(),
            updated_storage.wf(),
        ensures
            final(bundle).status == old(bundle).status,
            final(bundle).info == old(bundle).info,
            final(bundle).original_info == old(bundle).original_info,
            final(bundle).storage.wf(),
            match r {
                Option::Some(rev) => bundle_can_capture(old(bundle).status) && rev.storage.wf()
                    && rev@ == (RevertView {
                    account: AccountInfoRevert::RevertTo(spec_info_or_empty(old(bundle).info)),
                    storage: destroyed_again_storage(old(bundle).storage@, updated_storage@),
                    previous_status: old(bundle).status,
                    wipe_storage: false,
                }) && final(bundle).storage@ == Map::<U256, StorageSlot>::empty(),
                Option::None => !bundle_can_capture(old(bundle).status) && final(bundle).storage@
                    == old(bundle).storage@,
            },
    {
        match bundle.status {
            AccountStatus::InMemoryChange
            | AccountStatus::Changed
            | AccountStatus::LoadedEmptyEIP161
            | AccountStatus::Loaded => {
                let previous_account = info_or_empty(&bundle.info);
                let previous_storage = bundle.storage.take();
                Option::Some(
                    AccountRevert::new_selfdestructed_again(
                        bundle.status,
                        previous_account,
                        previous_storage,
                        updated_storage,
                    ),
                )
            },
            _ => Option::None,
        }
    }
}

impl BundleAccount {
    /// Apply one transition and return the revert that undoes it, or `None`
    /// when the update is a true no-op. The pair of current and target
    /// status must be one the transition matrix admits; any other pair is
    /// an internal-invariant breach the caller must never produce.
    pub fn update_and_create_revert(&mut self, transition: TransitionAccount) -> (r: Option<
        AccountRevert,
    >)
        requires
            old(self).storage.wf(),
            transition.storage.wf(),
            transition_allowed(old(self).status, transition.status),
        ensures
            final(self).storage.wf(),
            final(self)@ == spec_apply_transition(old(self)@, transition@).0,
            match r {
                Option::Some(rev) => rev.storage.wf() && spec_apply_transition(
                    old(self)@,
                    transition@,
                ).1 == Some(rev@),
                Option::None => spec_apply_transition(old(self)@, transition@).1 is None,
            },
    {
        let updated_info = transition.info;
        let updated_storage = transition.storage;
        let updated_status = transition.status;
        match updated_status {
            AccountStatus::Loaded
            | AccountStatus::LoadedNotExisting
            | AccountStatus::LoadedEmptyEIP161 => {
                // Read-only refresh states never produce a changeset.
                Option::None
            },
            AccountStatus::Changed => {
                let previous_storage_from_update = build_revert_storage(&updated_storage);
                match self.status {
                    AccountStatus::Changed | AccountStatus::Loaded => {
                        let revert_info = if !opt_info_eq(&self.info, &updated_info) {
                            AccountInfoRevert::RevertTo(info_or_empty(&self.info))
                        } else {
                            AccountInfoRevert::DoNothing
                        };
                        let previous_status = self.status;
                        extend_storage(&mut self.storage, updated_storage);
                        self.status = AccountStatus::Changed;
                        self.info = updated_info;
                        Option::Some(
                            AccountRevert {
                                account: revert_info,
                                storage: previous_storage_from_update,
                                previous_status,
                                wipe_storage: false,
                            },
                        )
                    },
                    AccountStatus::LoadedEmptyEIP161 => {
                        // Only a balance funding can leave the empty state,
                        // so storage stays; empty collapses to Loaded on
                        // revert.
                        let revert_info = if !opt_info_eq(&self.info, &updated_info) {
                            AccountInfoRevert::RevertTo(info_or_empty(&self.info))
                        } else {
                            AccountInfoRevert::DoNothing
                        };
                        self.status = AccountStatus::Changed;
                        self.info = updated_info;
                        Option::Some(
                            AccountRevert {
                                account: revert_info,
                                storage: U256Map::new(),
                                previous_status: AccountStatus::Loaded,
                                wipe_storage: false,
                            },
                        )
                    },
                    _ => {
                        proof {
                            assert(false);
                        }
                        Option::None
                    },
                }
            },
            AccountStatus::InMemoryChange => {
                let previous_storage_from_update = build_revert_storage(&updated_storage);
                match self.status {
                    AccountStatus::LoadedEmptyEIP161 | AccountStatus::Loaded => {
                        // The prior persisted truth was empty, so a revert
                        // restores the empty account.
                        let revert_info = if !opt_info_eq(&self.info, &updated_info) {
                            AccountInfoRevert::RevertTo(AccountInfo::empty())
                        } else {
                            AccountInfoRevert::DoNothing
                        };
                        let previous_status = self.status;
                        extend_storage(&mut self.storage, updated_storage);
                        self.status = AccountStatus::InMemoryChange;
                        self.info = updated_info;
                        Option::Some(
                            AccountRevert {
                                account: revert_info,
                                storage: previous_storage_from_update,
                                previous_status,
                                wipe_storage: false,
                            },
                        )
                    },
                    AccountStatus::LoadedNotExisting => {
                        // Springing into existence: no prior storage to
                        // preserve, and a revert removes the account.
                        self.status = AccountStatus::InMemoryChange;
                        self.info = updated_info;
                        self.storage = updated_storage;
                        Option::Some(
                            AccountRevert {
                                account: AccountInfoRevert::DeleteIt,
                                storage: previous_storage_from_update,
                                previous_status: AccountStatus::LoadedNotExisting,
                                wipe_storage: false,
                            },
                        )
                    },
                    AccountStatus::InMemoryChange => {
                        let revert_info = if !opt_info_eq(&self.info, &updated_info) {
                            AccountInfoRevert::RevertTo(info_or_empty(&self.info))
                        } else {
                            AccountInfoRevert::DoNothing
                        };
                        extend_storage(&mut self.storage, updated_storage);
                        self.status = AccountStatus::InMemoryChange;
                        self.info = updated_info;
                        Option::Some(
                            AccountRevert {
                                account: revert_info,
                                storage: previous_storage_from_update,
                                previous_status: AccountStatus::InMemoryChange,
                                wipe_storage: false,
                            },
                        )
                    },
                    _ => {
                        proof {
                            assert(false);
                        }
                        Option::None
                    },
                }
            },
            AccountStatus::Destroyed => {
                let this_info_opt = self.info;
                self.info = None;
                let this_storage = self.storage.take();
                match self.status {
                    AccountStatus::InMemoryChange
                    | AccountStatus::Changed
                    | AccountStatus::Loaded
                    | AccountStatus::LoadedEmptyEIP161 => {
                        let previous_status = self.status;
                        self.status = AccountStatus::Destroyed;
                        Option::Some(
                            AccountRevert::new_selfdestructed(
                                previous_status,
                                info_or_empty(&this_info_opt),
                                this_storage,
                            ),
                        )
                    },
                    AccountStatus::LoadedNotExisting => {
                        // Destroying what never existed is a no-op.
                        Option::None
                    },
                    _ => {
                        proof {
                            assert(false);
                        }
                        Option::None
                    },
                }
            },
            AccountStatus::DestroyedChanged => {
                let captured = AccountRevert::new_selfdestructed_from_bundle(
                    self,
                    &updated_storage,
                );
                match captured {
                    Option::Some(revert_state) => {
                        self.status = AccountStatus::DestroyedChanged;
                        self.info = updated_info;
                        self.storage = updated_storage;
                        Option::Some(revert_state)
                    },
                    Option::None => {
                        let previous_storage_from_update = build_revert_storage(&updated_storage);
                        let ret = match self.status {
                            AccountStatus::Destroyed | AccountStatus::LoadedNotExisting => Option::Some(
                                AccountRevert {
                                    account: AccountInfoRevert::DeleteIt,
                                    storage: previous_storage_from_update,
                                    previous_status: self.status,
                                    wipe_storage: false,
                                },
                            ),
                            AccountStatus::DestroyedChanged => {
                                let revert_info = if !opt_info_eq(&self.info, &updated_info) {
                                    AccountInfoRevert::RevertTo(AccountInfo::empty())
                                } else {
                                    AccountInfoRevert::DoNothing
                                };
                                Option::Some(
                                    AccountRevert {
                                        account: revert_info,
                                        storage: previous_storage_from_update,
                                        previous_status: AccountStatus::DestroyedChanged,
                                        wipe_storage: false,
                                    },
                                )
                            },
                            AccountStatus::DestroyedAgain => Option::Some(
                                AccountRevert::new_selfdestructed_again(
                                    AccountStatus::DestroyedAgain,
                                    AccountInfo::empty(),
                                    U256Map::new(),
                                    &updated_storage,
                                ),
                            ),
                            _ => {
                                proof {
                                    assert(false);
                                }
                                Option::None
                            },
                        };
                        self.status = AccountStatus::DestroyedChanged;
                        self.info = updated_info;
                        self.storage = updated_storage;
                        ret
                    },
                }
            },
            AccountStatus::DestroyedAgain => {
                let empty_update: U256Map<StorageSlot> = U256Map::new();
                let captured = AccountRevert::new_selfdestructed_from_bundle(self, &empty_update);
                let ret = match captured {
                    Option::Some(revert_state) => Option::Some(revert_state),
                    Option::None => {
                        match self.status {
                            AccountStatus::Destroyed
                            | AccountStatus::DestroyedAgain
                            | AccountStatus::LoadedNotExisting => Option::None,
                            AccountStatus::DestroyedChanged => {
                                // The slot reverts here mirror the update's
                                // own diff, not the re-created storage this
                                // second destruction wipes; a revert of this
                                // step alone therefore restores the info but
                                // not those slots. Deliberately kept so.
                                let previous_storage_from_update = build_revert_storage(
                                    &updated_storage,
                                );
                                Option::Some(
                                    AccountRevert {
                                        account: AccountInfoRevert::RevertTo(
                                            info_or_empty(&self.info),
                                        ),
                                        storage: previous_storage_from_update,
                                        previous_status: AccountStatus::DestroyedChanged,
                                        wipe_storage: false,
                                    },
                                )
                            },
                            _ => {
                                proof {
                                    assert(false);
                                }
                                Option::None
                            },
                        }
                    },
                };
                self.status = AccountStatus::DestroyedAgain;
                self.info = None;
                self.storage.clear();
                ret
            },
        }
    }
}

} // verus!
