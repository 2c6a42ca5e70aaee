//! One live cache entry per address: current info and storage plus status,
//! mutated by applying raw per-transaction output and emitting transition
//! records for the bundle layer.

use vstd::prelude::*;
use crate::maps::{assoc_map, lemma_assoc_map_push, U256Map};
use crate::primitives::{AccountInfo, StorageSlot, U256};
use crate::status::AccountStatus;
use crate::transition::{TransitionAccount, TransitionView};

verus! {

/// An account as the execution layer sees it: info plus plain storage of
/// present values.
#[derive(Debug)]
pub struct PlainAccount {
    pub info: AccountInfo,
    pub storage: U256Map<U256>,
}

/// The mathematical value of a plain account.
pub struct PlainAccountView {
    pub info: AccountInfo,
    pub storage: Map<U256, U256>,
}

impl View for PlainAccount {
    type V = PlainAccountView;

    open spec fn view(&self) -> PlainAccountView {
        PlainAccountView { info: self.info, storage: self.storage@ }
    }
}

impl PlainAccount {
    pub open spec fn wf(self) -> bool {
        self.storage.wf()
    }

    /// A copy, entry for entry.
    pub fn duplicate(&self) -> (r: PlainAccount)
        ensures
            r@ == self@,
            self.wf() ==> r.wf(),
    {
        PlainAccount { info: self.info, storage: self.storage.duplicate() }
    }
}

/// One entry of the live cache: the account's current state, or `None` for
/// an account known to be absent, plus its lifecycle status. A destroyed
/// account stays in the cache as `None`, never as a missing entry.
#[derive(Debug)]
pub struct CacheAccount {
    pub account: Option<PlainAccount>,
    pub status: AccountStatus,
}

/// The mathematical value of a cache entry.
pub struct CacheAccountView {
    pub account: Option<PlainAccountView>,
    pub status: AccountStatus,
}

impl View for CacheAccount {
    type V = CacheAccountView;

    open spec fn view(&self) -> CacheAccountView {
        CacheAccountView {
            account: match self.account {
                Option::Some(p) => Option::Some(p@),
                Option::None => Option::None,
            },
            status: self.status,
        }
    }
}

/// The info a cache entry holds, if any.
pub open spec fn spec_account_info(c: CacheAccountView) -> Option<AccountInfo> {
    match c.account {
        Option::Some(p) => Option::Some(p.info),
        Option::None => Option::None,
    }
}

/// The plain storage a cache entry holds; an absent account holds none.
pub open spec fn spec_account_storage(c: CacheAccountView) -> Map<U256, U256> {
    match c.account {
        Option::Some(p) => p.storage,
        Option::None => Map::empty(),
    }
}

/// The present values of a slot map.
pub open spec fn present_of(storage: Map<U256, StorageSlot>) -> Map<U256, U256> {
    Map::new(|k: U256| storage.dom().contains(k), |k: U256| storage[k].present_value)
}

/// Plain storage overwritten with an update's present values.
pub open spec fn overwrite_present(
    base: Map<U256, U256>,
    upd: Map<U256, StorageSlot>,
) -> Map<U256, U256> {
    Map::new(
        |k: U256| base.dom().contains(k) || upd.dom().contains(k),
        |k: U256|
            if upd.dom().contains(k) {
                upd[k].present_value
            } else {
                base[k]
            },
    )
}

/// Build the plain storage of an update's present values.
pub fn plain_storage_of(storage: &U256Map<StorageSlot>) -> (r: U256Map<U256>)
    requires
        storage.wf(),
    ensures
        r.wf(),
        r@ == present_of(storage@),
{
    let mut out: U256Map<U256> = U256Map::new();
    let mut i: usize = 0;
    proof {
        assert(out@ =~= present_of(assoc_map(storage.entries@.take(0))));
    }
    while i < storage.entries.len()
        invariant
            storage.wf(),
            i <= storage.entries@.len(),
            out.wf(),
            out@ == present_of(assoc_map(storage.entries@.take(i as int))),
        decreases storage.entries@.len() - i,
    {
        let ghost prefix = storage.entries@.take(i as int);
        let (key, slot) = storage.entries[i];
        proof {
            assert(storage.entries@.take(i + 1 as int) =~= prefix.push((key, slot)));
            lemma_assoc_map_push(prefix, key, slot);
        }
        out.insert(key, slot.present_value);
        proof {
            assert(out@ =~= present_of(assoc_map(prefix).insert(key, slot)));
        }
        i = i + 1;
    }
    proof {
        assert(storage.entries@.take(storage.entries@.len() as int) =~= storage.entries@);
    }
    out
}

/// Overwrite held plain storage with an update's present values.
pub fn apply_present(this: &mut U256Map<U256>, upd: &U256Map<StorageSlot>)
    requires
        old(this).wf(),
        upd.wf(),
    ensures
        final(this).wf(),
        final(this)@ == overwrite_present(old(this)@, upd@),
{
    let ghost base = old(this)@;
    let mut i: usize = 0;
    proof {
        assert(this@ =~= overwrite_present(base, assoc_map(upd.entries@.take(0))));
    }
    while i < upd.entries.len()
        invariant
            upd.wf(),
            i <= upd.entries@.len(),
            this.wf(),
            this@ == overwrite_present(base, assoc_map(upd.entries@.take(i as int))),
        decreases upd.entries@.len() - i,
    {
        let ghost prefix = upd.entries@.take(i as int);
        let (key, slot) = upd.entries[i];
        proof {
            assert(upd.entries@.take(i + 1 as int) =~= prefix.push((key, slot)));
            lemma_assoc_map_push(prefix, key, slot);
        }
        this.insert(key, slot.present_value);
        proof {
            assert(this@ =~= overwrite_present(base, assoc_map(prefix).insert(key, slot)));
        }
        i = i + 1;
    }
    proof {
        assert(upd.entries@.take(upd.entries@.len() as int) =~= upd.entries@);
    }
}

/// What a selfdestruct does to a cache entry: nothing for an account known
/// absent; otherwise the account is dropped, the status becomes Destroyed
/// (or DestroyedAgain after an earlier destruction), and a transition
/// records what was lost.
pub open spec fn spec_selfdestruct(c: CacheAccountView) -> (CacheAccountView, Option<
    TransitionView,
>) {
    if c.status == AccountStatus::LoadedNotExisting {
        (c, None::<TransitionView>)
    } else {
        let ns = if c.status.spec_was_destroyed() {
            AccountStatus::DestroyedAgain
        } else {
            AccountStatus::Destroyed
        };
        (
            CacheAccountView { account: None, status: ns },
            Some(
                TransitionView {
                    info: None,
                    status: ns,
                    previous_info: spec_account_info(c),
                    previous_status: c.status,
                    storage: Map::<U256, StorageSlot>::empty(),
                },
            ),
        )
    }
}

/// What touching an empty account under state clearing does: an account
/// already logically absent stays untouched; otherwise it is marked for
/// removal and a transition records the clearing.
pub open spec fn spec_touch_empty(c: CacheAccountView) -> (CacheAccountView, Option<
    TransitionView,
>) {
    if c.status == AccountStatus::LoadedNotExisting || c.status == AccountStatus::Destroyed
        || c.status == AccountStatus::DestroyedAgain {
        (c, None::<TransitionView>)
    } else {
        let ns = if c.status == AccountStatus::DestroyedChanged {
            AccountStatus::DestroyedAgain
        } else {
            AccountStatus::Destroyed
        };
        (
            CacheAccountView { account: None, status: ns },
            Some(
                TransitionView {
                    info: None,
                    status: ns,
                    previous_info: spec_account_info(c),
                    previous_status: c.status,
                    storage: Map::<U256, StorageSlot>::empty(),
                },
            ),
        )
    }
}

/// The status an account creation lands in: re-created when destruction
/// came first this window, else an in-memory change.
pub open spec fn created_status(prev: AccountStatus) -> AccountStatus {
    if prev.spec_was_destroyed() {
        AccountStatus::DestroyedChanged
    } else {
        AccountStatus::InMemoryChange
    }
}

/// What creating an account over a cache entry does: the new info and the
/// update's present values replace the old account wholesale.
pub open spec fn spec_newly_created(
    c: CacheAccountView,
    info: AccountInfo,
    storage: Map<U256, StorageSlot>,
) -> (CacheAccountView, TransitionView) {
    let ns = created_status(c.status);
    (
        CacheAccountView {
            account: Some(PlainAccountView { info, storage: present_of(storage) }),
            status: ns,
        },
        TransitionView {
            info: Some(info),
            status: ns,
            previous_info: spec_account_info(c),
            previous_status: c.status,
            storage,
        },
    )
}

/// The status a plain change lands in, by where the account stood.
pub open spec fn changed_status(prev: AccountStatus) -> AccountStatus {
    match prev {
        AccountStatus::Loaded => AccountStatus::Changed,
        AccountStatus::Changed => AccountStatus::Changed,
        AccountStatus::LoadedEmptyEIP161 => AccountStatus::Changed,
        AccountStatus::LoadedNotExisting => AccountStatus::InMemoryChange,
        AccountStatus::InMemoryChange => AccountStatus::InMemoryChange,
        AccountStatus::Destroyed => AccountStatus::DestroyedChanged,
        AccountStatus::DestroyedChanged => AccountStatus::DestroyedChanged,
        AccountStatus::DestroyedAgain => AccountStatus::DestroyedChanged,
    }
}

/// What a plain change does to a cache entry: new info, held storage
/// overwritten with the update's present values, previous info and status
/// recorded in the transition.
pub open spec fn spec_change(
    c: CacheAccountView,
    info: AccountInfo,
    storage: Map<U256, StorageSlot>,
) -> (CacheAccountView, TransitionView) {
    let ns = changed_status(c.status);
    (
        CacheAccountView {
            account: Some(
                PlainAccountView {
                    info,
                    storage: overwrite_present(spec_account_storage(c), storage),
                },
            ),
            status: ns,
        },
        TransitionView {
            info: Some(info),
            status: ns,
            previous_info: spec_account_info(c),
            previous_status: c.status,
            storage,
        },
    )
}

impl CacheAccount {
    pub open spec fn wf(self) -> bool {
        match self.account {
            Option::Some(p) => p.wf(),
            Option::None => true,
        }
    }

    /// A loaded account with its storage.
    pub fn new_loaded(info: AccountInfo, storage: U256Map<U256>) -> (r: Self)
        ensures
            r@ == (CacheAccountView {
                account: Some(PlainAccountView { info, storage: storage@ }),
                status: AccountStatus::Loaded,
            }),
            storage.wf() ==> r.wf(),
    {
        CacheAccount {
            account: Option::Some(PlainAccount { info, storage }),
            status: AccountStatus::Loaded,
        }
    }

    /// A loaded account that is empty in the EIP-161 sense.
    pub fn new_loaded_empty_eip161(storage: U256Map<U256>) -> (r: Self)
        ensures
            r@ == (CacheAccountView {
                account: Some(
                    PlainAccountView { info: AccountInfo::spec_empty(), storage: storage@ },
                ),
                status: AccountStatus::LoadedEmptyEIP161,
            }),
            storage.wf() ==> r.wf(),
    {
        CacheAccount {
            account: Option::Some(PlainAccount { info: AccountInfo::empty(), storage }),
            status: AccountStatus::LoadedEmptyEIP161,
        }
    }

    /// An account looked up and found absent.
    pub fn new_loaded_not_existing() -> (r: Self)
        ensures
            r@ == (CacheAccountView {
                account: None,
                status: AccountStatus::LoadedNotExisting,
            }),
            r.wf(),
    {
        CacheAccount { account: Option::None, status: AccountStatus::LoadedNotExisting }
    }

    /// An account created in memory this window.
    pub fn new_newly_created(info: AccountInfo, storage: U256Map<U256>) -> (r: Self)
        ensures
            r@ == (CacheAccountView {
                account: Some(PlainAccountView { info, storage: storage@ }),
                status: AccountStatus::InMemoryChange,
            }),
            storage.wf() ==> r.wf(),
    {
        CacheAccount {
            account: Option::Some(PlainAccount { info, storage }),
            status: AccountStatus::InMemoryChange,
        }
    }

    /// A loaded account already changed.
    pub fn new_changed(info: AccountInfo, storage: U256Map<U256>) -> (r: Self)
        ensures
            r@ == (CacheAccountView {
                account: Some(PlainAccountView { info, storage: storage@ }),
                status: AccountStatus::Changed,
            }),
            storage.wf() ==> r.wf(),
    {
        CacheAccount {
            account: Option::Some(PlainAccount { info, storage }),
            status: AccountStatus::Changed,
        }
    }

    /// Mark the account destroyed, handing back the transition unless the
    /// account never existed.
    pub fn selfdestruct(&mut self) -> (r: Option<TransitionAccount>)
        requires
            old(self).wf(),
        ensures
            final(self).wf(),
            final(self)@ == spec_selfdestruct(old(self)@).0,
            match r {
                Option::Some(t) => t.storage.wf() && spec_selfdestruct(old(self)@).1 == Some(t@),
                Option::None => spec_selfdestruct(old(self)@).1 is None,
            },
    {
        match self.status {
            AccountStatus::LoadedNotExisting => Option::None,
            _ => {
                let previous_status = self.status;
                let mut taken: Option<PlainAccount> = Option::None;
                core::mem::swap(&mut self.account, &mut taken);
                let previous_info = match &taken {
                    Option::Some(p) => Option::Some(p.info),
                    Option::None => Option::None,
                };
                let ns = if previous_status.was_destroyed() {
                    AccountStatus::DestroyedAgain
                } else {
                    AccountStatus::Destroyed
                };
                self.status = ns;
                Option::Some(
                    TransitionAccount {
                        info: Option::None,
                        status: ns,
                        previous_info,
                        previous_status,
                        storage: U256Map::new(),
                    },
                )
            },
        }
    }

    /// Touch an empty account under EIP-161 state clearing.
    pub fn touch_empty(&mut self) -> (r: Option<TransitionAccount>)
        requires
            old(self).wf(),
        ensures
            final(self).wf(),
            final(self)@ == spec_touch_empty(old(self)@).0,
            match r {
                Option::Some(t) => t.storage.wf() && spec_touch_empty(old(self)@).1 == Some(t@),
                Option::None => spec_touch_empty(old(self)@).1 is None,
            },
    {
        match self.status {
            AccountStatus::LoadedNotExisting
            | AccountStatus::Destroyed
            | AccountStatus::DestroyedAgain => Option::None,
            _ => {
                let previous_status = self.status;
                let mut taken: Option<PlainAccount> = Option::None;
                core::mem::swap(&mut self.account, &mut taken);
                let previous_info = match &taken {
                    Option::Some(p) => Option::Some(p.info),
                    Option::None => Option::None,
                };
                let ns = if matches!(previous_status, AccountStatus::DestroyedChanged) {
                    AccountStatus::DestroyedAgain
                } else {
                    AccountStatus::Destroyed
                };
                self.status = ns;
                Option::Some(
                    TransitionAccount {
                        info: Option::None,
                        status: ns,
                        previous_info,
                        previous_status,
                        storage: U256Map::new(),
                    },
                )
            },
        }
    }

    /// Replace the account with a newly created one, recording what stood
    /// before.
    pub fn newly_created(&mut self, info: AccountInfo, storage: U256Map<StorageSlot>) -> (r:
        TransitionAccount)
        requires
            old(self).wf(),
            storage.wf(),
        ensures
            final(self).wf(),
            final(self)@ == spec_newly_created(old(self)@, info, storage@).0,
            r@ == spec_newly_created(old(self)@, info, storage@).1,
            r.storage.wf(),
    {
        let previous_status = self.status;
        let previous_info = match &self.account {
            Option::Some(p) => Option::Some(p.info),
            Option::None => Option::None,
        };
        let ns = if previous_status.was_destroyed() {
            AccountStatus::DestroyedChanged
        } else {
            AccountStatus::InMemoryChange
        };
        let plain = plain_storage_of(&storage);
        self.status = ns;
        self.account = Option::Some(PlainAccount { info, storage: plain });
        TransitionAccount {
            info: Option::Some(info),
            status: ns,
            previous_info,
            previous_status,
            storage,
        }
    }

    /// Apply a plain change: new info, storage overwritten with the
    /// update's present values.
    pub fn change(&mut self, new: AccountInfo, storage: U256Map<StorageSlot>) -> (r:
        TransitionAccount)
        requires
            old(self).wf(),
            storage.wf(),
        ensures
            final(self).wf(),
            final(self)@ == spec_change(old(self)@, new, storage@).0,
            r@ == spec_change(old(self)@, new, storage@).1,
            r.storage.wf(),
    {
        let previous_status = self.status;
        let mut taken: Option<PlainAccount> = Option::None;
        core::mem::swap(&mut self.account, &mut taken);
        let previous_info = match &taken {
            Option::Some(p) => Option::Some(p.info),
            Option::None => Option::None,
        };
        let mut this_storage = match taken {
            Option::Some(p) => p.storage,
            Option::None => U256Map::new(),
        };
        proof {
            assert(this_storage@ =~= spec_account_storage(old(self)@));
        }
        apply_present(&mut this_storage, &storage);
        let ns = match previous_status {
            AccountStatus::Loaded | AccountStatus::Changed | AccountStatus::LoadedEmptyEIP161 => AccountStatus::Changed,
            AccountStatus::LoadedNotExisting | AccountStatus::InMemoryChange => AccountStatus::InMemoryChange,
            AccountStatus::Destroyed
            | AccountStatus::DestroyedChanged
            | AccountStatus::DestroyedAgain => AccountStatus::DestroyedChanged,
        };
        self.status = ns;
        self.account = Option::Some(PlainAccount { info: new, storage: this_storage });
        TransitionAccount {
            info: Option::Some(new),
            status: ns,
            previous_info,
            previous_status,
            storage,
        }
    }
}

} // verus!
