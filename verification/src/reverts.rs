//! Compensating instructions: what to do to an account's info and to each
//! touched storage slot to undo exactly one bundle update.

use vstd::prelude::*;
use crate::maps::{assoc_map, lemma_assoc_map_push, lemma_prefix_key_absent, U256Map};
use crate::primitives::{AccountInfo, StorageSlot, U256};
use crate::status::AccountStatus;

verus! {

/// What a revert does to the account's info.
#[derive(Clone, Copy, PartialEq, Eq, Structural, Debug)]
pub enum AccountInfoRevert {
    /// Leave the info as it is.
    DoNothing,
    /// Remove the account entirely.
    DeleteIt,
    /// Restore this earlier info.
    RevertTo(AccountInfo),
}

/// What a revert does to one storage slot.
#[derive(Clone, Copy, PartialEq, Eq, Structural, Debug)]
pub enum RevertToSlot {
    /// Set the slot back to this value.
    Value(U256),
    /// The slot did not exist before the update: remove it.
    Destroyed,
}

impl RevertToSlot {
    /// The value a slot is set back to; a removed slot reads as zero.
    pub open spec fn spec_to_value(self) -> U256 {
        match self {
            RevertToSlot::Value(v) => v,
            RevertToSlot::Destroyed => U256::spec_zero(),
        }
    }
}

/// The compensating instruction set that undoes one bundle-account update.
#[derive(Debug)]
pub struct AccountRevert {
    pub account: AccountInfoRevert,
    pub storage: U256Map<RevertToSlot>,
    pub previous_status: AccountStatus,
    pub wipe_storage: bool,
}

/// The mathematical value of a revert.
pub struct RevertView {
    pub account: AccountInfoRevert,
    pub storage: Map<U256, RevertToSlot>,
    pub previous_status: AccountStatus,
    pub wipe_storage: bool,
}

impl View for AccountRevert {
    type V = RevertView;

    open spec fn view(&self) -> RevertView {
        RevertView {
            account: self.account,
            storage: self.storage@,
            previous_status: self.previous_status,
            wipe_storage: self.wipe_storage,
        }
    }
}

impl AccountRevert {
    pub open spec fn wf(self) -> bool {
        self.storage.wf()
    }
}

/// The slot reverts a transition's storage diff induces: every changed slot
/// reverts to its original value; unchanged slots contribute nothing.
pub open spec fn revert_storage_of_update(t: Map<U256, StorageSlot>) -> Map<U256, RevertToSlot> {
    Map::new(
        |k: U256| t.dom().contains(k) && t[k].original_value != t[k].present_value,
        |k: U256| RevertToSlot::Value(t[k].original_value),
    )
}

/// Every held slot reverts to the present value it held before a wipe.
pub open spec fn wiped_to_values(storage: Map<U256, StorageSlot>) -> Map<U256, RevertToSlot> {
    Map::new(
        |k: U256| storage.dom().contains(k),
        |k: U256| RevertToSlot::Value(storage[k].present_value),
    )
}

/// The slot reverts for an account destroyed and re-created in one window:
/// slots held before the destruction revert to their present values, and
/// slots only the re-creation wrote must be removed again.
pub open spec fn destroyed_again_storage(
    prev: Map<U256, StorageSlot>,
    upd: Map<U256, StorageSlot>,
) -> Map<U256, RevertToSlot> {
    Map::new(
        |k: U256| prev.dom().contains(k) || upd.dom().contains(k),
        |k: U256|
            if prev.dom().contains(k) {
                RevertToSlot::Value(prev[k].present_value)
            } else {
                RevertToSlot::Destroyed
            },
    )
}

/// Build the slot reverts of a transition's storage diff.
pub fn build_revert_storage(t: &U256Map<StorageSlot>) -> (r: U256Map<RevertToSlot>)
    requires
        t.wf(),
    ensures
        r.wf(),
        r@ == revert_storage_of_update(t@),
{
    let mut out: U256Map<RevertToSlot> = U256Map::new();
    let mut i: usize = 0;
    proof {
        assert(out@ =~= revert_storage_of_update(assoc_map(t.entries@.take(0))));
    }
    while i < t.entries.len()
        invariant
            t.wf(),
            i <= t.entries@.len(),
            out.wf(),
            out@ == revert_storage_of_update(assoc_map(t.entries@.take(i as int))),
        decreases t.entries@.len() - i,
    {
        let ghost prefix = t.entries@.take(i as int);
        let (key, slot) = t.entries[i];
        proof {
            assert(t.entries@.take(i + 1 as int) =~= prefix.push((key, slot)));
            lemma_assoc_map_push(prefix, key, slot);
            lemma_prefix_key_absent(t.entries@, i as int);
        }
        if slot.is_changed() {
            out.insert(key, RevertToSlot::Value(slot.original_value));
        }
        proof {
            assert(out@ =~= revert_storage_of_update(assoc_map(prefix).insert(key, slot)));
        }
        i = i + 1;
    }
    proof {
        assert(t.entries@.take(t.entries@.len() as int) =~= t.entries@);
    }
    out
}

impl AccountRevert {
    /// Package the state a selfdestruct wipes out: the prior status and
    /// info, and every held slot reverting to its present value.
    pub fn new_selfdestructed(
        status: AccountStatus,
        account: AccountInfo,
        storage: U256Map<StorageSlot>,
    ) -> (r: AccountRevert)
        requires
            storage.wf(),
        ensures
            r.wf(),
            r@ == (RevertView {
                account: AccountInfoRevert::RevertTo(account),
                storage: wiped_to_values(storage@),
                previous_status: status,
                wipe_storage: true,
            }),
    {
        let mut out: U256Map<RevertToSlot> = U256Map::new();
        let mut i: usize = 0;
        proof {
            assert(out@ =~= wiped_to_values(assoc_map(storage.entries@.take(0))));
        }
        while i < storage.entries.len()
            invariant
                storage.wf(),
                i <= storage.entries@.len(),
                out.wf(),
                out@ == wiped_to_values(assoc_map(storage.entries@.take(i as int))),
            decreases storage.entries@.len() - i,
        {
            let ghost prefix = storage.entries@.take(i as int);
            let (key, slot) = storage.entries[i];
            proof {
                assert(storage.entries@.take(i + 1 as int) =~= prefix.push((key, slot)));
                lemma_assoc_map_push(prefix, key, slot);
            }
            out.insert(key, RevertToSlot::Value(slot.present_value));
            proof {
                assert(out@ =~= wiped_to_values(assoc_map(prefix).insert(key, slot)));
            }
            i = i + 1;
        }
        proof {
            assert(storage.entries@.take(storage.entries@.len() as int) =~= storage.entries@);
        }
        AccountRevert {
            account: AccountInfoRevert::RevertTo(account),
            storage: out,
            previous_status: status,
            wipe_storage: true,
        }
    }

    /// Like `new_selfdestructed`, but for an account destroyed and then
    /// re-created: slots the re-creation wrote where none existed before
    /// get removal markers so a revert can take them out again.
    pub fn new_selfdestructed_again(
        status: AccountStatus,
        account: AccountInfo,
        previous_storage: U256Map<StorageSlot>,
        updated_storage: &U256Map<StorageSlot>,
    ) -> (r: AccountRevert)
        requires
            previous_storage.wf(),
            updated_storage.wf(),
        ensures
            r.wf(),
            r@ == (RevertView {
                account: AccountInfoRevert::RevertTo(account),
                storage: destroyed_again_storage(previous_storage@, updated_storage@),
                previous_status: status,
                wipe_storage: false,
            }),
    {
        let mut out: U256Map<RevertToSlot> = U256Map::new();
        let mut i: usize = 0;
        proof {
            assert(out@ =~= wiped_to_values(assoc_map(previous_storage.entries@.take(0))));
        }
        while i < previous_storage.entries.len()
            invariant
                previous_storage.wf(),
                i <= previous_storage.entries@.len(),
                out.wf(),
                out@ == wiped_to_values(assoc_map(previous_storage.entries@.take(i as int))),
            decreases previous_storage.entries@.len() - i,
        {
            let ghost prefix = previous_storage.entries@.take(i as int);
            let (key, slot) = previous_storage.entries[i];
            proof {
                assert(previous_storage.entries@.take(i + 1 as int) =~= prefix.push((key, slot)));
                lemma_assoc_map_push(prefix, key, slot);
            }
            out.insert(key, RevertToSlot::Value(slot.present_value));
            proof {
                assert(out@ =~= wiped_to_values(assoc_map(prefix).insert(key, slot)));
            }
            i = i + 1;
        }
        proof {
            assert(previous_storage.entries@.take(previous_storage.entries@.len() as int)
                =~= previous_storage.entries@);
            assert(out@ =~= destroyed_again_storage(
                previous_storage@,
                assoc_map(updated_storage.entries@.take(0)),
            ));
        }
        let mut j: usize = 0;
        while j < updated_storage.entries.len()
            invariant
                previous_storage.wf(),
                updated_storage.wf(),
                j <= updated_storage.entries@.len(),
                out.wf(),
                out@ == destroyed_again_storage(
                    previous_storage@,
                    assoc_map(updated_storage.entries@.take(j as int)),
                ),
            decreases updated_storage.entries@.len() - j,
        {
            let ghost prefix = updated_storage.entries@.take(j as int);
            let (key, slot) = updated_storage.entries[j];
            proof {
                assert(updated_storage.entries@.take(j + 1 as int) =~= prefix.push((key, slot)));
                lemma_assoc_map_push(prefix, key, slot);
                lemma_prefix_key_absent(updated_storage.entries@, j as int);
            }
            let found = out.find(&key);
            match found {
                Option::Some(idx) => {
                    proof {
                        crate::maps::lemma_assoc_map_dom(out.entries@);
                        assert(out.entries@[idx as int].0 == key);
                        assert(out@.dom().contains(key));
                    }
                },
                Option::None => {
                    proof {
                        crate::maps::lemma_assoc_map_dom(out.entries@);
                        assert(!out@.dom().contains(key));
                    }
                    out.insert(key, RevertToSlot::Destroyed);
                },
            }
            proof {
                assert(out@ =~= destroyed_again_storage(
                    previous_storage@,
                    assoc_map(prefix).insert(key, slot),
                ));
            }
            j = j + 1;
        }
        proof {
            assert(updated_storage.entries@.take(updated_storage.entries@.len() as int)
                =~= updated_storage.entries@);
        }
        AccountRevert {
            account: AccountInfoRevert::RevertTo(account),
            storage: out,
            previous_status: status,
            wipe_storage: false,
        }
    }
}

} // verus!
