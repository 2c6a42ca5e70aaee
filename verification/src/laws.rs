//! The engine's governing properties, stated and proved over the transition
//! matrix and the revert semantics: reverts undo folds, identical re-folds
//! of refresh states are no-ops, unchanged slots never enter a revert, and
//! EIP-161 clearing removes touched empty accounts exactly when enabled.

use vstd::prelude::*;
use crate::bundle_account::{
    apply_revert_storage, bundle_can_capture, merged_storage, spec_apply_revert,
    spec_apply_transition, transition_allowed, BundleView,
};
use crate::cache::{spec_apply_one, EvmAccountView};
use crate::cache_account::CacheAccountView;
use crate::primitives::{AccountInfo, StorageSlot, U256};
use crate::reverts::{destroyed_again_storage, revert_storage_of_update, wiped_to_values};
use crate::status::AccountStatus;
use crate::transition::{transition_coherent, TransitionView};

verus! {

/// The shape every bundle the engine builds keeps: statuses that mean "no
/// account" hold no info and no storage, statuses that mean "an account
/// exists" hold its info, and a loaded-empty account holds the empty info.
pub open spec fn bundle_coherent(b: BundleView) -> bool {
    &&& ((b.status == AccountStatus::LoadedNotExisting || b.status == AccountStatus::Destroyed
        || b.status == AccountStatus::DestroyedAgain) ==> (b.info is None && b.storage == Map::<
        U256,
        StorageSlot,
    >::empty()))
    &&& ((b.status == AccountStatus::Loaded || b.status == AccountStatus::Changed || b.status
        == AccountStatus::InMemoryChange || b.status == AccountStatus::DestroyedChanged)
        ==> b.info is Some)
    &&& (b.status == AccountStatus::LoadedEmptyEIP161 ==> b.info == Some(
        AccountInfo::spec_empty(),
    ))
}

/// The folding discipline the caller keeps: a transition's original slot
/// values are the present values the bundle already holds for those slots.
pub open spec fn originals_linked(b: BundleView, t: TransitionView) -> bool {
    forall|k: U256|
        (#[trigger] t.storage.dom().contains(k) && b.storage.dom().contains(k))
            ==> t.storage[k].original_value == b.storage[k].present_value
}

/// Folding an allowed, coherent transition keeps the bundle coherent.
pub proof fn lemma_fold_keeps_coherent(b: BundleView, t: TransitionView)
    requires
        bundle_coherent(b),
        transition_coherent(t),
        transition_allowed(b.status, t.status),
    ensures
        bundle_coherent(spec_apply_transition(b, t).0),
{
}

/// Storage round trip for the merging arms: merging an update in and then
/// applying the update's slot reverts restores every held present value,
/// and any slot that appears anew carries its original value, so it adds
/// no net change.
proof fn lemma_merge_rsou_restores(bs: Map<U256, StorageSlot>, ts: Map<U256, StorageSlot>)
    requires
        forall|k: U256|
            (#[trigger] ts.dom().contains(k) && bs.dom().contains(k)) ==> ts[k].original_value
                == bs[k].present_value,
    ensures
        ({
            let after = apply_revert_storage(merged_storage(bs, ts), revert_storage_of_update(ts));
            &&& (forall|k: U256|
                #[trigger] bs.dom().contains(k) ==> after.dom().contains(k)
                    && after[k].present_value == bs[k].present_value)
            &&& (forall|k: U256|
                (#[trigger] after.dom().contains(k) && !bs.dom().contains(k)) ==> (
                ts.dom().contains(k) && after[k].present_value == ts[k].original_value
                    && after[k].present_value == after[k].original_value))
        }),
{
}

/// Storage round trip for a destruction: the wipe reverts restore every
/// present value, and nothing else appears.
proof fn lemma_wipe_restores(bs: Map<U256, StorageSlot>)
    ensures
        ({
            let after = apply_revert_storage(
                Map::<U256, StorageSlot>::empty(),
                wiped_to_values(bs),
            );
            &&& (forall|k: U256|
                #[trigger] bs.dom().contains(k) ==> after.dom().contains(k)
                    && after[k].present_value == bs[k].present_value)
            &&& (forall|k: U256| #[trigger] after.dom().contains(k) ==> bs.dom().contains(k))
        }),
{
}

/// Storage round trip for a capture: re-created storage plus the captured
/// reverts restore exactly the pre-destruction slots' present values.
proof fn lemma_capture_restores(bs: Map<U256, StorageSlot>, ts: Map<U256, StorageSlot>)
    ensures
        ({
            let after = apply_revert_storage(ts, destroyed_again_storage(bs, ts));
            &&& (forall|k: U256|
                #[trigger] bs.dom().contains(k) ==> after.dom().contains(k)
                    && after[k].present_value == bs[k].present_value)
            &&& (forall|k: U256| #[trigger] after.dom().contains(k) ==> bs.dom().contains(k))
        }),
{
}

/// Storage round trip for the replacing arm between two re-created states,
/// given the held slots all appear in the update.
proof fn lemma_replace_rsou_restores(bs: Map<U256, StorageSlot>, ts: Map<U256, StorageSlot>)
    requires
        forall|k: U256|
            (#[trigger] ts.dom().contains(k) && bs.dom().contains(k)) ==> ts[k].original_value
                == bs[k].present_value,
        bs.dom() <= ts.dom(),
    ensures
        ({
            let after = apply_revert_storage(ts, revert_storage_of_update(ts));
            &&& (forall|k: U256|
                #[trigger] bs.dom().contains(k) ==> after.dom().contains(k)
                    && after[k].present_value == bs[k].present_value)
            &&& (forall|k: U256|
                (#[trigger] after.dom().contains(k) && !bs.dom().contains(k)) ==> (
                ts.dom().contains(k) && after[k].present_value == ts[k].original_value
                    && after[k].present_value == after[k].original_value))
        }),
{
    assert forall|k: U256| #[trigger] bs.dom().contains(k) implies apply_revert_storage(
        ts,
        revert_storage_of_update(ts),
    ).dom().contains(k) && apply_revert_storage(ts, revert_storage_of_update(ts))[k].present_value
        == bs[k].present_value by {
        assert(ts.dom().contains(k));
    }
}

/// Round trip of one fold: applying the revert a fold emits restores the
/// bundle's status, info and every held present value, and any slot the
/// round trip leaves behind carries its transition-original value, hence no
/// net change. The arms that by design collapse or coarsen state are left
/// out: a change out of the loaded-empty state reverts to plain Loaded, a
/// re-creation folded onto a re-created or twice-destroyed account reverts
/// its info to the empty account, and a second destruction folded onto a
/// re-created account keeps only the update's own slot diff.
pub proof fn lemma_fold_then_revert_restores(b: BundleView, t: TransitionView)
    requires
        bundle_coherent(b),
        transition_coherent(t),
        transition_allowed(b.status, t.status),
        originals_linked(b, t),
        !(t.status == AccountStatus::Changed && b.status == AccountStatus::LoadedEmptyEIP161),
        (t.status == AccountStatus::InMemoryChange && b.status == AccountStatus::Loaded)
            ==> b.info == Some(AccountInfo::spec_empty()),
        (t.status == AccountStatus::DestroyedChanged && b.status
            == AccountStatus::DestroyedChanged) ==> (b.info == t.info && b.storage.dom()
            <= t.storage.dom()),
        !(t.status == AccountStatus::DestroyedChanged && b.status == AccountStatus::DestroyedAgain),
        !(t.status == AccountStatus::DestroyedAgain && b.status
            == AccountStatus::DestroyedChanged),
    ensures
        ({
            let step = spec_apply_transition(b, t);
            match step.1 {
                Some(rev) => {
                    let back = spec_apply_revert(step.0, rev).0;
                    &&& back.status == b.status
                    &&& back.info == b.info
                    &&& back.original_info == b.original_info
                    &&& (forall|k: U256|
                        #[trigger] b.storage.dom().contains(k) ==> back.storage.dom().contains(k)
                            && back.storage[k].present_value == b.storage[k].present_value)
                    &&& (forall|k: U256|
                        (#[trigger] back.storage.dom().contains(k) && !b.storage.dom().contains(k))
                            ==> (t.storage.dom().contains(k) && back.storage[k].present_value
                            == t.storage[k].original_value && back.storage[k].present_value
                            == back.storage[k].original_value))
                },
                None => {
                    let after = step.0;
                    &&& after.info == b.info
                    &&& after.original_info == b.original_info
                    &&& after.storage == b.storage
                    &&& (after.status == b.status || (t.status == AccountStatus::DestroyedAgain
                        && after.status == AccountStatus::DestroyedAgain))
                },
            }
        }),
{
    let step = spec_apply_transition(b, t);
    match t.status {
        AccountStatus::Loaded | AccountStatus::LoadedNotExisting
        | AccountStatus::LoadedEmptyEIP161 => {
        },
        AccountStatus::Changed => {
            lemma_merge_rsou_restores(b.storage, t.storage);
        },
        AccountStatus::InMemoryChange => {
            if b.status == AccountStatus::LoadedNotExisting {
                assert(b.storage =~= Map::<U256, StorageSlot>::empty());
            } else {
                lemma_merge_rsou_restores(b.storage, t.storage);
            }
        },
        AccountStatus::Destroyed => {
            if b.status == AccountStatus::LoadedNotExisting {
            } else {
                lemma_wipe_restores(b.storage);
            }
        },
        AccountStatus::DestroyedChanged => {
            if bundle_can_capture(b.status) {
                lemma_capture_restores(b.storage, t.storage);
            } else if b.status == AccountStatus::DestroyedChanged {
                lemma_replace_rsou_restores(b.storage, t.storage);
            } else {
                // from Destroyed or LoadedNotExisting: the revert removes
                // the account entirely, matching the empty state held.
            }
        },
        AccountStatus::DestroyedAgain => {
            if bundle_can_capture(b.status) {
                lemma_capture_restores(b.storage, Map::<U256, StorageSlot>::empty());
            }
        },
    }
}

/// Folding a transition that changes nothing of a refresh or twice-
/// destroyed state yields no revert and leaves the bundle as it was.
pub proof fn lemma_noop_fold(b: BundleView, t: TransitionView)
    requires
        bundle_coherent(b),
        t.status == b.status,
        t.info == b.info,
        t.storage == b.storage,
        b.status == AccountStatus::Loaded || b.status == AccountStatus::LoadedNotExisting
            || b.status == AccountStatus::LoadedEmptyEIP161 || b.status
            == AccountStatus::DestroyedAgain,
    ensures
        spec_apply_transition(b, t).1 is None,
        spec_apply_transition(b, t).0 == b,
{
}

/// A transition slot whose original and present values agree never puts an
/// entry into the emitted revert's storage, outside the capture arms that
/// mark a re-creation's slots for removal.
pub proof fn lemma_unchanged_slot_not_in_revert(b: BundleView, t: TransitionView, k: U256)
    requires
        transition_coherent(t),
        t.storage.dom().contains(k),
        t.storage[k].original_value == t.storage[k].present_value,
        t.status == AccountStatus::DestroyedChanged ==> !(bundle_can_capture(b.status) || b.status
            == AccountStatus::DestroyedAgain),
    ensures
        match spec_apply_transition(b, t).1 {
            Some(rev) => !rev.storage.dom().contains(k),
            None => true,
        },
{
}

/// EIP-161 semantics at the cache: a touched account that is now empty
/// moves to a removable, destroyed state when state clearing is on, and is
/// left entirely unchanged when it is off.
pub proof fn lemma_touched_empty_state_clearing(
    c: CacheAccountView,
    e: EvmAccountView,
    clear: bool,
)
    requires
        e.touched,
        !e.selfdestructed,
        !e.created,
        e.info.spec_is_empty(),
        c.status != AccountStatus::LoadedNotExisting,
        c.status != AccountStatus::Destroyed,
        c.status != AccountStatus::DestroyedAgain,
    ensures
        clear ==> ({
            let nv = spec_apply_one(Some(c), true, e).0;
            match nv {
                Some(c2) => c2.status.spec_was_destroyed() && c2.account is None,
                None => false,
            }
        }),
        !clear ==> spec_apply_one(Some(c), false, e) == (
            None::<CacheAccountView>,
            None::<TransitionView>,
        ),
{
}

/// Selfdestruct and re-creation folded in one window: onto a changed
/// account, folding a re-creation yields a re-created bundle whose revert
/// restores the pre-destruction state exactly, not the intermediate
/// destroyed emptiness.
pub proof fn lemma_selfdestruct_recreate_in_window(b: BundleView, t: TransitionView)
    requires
        bundle_coherent(b),
        transition_coherent(t),
        b.status == AccountStatus::Changed,
        t.status == AccountStatus::DestroyedChanged,
    ensures
        spec_apply_transition(b, t).0.status == AccountStatus::DestroyedChanged,
        spec_apply_transition(b, t).0.info == t.info,
        spec_apply_transition(b, t).0.storage == t.storage,
        ({
            let step = spec_apply_transition(b, t);
            match step.1 {
                Some(rev) => {
                    let back = spec_apply_revert(step.0, rev).0;
                    &&& back.status == AccountStatus::Changed
                    &&& back.info == b.info
                    &&& (forall|k: U256|
                        #[trigger] b.storage.dom().contains(k) ==> back.storage.dom().contains(k)
                            && back.storage[k].present_value == b.storage[k].present_value)
                    &&& (forall|k: U256|
                        #[trigger] back.storage.dom().contains(k) ==> b.storage.dom().contains(k))
                },
                None => false,
            }
        }),
{
    lemma_capture_restores(b.storage, t.storage);
}

} // verus!

