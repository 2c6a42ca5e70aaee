//! The per-address diff record one unit of execution leaves behind: status
//! and info before and after, and the touched storage slots with their
//! original and present values.

use vstd::prelude::*;
use crate::maps::U256Map;
use crate::primitives::{AccountInfo, StorageSlot, U256};
use crate::status::AccountStatus;

verus! {

/// An ephemeral record of one account's change during one unit of
/// execution, folded into a bundle account and then discarded.
#[derive(Debug)]
pub struct TransitionAccount {
    pub info: Option<AccountInfo>,
    pub status: AccountStatus,
    pub previous_info: Option<AccountInfo>,
    pub previous_status: AccountStatus,
    pub storage: U256Map<StorageSlot>,
}

/// The mathematical value of a transition record.
pub struct TransitionView {
    pub info: Option<AccountInfo>,
    pub status: AccountStatus,
    pub previous_info: Option<AccountInfo>,
    pub previous_status: AccountStatus,
    pub storage: Map<U256, StorageSlot>,
}

impl View for TransitionAccount {
    type V = TransitionView;

    open spec fn view(&self) -> TransitionView {
        TransitionView {
            info: self.info,
            status: self.status,
            previous_info: self.previous_info,
            previous_status: self.previous_status,
            storage: self.storage@,
        }
    }
}

/// What every transition the cache emits satisfies: a target status that
/// carries an account has its info, and a destroying target carries neither
/// info nor storage.
pub open spec fn transition_coherent(t: TransitionView) -> bool {
    &&& ((t.status == AccountStatus::Changed || t.status == AccountStatus::InMemoryChange
        || t.status == AccountStatus::DestroyedChanged) ==> t.info is Some)
    &&& ((t.status == AccountStatus::Destroyed || t.status == AccountStatus::DestroyedAgain)
        ==> t.info is None && t.storage == Map::<U256, StorageSlot>::empty())
}

} // verus!
