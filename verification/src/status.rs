//! The account lifecycle tag: how an account in the cache or in a bundle
//! relates to the persisted truth underneath it.

use vstd::prelude::*;

verus! {

/// Lifecycle of an account relative to the underlying store.
#[derive(Clone, Copy, PartialEq, Eq, Structural, Debug)]
pub enum AccountStatus {
    /// Looked up and found absent: the account is known not to exist.
    LoadedNotExisting,
    /// Loaded from the store, unchanged so far.
    Loaded,
    /// Loaded from the store and empty in the EIP-161 sense.
    LoadedEmptyEIP161,
    /// Changed while known only in memory (sprang into existence, or was
    /// loaded empty).
    InMemoryChange,
    /// Loaded from the store and then changed.
    Changed,
    /// Destroyed by a selfdestruct this window.
    Destroyed,
    /// Re-created after being destroyed this window.
    DestroyedChanged,
    /// Destroyed again after a re-creation this window.
    DestroyedAgain,
}

impl AccountStatus {
    /// True when the status alone settles what every uncached slot holds:
    /// the account is known not to exist, or is known only from memory, or
    /// was destroyed, so an absent slot reads as zero rather than "unknown".
    pub open spec fn spec_storage_known(self) -> bool {
        match self {
            AccountStatus::LoadedNotExisting => true,
            AccountStatus::InMemoryChange => true,
            AccountStatus::Destroyed => true,
            AccountStatus::DestroyedChanged => true,
            AccountStatus::DestroyedAgain => true,
            AccountStatus::Loaded => false,
            AccountStatus::LoadedEmptyEIP161 => false,
            AccountStatus::Changed => false,
        }
    }

    pub fn storage_known(&self) -> (r: bool)
        ensures
            r == self.spec_storage_known(),
    {
        matches!(
            self,
            AccountStatus::LoadedNotExisting
                | AccountStatus::InMemoryChange
                | AccountStatus::Destroyed
                | AccountStatus::DestroyedChanged
                | AccountStatus::DestroyedAgain
        )
    }

    /// True for every status reached through a selfdestruct this window.
    pub open spec fn spec_was_destroyed(self) -> bool {
        match self {
            AccountStatus::Destroyed => true,
            AccountStatus::DestroyedChanged => true,
            AccountStatus::DestroyedAgain => true,
            _ => false,
        }
    }

    pub fn was_destroyed(&self) -> (r: bool)
        ensures
            r == self.spec_was_destroyed(),
    {
        matches!(
            self,
            AccountStatus::Destroyed | AccountStatus::DestroyedChanged | AccountStatus::DestroyedAgain
        )
    }
}

} // verus!
