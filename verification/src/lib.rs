//! Account-state changeset and revert engine for a virtual-machine execution
//! layer: a cache of current account/storage state fed by raw per-transaction
//! output, and bundle accounts that accumulate changes across many
//! transactions while emitting the exact compensating reverts needed to undo
//! them in reverse order.

pub mod primitives;
pub mod maps;
pub mod status;
pub mod transition;
pub mod reverts;
pub mod bundle_account;
pub mod cache_account;
pub mod cache;
pub mod laws;

pub use primitives::{Address, AccountInfo, Bytecode, StorageSlot, B256, U256};
pub use status::AccountStatus;
pub use transition::TransitionAccount;
pub use reverts::{AccountInfoRevert, AccountRevert, RevertToSlot};
pub use bundle_account::BundleAccount;
pub use cache_account::{CacheAccount, PlainAccount};
pub use cache::{CacheState, EvmAccount};
