//! Plain value types the engine works over: 256-bit words, 160-bit
//! addresses, account info and storage slots.

use vstd::prelude::*;

verus! {

/// A 256-bit unsigned word, held as two 128-bit halves.
#[derive(Clone, Copy, PartialEq, Eq, Structural, Debug)]
pub struct U256 {
    pub hi: u128,
    pub lo: u128,
}

impl U256 {
    /// The zero word.
    pub open spec fn spec_zero() -> U256 {
        U256 { hi: 0, lo: 0 }
    }

    pub fn zero() -> (r: U256)
        ensures
            r == U256::spec_zero(),
    {
        U256 { hi: 0, lo: 0 }
    }

    pub open spec fn spec_is_zero(self) -> bool {
        self == U256::spec_zero()
    }

    pub fn is_zero(&self) -> (r: bool)
        ensures
            r == self.spec_is_zero(),
    {
        self.hi == 0 && self.lo == 0
    }

    /// A small word, for callers and tests that deal in machine integers.
    pub fn from_u64(v: u64) -> (r: U256)
        ensures
            r == (U256 { hi: 0, lo: v as u128 }),
    {
        U256 { hi: 0, lo: v as u128 }
    }
}

/// A 256-bit hash, held as two 128-bit halves.
#[derive(Clone, Copy, PartialEq, Eq, Structural, Debug)]
pub struct B256 {
    pub hi: u128,
    pub lo: u128,
}

impl B256 {
    /// The canonical hash of empty bytecode (the Keccak-256 digest of the
    /// empty input), which marks an account as holding no code.
    pub open spec fn spec_keccak_empty() -> B256 {
        B256 { hi: 0xc5d2460186f7233c927e7db2dcc703c0, lo: 0xe500b653ca82273b7bfad8045d85a470 }
    }

    pub fn keccak_empty() -> (r: B256)
        ensures
            r == B256::spec_keccak_empty(),
    {
        B256 { hi: 0xc5d2460186f7233c927e7db2dcc703c0, lo: 0xe500b653ca82273b7bfad8045d85a470 }
    }
}

/// A 160-bit account address, held as a 32-bit high part and a 128-bit low
/// part.
#[derive(Clone, Copy, PartialEq, Eq, Structural, Debug)]
pub struct Address {
    pub hi: u32,
    pub lo: u128,
}

impl Address {
    /// A small address, for callers and tests that deal in machine integers.
    pub fn from_u64(v: u64) -> (r: Address)
        ensures
            r == (Address { hi: 0, lo: v as u128 }),
    {
        Address { hi: 0, lo: v as u128 }
    }
}

/// Contract bytecode, carried by the cache's code-hash table. The engine
/// never inspects it; it is payload keyed by its hash.
#[derive(Clone, Debug)]
pub struct Bytecode {
    pub bytes: Vec<u8>,
}

/// Account information: balance, nonce and code hash. The code itself lives
/// in the cache's code-hash table, keyed by `code_hash`.
#[derive(Clone, Copy, PartialEq, Eq, Structural, Debug)]
pub struct AccountInfo {
    pub balance: U256,
    pub nonce: u64,
    pub code_hash: B256,
}

impl AccountInfo {
    /// The empty account: zero balance, zero nonce, no code.
    pub open spec fn spec_empty() -> AccountInfo {
        AccountInfo { balance: U256::spec_zero(), nonce: 0, code_hash: B256::spec_keccak_empty() }
    }

    pub fn empty() -> (r: AccountInfo)
        ensures
            r == AccountInfo::spec_empty(),
    {
        AccountInfo { balance: U256::zero(), nonce: 0, code_hash: B256::keccak_empty() }
    }

    /// Empty in the EIP-161 sense: zero balance, zero nonce and the canonical
    /// empty-code hash.
    pub open spec fn spec_is_empty(self) -> bool {
        self == AccountInfo::spec_empty()
    }

    pub fn is_empty(&self) -> (r: bool)
        ensures
            r == self.spec_is_empty(),
    {
        self.balance.is_zero() && self.nonce == 0 && self.code_hash == B256::keccak_empty()
    }
}

/// What an absent account info defaults to: the empty account.
pub open spec fn spec_info_or_empty(i: Option<AccountInfo>) -> AccountInfo {
    match i {
        Option::Some(a) => a,
        Option::None => AccountInfo::spec_empty(),
    }
}

pub fn info_or_empty(i: &Option<AccountInfo>) -> (r: AccountInfo)
    ensures
        r == spec_info_or_empty(*i),
{
    match i {
        Option::Some(a) => *a,
        Option::None => AccountInfo::empty(),
    }
}

/// One storage slot within a diffing epoch: the value it had when the epoch
/// began and the value it holds now. Only the present value mutates.
#[derive(Clone, Copy, PartialEq, Eq, Structural, Debug)]
pub struct StorageSlot {
    pub original_value: U256,
    pub present_value: U256,
}

impl StorageSlot {
    pub fn new_changed(original_value: U256, present_value: U256) -> (r: StorageSlot)
        ensures
            r == (StorageSlot { original_value, present_value }),
    {
        StorageSlot { original_value, present_value }
    }

    /// A slot contributes to a changeset exactly when its two values differ.
    pub open spec fn spec_is_changed(self) -> bool {
        self.original_value != self.present_value
    }

    pub fn is_changed(&self) -> (r: bool)
        ensures
            r == self.spec_is_changed(),
    {
        !(self.original_value == self.present_value)
    }
}

} // verus!
