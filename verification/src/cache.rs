//! The live cache: one entry per address plus a code-hash table, consuming
//! raw per-transaction execution output and emitting per-address transition
//! records for the bundle layer.

use vstd::prelude::*;
use crate::cache_account::{
    spec_change, spec_newly_created, spec_selfdestruct, spec_touch_empty, plain_storage_of,
    present_of, CacheAccount, CacheAccountView, PlainAccount, PlainAccountView,
};
use crate::maps::{AddressMap, B256Map, U256Map};
use crate::primitives::{AccountInfo, Address, Bytecode, StorageSlot, B256, U256};
use crate::status::AccountStatus;
use crate::transition::{TransitionAccount, TransitionView};

verus! {

/// One address's raw result from the execution engine: info, a slot map of
/// original and present values, and the flags that steer ingestion.
#[derive(Debug)]
pub struct EvmAccount {
    pub info: AccountInfo,
    pub storage: U256Map<StorageSlot>,
    pub touched: bool,
    pub selfdestructed: bool,
    pub created: bool,
}

/// The mathematical value of a raw execution result.
pub struct EvmAccountView {
    pub info: AccountInfo,
    pub storage: Map<U256, StorageSlot>,
    pub touched: bool,
    pub selfdestructed: bool,
    pub created: bool,
}

impl View for EvmAccount {
    type V = EvmAccountView;

    open spec fn view(&self) -> EvmAccountView {
        EvmAccountView {
            info: self.info,
            storage: self.storage@,
            touched: self.touched,
            selfdestructed: self.selfdestructed,
            created: self.created,
        }
    }
}

impl EvmAccount {
    pub fn is_touched(&self) -> (r: bool)
        ensures
            r == self.touched,
    {
        self.touched
    }

    pub fn is_selfdestructed(&self) -> (r: bool)
        ensures
            r == self.selfdestructed,
    {
        self.selfdestructed
    }

    pub fn is_created(&self) -> (r: bool)
        ensures
            r == self.created,
    {
        self.created
    }

    pub fn is_empty(&self) -> (r: bool)
        ensures
            r == self.info.spec_is_empty(),
    {
        self.info.is_empty()
    }
}

/// The address-keyed account table seen as a map of account views.
pub open spec fn cache_accounts_view(m: Map<Address, CacheAccount>) -> Map<
    Address,
    CacheAccountView,
> {
    Map::new(|a: Address| m.dom().contains(a), |a: Address| m[a]@)
}

/// Every account the table holds keeps its storage invariant.
pub open spec fn accounts_wf(m: Map<Address, CacheAccount>) -> bool {
    forall|a: Address| #[trigger] m.dom().contains(a) ==> m[a].wf()
}

pub proof fn lemma_accounts_wf_insert(m: Map<Address, CacheAccount>, a: Address, v: CacheAccount)
    requires
        accounts_wf(m),
        v.wf(),
    ensures
        accounts_wf(m.insert(a, v)),
{
    assert forall|x: Address| #[trigger] m.insert(a, v).dom().contains(x) implies m.insert(
        a,
        v,
    )[x].wf() by {
        if x != a {
            assert(m.dom().contains(x));
        }
    }
}

pub proof fn lemma_accounts_wf_remove(m: Map<Address, CacheAccount>, a: Address)
    requires
        accounts_wf(m),
    ensures
        accounts_wf(m.remove(a)),
{
    assert forall|x: Address| #[trigger] m.remove(a).dom().contains(x) implies m.remove(
        a,
    )[x].wf() by {
        assert(m.dom().contains(x));
    }
}

pub proof fn lemma_cache_view_insert(m: Map<Address, CacheAccount>, a: Address, v: CacheAccount)
    ensures
        cache_accounts_view(m.insert(a, v)) == cache_accounts_view(m).insert(a, v@),
{
    assert(cache_accounts_view(m.insert(a, v)) =~= cache_accounts_view(m).insert(a, v@));
}

/// Raw results paired with addresses, as mathematical values.
pub open spec fn evm_views(s: Seq<(Address, EvmAccount)>) -> Seq<(Address, EvmAccountView)> {
    s.map_values(|p: (Address, EvmAccount)| (p.0, p.1@))
}

/// Emitted transitions paired with addresses, as mathematical values.
pub open spec fn transition_views(s: Seq<(Address, TransitionAccount)>) -> Seq<
    (Address, TransitionView),
> {
    s.map_values(|p: (Address, TransitionAccount)| (p.0, p.1@))
}

pub proof fn lemma_transition_views_push(
    s: Seq<(Address, TransitionAccount)>,
    a: Address,
    t: TransitionAccount,
)
    ensures
        transition_views(s.push((a, t))) == transition_views(s).push((a, t@)),
{
    assert(transition_views(s.push((a, t))) =~= transition_views(s).push((a, t@)));
}

/// What ingesting one raw result does to one cache entry (`None` meaning
/// the entry is absent): the replacement entry if any, and the emitted
/// transition if any. Untouched accounts change nothing; selfdestructs and
/// empty touches go through their transforms; creations and plain changes
/// replace or, defensively, insert.
pub open spec fn spec_apply_one(
    c: Option<CacheAccountView>,
    clear: bool,
    e: EvmAccountView,
) -> (Option<CacheAccountView>, Option<TransitionView>) {
    if !e.touched {
        (None::<CacheAccountView>, None::<TransitionView>)
    } else if e.selfdestructed {
        match c {
            Some(cv) => {
                let r = spec_selfdestruct(cv);
                (Some(r.0), r.1)
            },
            None => (
                Some(
                    CacheAccountView { account: None, status: AccountStatus::LoadedNotExisting },
                ),
                None::<TransitionView>,
            ),
        }
    } else if e.created {
        match c {
            Some(cv) => {
                let r = spec_newly_created(cv, e.info, e.storage);
                (Some(r.0), Some(r.1))
            },
            None => (
                Some(
                    CacheAccountView {
                        account: Some(
                            PlainAccountView { info: e.info, storage: present_of(e.storage) },
                        ),
                        status: AccountStatus::InMemoryChange,
                    },
                ),
                Some(
                    TransitionView {
                        info: Some(e.info),
                        status: AccountStatus::InMemoryChange,
                        previous_info: None,
                        previous_status: AccountStatus::LoadedNotExisting,
                        storage: e.storage,
                    },
                ),
            ),
        }
    } else if e.info.spec_is_empty() {
        if clear {
            match c {
                Some(cv) => {
                    let r = spec_touch_empty(cv);
                    (Some(r.0), r.1)
                },
                None => (None::<CacheAccountView>, None::<TransitionView>),
            }
        } else {
            (None::<CacheAccountView>, None::<TransitionView>)
        }
    } else {
        match c {
            Some(cv) => {
                let r = spec_change(cv, e.info, e.storage);
                (Some(r.0), Some(r.1))
            },
            None => (
                Some(
                    CacheAccountView {
                        account: Some(
                            PlainAccountView { info: e.info, storage: present_of(e.storage) },
                        ),
                        status: AccountStatus::Changed,
                    },
                ),
                None::<TransitionView>,
            ),
        }
    }
}

/// Folding a whole batch of raw results over the account table, in input
/// order, collecting the emitted transitions.
pub open spec fn spec_apply_state(
    m: Map<Address, CacheAccountView>,
    clear: bool,
    s: Seq<(Address, EvmAccountView)>,
) -> (Map<Address, CacheAccountView>, Seq<(Address, TransitionView)>)
    decreases s.len(),
{
    if s.len() == 0 {
        (m, Seq::<(Address, TransitionView)>::empty())
    } else {
        let r = spec_apply_state(m, clear, s.drop_last());
        let m1 = r.0;
        let ts = r.1;
        let a = s.last().0;
        let e = s.last().1;
        let c = if m1.dom().contains(a) {
            Some(m1[a])
        } else {
            None::<CacheAccountView>
        };
        let step = spec_apply_one(c, clear, e);
        let m2 = match step.0 {
            Some(v) => m1.insert(a, v),
            None => m1,
        };
        let ts2 = match step.1 {
            Some(t) => ts.push((a, t)),
            None => ts,
        };
        (m2, ts2)
    }
}

/// The live cache: account table, code table and the EIP-161 state-clear
/// flag fixed at construction.
#[derive(Debug)]
pub struct CacheState {
    pub accounts: AddressMap<CacheAccount>,
    pub contracts: B256Map<Bytecode>,
    pub has_state_clear: bool,
}

/// The mathematical value of the cache.
pub struct CacheView {
    pub accounts: Map<Address, CacheAccountView>,
    pub contracts: Map<B256, Bytecode>,
    pub has_state_clear: bool,
}

impl View for CacheState {
    type V = CacheView;

    open spec fn view(&self) -> CacheView {
        CacheView {
            accounts: cache_accounts_view(self.accounts@),
            contracts: self.contracts@,
            has_state_clear: self.has_state_clear,
        }
    }
}

impl CacheState {
    pub open spec fn wf(self) -> bool {
        self.accounts.wf() && accounts_wf(self.accounts@) && self.contracts.wf()
    }

    /// New empty cache with state clearing enabled.
    pub fn new() -> (r: Self)
        ensures
            r.wf(),
            r@.accounts == Map::<Address, CacheAccountView>::empty(),
            r@.contracts == Map::<B256, Bytecode>::empty(),
            r.has_state_clear == true,
    {
        let r = CacheState {
            accounts: AddressMap::new(),
            contracts: B256Map::new(),
            has_state_clear: true,
        };
        proof {
            assert(cache_accounts_view(r.accounts@) =~= Map::<Address, CacheAccountView>::empty());
        }
        r
    }

    /// New empty cache with state clearing disabled, for legacy networks
    /// that keep empty accounts.
    pub fn new_legacy() -> (r: Self)
        ensures
            r.wf(),
            r@.accounts == Map::<Address, CacheAccountView>::empty(),
            r@.contracts == Map::<B256, Bytecode>::empty(),
            r.has_state_clear == false,
    {
        let r = CacheState {
            accounts: AddressMap::new(),
            contracts: B256Map::new(),
            has_state_clear: false,
        };
        proof {
            assert(cache_accounts_view(r.accounts@) =~= Map::<Address, CacheAccountView>::empty());
        }
        r
    }

    /// Insert an account known to be absent.
    pub fn insert_not_existing(&mut self, address: Address)
        requires
            old(self).wf(),
        ensures
            final(self).wf(),
            final(self)@.accounts == old(self)@.accounts.insert(
                address,
                CacheAccountView { account: None, status: AccountStatus::LoadedNotExisting },
            ),
            final(self)@.contracts == old(self)@.contracts,
            final(self).has_state_clear == old(self).has_state_clear,
    {
        let v = CacheAccount::new_loaded_not_existing();
        proof {
            lemma_accounts_wf_insert(self.accounts@, address, v);
            lemma_cache_view_insert(self.accounts@, address, v);
        }
        self.accounts.insert(address, v);
    }

    /// Insert a loaded account, as empty-loaded when its info is empty.
    pub fn insert_account(&mut self, address: Address, info: AccountInfo)
        requires
            old(self).wf(),
        ensures
            final(self).wf(),
            final(self)@.accounts == old(self)@.accounts.insert(
                address,
                CacheAccountView {
                    account: Some(
                        PlainAccountView { info, storage: Map::<U256, U256>::empty() },
                    ),
                    status: if info.spec_is_empty() {
                        AccountStatus::LoadedEmptyEIP161
                    } else {
                        AccountStatus::Loaded
                    },
                },
            ),
            final(self)@.contracts == old(self)@.contracts,
            final(self).has_state_clear == old(self).has_state_clear,
    {
        let v = if !info.is_empty() {
            CacheAccount::new_loaded(info, U256Map::new())
        } else {
            CacheAccount::new_loaded_empty_eip161(U256Map::new())
        };
        proof {
            lemma_accounts_wf_insert(self.accounts@, address, v);
            lemma_cache_view_insert(self.accounts@, address, v);
        }
        self.accounts.insert(address, v);
    }

    /// As `insert_account`, with the account's storage.
    pub fn insert_account_with_storage(
        &mut self,
        address: Address,
        info: AccountInfo,
        storage: U256Map<U256>,
    )
        requires
            old(self).wf(),
            storage.wf(),
        ensures
            final(self).wf(),
            final(self)@.accounts == old(self)@.accounts.insert(
                address,
                CacheAccountView {
                    account: Some(PlainAccountView { info, storage: storage@ }),
                    status: if info.spec_is_empty() {
                        AccountStatus::LoadedEmptyEIP161
                    } else {
                        AccountStatus::Loaded
                    },
                },
            ),
            final(self)@.contracts == old(self)@.contracts,
            final(self).has_state_clear == old(self).has_state_clear,
    {
        let v = if !info.is_empty() {
            CacheAccount::new_loaded(info, storage)
        } else {
            CacheAccount::new_loaded_empty_eip161(storage)
        };
        proof {
            lemma_accounts_wf_insert(self.accounts@, address, v);
            lemma_cache_view_insert(self.accounts@, address, v);
        }
        self.accounts.insert(address, v);
    }
}

/// The existing accounts of the table's entries, in table order.
pub open spec fn trie_seq(s: Seq<(Address, CacheAccount)>) -> Seq<(Address, PlainAccountView)>
    decreases s.len(),
{
    if s.len() == 0 {
        Seq::<(Address, PlainAccountView)>::empty()
    } else {
        let rest = trie_seq(s.drop_last());
        match s.last().1.account {
            Option::Some(p) => rest.push((s.last().0, p@)),
            Option::None => rest,
        }
    }
}

/// Address-account pairs as mathematical values.
pub open spec fn plain_pairs_view(s: Seq<(Address, PlainAccount)>) -> Seq<
    (Address, PlainAccountView),
> {
    s.map_values(|p: (Address, PlainAccount)| (p.0, p.1@))
}

impl CacheState {
    /// All accounts that exist, for building a state trie over them.
    pub fn trie_account(&self) -> (r: Vec<(Address, PlainAccount)>)
        requires
            self.wf(),
        ensures
            plain_pairs_view(r@) == trie_seq(self.accounts.entries@),
            forall|j: int| 0 <= j < r@.len() ==> (#[trigger] r@[j]).1.wf(),
    {
        let mut out: Vec<(Address, PlainAccount)> = Vec::new();
        let mut i: usize = 0;
        proof {
            assert(plain_pairs_view(out@) =~= trie_seq(self.accounts.entries@.take(0)));
        }
        while i < self.accounts.entries.len()
            invariant
                self.wf(),
                i <= self.accounts.entries@.len(),
                plain_pairs_view(out@) == trie_seq(self.accounts.entries@.take(i as int)),
                forall|j: int| 0 <= j < out@.len() ==> (#[trigger] out@[j]).1.wf(),
            decreases self.accounts.entries@.len() - i,
        {
            let ghost prefix = self.accounts.entries@.take(i as int);
            proof {
                assert(self.accounts.entries@.take(i + 1 as int) =~= prefix.push(
                    self.accounts.entries@[i as int],
                ));
                assert(self.accounts.entries@.take(i + 1 as int).drop_last() =~= prefix);
                crate::maps::lemma_assoc_map_index(self.accounts.entries@, i as int);
            }
            let address = self.accounts.entries[i].0;
            match &self.accounts.entries[i].1.account {
                Option::Some(p) => {
                    let copied = p.duplicate();
                    out.push((address, copied));
                    proof {
                        assert(plain_pairs_view(out@) =~= trie_seq(
                            self.accounts.entries@.take(i + 1 as int),
                        ));
                    }
                },
                Option::None => {
                    proof {
                        assert(plain_pairs_view(out@) =~= trie_seq(
                            self.accounts.entries@.take(i + 1 as int),
                        ));
                    }
                },
            }
            i = i + 1;
        }
        proof {
            assert(self.accounts.entries@.take(self.accounts.entries@.len() as int)
                =~= self.accounts.entries@);
        }
        out
    }

    /// Apply one batch of raw execution output, mutating the account table
    /// in place and returning the per-address transitions in input order.
    /// A touched, empty, otherwise unflagged account must already be in the
    /// cache, as the loader puts every accessed address there.
    pub fn apply_evm_state(&mut self, evm_state: Vec<(Address, EvmAccount)>) -> (r: Vec<
        (Address, TransitionAccount),
    >)
        requires
            old(self).wf(),
            forall|i: int|
                0 <= i < evm_state@.len() ==> (#[trigger] evm_state@[i]).1.storage.wf(),
            forall|i: int|
                0 <= i < evm_state@.len() ==> (((#[trigger] evm_state@[i]).1.touched
                    && !evm_state@[i].1.selfdestructed && !evm_state@[i].1.created
                    && evm_state@[i].1.info.spec_is_empty())
                    ==> old(self).accounts@.dom().contains(evm_state@[i].0)),
        ensures
            final(self).wf(),
            final(self).has_state_clear == old(self).has_state_clear,
            final(self)@.contracts == old(self)@.contracts,
            final(self)@.accounts == spec_apply_state(
                old(self)@.accounts,
                old(self).has_state_clear,
                evm_views(evm_state@),
            ).0,
            transition_views(r@) == spec_apply_state(
                old(self)@.accounts,
                old(self).has_state_clear,
                evm_views(evm_state@),
            ).1,
            forall|j: int| 0 <= j < r@.len() ==> (#[trigger] r@[j]).1.storage.wf(),
    {
        let ghost m0 = self@.accounts;
        let ghost clear = self.has_state_clear;
        let ghost views = evm_views(evm_state@);
        let mut transitions: Vec<(Address, TransitionAccount)> = Vec::new();
        let mut i: usize = 0;
        proof {
            assert(views.take(0) =~= Seq::<(Address, EvmAccountView)>::empty());
            assert(transition_views(transitions@) =~= Seq::<(Address, TransitionView)>::empty());
        }
        while i < evm_state.len()
            invariant
                forall|k: int|
                    0 <= k < evm_state@.len() ==> (#[trigger] evm_state@[k]).1.storage.wf(),
                views == evm_views(evm_state@),
                i <= evm_state@.len(),
                self.accounts.wf(),
                accounts_wf(self.accounts@),
                self.contracts == old(self).contracts,
                self.has_state_clear == old(self).has_state_clear,
                clear == self.has_state_clear,
                cache_accounts_view(self.accounts@) == spec_apply_state(
                    m0,
                    clear,
                    views.take(i as int),
                ).0,
                transition_views(transitions@) == spec_apply_state(
                    m0,
                    clear,
                    views.take(i as int),
                ).1,
                forall|j: int|
                    0 <= j < transitions@.len() ==> (#[trigger] transitions@[j]).1.storage.wf(),
                forall|j: int|
                    i <= j < evm_state@.len() ==> (((#[trigger] evm_state@[j]).1.touched
                        && !evm_state@[j].1.selfdestructed && !evm_state@[j].1.created
                        && evm_state@[j].1.info.spec_is_empty())
                        ==> self.accounts@.dom().contains(evm_state@[j].0)),
            decreases evm_state@.len() - i,
        {
            let ghost prefix = views.take(i as int);
            let ghost pre_exec = self.accounts@;
            let ghost pre_m = cache_accounts_view(self.accounts@);
            let ghost pre_ts = transition_views(transitions@);
            proof {
                assert(views.take(i + 1 as int) =~= prefix.push(views[i as int]));
                assert(views.take(i + 1 as int).drop_last() =~= prefix);
                assert(views.take(i + 1 as int).last() == views[i as int]);
                assert(views[i as int] == (evm_state@[i as int].0, evm_state@[i as int].1@));
            }
            let address = evm_state[i].0;
            let acct = &evm_state[i].1;
            let ghost e = acct@;
            if !acct.is_touched() {
                // untouched accounts never change anything
            } else if acct.is_selfdestructed() {
                match self.accounts.remove(&address) {
                    Option::Some(mut this) => {
                        proof {
                            lemma_accounts_wf_remove(pre_exec, address);
                        }
                        let t = this.selfdestruct();
                        proof {
                            lemma_accounts_wf_insert(pre_exec.remove(address), address, this);
                            lemma_cache_view_insert(pre_exec.remove(address), address, this);
                            assert(cache_accounts_view(pre_exec.remove(address)) =~= pre_m.remove(
                                address,
                            ));
                            assert(pre_m.remove(address).insert(address, this@) =~= pre_m.insert(
                                address,
                                this@,
                            ));
                        }
                        self.accounts.insert(address, this);
                        match t {
                            Option::Some(tr) => {
                                proof {
                                    lemma_transition_views_push(transitions@, address, tr);
                                }
                                transitions.push((address, tr));
                            },
                            Option::None => {},
                        }
                    },
                    Option::None => {
                        let v = CacheAccount::new_loaded_not_existing();
                        proof {
                            assert(pre_exec.remove(address) =~= pre_exec);
                            lemma_accounts_wf_insert(pre_exec, address, v);
                            lemma_cache_view_insert(pre_exec, address, v);
                        }
                        self.accounts.insert(address, v);
                    },
                }
            } else if acct.is_created() {
                match self.accounts.remove(&address) {
                    Option::Some(mut this) => {
                        proof {
                            lemma_accounts_wf_remove(pre_exec, address);
                        }
                        let tr = this.newly_created(acct.info, acct.storage.duplicate());
                        proof {
                            lemma_accounts_wf_insert(pre_exec.remove(address), address, this);
                            lemma_cache_view_insert(pre_exec.remove(address), address, this);
                            assert(cache_accounts_view(pre_exec.remove(address)) =~= pre_m.remove(
                                address,
                            ));
                            assert(pre_m.remove(address).insert(address, this@) =~= pre_m.insert(
                                address,
                                this@,
                            ));
                            lemma_transition_views_push(transitions@, address, tr);
                        }
                        self.accounts.insert(address, this);
                        transitions.push((address, tr));
                    },
                    Option::None => {
                        proof {
                            assert(pre_exec.remove(address) =~= pre_exec);
                        }
                        let plain = plain_storage_of(&acct.storage);
                        let v = CacheAccount::new_newly_created(acct.info, plain);
                        proof {
                            lemma_accounts_wf_insert(pre_exec, address, v);
                            lemma_cache_view_insert(pre_exec, address, v);
                        }
                        self.accounts.insert(address, v);
                        let tr = TransitionAccount {
                            info: Option::Some(acct.info),
                            status: AccountStatus::InMemoryChange,
                            previous_info: Option::None,
                            previous_status: AccountStatus::LoadedNotExisting,
                            storage: acct.storage.duplicate(),
                        };
                        proof {
                            lemma_transition_views_push(transitions@, address, tr);
                        }
                        transitions.push((address, tr));
                    },
                }
            } else if acct.is_empty() {
                if self.has_state_clear {
                    match self.accounts.remove(&address) {
                        Option::Some(mut this) => {
                            proof {
                                lemma_accounts_wf_remove(pre_exec, address);
                            }
                            let t = this.touch_empty();
                            proof {
                                lemma_accounts_wf_insert(pre_exec.remove(address), address, this);
                                lemma_cache_view_insert(pre_exec.remove(address), address, this);
                                assert(cache_accounts_view(pre_exec.remove(address))
                                    =~= pre_m.remove(address));
                                assert(pre_m.remove(address).insert(address, this@)
                                    =~= pre_m.insert(address, this@));
                            }
                            self.accounts.insert(address, this);
                            match t {
                                Option::Some(tr) => {
                                    proof {
                                        lemma_transition_views_push(transitions@, address, tr);
                                    }
                                    transitions.push((address, tr));
                                },
                                Option::None => {},
                            }
                        },
                        Option::None => {
                            proof {
                                assert(false);
                            }
                        },
                    }
                } else {
                    // without state clearing, empty touched accounts stay
                }
            } else {
                match self.accounts.remove(&address) {
                    Option::Some(mut this) => {
                        proof {
                            lemma_accounts_wf_remove(pre_exec, address);
                        }
                        let tr = this.change(acct.info, acct.storage.duplicate());
                        proof {
                            lemma_accounts_wf_insert(pre_exec.remove(address), address, this);
                            lemma_cache_view_insert(pre_exec.remove(address), address, this);
                            assert(cache_accounts_view(pre_exec.remove(address)) =~= pre_m.remove(
                                address,
                            ));
                            assert(pre_m.remove(address).insert(address, this@) =~= pre_m.insert(
                                address,
                                this@,
                            ));
                            lemma_transition_views_push(transitions@, address, tr);
                        }
                        self.accounts.insert(address, this);
                        transitions.push((address, tr));
                    },
                    Option::None => {
                        proof {
                            assert(pre_exec.remove(address) =~= pre_exec);
                        }
                        let plain = plain_storage_of(&acct.storage);
                        let v = CacheAccount::new_changed(acct.info, plain);
                        proof {
                            lemma_accounts_wf_insert(pre_exec, address, v);
                            lemma_cache_view_insert(pre_exec, address, v);
                        }
                        self.accounts.insert(address, v);
                    },
                }
            }
            proof {
                assert forall|j: int|
                    i + 1 <= j < evm_state@.len() implies (((#[trigger] evm_state@[j]).1.touched
                    && !evm_state@[j].1.selfdestructed && !evm_state@[j].1.created
                    && evm_state@[j].1.info.spec_is_empty()) ==> self.accounts@.dom().contains(
                    evm_state@[j].0,
                )) by {
                    if evm_state@[j].1.touched && !evm_state@[j].1.selfdestructed
                        && !evm_state@[j].1.created && evm_state@[j].1.info.spec_is_empty() {
                        assert(pre_exec.dom().contains(evm_state@[j].0));
                    }
                }
            }
            i = i + 1;
        }
        proof {
            assert(views.take(views.len() as int) =~= views);
        }
        transitions
    }
}

impl Default for CacheState {
    /// The default cache: empty, with state clearing enabled.
    fn default() -> (r: Self)
        ensures
            r.wf(),
            r@.accounts == Map::<Address, CacheAccountView>::empty(),
            r@.contracts == Map::<B256, Bytecode>::empty(),
            r.has_state_clear == true,
    {
        CacheState::new()
    }
}

} // verus!
