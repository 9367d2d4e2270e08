//! The bridge's persistent state: owner configuration, token whitelist,
//! per-asset swap ledger and mint idempotency ledger.
//!
//! Every container carries a well-formedness invariant (`wf`) that its
//! constructors establish and its mutating operations preserve:
//! whitelist addresses are unique, mint identifiers are unique, and each
//! asset's swap records carry exactly their position as nonce.

use vstd::prelude::*;
use crate::error::ContractError;

verus! {

// ------------------------------------------------------------------
// Mathematical views of the stored records
// ------------------------------------------------------------------

/// View of [`State`].
#[verifier::ext_equal]
pub ghost struct StateV {
    pub owner: Seq<char>,
    pub paused: bool,
}

/// View of a whitelist entry ([`Contract`]).
#[verifier::ext_equal]
pub ghost struct ContractV {
    pub address: Seq<char>,
    pub code_hash: Seq<char>,
    pub minimum_amount: u128,
}

/// View of a [`Swap`] record.
#[verifier::ext_equal]
pub ghost struct SwapV {
    pub destination: Seq<char>,
    pub source: Seq<char>,
    pub amount: u128,
    pub token: Seq<char>,
    pub nonce: u64,
}

/// View of a [`Mint`] record.
#[verifier::ext_equal]
pub ghost struct MintV {
    pub identifier: Seq<char>,
    pub amount: u128,
    pub address: Seq<char>,
}

// ------------------------------------------------------------------
// Owner and pause flag
// ------------------------------------------------------------------

/// The bridge configuration: the owner address and the pause flag.
#[derive(Debug)]
pub struct State {
    pub owner: String,
    pub paused: bool,
}

impl View for State {
    type V = StateV;

    open spec fn view(&self) -> StateV {
        StateV { owner: self.owner@, paused: self.paused }
    }
}

impl State {
    /// Whether `caller` is the bridge owner.
    pub fn is_owner(&self, caller: &String) -> (r: bool)
        ensures
            r == (self@.owner == caller@),
    {
        self.owner == *caller
    }
}

// ------------------------------------------------------------------
// Whitelist entries
// ------------------------------------------------------------------

/// A whitelisted token contract: its address, its verification identifier
/// (opaque to the bridge) and the minimum amount allowed to swap.
#[derive(Debug)]
pub struct Contract {
    pub address: String,
    pub code_hash: String,
    pub minimum_amount: u128,
}

impl View for Contract {
    type V = ContractV;

    open spec fn view(&self) -> ContractV {
        ContractV {
            address: self.address@,
            code_hash: self.code_hash@,
            minimum_amount: self.minimum_amount,
        }
    }
}

impl Clone for Contract {
    fn clone(&self) -> (r: Self)
        ensures
            r@ == self@,
    {
        Contract {
            address: self.address.clone(),
            code_hash: self.code_hash.clone(),
            minimum_amount: self.minimum_amount,
        }
    }
}

/// Whitelist identity is the address alone: two entries with the same
/// address are the same entry regardless of their other fields.
impl PartialEq for Contract {
    fn eq(&self, other: &Self) -> (r: bool) {
        self.address == other.address
    }
}

impl vstd::std_specs::cmp::PartialEqSpecImpl for Contract {
    open spec fn obeys_eq_spec() -> bool {
        true
    }

    open spec fn eq_spec(&self, other: &Self) -> bool {
        self.address@ == other.address@
    }
}

// ------------------------------------------------------------------
// Whitelist
// ------------------------------------------------------------------

/// Whether some entry of `s` has address `addr`.
pub open spec fn contains_addr(s: Seq<ContractV>, addr: Seq<char>) -> bool {
    exists|i: int| 0 <= i < s.len() && (#[trigger] s[i]).address == addr
}

/// The index of the entry with address `addr` (meaningful only when
/// `contains_addr` holds; unique whenever `addresses_distinct` holds).
pub open spec fn index_of_addr(s: Seq<ContractV>, addr: Seq<char>) -> int {
    choose|i: int| 0 <= i < s.len() && (#[trigger] s[i]).address == addr
}

/// The entry of `s` with address `addr`.
pub open spec fn entry_for(s: Seq<ContractV>, addr: Seq<char>) -> ContractV {
    s[index_of_addr(s, addr)]
}

/// No two entries of `s` share an address.
pub open spec fn addresses_distinct(s: Seq<ContractV>) -> bool {
    forall|i: int, j: int|
        0 <= i < j < s.len() ==> (#[trigger] s[i]).address != (#[trigger] s[j]).address
}

/// What adding `t` does to a whitelist: a no-op when the address is
/// already present, an append otherwise.
pub open spec fn add_entry(s: Seq<ContractV>, t: ContractV) -> Seq<ContractV> {
    if contains_addr(s, t.address) {
        s
    } else {
        s.push(t)
    }
}

/// What removing `addr` does to a whitelist: a no-op when the address is
/// absent, removal of its entry otherwise.
pub open spec fn remove_entry(s: Seq<ContractV>, addr: Seq<char>) -> Seq<ContractV> {
    if contains_addr(s, addr) {
        s.remove(index_of_addr(s, addr))
    } else {
        s
    }
}

/// The registry of token contracts permitted to use the bridge, in
/// insertion order.
#[derive(Debug)]
pub struct TokenWhiteList {
    pub tokens: Vec<Contract>,
}

impl View for TokenWhiteList {
    type V = Seq<ContractV>;

    open spec fn view(&self) -> Seq<ContractV> {
        self.tokens@.map_values(|c: Contract| c@)
    }
}

impl TokenWhiteList {
    /// Entry addresses are unique.
    pub open spec fn wf(&self) -> bool {
        addresses_distinct(self@)
    }

    /// An empty whitelist.
    pub fn new() -> (wl: TokenWhiteList)
        ensures
            wl.wf(),
            wl@ == Seq::<ContractV>::empty(),
    {
        let wl = TokenWhiteList { tokens: Vec::new() };
        proof {
            assert(wl@ =~= Seq::<ContractV>::empty());
        }
        wl
    }

    /// The position of the first entry with the given address.
    fn position_of(&self, address: &String) -> (r: Option<usize>)
        ensures
            match r {
                Some(i) => 0 <= i < self@.len() && self@[i as int].address == address@,
                None => !contains_addr(self@, address@),
            },
    {
        let mut i: usize = 0;
        while i < self.tokens.len()
            invariant
                0 <= i <= self@.len(),
                self@.len() == self.tokens@.len(),
                forall|j: int| 0 <= j < i ==> (#[trigger] self@[j]).address != address@,
            decreases self.tokens.len() - i,
        {
            if self.tokens[i].address == *address {
                return Some(i);
            }
            i = i + 1;
        }
        None
    }

    /// Adds `token` unless an entry with the same address already exists;
    /// a duplicate add is a no-op that preserves the existing entry.
    pub fn add(&mut self, token: &Contract)
        requires
            old(self).wf(),
        ensures
            final(self).wf(),
            final(self)@ == add_entry(old(self)@, token@),
    {
        match self.position_of(&token.address) {
            Some(_) => {},
            None => {
                self.tokens.push(token.clone());
                proof {
                    assert(self@ =~= old(self)@.push(token@));
                }
            },
        }
    }

    /// Removes the entry with the given address; removing an address that
    /// is not whitelisted is a no-op.
    pub fn remove(&mut self, address: &String)
        requires
            old(self).wf(),
        ensures
            final(self).wf(),
            final(self)@ == remove_entry(old(self)@, address@),
    {
        match self.position_of(address) {
            Some(i) => {
                proof {
                    lemma_index_of_addr_is(old(self)@, address@, i as int);
                }
                self.tokens.remove(i);
                proof {
                    assert(self@ =~= old(self)@.remove(i as int));
                }
            },
            None => {},
        }
    }

    /// Returns the entry with the given address, or `NotFound` if the
    /// address is not whitelisted.
    pub fn get(&self, address: &String) -> (r: Result<Contract, ContractError>)
        requires
            self.wf(),
        ensures
            r is Ok <==> contains_addr(self@, address@),
            r matches Ok(c) ==> c@ == entry_for(self@, address@),
            r is Err ==> r == Err::<Contract, ContractError>(ContractError::NotFound),
    {
        match self.position_of(address) {
            Some(i) => {
                proof {
                    lemma_index_of_addr_is(self@, address@, i as int);
                }
                Ok(self.tokens[i].clone())
            },
            None => Err(ContractError::NotFound),
        }
    }

    /// All entries, in insertion order.
    pub fn all(&self) -> (r: Vec<Contract>)
        ensures
            r@.map_values(|c: Contract| c@) == self@,
    {
        let mut out: Vec<Contract> = Vec::new();
        let mut i: usize = 0;
        while i < self.tokens.len()
            invariant
                0 <= i <= self.tokens@.len(),
                out@.map_values(|c: Contract| c@) =~= self@.take(i as int),
            decreases self.tokens.len() - i,
        {
            let ghost out_pre = out@;
            out.push(self.tokens[i].clone());
            proof {
                out_pre.lemma_push_map_commute(|c: Contract| c@, out@[i as int]);
                self@.lemma_take_succ_push(i as int);
                assert(out@[i as int]@ == self@[i as int]);
                assert(out@.map_values(|c: Contract| c@) =~= self@.take(i + 1));
            }
            i = i + 1;
        }
        proof {
            assert(out@.map_values(|c: Contract| c@) =~= self@);
        }
        out
    }
}

/// In a whitelist with distinct addresses, any index whose entry carries
/// `addr` is the index that `index_of_addr` picks.
pub proof fn lemma_index_of_addr_is(s: Seq<ContractV>, addr: Seq<char>, i: int)
    requires
        addresses_distinct(s),
        0 <= i < s.len(),
        s[i].address == addr,
    ensures
        contains_addr(s, addr),
        index_of_addr(s, addr) == i,
{
    assert(contains_addr(s, addr));
    let k = index_of_addr(s, addr);
    assert(0 <= k < s.len() && s[k].address == addr);
    if k < i {
        assert(s[k].address != s[i].address);
    } else if i < k {
        assert(s[i].address != s[k].address);
    }
}

// ------------------------------------------------------------------
// Swap ledger
// ------------------------------------------------------------------

/// An outbound transfer, burned locally and pending release on the
/// external chain. Immutable once appended to the ledger.
#[derive(Debug)]
pub struct Swap {
    pub destination: String,
    pub source: String,
    pub amount: u128,
    pub token: String,
    pub nonce: u64,
}

impl View for Swap {
    type V = SwapV;

    open spec fn view(&self) -> SwapV {
        SwapV {
            destination: self.destination@,
            source: self.source@,
            amount: self.amount,
            token: self.token@,
            nonce: self.nonce,
        }
    }
}

impl Clone for Swap {
    fn clone(&self) -> (r: Self)
        ensures
            r@ == self@,
    {
        Swap {
            destination: self.destination.clone(),
            source: self.source.clone(),
            amount: self.amount,
            token: self.token.clone(),
            nonce: self.nonce,
        }
    }
}

/// `s` with its nonce replaced by `n`.
pub open spec fn with_nonce(s: SwapV, n: u64) -> SwapV {
    SwapV { nonce: n, ..s }
}

/// The append-only swap records of one asset.
#[derive(Debug)]
pub struct AssetSwaps {
    pub token: String,
    pub swaps: Vec<Swap>,
}

/// The per-asset, append-only ledger of outbound transfers. Each asset's
/// records form an independent sequence whose positions are the nonces.
#[derive(Debug)]
pub struct SwapLedger {
    pub assets: Vec<AssetSwaps>,
}

impl SwapLedger {
    /// No two per-asset sequences belong to the same token.
    pub open spec fn tokens_distinct(&self) -> bool {
        forall|i: int, j: int|
            0 <= i < j < self.assets@.len() ==> (#[trigger] self.assets@[i]).token@ != (
            #[trigger] self.assets@[j]).token@
    }

    /// Every record sits in its own asset's sequence and carries its
    /// position there as nonce.
    pub open spec fn records_wf(&self) -> bool {
        forall|i: int, k: int|
            0 <= i < self.assets@.len() && 0 <= k < self.assets@[i].swaps@.len() ==> (
            #[trigger] self.assets@[i].swaps@[k])@.token == self.assets@[i].token@
                && self.assets@[i].swaps@[k]@.nonce == k
    }

    pub open spec fn wf(&self) -> bool {
        self.tokens_distinct() && self.records_wf()
    }

    /// Whether the ledger holds a sequence for `token`.
    pub open spec fn has_asset(&self, token: Seq<char>) -> bool {
        exists|i: int| 0 <= i < self.assets@.len() && (#[trigger] self.assets@[i]).token@ == token
    }

    /// The index of `token`'s sequence (unique under `tokens_distinct`).
    pub open spec fn asset_index(&self, token: Seq<char>) -> int {
        choose|i: int| 0 <= i < self.assets@.len() && (#[trigger] self.assets@[i]).token@ == token
    }

    /// The swap history of `token`, oldest first; empty if the asset has
    /// no sequence yet.
    pub open spec fn swaps_of(&self, token: Seq<char>) -> Seq<SwapV> {
        if self.has_asset(token) {
            self.assets@[self.asset_index(token)].swaps@.map_values(|s: Swap| s@)
        } else {
            Seq::empty()
        }
    }

    /// In a well-formed ledger, any index whose sequence belongs to
    /// `token` is the index that `asset_index` picks.
    pub proof fn lemma_asset_index_is(&self, token: Seq<char>, i: int)
        requires
            self.tokens_distinct(),
            0 <= i < self.assets@.len(),
            self.assets@[i].token@ == token,
        ensures
            self.has_asset(token),
            self.asset_index(token) == i,
            self.swaps_of(token) == self.assets@[i].swaps@.map_values(|s: Swap| s@),
    {
        assert(self.has_asset(token));
        let k = self.asset_index(token);
        assert(0 <= k < self.assets@.len() && self.assets@[k].token@ == token);
        if k < i {
            assert(self.assets@[k].token@ != self.assets@[i].token@);
        } else if i < k {
            assert(self.assets@[i].token@ != self.assets@[k].token@);
        }
    }

    /// An empty ledger: no asset has any history.
    pub fn new() -> (l: SwapLedger)
        ensures
            l.wf(),
            forall|t: Seq<char>| #[trigger] l.swaps_of(t) == Seq::<SwapV>::empty(),
    {
        SwapLedger { assets: Vec::new() }
    }

    /// The position of `token`'s sequence, if it exists.
    fn position_of(&self, token: &String) -> (r: Option<usize>)
        ensures
            match r {
                Some(i) => 0 <= i < self.assets@.len() && self.assets@[i as int].token@ == token@,
                None => !self.has_asset(token@),
            },
    {
        let mut i: usize = 0;
        while i < self.assets.len()
            invariant
                0 <= i <= self.assets@.len(),
                forall|j: int| 0 <= j < i ==> (#[trigger] self.assets@[j]).token@ != token@,
            decreases self.assets.len() - i,
        {
            if self.assets[i].token == *token {
                return Some(i);
            }
            i = i + 1;
        }
        None
    }

    /// Appends `swap` to its token's sequence, assigning as nonce the
    /// number of prior records of that token; other assets' histories are
    /// untouched. Returns the assigned nonce.
    pub fn store(&mut self, swap: Swap) -> (nonce: u64)
        requires
            old(self).wf(),
        ensures
            final(self).wf(),
            nonce == old(self).swaps_of(swap.token@).len(),
            final(self).swaps_of(swap.token@) == old(self).swaps_of(swap.token@).push(
                with_nonce(swap@, nonce),
            ),
            forall|t: Seq<char>|
                t != swap.token@ ==> #[trigger] final(self).swaps_of(t) == old(self).swaps_of(t),
    {
        let ghost pre = *self;
        let ghost sv = swap@;
        match self.position_of(&swap.token) {
            Some(i) => {
                let mut entry = self.assets.remove(i);
                let nonce = entry.swaps.len() as u64;
                let rec = Swap {
                    destination: swap.destination,
                    source: swap.source,
                    amount: swap.amount,
                    token: swap.token,
                    nonce,
                };
                let ghost entry_pre = entry;
                let ghost rec_v = rec@;
                entry.swaps.push(rec);
                self.assets.insert(i, entry);
                proof {
                    assert(rec_v == with_nonce(sv, nonce));
                    assert(self.assets@ =~= pre.assets@.update(i as int, self.assets@[i as int]));
                    Self::lemma_store_at_index(pre, *self, i as int, rec_v);
                    pre.lemma_asset_index_is(sv.token, i as int);
                }
                nonce
            },
            None => {
                let token_copy = swap.token.clone();
                let rec = Swap {
                    destination: swap.destination,
                    source: swap.source,
                    amount: swap.amount,
                    token: swap.token,
                    nonce: 0,
                };
                let ghost rec_v = rec@;
                let mut swaps: Vec<Swap> = Vec::new();
                swaps.push(rec);
                self.assets.push(AssetSwaps { token: token_copy, swaps });
                proof {
                    assert(rec_v == with_nonce(sv, 0));
                    Self::lemma_store_fresh(pre, *self, rec_v);
                }
                0
            },
        }
    }

    /// The effect of appending one record to the sequence at index `i`:
    /// well-formedness is preserved, that token's history grows by the
    /// record, and every other history is untouched.
    proof fn lemma_store_at_index(pre: SwapLedger, post: SwapLedger, i: int, rec: SwapV)
        requires
            pre.wf(),
            0 <= i < pre.assets@.len(),
            pre.assets@[i].token@ == rec.token,
            rec.nonce == pre.assets@[i].swaps@.len(),
            post.assets@.len() == pre.assets@.len(),
            forall|j: int|
                0 <= j < pre.assets@.len() && j != i ==> #[trigger] post.assets@[j]
                    == pre.assets@[j],
            post.assets@[i].token@ == pre.assets@[i].token@,
            post.assets@[i].swaps@.len() == pre.assets@[i].swaps@.len() + 1,
            forall|k: int|
                0 <= k < pre.assets@[i].swaps@.len() ==> #[trigger] post.assets@[i].swaps@[k]
                    == pre.assets@[i].swaps@[k],
            post.assets@[i].swaps@[pre.assets@[i].swaps@.len() as int]@ == rec,
        ensures
            post.wf(),
            post.swaps_of(rec.token) == pre.swaps_of(rec.token).push(rec),
            forall|t: Seq<char>|
                t != rec.token ==> #[trigger] post.swaps_of(t) == pre.swaps_of(t),
    {
        let tok = rec.token;
        assert forall|j: int| 0 <= j < post.assets@.len() implies (#[trigger] post.assets@[j]).token@
            == pre.assets@[j].token@ by {}
        assert(post.tokens_distinct());
        assert forall|j: int, k: int|
            0 <= j < post.assets@.len() && 0 <= k < post.assets@[j].swaps@.len() implies (
        #[trigger] post.assets@[j].swaps@[k])@.token == post.assets@[j].token@
            && post.assets@[j].swaps@[k]@.nonce == k by {
            if j != i {
                assert(pre.assets@[j].swaps@[k]@.token == pre.assets@[j].token@);
            } else if k < pre.assets@[i].swaps@.len() {
                assert(post.assets@[i].swaps@[k] == pre.assets@[i].swaps@[k]);
            }
        }
        pre.lemma_asset_index_is(tok, i);
        post.lemma_asset_index_is(tok, i);
        assert(post.swaps_of(tok) =~= pre.swaps_of(tok).push(rec));
        assert forall|t: Seq<char>| t != tok implies #[trigger] post.swaps_of(t) == pre.swaps_of(
            t,
        ) by {
            if pre.has_asset(t) {
                let j = choose|j: int|
                    0 <= j < pre.assets@.len() && (#[trigger] pre.assets@[j]).token@ == t;
                pre.lemma_asset_index_is(t, j);
                post.lemma_asset_index_is(t, j);
            } else {
                assert(!post.has_asset(t));
            }
        }
    }

    /// The effect of creating a fresh one-record sequence for a token
    /// that had none: its history becomes that single record, every other
    /// history is untouched.
    proof fn lemma_store_fresh(pre: SwapLedger, post: SwapLedger, rec: SwapV)
        requires
            pre.wf(),
            !pre.has_asset(rec.token),
            rec.nonce == 0,
            post.assets@.len() == pre.assets@.len() + 1,
            forall|j: int|
                0 <= j < pre.assets@.len() ==> #[trigger] post.assets@[j] == pre.assets@[j],
            post.assets@[pre.assets@.len() as int].token@ == rec.token,
            post.assets@[pre.assets@.len() as int].swaps@.len() == 1,
            post.assets@[pre.assets@.len() as int].swaps@[0]@ == rec,
        ensures
            post.wf(),
            post.swaps_of(rec.token) == pre.swaps_of(rec.token).push(rec),
            pre.swaps_of(rec.token).len() == 0,
            forall|t: Seq<char>|
                t != rec.token ==> #[trigger] post.swaps_of(t) == pre.swaps_of(t),
    {
        let tok = rec.token;
        let n = pre.assets@.len() as int;
        assert forall|i: int, j: int| 0 <= i < j < post.assets@.len() implies (
        #[trigger] post.assets@[i]).token@ != (#[trigger] post.assets@[j]).token@ by {
            if j == n {
                assert(post.assets@[i] == pre.assets@[i]);
            }
        }
        assert forall|j: int, k: int|
            0 <= j < post.assets@.len() && 0 <= k < post.assets@[j].swaps@.len() implies (
        #[trigger] post.assets@[j].swaps@[k])@.token == post.assets@[j].token@
            && post.assets@[j].swaps@[k]@.nonce == k by {
            if j < n {
                assert(pre.assets@[j].swaps@[k]@.token == pre.assets@[j].token@);
            }
        }
        post.lemma_asset_index_is(tok, n);
        assert(post.swaps_of(tok) =~= pre.swaps_of(tok).push(rec));
        assert forall|t: Seq<char>| t != tok implies #[trigger] post.swaps_of(t) == pre.swaps_of(
            t,
        ) by {
            if pre.has_asset(t) {
                let j = choose|j: int|
                    0 <= j < pre.assets@.len() && (#[trigger] pre.assets@[j]).token@ == t;
                pre.lemma_asset_index_is(t, j);
                post.lemma_asset_index_is(t, j);
            } else {
                assert(!post.has_asset(t));
            }
        }
    }

    /// Returns the record of `token` at position `key`, or `NotFound`
    /// when the asset has no sequence or `key` is out of range. Read
    /// access never returns a different value for the same key.
    pub fn get(&self, token: &String, key: u64) -> (r: Result<Swap, ContractError>)
        requires
            self.wf(),
        ensures
            r is Ok <==> key < self.swaps_of(token@).len(),
            r matches Ok(s) ==> s@ == self.swaps_of(token@)[key as int],
            r is Err ==> r == Err::<Swap, ContractError>(ContractError::NotFound),
    {
        match self.position_of(token) {
            Some(i) => {
                proof {
                    self.lemma_asset_index_is(token@, i as int);
                }
                let entry = &self.assets[i];
                if key < entry.swaps.len() as u64 {
                    let k = key as usize;
                    Ok(entry.swaps[k].clone())
                } else {
                    Err(ContractError::NotFound)
                }
            },
            None => Err(ContractError::NotFound),
        }
    }
}

/// The round trip of the swap ledger: a history extended by `store` with
/// record `rec` at nonce `nonce` yields exactly `rec` when indexed there,
/// so a fetch by `(asset, nonce)` returns the value that was appended.
pub proof fn lemma_store_then_get(pre: Seq<SwapV>, post: Seq<SwapV>, rec: SwapV, nonce: u64)
    requires
        post == pre.push(rec),
        nonce == pre.len(),
    ensures
        nonce < post.len(),
        post[nonce as int] == rec,
{
}

/// Nonces are contiguous: for every asset the ledger's records carry the
/// nonces `0, 1, 2, ...` in order, with no gaps, independent of other
/// assets' activity.
pub proof fn lemma_nonces_contiguous(l: SwapLedger, token: Seq<char>)
    requires
        l.wf(),
    ensures
        forall|k: int| 0 <= k < l.swaps_of(token).len() ==> (#[trigger] l.swaps_of(token)[k]).nonce
            == k,
{
    if l.has_asset(token) {
        let i = l.asset_index(token);
        assert(0 <= i < l.assets@.len() && l.assets@[i].token@ == token);
        assert forall|k: int| 0 <= k < l.swaps_of(token).len() implies (
        #[trigger] l.swaps_of(token)[k]).nonce == k by {
            assert(l.assets@[i].swaps@[k]@.nonce == k);
        }
    }
}

// ------------------------------------------------------------------
// Mint ledger
// ------------------------------------------------------------------

/// An external deposit that has been credited locally. The identifier is
/// supplied by the external chain and must never be credited twice.
#[derive(Debug)]
pub struct Mint {
    pub identifier: String,
    pub amount: u128,
    pub address: String,
}

impl View for Mint {
    type V = MintV;

    open spec fn view(&self) -> MintV {
        MintV { identifier: self.identifier@, amount: self.amount, address: self.address@ }
    }
}

impl Clone for Mint {
    fn clone(&self) -> (r: Self)
        ensures
            r@ == self@,
    {
        Mint {
            identifier: self.identifier.clone(),
            amount: self.amount,
            address: self.address.clone(),
        }
    }
}

/// Whether some record of `s` carries the identifier `id`.
pub open spec fn has_id(s: Seq<MintV>, id: Seq<char>) -> bool {
    exists|i: int| 0 <= i < s.len() && (#[trigger] s[i]).identifier == id
}

/// No two records of `s` share an identifier.
pub open spec fn identifiers_distinct(s: Seq<MintV>) -> bool {
    forall|i: int, j: int|
        0 <= i < j < s.len() ==> (#[trigger] s[i]).identifier != (#[trigger] s[j]).identifier
}

/// The set of external deposits already credited: the bridge's sole
/// defense against double-crediting.
#[derive(Debug)]
pub struct MintLedger {
    pub mints: Vec<Mint>,
}

impl View for MintLedger {
    type V = Seq<MintV>;

    open spec fn view(&self) -> Seq<MintV> {
        self.mints@.map_values(|m: Mint| m@)
    }
}

impl MintLedger {
    /// Identifiers are unique across all time.
    pub open spec fn wf(&self) -> bool {
        identifiers_distinct(self@)
    }

    /// An empty ledger.
    pub fn new() -> (l: MintLedger)
        ensures
            l.wf(),
            l@ == Seq::<MintV>::empty(),
    {
        let l = MintLedger { mints: Vec::new() };
        proof {
            assert(l@ =~= Seq::<MintV>::empty());
        }
        l
    }

    /// Whether `identifier` has already been credited.
    pub fn exists_id(&self, identifier: &String) -> (r: bool)
        ensures
            r == has_id(self@, identifier@),
    {
        let mut i: usize = 0;
        while i < self.mints.len()
            invariant
                0 <= i <= self.mints@.len(),
                self@.len() == self.mints@.len(),
                forall|j: int| 0 <= j < i ==> (#[trigger] self@[j]).identifier != identifier@,
            decreases self.mints.len() - i,
        {
            if self.mints[i].identifier == *identifier {
                proof {
                    assert(self@[i as int].identifier == identifier@);
                }
                return true;
            }
            i = i + 1;
        }
        false
    }

    /// Records a credited deposit; fails with `AlreadyProcessed`, and
    /// stores nothing, when the identifier is already present.
    pub fn store(&mut self, mint: Mint) -> (r: Result<(), ContractError>)
        requires
            old(self).wf(),
        ensures
            final(self).wf(),
            has_id(old(self)@, mint.identifier@) ==> r == Err::<(), ContractError>(
                ContractError::AlreadyProcessed,
            ) && *final(self) == *old(self),
            !has_id(old(self)@, mint.identifier@) ==> r is Ok && final(self)@ == old(self)@.push(
                mint@,
            ),
    {
        let ghost pre = self@;
        if self.exists_id(&mint.identifier) {
            return Err(ContractError::AlreadyProcessed);
        }
        let ghost mv = mint@;
        self.mints.push(mint);
        proof {
            assert(self@ =~= pre.push(mv));
            assert forall|i: int, j: int| 0 <= i < j < self@.len() implies (
            #[trigger] self@[i]).identifier != (#[trigger] self@[j]).identifier by {
                if j == pre.len() {
                    assert(self@[i] == pre[i]);
                }
            }
        }
        Ok(())
    }
}

/// Adding the same token address twice leaves the whitelist with exactly
/// one entry for it, whose fields are those of the first add: the second
/// add changes nothing, in particular not the minimum amount.
pub proof fn lemma_add_duplicate_address(wl: Seq<ContractV>, t1: ContractV, t2: ContractV)
    requires
        addresses_distinct(wl),
        !contains_addr(wl, t1.address),
        t2.address == t1.address,
    ensures
        add_entry(add_entry(wl, t1), t2) == add_entry(wl, t1),
        addresses_distinct(add_entry(wl, t1)),
        contains_addr(add_entry(wl, t1), t1.address),
        entry_for(add_entry(add_entry(wl, t1), t2), t2.address) == t1,
        entry_for(add_entry(add_entry(wl, t1), t2), t2.address).minimum_amount == t1.minimum_amount,
{
    let once = add_entry(wl, t1);
    assert(once == wl.push(t1));
    assert(once[wl.len() as int] == t1);
    assert(contains_addr(once, t1.address));
    assert forall|i: int, j: int| 0 <= i < j < once.len() implies (#[trigger] once[i]).address
        != (#[trigger] once[j]).address by {
        if j == wl.len() {
            assert(once[i] == wl[i]);
        }
    }
    lemma_index_of_addr_is(once, t1.address, wl.len() as int);
    assert(entry_for(once, t1.address) == t1);
}

} // verus!
