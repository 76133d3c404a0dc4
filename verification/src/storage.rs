//! The marketplace state: the configured addresses, the price, the tokens
//! listed for sale and the recorded owner of each deposited token.
use std::collections::HashMap;
use vstd::prelude::*;
use vstd::string::*;

use crate::text::{lowercase, lowercase_of};

verus! {

broadcast use vstd::std_specs::hash::group_hash_axioms;

/// The address that stands for "nobody": the unset application address and
/// the owner of a token that has been sold and withdrawn.
pub open spec fn zero_address() -> Seq<char> {
    "0x0000000000000000000000000000000000000000"@
}

/// The zero address as a string.
pub fn zero_address_string() -> (r: String)
    ensures
        r@ == zero_address(),
{
    String::from_str("0x0000000000000000000000000000000000000000")
}

/// The marketplace state.
pub struct Storage {
    erc721_portal_address: String,
    erc20_portal_address: String,
    erc721_token: String,
    erc20_token: String,
    app_address: String,
    list_price: u128,
    listed_tokens: Vec<u128>,
    erc721_id_to_owner_address: HashMap<u128, String>,
}

/// The marketplace state as plain values.
pub struct StorageView {
    pub erc721_portal_address: Seq<char>,
    pub erc20_portal_address: Seq<char>,
    pub erc721_token: Seq<char>,
    pub erc20_token: Seq<char>,
    pub app_address: Seq<char>,
    pub list_price: u128,
    pub listed_tokens: Seq<u128>,
    pub owners: Map<u128, Seq<char>>,
}

impl StorageView {
    /// No token is listed twice, and every listed token has a recorded owner.
    pub open spec fn well_formed(self) -> bool {
        &&& self.listed_tokens.no_duplicates()
        &&& forall|t: u128| #[trigger] self.listed_tokens.contains(t) ==> self.owners.contains_key(t)
    }

    /// Whether a token is listed for sale.
    pub open spec fn is_listed(self, token_id: u128) -> bool {
        self.listed_tokens.contains(token_id)
    }

    /// The same state with `token_id` listed (at the end of the list, unless it already was).
    pub open spec fn with_listed(self, token_id: u128) -> StorageView {
        StorageView {
            listed_tokens: if self.listed_tokens.contains(token_id) {
                self.listed_tokens
            } else {
                self.listed_tokens.push(token_id)
            },
            ..self
        }
    }

    /// The state after a deposit of `token_id` by `depositor`: the token is
    /// listed and its owner is the depositor's address in lowercase.
    pub open spec fn after_deposit(self, token_id: u128, depositor: Seq<char>) -> StorageView {
        StorageView {
            owners: self.owners.insert(token_id, lowercase_of(depositor)),
            ..self.with_listed(token_id)
        }
    }

    /// The state after the sale of `token_id`: the token is no longer listed,
    /// and its recorded owner, if any, becomes the zero address.
    pub open spec fn after_sale(self, token_id: u128) -> StorageView {
        StorageView {
            listed_tokens: self.listed_tokens.filter(other_than(token_id)),
            owners: if self.owners.contains_key(token_id) {
                self.owners.insert(token_id, zero_address())
            } else {
                self.owners
            },
            ..self
        }
    }
}

/// A token deposited and then sold is no longer listed and is owned by the
/// zero address, and the listing is what it was before the deposit, less
/// that token; every other token keeps its listing and its owner.
pub proof fn lemma_deposit_then_sale(state: StorageView, token_id: u128, depositor: Seq<char>)
    requires
        state.well_formed(),
    ensures
        ({
            let end = state.after_deposit(token_id, depositor).after_sale(token_id);
            &&& !end.is_listed(token_id)
            &&& end.owners.contains_key(token_id)
            &&& end.owners[token_id] == zero_address()
            &&& end.listed_tokens == state.listed_tokens.filter(other_than(token_id))
            &&& forall|u: u128|
                u != token_id ==> (#[trigger] end.is_listed(u) == state.is_listed(u)
                    && end.owners.contains_key(u) == state.owners.contains_key(u) && end.owners[u]
                    == state.owners[u])
        }),
{
    let mid = state.after_deposit(token_id, depositor);
    let end = mid.after_sale(token_id);
    let pred = other_than(token_id);
    if !state.listed_tokens.contains(token_id) {
        state.listed_tokens.lemma_filter_push(token_id, pred);
    }
    assert(end.listed_tokens == state.listed_tokens.filter(pred));
    if end.listed_tokens.contains(token_id) {
        state.listed_tokens.lemma_filter_contains_rev(pred, token_id);
        let i = choose|i: int| 0 <= i < end.listed_tokens.len() && end.listed_tokens[i] == token_id;
        state.listed_tokens.lemma_filter_pred(pred, i);
    }
    assert forall|u: u128| u != token_id implies (#[trigger] end.is_listed(u) == state.is_listed(u)
        && end.owners.contains_key(u) == state.owners.contains_key(u) && end.owners[u]
        == state.owners[u]) by {
        if end.is_listed(u) {
            state.listed_tokens.lemma_filter_contains_rev(pred, u);
        }
        if state.is_listed(u) {
            let i = choose|i: int| 0 <= i < state.listed_tokens.len() && state.listed_tokens[i] == u;
            state.listed_tokens.lemma_filter_contains(pred, i);
        }
    }
}

/// A sale of a listed token removes exactly one entry from the listing.
pub proof fn lemma_sale_unlists_once(state: StorageView, token_id: u128)
    requires
        state.well_formed(),
        state.is_listed(token_id),
    ensures
        state.after_sale(token_id).listed_tokens.len() + 1 == state.listed_tokens.len(),
{
    lemma_filter_len_single(state.listed_tokens, token_id);
}

proof fn lemma_filter_len_single(s: Seq<u128>, x: u128)
    requires
        s.no_duplicates(),
    ensures
        s.filter(other_than(x)).len() + (if s.contains(x) { 1int } else { 0int }) == s.len(),
    decreases s.len(),
{
    reveal_with_fuel(Seq::filter, 1);
    if s.len() > 0 {
        let rest = s.drop_last();
        assert(rest.no_duplicates());
        lemma_filter_len_single(rest, x);
        assert(s =~= rest.push(s.last()));
        if s.last() == x {
            assert(!rest.contains(x));
        } else {
            if rest.contains(x) {
                assert(s.contains(x));
            }
            if s.contains(x) {
                let i = choose|i: int| 0 <= i < s.len() && s[i] == x;
                assert(rest[i] == x);
            }
        }
    }
}

/// Listing a token that is already listed changes nothing: listing twice is
/// listing once.
pub proof fn lemma_listing_idempotent(state: StorageView, token_id: u128)
    ensures
        state.with_listed(token_id).with_listed(token_id) == state.with_listed(token_id),
{
    if !state.listed_tokens.contains(token_id) {
        assert(state.listed_tokens.push(token_id)[state.listed_tokens.len() as int] == token_id);
    }
}

/// Listing a token keeps the listing free of duplicates and adds exactly
/// that token to the set of listed tokens.
pub proof fn lemma_listing_adds_token(state: StorageView, token_id: u128)
    requires
        state.listed_tokens.no_duplicates(),
    ensures
        state.with_listed(token_id).listed_tokens.no_duplicates(),
        state.with_listed(token_id).listed_tokens.to_set() == state.listed_tokens.to_set().insert(token_id),
{
    let after = state.with_listed(token_id).listed_tokens;
    if !state.listed_tokens.contains(token_id) {
        assert(after == state.listed_tokens.push(token_id));
        assert forall|i: int, j: int| 0 <= i < after.len() && 0 <= j < after.len() && i != j implies after[i]
            != after[j] by {
            if i < state.listed_tokens.len() && j == state.listed_tokens.len() {
                assert(state.listed_tokens[i] == after[i]);
            }
            if j < state.listed_tokens.len() && i == state.listed_tokens.len() {
                assert(state.listed_tokens[j] == after[j]);
            }
        }
    }
    assert forall|u: u128| #[trigger] after.to_set().contains(u) <==> state.listed_tokens.to_set().insert(token_id).contains(u) by {
        if !state.listed_tokens.contains(token_id) {
            if u == token_id {
                assert(after[state.listed_tokens.len() as int] == u);
            } else if after.contains(u) {
                let i = choose|i: int| 0 <= i < after.len() && after[i] == u;
                assert(state.listed_tokens[i] == u);
            } else if state.listed_tokens.contains(u) {
                let i = choose|i: int| 0 <= i < state.listed_tokens.len() && state.listed_tokens[i] == u;
                assert(after[i] == u);
            }
        }
    }
    assert(after.to_set() =~= state.listed_tokens.to_set().insert(token_id));
}

/// The predicate "is not `token_id`".
pub open spec fn other_than(token_id: u128) -> spec_fn(u128) -> bool {
    |t: u128| t != token_id
}

impl View for Storage {
    type V = StorageView;

    closed spec fn view(&self) -> StorageView {
        StorageView {
            erc721_portal_address: self.erc721_portal_address@,
            erc20_portal_address: self.erc20_portal_address@,
            erc721_token: self.erc721_token@,
            erc20_token: self.erc20_token@,
            app_address: self.app_address@,
            list_price: self.list_price,
            listed_tokens: self.listed_tokens@,
            owners: self.erc721_id_to_owner_address@.map_values(|s: String| s@),
        }
    }
}

impl Storage {
    /// The state's invariant: no token is listed twice, and every listed
    /// token has a recorded owner.
    #[verifier::type_invariant]
    pub open spec fn state_invariant(self) -> bool {
        self@.well_formed()
    }
}

/// Whether `items` holds `item`.
fn vec_contains(items: &Vec<u128>, item: u128) -> (r: bool)
    ensures
        r == items@.contains(item),
{
    let mut i: usize = 0;
    while i < items.len()
        invariant
            i <= items@.len(),
            forall|j: int| 0 <= j < i ==> items@[j] != item,
        decreases items@.len() - i,
    {
        if items[i] == item {
            assert(items@[i as int] == item);
            return true;
        }
        i = i + 1;
    }
    false
}

impl Default for Storage {
    /// A marketplace with empty addresses, a price of zero, nothing listed
    /// and no owners.
    fn default() -> (r: Storage)
        ensures
            r@ == (StorageView {
                erc721_portal_address: Seq::empty(),
                erc20_portal_address: Seq::empty(),
                erc721_token: Seq::empty(),
                erc20_token: Seq::empty(),
                app_address: Seq::empty(),
                list_price: 0,
                listed_tokens: Seq::empty(),
                owners: Map::empty(),
            }),
            r@.well_formed(),
    {
        let r = Storage {
            erc721_portal_address: String::new(),
            erc20_portal_address: String::new(),
            erc721_token: String::new(),
            erc20_token: String::new(),
            app_address: String::new(),
            list_price: 0,
            listed_tokens: Vec::new(),
            erc721_id_to_owner_address: HashMap::new(),
        };
        assert(r@.owners =~= Map::empty());
        r
    }
}

impl Storage {
    /// A marketplace with the given portals, tokens and price, an unset
    /// application address, nothing listed and no owners.
    pub fn new(
        erc721_portal_address: String,
        erc20_portal_address: String,
        erc721_token: String,
        erc20_token: String,
        list_price: u128,
    ) -> (r: Storage)
        ensures
            r@ == (StorageView {
                erc721_portal_address: erc721_portal_address@,
                erc20_portal_address: erc20_portal_address@,
                erc721_token: erc721_token@,
                erc20_token: erc20_token@,
                app_address: zero_address(),
                list_price,
                listed_tokens: Seq::empty(),
                owners: Map::empty(),
            }),
            r@.well_formed(),
    {
        let r = Storage {
            erc20_portal_address,
            erc721_portal_address,
            erc20_token,
            erc721_token,
            list_price,
            app_address: zero_address_string(),
            listed_tokens: Vec::new(),
            erc721_id_to_owner_address: HashMap::new(),
        };
        assert(r@.owners =~= Map::empty());
        r
    }

    /// The address of the ERC-721 portal.
    pub fn erc721_portal_address(&self) -> (r: &String)
        ensures
            r@ == self@.erc721_portal_address,
    {
        &self.erc721_portal_address
    }

    /// The address of the ERC-20 portal.
    pub fn erc20_portal_address(&self) -> (r: &String)
        ensures
            r@ == self@.erc20_portal_address,
    {
        &self.erc20_portal_address
    }

    /// The ERC-721 contract whose tokens are sold.
    pub fn erc721_token(&self) -> (r: &String)
        ensures
            r@ == self@.erc721_token,
    {
        &self.erc721_token
    }

    /// The ERC-20 contract in which tokens are paid.
    pub fn erc20_token(&self) -> (r: &String)
        ensures
            r@ == self@.erc20_token,
    {
        &self.erc20_token
    }

    /// The address of the rollup application, once known.
    pub fn app_address(&self) -> (r: &String)
        ensures
            r@ == self@.app_address,
    {
        &self.app_address
    }

    /// The price of every token, in units of the ERC-20 token.
    pub fn list_price(&self) -> (r: u128)
        ensures
            r == self@.list_price,
    {
        self.list_price
    }

    /// Sets the address of the rollup application.
    pub fn set_app_address(&mut self, app_address: String)
        ensures
            final(self)@ == (StorageView { app_address: app_address@, ..old(self)@ }),
    {
        proof {
            use_type_invariant(&*self);
        }
        self.app_address = app_address;
    }

    /// Whether a token is listed for sale.
    pub fn is_listed(&self, token_id: u128) -> (r: bool)
        ensures
            r == self@.is_listed(token_id),
    {
        vec_contains(&self.listed_tokens, token_id)
    }

    /// The tokens listed for sale, in the order they were listed.
    pub fn get_listed_tokens(&self) -> (r: Vec<u128>)
        ensures
            r@ == self@.listed_tokens,
    {
        self.listed_tokens.clone()
    }

    /// The recorded owner of a token.
    pub fn get_erc721_token_owner(&self, token_id: u128) -> (r: Option<&String>)
        ensures
            match r {
                Some(owner) => self@.owners.contains_key(token_id) && owner@ == self@.owners[token_id],
                None => !self@.owners.contains_key(token_id),
            },
    {
        self.erc721_id_to_owner_address.get(&token_id)
    }

    /// Lists a token for sale, unless it already is.
    fn list_token_for_sale(&mut self, token_id: u128)
        requires
            old(self)@.owners.contains_key(token_id),
        ensures
            final(self)@ == old(self)@.with_listed(token_id),
            final(self)@.listed_tokens.no_duplicates(),
    {
        proof {
            use_type_invariant(&*self);
        }
        if !vec_contains(&self.listed_tokens, token_id) {
            let mut listed: Vec<u128> = Vec::new();
            std::mem::swap(&mut listed, &mut self.listed_tokens);
            listed.push(token_id);
            proof {
                lemma_listing_adds_token(old(self)@, token_id);
                assert(listed@ == old(self)@.with_listed(token_id).listed_tokens);
                assert(self@.owners == old(self)@.owners);
                assert forall|t: u128| #[trigger] listed@.contains(t) implies old(self)@.owners.contains_key(t) by {
                    if t != token_id {
                        let i = choose|i: int| 0 <= i < listed@.len() && listed@[i] == t;
                        assert(old(self)@.listed_tokens[i] == t);
                        assert(old(self)@.listed_tokens.contains(t));
                    }
                }
            }
            self.listed_tokens = listed;
        }
    }

    /// Records `owner` as the owner of a token.
    fn set_owner(&mut self, token_id: u128, owner: String)
        ensures
            final(self)@ == (StorageView { owners: old(self)@.owners.insert(token_id, owner@), ..old(self)@ }),
    {
        proof {
            use_type_invariant(&*self);
        }
        let mut listed: Vec<u128> = Vec::new();
        std::mem::swap(&mut listed, &mut self.listed_tokens);
        let mut owners: HashMap<u128, String> = HashMap::new();
        std::mem::swap(&mut owners, &mut self.erc721_id_to_owner_address);
        owners.insert(token_id, owner);
        self.erc721_id_to_owner_address = owners;
        assert(self@.owners =~= old(self)@.owners.insert(token_id, owner@));
        self.listed_tokens = listed;
        assert(self@ == (StorageView { owners: old(self)@.owners.insert(token_id, owner@), ..old(self)@ }));
    }

    /// Replaces the recorded owner of a token, if it has one.
    fn change_erc721_token_owner(&mut self, token_id: u128, new_owner: String)
        ensures
            final(self)@ == (StorageView {
                owners: if old(self)@.owners.contains_key(token_id) {
                    old(self)@.owners.insert(token_id, new_owner@)
                } else {
                    old(self)@.owners
                },
                ..old(self)@
            }),
    {
        if self.erc721_id_to_owner_address.contains_key(&token_id) {
            self.set_owner(token_id, new_owner);
        }
    }

    /// Records a deposit of a token by `depositor` that the ledger accepted:
    /// the token is listed for sale and owned by the depositor's address in
    /// lowercase.
    pub fn record_erc721_deposit(&mut self, token_id: u128, depositor: &str)
        ensures
            final(self)@ == old(self)@.after_deposit(token_id, depositor@),
            final(self)@.well_formed(),
    {
        proof {
            use_type_invariant(&*self);
        }
        let owner = lowercase(depositor);
        let zero = zero_address_string();
        let is_zero = match self.get_erc721_token_owner(token_id) {
            Some(current) => *current == zero,
            None => false,
        };
        if is_zero {
            self.change_erc721_token_owner(token_id, owner);
        } else {
            self.set_owner(token_id, owner);
        }
        self.list_token_for_sale(token_id);
        assert(self@.owners =~= old(self)@.after_deposit(token_id, depositor@).owners);
        assert(self@ == old(self)@.after_deposit(token_id, depositor@));
        assert forall|t: u128| #[trigger] self@.listed_tokens.contains(t) implies self@.owners.contains_key(t) by {
            if t != token_id {
                assert(old(self)@.listed_tokens.contains(t));
            }
        }
    }

    /// Records a sale of a token whose payment the ledger accepted: the
    /// token is no longer listed, and its recorded owner becomes the zero
    /// address.
    pub fn complete_sale(&mut self, token_id: u128)
        ensures
            final(self)@ == old(self)@.after_sale(token_id),
            final(self)@.well_formed(),
    {
        proof {
            use_type_invariant(&*self);
        }
        let ghost pred = other_than(token_id);
        let ghost listed = self.listed_tokens@;
        let mut kept: Vec<u128> = Vec::new();
        let mut i: usize = 0;
        proof {
            assert(listed.take(0) =~= Seq::<u128>::empty());
            reveal_with_fuel(Seq::filter, 1);
        }
        while i < self.listed_tokens.len()
            invariant
                i <= listed.len(),
                self.listed_tokens@ == listed,
                pred == other_than(token_id),
                listed.no_duplicates(),
                kept@ == listed.take(i as int).filter(pred),
                kept@.no_duplicates(),
            decreases listed.len() - i,
        {
            let t = self.listed_tokens[i];
            let ghost before = kept@;
            proof {
                assert(listed.take(i + 1) =~= listed.take(i as int).push(t));
                listed.take(i as int).lemma_filter_push(t, pred);
                if kept@.contains(t) {
                    listed.take(i as int).lemma_filter_contains_rev(pred, t);
                    let j = choose|j: int| 0 <= j < i && listed.take(i as int)[j] == t;
                    assert(listed[j] == listed[i as int]);
                }
            }
            if t != token_id {
                kept.push(t);
                assert(kept@ == before.push(t));
            }
            assert(kept@ == listed.take(i + 1).filter(pred));
            i = i + 1;
        }
        proof {
            assert(listed.take(listed.len() as int) =~= listed);
            assert forall|t: u128| #[trigger] kept@.contains(t) implies self@.owners.contains_key(t) by {
                listed.lemma_filter_contains_rev(pred, t);
            }
        }
        self.listed_tokens = kept;
        let zero = zero_address_string();
        self.change_erc721_token_owner(token_id, zero);
        assert(self@ == old(self)@.after_sale(token_id));
        assert forall|t: u128| #[trigger] self@.listed_tokens.contains(t) implies self@.owners.contains_key(t) by {
            listed.lemma_filter_contains_rev(pred, t);
        }
    }
}

} // verus!
