use crate::access_control::Role;
use crate::token::{Address, RoyaltyInfo, TokenData};
use std::collections::{HashMap, HashSet};
use vstd::prelude::*;

verus! {

broadcast use vstd::std_specs::hash::group_hash_axioms;

/// The collection-wide settings.
#[derive(Debug)]
pub struct CollectionConfig {
    pub name: String,
    pub symbol: String,
    pub base_uri: String,
    pub max_supply: Option<u64>,
    /// Optional mint cost in stroops; recorded, not charged here.
    pub mint_price: Option<i128>,
    pub is_revealed: bool,
    pub royalty_default: RoyaltyInfo,
    /// One-way: once set, no metadata changes again.
    pub metadata_is_frozen: bool,
    pub is_paused: bool,
}

impl CollectionConfig {
    pub fn new(
        name: String,
        symbol: String,
        base_uri: String,
        max_supply: Option<u64>,
        mint_price: Option<i128>,
        royalty_default: RoyaltyInfo,
    ) -> (r: CollectionConfig)
        ensures
            r == (CollectionConfig {
                name,
                symbol,
                base_uri,
                max_supply,
                mint_price,
                is_revealed: false,
                royalty_default,
                metadata_is_frozen: false,
                is_paused: false,
            }),
    {
        CollectionConfig {
            name,
            symbol,
            base_uri,
            max_supply,
            mint_price,
            is_revealed: false,
            royalty_default,
            metadata_is_frozen: false,
            is_paused: false,
        }
    }
}

/// The abstract state of the ledger: what every operation's contract speaks of.
pub struct LedgerView {
    pub config: Option<CollectionConfig>,
    /// Live tokens by id.
    pub tokens: Map<u64, TokenData>,
    /// `(owner, operator)` pairs with blanket approval.
    pub operators: Set<(u64, u64)>,
    /// The last id handed out; ids are never reused.
    pub last_token_id: u64,
    pub owner: Option<Address>,
    pub admins: Set<u64>,
    pub minters: Set<u64>,
    pub burners: Set<u64>,
    pub metadata_updaters: Set<u64>,
    pub whitelist: Set<u64>,
}

/// How many of the live tokens `x` owns.
pub open spec fn owned_count(tokens: Map<u64, TokenData>, x: u64) -> nat {
    tokens.dom().filter(|id: u64| tokens[id].owner.id == x).len()
}

impl LedgerView {
    pub open spec fn empty() -> LedgerView {
        LedgerView {
            config: None,
            tokens: Map::empty(),
            operators: Set::empty(),
            last_token_id: 0,
            owner: None,
            admins: Set::empty(),
            minters: Set::empty(),
            burners: Set::empty(),
            metadata_updaters: Set::empty(),
            whitelist: Set::empty(),
        }
    }

    /// Number of live tokens.
    pub open spec fn supply(self) -> nat {
        self.tokens.dom().len()
    }

    pub open spec fn balance(self, a: Address) -> nat {
        owned_count(self.tokens, a.id)
    }

    pub open spec fn is_operator(self, owner: Address, operator: Address) -> bool {
        self.operators.contains((owner.id, operator.id))
    }

    pub open spec fn is_paused(self) -> bool {
        self.config matches Some(c) && c.is_paused
    }

    pub open spec fn is_frozen(self) -> bool {
        self.config matches Some(c) && c.metadata_is_frozen
    }

    /// The state with collection settings `c`.
    pub open spec fn with_config(self, c: CollectionConfig) -> LedgerView {
        LedgerView { config: Some(c), ..self }
    }

    /// The state with token `t` stored under its own id.
    pub open spec fn with_token(self, t: TokenData) -> LedgerView {
        LedgerView { tokens: self.tokens.insert(t.id, t), ..self }
    }

    /// What holds of every state the ledger can reach.
    pub open spec fn inv(self) -> bool {
        &&& self.tokens.dom().finite()
        &&& forall|id: u64| #[trigger]
            self.tokens.contains_key(id) ==> {
                &&& self.tokens[id].id == id
                &&& 1 <= id <= self.last_token_id
                &&& self.tokens[id].royalty matches Some(ro) ==> ro.percentage <= 10000
            }
        &&& self.supply() <= self.last_token_id
        &&& self.config is None ==> forall|id: u64| !(#[trigger] self.tokens.contains_key(id))
        &&& self.config matches Some(c) ==> {
            &&& c.royalty_default.percentage <= 10000
            &&& c.max_supply matches Some(m) ==> self.supply() <= m
        }
    }
}

pub open spec fn balance_in(balances: Map<u64, u64>, x: u64) -> nat {
    if balances.contains_key(x) {
        balances[x] as nat
    } else {
        0
    }
}

pub proof fn lemma_owned_count_bound(tokens: Map<u64, TokenData>, x: u64)
    requires
        tokens.dom().finite(),
    ensures
        owned_count(tokens, x) <= tokens.dom().len(),
{
    tokens.dom().lemma_len_filter(|id: u64| tokens[id].owner.id == x);
}

/// Removing a token takes one from its owner's count and nothing from anyone else's.
pub proof fn lemma_owned_count_remove(tokens: Map<u64, TokenData>, k: u64, x: u64)
    requires
        tokens.dom().finite(),
    ensures
        owned_count(tokens.remove(k), x) == owned_count(tokens, x) - (if tokens.contains_key(k)
            && tokens[k].owner.id == x {
            1int
        } else {
            0int
        }),
{
    let f = tokens.dom().filter(|id: u64| tokens[id].owner.id == x);
    let r = tokens.remove(k);
    let g = r.dom().filter(|id: u64| r[id].owner.id == x);
    tokens.dom().lemma_len_filter(|id: u64| tokens[id].owner.id == x);
    assert(g =~= f.remove(k));
}

/// Storing `t` under `k` counts it for its owner, over the map without `k`.
pub proof fn lemma_owned_count_insert(tokens: Map<u64, TokenData>, k: u64, t: TokenData, x: u64)
    requires
        tokens.dom().finite(),
    ensures
        owned_count(tokens.insert(k, t), x) == owned_count(tokens.remove(k), x) + (if t.owner.id
            == x {
            1int
        } else {
            0int
        }),
{
    let r = tokens.remove(k);
    let g = r.dom().filter(|id: u64| r[id].owner.id == x);
    let n = tokens.insert(k, t);
    let h = n.dom().filter(|id: u64| n[id].owner.id == x);
    r.dom().lemma_len_filter(|id: u64| r[id].owner.id == x);
    if t.owner.id == x {
        assert(h =~= g.insert(k));
    } else {
        assert(h =~= g);
    }
}

/// Replacing the record under a live id moves one unit of count from the old owner to the new.
proof fn lemma_owned_count_replace(tokens: Map<u64, TokenData>, k: u64, t: TokenData, x: u64)
    requires
        tokens.dom().finite(),
        tokens.contains_key(k),
    ensures
        owned_count(tokens.insert(k, t), x) == owned_count(tokens, x) - (if tokens[k].owner.id
            == x {
            1int
        } else {
            0int
        }) + (if t.owner.id == x {
            1int
        } else {
            0int
        }),
{
    lemma_owned_count_remove(tokens, k, x);
    lemma_owned_count_insert(tokens, k, t, x);
}

/// Rewriting a live token without changing its owner leaves every count as it was.
proof fn lemma_owned_count_same_owner(tokens: Map<u64, TokenData>, k: u64, t: TokenData)
    requires
        tokens.dom().finite(),
        tokens.contains_key(k),
        tokens[k].owner == t.owner,
    ensures
        forall|x: u64| #[trigger]
            owned_count(tokens.insert(k, t), x) == owned_count(tokens, x),
{
    assert forall|x: u64| #[trigger]
        owned_count(tokens.insert(k, t), x) == owned_count(tokens, x) by {
        lemma_owned_count_replace(tokens, k, t, x);
    }
}

/// The ledger's records: tokens, balances, approvals, supply counters and role sets.
pub struct Storage {
    config: Option<CollectionConfig>,
    tokens: HashMap<u64, TokenData>,
    balances: HashMap<u64, u64>,
    operators: HashMap<u64, HashSet<u64>>,
    total_supply: u64,
    last_token_id: u64,
    owner: Option<Address>,
    admins: HashSet<u64>,
    minters: HashSet<u64>,
    burners: HashSet<u64>,
    metadata_updaters: HashSet<u64>,
    whitelist: HashSet<u64>,
}

impl View for Storage {
    type V = LedgerView;

    closed spec fn view(&self) -> LedgerView {
        LedgerView {
            config: self.config,
            tokens: self.tokens@,
            operators: Set::new(
                |p: (u64, u64)|
                    self.operators@.contains_key(p.0) && self.operators@[p.0]@.contains(p.1),
            ),
            last_token_id: self.last_token_id,
            owner: self.owner,
            admins: self.admins@,
            minters: self.minters@,
            burners: self.burners@,
            metadata_updaters: self.metadata_updaters@,
            whitelist: self.whitelist@,
        }
    }
}

fn increment_balance(balances: &mut HashMap<u64, u64>, x: u64)
    requires
        balance_in(old(balances)@, x) < u64::MAX,
    ensures
        forall|y: u64|
            #![trigger balance_in(final(balances)@, y)]
            balance_in(final(balances)@, y) == balance_in(old(balances)@, y) + (if y == x {
                1int
            } else {
                0int
            }),
{
    let current: u64 = match balances.get(&x) {
        Some(b) => *b,
        None => 0,
    };
    balances.insert(x, current + 1);
}

/// A zero balance is stored as absence.
fn decrement_balance(balances: &mut HashMap<u64, u64>, x: u64)
    requires
        balance_in(old(balances)@, x) >= 1,
    ensures
        forall|y: u64|
            #![trigger balance_in(final(balances)@, y)]
            balance_in(final(balances)@, y) == balance_in(old(balances)@, y) - (if y == x {
                1int
            } else {
                0int
            }),
{
    let current: u64 = match balances.get(&x) {
        Some(b) => *b,
        None => 0,
    };
    if current <= 1 {
        balances.remove(&x);
    } else {
        balances.insert(x, current - 1);
    }
}

impl Storage {
    /// The representation agrees with the view: the counters and balances are those of the tokens.
    pub closed spec fn repr_ok(&self) -> bool {
        &&& self.total_supply == self.tokens@.dom().len()
        &&& forall|x: u64| #[trigger]
            balance_in(self.balances@, x) == owned_count(self.tokens@, x)
    }

    pub open spec fn wf(&self) -> bool {
        self.repr_ok() && self@.inv()
    }

    /// An empty, uninitialized ledger.
    pub fn new() -> (r: Storage)
        ensures
            r.wf(),
            r@ == LedgerView::empty(),
    {
        let r = Storage {
            config: None,
            tokens: HashMap::new(),
            balances: HashMap::new(),
            operators: HashMap::new(),
            total_supply: 0,
            last_token_id: 0,
            owner: None,
            admins: HashSet::new(),
            minters: HashSet::new(),
            burners: HashSet::new(),
            metadata_updaters: HashSet::new(),
            whitelist: HashSet::new(),
        };
        assert(r@.operators =~= Set::empty());
        assert forall|x: u64| #[trigger] balance_in(r.balances@, x) == owned_count(r.tokens@, x) by {
            assert(r.tokens@.dom().filter(|id: u64| r.tokens@[id].owner.id == x) =~= Set::empty());
        }
        r
    }

    pub fn is_initialized(&self) -> (r: bool)
        ensures
            r == self@.config is Some,
    {
        self.config.is_some()
    }

    /// Records the owner and the settings of a fresh collection.
    pub(crate) fn initialize(&mut self, owner: Address, config: CollectionConfig)
        requires
            old(self).wf(),
            old(self)@.config is None,
            config.royalty_default.percentage <= 10000,
        ensures
            final(self).wf(),
            final(self)@ == (LedgerView { config: Some(config), owner: Some(owner), ..old(self)@ }),
    {
        assert(self.tokens@.dom() =~= Set::empty());
        self.owner = Some(owner);
        self.config = Some(config);
    }

    pub fn get_config(&self) -> (r: Option<&CollectionConfig>)
        ensures
            r is None <==> self@.config is None,
            r matches Some(c) ==> self@.config == Some(*c),
    {
        self.config.as_ref()
    }

    pub fn get_owner(&self) -> (r: Option<Address>)
        ensures
            r == self@.owner,
    {
        self.owner
    }

    pub(crate) fn set_paused(&mut self, paused: bool)
        requires
            old(self).wf(),
            old(self)@.config is Some,
        ensures
            final(self).wf(),
            final(self)@ == old(self)@.with_config(
                CollectionConfig { is_paused: paused, ..old(self)@.config->0 },
            ),
    {
        let mut c = self.config.take().unwrap();
        c.is_paused = paused;
        self.config = Some(c);
    }

    pub(crate) fn freeze_metadata(&mut self)
        requires
            old(self).wf(),
            old(self)@.config is Some,
        ensures
            final(self).wf(),
            final(self)@ == old(self)@.with_config(
                CollectionConfig { metadata_is_frozen: true, ..old(self)@.config->0 },
            ),
    {
        let mut c = self.config.take().unwrap();
        c.metadata_is_frozen = true;
        self.config = Some(c);
    }

    pub(crate) fn set_base_uri(&mut self, base_uri: String)
        requires
            old(self).wf(),
            old(self)@.config is Some,
        ensures
            final(self).wf(),
            final(self)@ == old(self)@.with_config(
                CollectionConfig { base_uri, ..old(self)@.config->0 },
            ),
    {
        let mut c = self.config.take().unwrap();
        c.base_uri = base_uri;
        self.config = Some(c);
    }

    pub(crate) fn set_default_royalty(&mut self, royalty: RoyaltyInfo)
        requires
            old(self).wf(),
            old(self)@.config is Some,
            royalty.percentage <= 10000,
        ensures
            final(self).wf(),
            final(self)@ == old(self)@.with_config(
                CollectionConfig { royalty_default: royalty, ..old(self)@.config->0 },
            ),
    {
        let mut c = self.config.take().unwrap();
        c.royalty_default = royalty;
        self.config = Some(c);
    }

    pub fn get_token(&self, id: u64) -> (r: Option<&TokenData>)
        ensures
            r is None <==> !self@.tokens.contains_key(id),
            r matches Some(t) ==> self@.tokens[id] == *t,
    {
        self.tokens.get(&id)
    }

    pub fn get_balance(&self, owner: Address) -> (r: u64)
        requires
            self.wf(),
        ensures
            r == self@.balance(owner),
    {
        assert(balance_in(self.balances@, owner.id) == owned_count(self.tokens@, owner.id));
        match self.balances.get(&owner.id) {
            Some(b) => *b,
            None => 0,
        }
    }

    pub fn get_total_supply(&self) -> (r: u64)
        requires
            self.wf(),
        ensures
            r == self@.supply(),
    {
        self.total_supply
    }

    pub fn last_token_id(&self) -> (r: u64)
        ensures
            r == self@.last_token_id,
    {
        self.last_token_id
    }

    /// Stores a freshly minted token under the next id, credits its owner and counts it.
    pub(crate) fn insert_minted(&mut self, token: TokenData)
        requires
            old(self).wf(),
            old(self)@.config matches Some(c) && (c.max_supply matches Some(m)
                ==> old(self)@.supply() < m),
            token.id == old(self)@.last_token_id + 1,
            token.royalty matches Some(ro) ==> ro.percentage <= 10000,
        ensures
            final(self).wf(),
            final(self)@ == (LedgerView {
                tokens: old(self)@.tokens.insert(token.id, token),
                last_token_id: token.id,
                ..old(self)@
            }),
    {
        let ghost old_tokens = self.tokens@;
        let id = token.id;
        let owner = token.owner.id;
        proof {
            lemma_owned_count_bound(old_tokens, owner);
            assert(balance_in(self.balances@, owner) == owned_count(old_tokens, owner));
            assert(!old_tokens.contains_key(id));
            assert(old_tokens.remove(id) =~= old_tokens);
        }
        self.tokens.insert(id, token);
        self.last_token_id = id;
        self.total_supply = self.total_supply + 1;
        increment_balance(&mut self.balances, owner);
        proof {
            assert forall|x: u64| #[trigger]
                balance_in(self.balances@, x) == owned_count(self.tokens@, x) by {
                lemma_owned_count_insert(old_tokens, id, token, x);
                assert(balance_in(old(self).balances@, x) == owned_count(old_tokens, x));
            }
        }
    }

    /// Takes a token out of the ledger, debiting its owner and the supply.
    pub(crate) fn remove_burned(&mut self, id: u64) -> (r: TokenData)
        requires
            old(self).wf(),
            old(self)@.tokens.contains_key(id),
        ensures
            final(self).wf(),
            r == old(self)@.tokens[id],
            final(self)@ == (LedgerView { tokens: old(self)@.tokens.remove(id), ..old(self)@ }),
    {
        let ghost old_tokens = self.tokens@;
        let token = self.tokens.remove(&id).unwrap();
        let owner = token.owner.id;
        proof {
            lemma_owned_count_remove(old_tokens, id, owner);
            assert(old_tokens.dom().filter(|k: u64| old_tokens[k].owner.id == owner).contains(id));
            old_tokens.dom().lemma_len_filter(|k: u64| old_tokens[k].owner.id == owner);
            assert(balance_in(self.balances@, owner) == owned_count(old_tokens, owner));
        }
        self.total_supply = self.total_supply - 1;
        decrement_balance(&mut self.balances, owner);
        proof {
            assert forall|x: u64| #[trigger]
                balance_in(self.balances@, x) == owned_count(self.tokens@, x) by {
                lemma_owned_count_remove(old_tokens, id, x);
                assert(balance_in(old(self).balances@, x) == owned_count(old_tokens, x));
            }
        }
        token
    }

    /// Hands token `id` to `to`, clearing its single-spender approval, and moves one unit of
    /// balance from the old owner to the new one.
    pub(crate) fn move_token(&mut self, id: u64, to: Address)
        requires
            old(self).wf(),
            old(self)@.tokens.contains_key(id),
        ensures
            final(self).wf(),
            final(self)@ == old(self)@.with_token(
                TokenData { owner: to, approved: None, ..old(self)@.tokens[id] },
            ),
    {
        let ghost old_tokens = self.tokens@;
        let mut token = self.tokens.remove(&id).unwrap();
        let from = token.owner.id;
        proof {
            lemma_owned_count_remove(old_tokens, id, from);
            lemma_owned_count_remove(old_tokens, id, to.id);
            lemma_owned_count_bound(old_tokens.remove(id), to.id);
            assert(old_tokens.dom().filter(|k: u64| old_tokens[k].owner.id == from).contains(id));
            old_tokens.dom().lemma_len_filter(|k: u64| old_tokens[k].owner.id == from);
            assert(balance_in(self.balances@, from) == owned_count(old_tokens, from));
            assert(balance_in(self.balances@, to.id) == owned_count(old_tokens, to.id));
        }
        token.owner = to;
        token.approved = None;
        self.tokens.insert(id, token);
        decrement_balance(&mut self.balances, from);
        increment_balance(&mut self.balances, to.id);
        proof {
            assert(self.tokens@ =~= old_tokens.insert(id, token));
            assert forall|x: u64| #[trigger]
                balance_in(self.balances@, x) == owned_count(self.tokens@, x) by {
                lemma_owned_count_replace(old_tokens, id, token, x);
                assert(balance_in(old(self).balances@, x) == owned_count(old_tokens, x));
            }
        }
    }

    pub(crate) fn set_approval(&mut self, id: u64, approved: Option<Address>)
        requires
            old(self).wf(),
            old(self)@.tokens.contains_key(id),
        ensures
            final(self).wf(),
            final(self)@ == old(self)@.with_token(
                TokenData { approved, ..old(self)@.tokens[id] },
            ),
    {
        let mut token = self.tokens.remove(&id).unwrap();
        token.approved = approved;
        self.tokens.insert(id, token);
        proof {
            assert(self.tokens@ =~= old(self).tokens@.insert(id, token));
            lemma_owned_count_same_owner(old(self).tokens@, id, token);
        }
    }

    pub(crate) fn set_token_uri(&mut self, id: u64, metadata_uri: String)
        requires
            old(self).wf(),
            old(self)@.tokens.contains_key(id),
        ensures
            final(self).wf(),
            final(self)@ == old(self)@.with_token(
                TokenData { metadata_uri, ..old(self)@.tokens[id] },
            ),
    {
        let mut token = self.tokens.remove(&id).unwrap();
        token.metadata_uri = metadata_uri;
        self.tokens.insert(id, token);
        proof {
            assert(self.tokens@ =~= old(self).tokens@.insert(id, token));
            lemma_owned_count_same_owner(old(self).tokens@, id, token);
        }
    }

    pub(crate) fn set_token_royalty(&mut self, id: u64, royalty: RoyaltyInfo)
        requires
            old(self).wf(),
            old(self)@.tokens.contains_key(id),
            royalty.percentage <= 10000,
        ensures
            final(self).wf(),
            final(self)@ == old(self)@.with_token(
                TokenData { royalty: Some(royalty), ..old(self)@.tokens[id] },
            ),
    {
        let mut token = self.tokens.remove(&id).unwrap();
        token.royalty = Some(royalty);
        self.tokens.insert(id, token);
        proof {
            assert(self.tokens@ =~= old(self).tokens@.insert(id, token));
            lemma_owned_count_same_owner(old(self).tokens@, id, token);
        }
    }

    pub fn is_operator_approved(&self, owner: Address, operator: Address) -> (r: bool)
        ensures
            r == self@.is_operator(owner, operator),
    {
        match self.operators.get(&owner.id) {
            Some(set) => set.contains(&operator.id),
            None => false,
        }
    }

    pub(crate) fn set_operator_approval(&mut self, owner: Address, operator: Address, approved: bool)
        requires
            old(self).wf(),
        ensures
            final(self).wf(),
            final(self)@ == (LedgerView {
                operators: if approved {
                    old(self)@.operators.insert((owner.id, operator.id))
                } else {
                    old(self)@.operators.remove((owner.id, operator.id))
                },
                ..old(self)@
            }),
    {
        let mut set = match self.operators.remove(&owner.id) {
            Some(s) => s,
            None => HashSet::new(),
        };
        if approved {
            set.insert(operator.id);
        } else {
            set.remove(&operator.id);
        }
        self.operators.insert(owner.id, set);
        proof {
            let expected = if approved {
                old(self)@.operators.insert((owner.id, operator.id))
            } else {
                old(self)@.operators.remove((owner.id, operator.id))
            };
            assert(self@.operators =~= expected);
        }
    }

    pub fn role_contains(&self, role: Role, a: Address) -> (r: bool)
        ensures
            r == self@.members(role).contains(a.id),
    {
        match role {
            Role::Owner => false,
            Role::Admin => self.admins.contains(&a.id),
            Role::Minter => self.minters.contains(&a.id),
            Role::Burner => self.burners.contains(&a.id),
            Role::MetadataUpdater => self.metadata_updaters.contains(&a.id),
        }
    }

    /// Adds `a` to the explicit set of `role`; adding a member again changes nothing.
    pub(crate) fn add_role_member(&mut self, role: Role, a: Address)
        requires
            old(self).wf(),
            role != Role::Owner,
        ensures
            final(self).wf(),
            final(self)@ == old(self)@.with_members(role, old(self)@.members(role).insert(a.id)),
    {
        match role {
            Role::Owner => {},
            Role::Admin => {
                self.admins.insert(a.id);
            },
            Role::Minter => {
                self.minters.insert(a.id);
            },
            Role::Burner => {
                self.burners.insert(a.id);
            },
            Role::MetadataUpdater => {
                self.metadata_updaters.insert(a.id);
            },
        }
    }

    /// Takes `a` out of the explicit set of `role`; removing a non-member changes nothing.
    pub(crate) fn remove_role_member(&mut self, role: Role, a: Address)
        requires
            old(self).wf(),
            role != Role::Owner,
        ensures
            final(self).wf(),
            final(self)@ == old(self)@.with_members(role, old(self)@.members(role).remove(a.id)),
    {
        match role {
            Role::Owner => {},
            Role::Admin => {
                self.admins.remove(&a.id);
            },
            Role::Minter => {
                self.minters.remove(&a.id);
            },
            Role::Burner => {
                self.burners.remove(&a.id);
            },
            Role::MetadataUpdater => {
                self.metadata_updaters.remove(&a.id);
            },
        }
    }

    pub fn is_whitelisted(&self, a: Address) -> (r: bool)
        ensures
            r == self@.whitelist.contains(a.id),
    {
        self.whitelist.contains(&a.id)
    }

    pub(crate) fn set_whitelisted(&mut self, a: Address, listed: bool)
        requires
            old(self).wf(),
        ensures
            final(self).wf(),
            final(self)@ == (LedgerView {
                whitelist: if listed {
                    old(self)@.whitelist.insert(a.id)
                } else {
                    old(self)@.whitelist.remove(a.id)
                },
                ..old(self)@
            }),
    {
        if listed {
            self.whitelist.insert(a.id);
        } else {
            self.whitelist.remove(&a.id);
        }
    }
}

} // verus!
