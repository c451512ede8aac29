use crate::access_control::{
    require_admin, require_burner, require_minter, require_not_paused, require_owner, Role,
};
use crate::error::ContractError;
use crate::events::{
    ApprovalEvent, ApprovalForAllEvent, BaseURIUpdateEvent, BurnEvent, Event, Events,
    MetadataUpdateEvent, MintEvent, PauseEvent, RoleUpdateEvent, RoyaltyUpdateEvent, TransferEvent,
    WhitelistUpdateEvent,
};
use crate::metadata::Metadata;
use crate::royalty::Royalty;
use crate::storage::{owned_count, CollectionConfig, LedgerView, Storage};
use crate::token::{royalty_amount, Address, RoyaltyInfo, TokenAttribute, TokenData};
use crate::transfer::{transfer_run, Transfer};
use crate::utils::Utils;
use vstd::prelude::*;

verus! {

/// The contract of a mutating operation: with `err` it fails and changes nothing; without,
/// it succeeds, the ledger becomes `next`, and exactly the event `ev` is reported.
pub open spec fn step(
    before: LedgerView,
    after: LedgerView,
    ev_before: Seq<Event>,
    ev_after: Seq<Event>,
    r: Result<(), ContractError>,
    err: Option<ContractError>,
    next: LedgerView,
    ev: Event,
) -> bool {
    match err {
        Some(e) => r == Err::<(), ContractError>(e) && after == before && ev_after == ev_before,
        None => r is Ok && after == next && ev_after == ev_before.push(ev),
    }
}

/// The contents of an optional vector.
pub open spec fn opt_view<T>(o: Option<Vec<T>>) -> Option<Seq<T>> {
    match o {
        Some(v) => Some(v@),
        None => None,
    }
}

impl LedgerView {
    pub open spec fn initialize_error(
        self,
        name: Seq<char>,
        symbol: Seq<char>,
        default_royalty: RoyaltyInfo,
    ) -> Option<ContractError> {
        if self.config is Some {
            Some(ContractError::AlreadyExists)
        } else if name.len() == 0 || symbol.len() == 0 {
            Some(ContractError::InvalidInput)
        } else if default_royalty.percentage > 10000 {
            Some(ContractError::InvalidRoyalty)
        } else {
            None
        }
    }

    /// Why `caller` may not mint now, checked in this order; `None` when the mint goes ahead.
    pub open spec fn mint_error(
        self,
        caller: Address,
        metadata_uri: Seq<char>,
        royalty_override: Option<RoyaltyInfo>,
    ) -> Option<ContractError> {
        if !self.has_role(caller, Role::Minter) {
            Some(ContractError::Unauthorized)
        } else if self.is_paused() {
            Some(ContractError::Paused)
        } else if metadata_uri.len() == 0 {
            Some(ContractError::InvalidMetadataUri)
        } else if self.config is None {
            Some(ContractError::ContractNotInitialized)
        } else if self.config->0.max_supply matches Some(m) && self.supply() >= m {
            Some(ContractError::SupplyLimitExceeded)
        } else if royalty_override matches Some(ro) && ro.percentage > 10000 {
            Some(ContractError::InvalidRoyalty)
        } else if self.last_token_id == u64::MAX {
            Some(ContractError::Overflow)
        } else {
            None
        }
    }

    /// The record a successful mint creates: the next id, no approval, and the override as
    /// the token's own royalty share; without one the token follows the collection default.
    pub open spec fn minted_token(
        self,
        caller: Address,
        to: Address,
        metadata_uri: String,
        attributes: Vec<TokenAttribute>,
        royalty_override: Option<RoyaltyInfo>,
        edition_info: Option<(u32, u32)>,
        now: u64,
    ) -> TokenData {
        TokenData {
            id: (self.last_token_id + 1) as u64,
            owner: to,
            approved: None,
            metadata_uri,
            created_at: now,
            creator: caller,
            royalty: royalty_override,
            attributes,
            edition_info,
        }
    }

    pub open spec fn after_mint(self, t: TokenData) -> LedgerView {
        LedgerView { tokens: self.tokens.insert(t.id, t), last_token_id: t.id, ..self }
    }

    pub open spec fn batch_mint_error(
        self,
        caller: Address,
        recipients: nat,
        metadata_uris: nat,
        attributes: nat,
        royalty_overrides: Option<nat>,
    ) -> Option<ContractError> {
        if !self.has_role(caller, Role::Minter) {
            Some(ContractError::Unauthorized)
        } else if self.is_paused() {
            Some(ContractError::Paused)
        } else if metadata_uris != recipients || attributes != recipients || (royalty_overrides
            matches Some(k) && k != recipients) {
            Some(ContractError::BatchLengthMismatch)
        } else if recipients == 0 {
            Some(ContractError::EmptyBatch)
        } else {
            None
        }
    }

    pub open spec fn burn_error(self, caller: Address, token_id: u64, confirm: bool) -> Option<
        ContractError,
    > {
        if !confirm {
            Some(ContractError::BurnNotConfirmed)
        } else if !self.tokens.contains_key(token_id) {
            Some(ContractError::TokenNotFound)
        } else if self.tokens[token_id].owner != caller && !self.has_role(caller, Role::Burner) {
            Some(ContractError::Unauthorized)
        } else {
            None
        }
    }

    pub open spec fn after_burn(self, token_id: u64) -> LedgerView {
        LedgerView { tokens: self.tokens.remove(token_id), ..self }
    }

    /// Only the owner changes the admin set; admins change the sets below it. The owner
    /// itself is fixed at initialization.
    pub open spec fn role_change_error(self, caller: Address, role: Role) -> Option<
        ContractError,
    > {
        if role == Role::Owner {
            Some(ContractError::InvalidInput)
        } else if role == Role::Admin && !self.is_owner(caller) {
            Some(ContractError::Unauthorized)
        } else if !self.has_role(caller, Role::Admin) {
            Some(ContractError::Unauthorized)
        } else {
            None
        }
    }

    pub open spec fn after_role_change(self, role: Role, a: Address, added: bool) -> LedgerView {
        self.with_members(
            role,
            if added {
                self.members(role).insert(a.id)
            } else {
                self.members(role).remove(a.id)
            },
        )
    }

    pub open spec fn admin_config_error(self, caller: Address) -> Option<ContractError> {
        if !self.has_role(caller, Role::Admin) {
            Some(ContractError::Unauthorized)
        } else if self.config is None {
            Some(ContractError::ContractNotInitialized)
        } else {
            None
        }
    }

    pub open spec fn after_pause(self, paused: bool) -> LedgerView {
        self.with_config(CollectionConfig { is_paused: paused, ..self.config->0 })
    }
}

/// The outcome of minting one token per index, in order, stopping at the first refusal: the
/// final state, the events, the ids assigned, and the refusal, if any.
pub open spec fn mint_run(
    v: LedgerView,
    caller: Address,
    recipients: Seq<Address>,
    metadata_uris: Seq<String>,
    attributes: Seq<Vec<TokenAttribute>>,
    royalty_overrides: Option<Seq<RoyaltyInfo>>,
    now: u64,
) -> (LedgerView, Seq<Event>, Seq<u64>, Option<ContractError>)
    decreases recipients.len(),
{
    if recipients.len() == 0 || metadata_uris.len() == 0 || attributes.len() == 0 {
        (v, Seq::empty(), Seq::empty(), None)
    } else {
        let ro = match royalty_overrides {
            Some(s) => if s.len() > 0 {
                Some(s[0])
            } else {
                None
            },
            None => None,
        };
        match v.mint_error(caller, metadata_uris[0]@, ro) {
            Some(e) => (v, Seq::empty(), Seq::empty(), Some(e)),
            None => {
                let t = v.minted_token(
                    caller,
                    recipients[0],
                    metadata_uris[0],
                    attributes[0],
                    ro,
                    None,
                    now,
                );
                let rest = mint_run(
                    v.after_mint(t),
                    caller,
                    recipients.drop_first(),
                    metadata_uris.drop_first(),
                    attributes.drop_first(),
                    match royalty_overrides {
                        Some(s) => Some(s.drop_first()),
                        None => None,
                    },
                    now,
                );
                let ev = Event::Mint(
                    MintEvent {
                        to: recipients[0],
                        token_id: t.id,
                        metadata_uri: metadata_uris[0],
                        creator: caller,
                    },
                );
                (rest.0, seq![ev] + rest.1, seq![t.id] + rest.2, rest.3)
            },
        }
    }
}

/// The number of live tokens moves only by minting and burning: a mint adds one, a burn
/// takes one away, and every other successful operation leaves the count as it was.
pub proof fn lemma_supply_moves_only_by_mint_and_burn(
    v: LedgerView,
    id: u64,
    to: Address,
    t: TokenData,
    role: Role,
    a: Address,
    added: bool,
    c: CollectionConfig,
)
    requires
        v.inv(),
    ensures
        v.tokens.contains_key(id) ==> v.after_burn(id).supply() == v.supply() - 1,
        !v.tokens.contains_key(t.id) ==> v.after_mint(t).supply() == v.supply() + 1,
        v.tokens.contains_key(id) ==> v.after_transfer(to, id).supply() == v.supply(),
        v.tokens.contains_key(id) ==> v.after_approve(to, id).supply() == v.supply(),
        v.tokens.contains_key(t.id) ==> v.with_token(t).supply() == v.supply(),
        v.after_role_change(role, a, added).supply() == v.supply(),
        v.after_operator_approval(a, to, added).supply() == v.supply(),
        v.with_config(c).supply() == v.supply(),
{
    if v.tokens.contains_key(id) {
        assert(v.tokens.insert(id, TokenData { owner: to, approved: None, ..v.tokens[id] }).dom()
            =~= v.tokens.dom());
        assert(v.tokens.insert(id, TokenData { approved: Some(to), ..v.tokens[id] }).dom()
            =~= v.tokens.dom());
    }
    if v.tokens.contains_key(t.id) {
        assert(v.tokens.insert(t.id, t).dom() =~= v.tokens.dom());
    }
}

/// A run of transfers never changes how many tokens are live.
pub proof fn lemma_transfer_run_keeps_supply(
    v: LedgerView,
    caller: Address,
    from: Address,
    to: Address,
    ids: Seq<u64>,
)
    requires
        v.inv(),
    ensures
        transfer_run(v, caller, from, to, ids).0.supply() == v.supply(),
    decreases ids.len(),
{
    if ids.len() > 0 && v.transfer_error(caller, from, ids[0]) is None {
        let next = v.after_transfer(to, ids[0]);
        lemma_supply_moves_only_by_mint_and_burn(
            v,
            ids[0],
            to,
            v.tokens[ids[0]],
            Role::Owner,
            to,
            false,
            v.config->0,
        );
        lemma_after_transfer_inv(v, to, ids[0]);
        lemma_transfer_run_keeps_supply(next, caller, from, to, ids.drop_first());
    }
}

/// A transfer that goes through keeps the ledger invariant.
pub proof fn lemma_after_transfer_inv(v: LedgerView, to: Address, id: u64)
    requires
        v.inv(),
        v.tokens.contains_key(id),
    ensures
        v.after_transfer(to, id).inv(),
{
    let n = v.after_transfer(to, id);
    assert(n.tokens.dom() =~= v.tokens.dom());
}

/// A mint that goes through keeps the ledger invariant and adds exactly one live token.
pub proof fn lemma_after_mint_inv(
    v: LedgerView,
    caller: Address,
    to: Address,
    metadata_uri: String,
    attributes: Vec<TokenAttribute>,
    royalty_override: Option<RoyaltyInfo>,
    edition_info: Option<(u32, u32)>,
    now: u64,
)
    requires
        v.inv(),
        v.mint_error(caller, metadata_uri@, royalty_override) is None,
    ensures
        ({
            let t = v.minted_token(
                caller,
                to,
                metadata_uri,
                attributes,
                royalty_override,
                edition_info,
                now,
            );
            &&& !v.tokens.contains_key(t.id)
            &&& v.after_mint(t).inv()
            &&& v.after_mint(t).supply() == v.supply() + 1
        }),
{
    let t = v.minted_token(caller, to, metadata_uri, attributes, royalty_override, edition_info, now);
    let n = v.after_mint(t);
    assert(!v.tokens.contains_key(t.id));
    assert(n.tokens.dom() =~= v.tokens.dom().insert(t.id));
}

/// A batch mint adds exactly as many live tokens as the ids it hands back.
pub proof fn lemma_mint_run_supply(
    v: LedgerView,
    caller: Address,
    recipients: Seq<Address>,
    metadata_uris: Seq<String>,
    attributes: Seq<Vec<TokenAttribute>>,
    royalty_overrides: Option<Seq<RoyaltyInfo>>,
    now: u64,
)
    requires
        v.inv(),
    ensures
        ({
            let run = mint_run(v, caller, recipients, metadata_uris, attributes, royalty_overrides, now);
            &&& run.0.inv()
            &&& run.0.supply() == v.supply() + run.2.len()
        }),
    decreases recipients.len(),
{
    if recipients.len() > 0 && metadata_uris.len() > 0 && attributes.len() > 0 {
        let ro = match royalty_overrides {
            Some(s) => if s.len() > 0 {
                Some(s[0])
            } else {
                None
            },
            None => None,
        };
        if v.mint_error(caller, metadata_uris[0]@, ro) is None {
            lemma_after_mint_inv(v, caller, recipients[0], metadata_uris[0], attributes[0], ro, None, now);
            let t = v.minted_token(caller, recipients[0], metadata_uris[0], attributes[0], ro, None, now);
            lemma_mint_run_supply(
                v.after_mint(t),
                caller,
                recipients.drop_first(),
                metadata_uris.drop_first(),
                attributes.drop_first(),
                match royalty_overrides {
                    Some(s) => Some(s.drop_first()),
                    None => None,
                },
                now,
            );
        }
    }
}

/// After a successful transfer the token has no approved spender.
pub proof fn lemma_transfer_clears_approval(
    v: LedgerView,
    caller: Address,
    from: Address,
    to: Address,
    id: u64,
)
    requires
        v.inv(),
        v.transfer_error(caller, from, id) is None,
    ensures
        v.after_transfer(to, id).tokens.contains_key(id),
        v.after_transfer(to, id).tokens[id].approved is None,
        v.after_transfer(to, id).tokens[id].owner == to,
{
}

/// The freeze is never undone: every successful operation leaves a frozen collection frozen.
pub proof fn lemma_frozen_stays_frozen(
    v: LedgerView,
    id: u64,
    to: Address,
    t: TokenData,
    role: Role,
    a: Address,
    added: bool,
    royalty: RoyaltyInfo,
    uri: String,
)
    requires
        v.is_frozen(),
    ensures
        v.after_mint(t).is_frozen(),
        v.after_burn(id).is_frozen(),
        v.after_transfer(to, id).is_frozen(),
        v.after_approve(to, id).is_frozen(),
        v.after_operator_approval(a, to, added).is_frozen(),
        v.after_token_uri(id, uri).is_frozen(),
        v.after_token_royalty(id, royalty).is_frozen(),
        v.after_default_royalty(royalty).is_frozen(),
        v.after_base_uri(uri).is_frozen(),
        v.after_freeze().is_frozen(),
        v.after_role_change(role, a, added).is_frozen(),
        v.after_pause(added).is_frozen(),
{
}

/// A share above 10000 basis points is never recorded: both setters and minting refuse it,
/// and once the caller is entitled the setters' refusal is `InvalidRoyalty`.
pub proof fn lemma_royalty_cap_enforced(
    v: LedgerView,
    caller: Address,
    id: u64,
    percentage: u32,
    metadata_uri: Seq<char>,
)
    requires
        percentage > 10000,
    ensures
        v.set_default_royalty_error(caller, percentage) is Some,
        v.set_token_royalty_error(caller, id, percentage) is Some,
        v.has_role(caller, Role::Admin) ==> v.set_default_royalty_error(caller, percentage)
            == Some(ContractError::InvalidRoyalty),
        v.tokens.contains_key(id) && v.has_role(caller, Role::Admin)
            ==> v.set_token_royalty_error(caller, id, percentage) == Some(
            ContractError::InvalidRoyalty,
        ),
        v.mint_error(caller, metadata_uri, Some(RoyaltyInfo { recipient: caller, percentage }))
            is Some,
{
}

/// The NFT ledger: its records, and the log of events its operations report. Every
/// operation names its authenticated caller explicitly.
pub struct NftContract {
    storage: Storage,
    events: Events,
}

impl NftContract {
    pub closed spec fn ledger(&self) -> LedgerView {
        self.storage@
    }

    /// The events reported and not yet taken.
    pub closed spec fn emitted(&self) -> Seq<Event> {
        self.events@
    }

    pub closed spec fn wf(&self) -> bool {
        self.storage.wf()
    }

    /// Every well-formed ledger meets the global invariant.
    pub proof fn lemma_wf_inv(&self)
        requires
            self.wf(),
        ensures
            self.ledger().inv(),
    {
    }

    /// A ledger with no collection yet; `initialize` sets it up.
    pub fn new() -> (r: NftContract)
        ensures
            r.wf(),
            r.ledger() == LedgerView::empty(),
            r.emitted() == Seq::<Event>::empty(),
    {
        NftContract { storage: Storage::new(), events: Events::new() }
    }

    /// Sets up the collection once, with `owner` as its super-role.
    pub fn initialize(
        &mut self,
        owner: Address,
        name: String,
        symbol: String,
        base_uri: String,
        max_supply: Option<u64>,
        mint_price: Option<i128>,
        default_royalty: RoyaltyInfo,
    ) -> (r: Result<(), ContractError>)
        requires
            old(self).wf(),
        ensures
            final(self).wf(),
            final(self).emitted() == old(self).emitted(),
            match old(self).ledger().initialize_error(name@, symbol@, default_royalty) {
                Some(e) => r == Err::<(), ContractError>(e) && final(self).ledger() == old(
                    self,
                ).ledger(),
                None => r is Ok && final(self).ledger() == (LedgerView {
                    config: Some(
                        CollectionConfig {
                            name,
                            symbol,
                            base_uri,
                            max_supply,
                            mint_price,
                            is_revealed: false,
                            royalty_default: default_royalty,
                            metadata_is_frozen: false,
                            is_paused: false,
                        },
                    ),
                    owner: Some(owner),
                    ..old(self).ledger()
                }),
            },
    {
        if self.storage.is_initialized() {
            return Err(ContractError::AlreadyExists);
        }
        if !Utils::is_valid_string(&name) || !Utils::is_valid_string(&symbol) {
            return Err(ContractError::InvalidInput);
        }
        if !default_royalty.validate() {
            return Err(ContractError::InvalidRoyalty);
        }
        let config = CollectionConfig::new(
            name,
            symbol,
            base_uri,
            max_supply,
            mint_price,
            default_royalty,
        );
        self.storage.initialize(owner, config);
        Ok(())
    }

    // ============ Token management ============

    /// Mints a new token to `to` under the next id, stamped with the ledger time `now`.
    pub fn mint(
        &mut self,
        caller: Address,
        to: Address,
        metadata_uri: String,
        attributes: Vec<TokenAttribute>,
        royalty_override: Option<RoyaltyInfo>,
        edition_info: Option<(u32, u32)>,
        now: u64,
    ) -> (r: Result<u64, ContractError>)
        requires
            old(self).wf(),
        ensures
            final(self).wf(),
            match old(self).ledger().mint_error(caller, metadata_uri@, royalty_override) {
                Some(e) => {
                    &&& r == Err::<u64, ContractError>(e)
                    &&& final(self).ledger() == old(self).ledger()
                    &&& final(self).emitted() == old(self).emitted()
                },
                None => {
                    let t = old(self).ledger().minted_token(
                        caller,
                        to,
                        metadata_uri,
                        attributes,
                        royalty_override,
                        edition_info,
                        now,
                    );
                    &&& r == Ok::<u64, ContractError>(t.id)
                    &&& final(self).ledger() == old(self).ledger().after_mint(t)
                    &&& final(self).emitted() == old(self).emitted().push(
                        Event::Mint(MintEvent { to, token_id: t.id, metadata_uri, creator: caller }),
                    )
                },
            },
    {
        require_minter(&self.storage, caller)?;
        require_not_paused(&self.storage)?;
        if !Utils::is_valid_string(&metadata_uri) {
            return Err(ContractError::InvalidMetadataUri);
        }
        let max_supply = match self.storage.get_config() {
            Some(c) => c.max_supply,
            None => {
                return Err(ContractError::ContractNotInitialized);
            },
        };
        if let Some(max) = max_supply {
            if self.storage.get_total_supply() >= max {
                return Err(ContractError::SupplyLimitExceeded);
            }
        }
        if let Some(ro) = royalty_override {
            if !ro.validate() {
                return Err(ContractError::InvalidRoyalty);
            }
        }
        let last = self.storage.last_token_id();
        if last == u64::MAX {
            return Err(ContractError::Overflow);
        }
        let token_id = last + 1;
        let mut token = TokenData::new(
            token_id,
            to,
            metadata_uri,
            caller,
            royalty_override,
            attributes,
            edition_info,
        );
        token.created_at = now;
        let reported = token.metadata_uri.clone();
        self.storage.insert_minted(token);
        self.events.emit_mint(to, token_id, reported, caller);
        Ok(token_id)
    }

    /// Mints one token per index of the parallel inputs, in order, and returns their ids.
    /// Fails fast: tokens minted before a refusal stay minted.
    pub fn batch_mint(
        &mut self,
        caller: Address,
        recipients: Vec<Address>,
        metadata_uris: Vec<String>,
        attributes_list: Vec<Vec<TokenAttribute>>,
        royalty_overrides: Option<Vec<RoyaltyInfo>>,
        now: u64,
    ) -> (r: Result<Vec<u64>, ContractError>)
        requires
            old(self).wf(),
        ensures
            final(self).wf(),
            ({
                let overrides_len = match royalty_overrides {
                    Some(o) => Some(o@.len()),
                    None => None,
                };
                match old(self).ledger().batch_mint_error(
                    caller,
                    recipients@.len(),
                    metadata_uris@.len(),
                    attributes_list@.len(),
                    overrides_len,
                ) {
                    Some(e) => {
                        &&& r is Err && r->Err_0 == e
                        &&& final(self).ledger() == old(self).ledger()
                        &&& final(self).emitted() == old(self).emitted()
                    },
                    None => {
                        let run = mint_run(
                            old(self).ledger(),
                            caller,
                            recipients@,
                            metadata_uris@,
                            attributes_list@,
                            opt_view(royalty_overrides),
                            now,
                        );
                        &&& final(self).ledger() == run.0
                        &&& final(self).emitted() == old(self).emitted() + run.1
                        &&& match run.3 {
                            Some(e) => r is Err && r->Err_0 == e,
                            None => r matches Ok(ids) && ids@ == run.2,
                        }
                    },
                }
            }),
    {
        require_minter(&self.storage, caller)?;
        require_not_paused(&self.storage)?;
        let n = recipients.len();
        if n != metadata_uris.len() || n != attributes_list.len() {
            return Err(ContractError::BatchLengthMismatch);
        }
        if let Some(o) = &royalty_overrides {
            if o.len() != n {
                return Err(ContractError::BatchLengthMismatch);
            }
        }
        if n == 0 {
            return Err(ContractError::EmptyBatch);
        }
        let ghost v0 = self.ledger();
        let ghost e0 = self.emitted();
        let ghost rec0 = recipients@;
        let ghost uris0 = metadata_uris@;
        let ghost attrs0 = attributes_list@;
        let ghost ovr0 = opt_view(royalty_overrides);
        let mut uris = metadata_uris;
        let mut attrs = attributes_list;
        let mut ids: Vec<u64> = Vec::new();
        proof {
            assert(rec0.subrange(0, n as int) =~= rec0);
            assert(uris0.subrange(0, n as int) =~= uris0);
            assert(attrs0.subrange(0, n as int) =~= attrs0);
            if let Some(s) = ovr0 {
                assert(s.subrange(0, n as int) =~= s);
            }
            assert(self.emitted() + Seq::<Event>::empty() =~= self.emitted());
            assert(ids@ + Seq::<u64>::empty() =~= ids@);
        }
        let mut i: usize = 0;
        while i < n
            invariant
                n == rec0.len(),
                n == uris0.len(),
                n == attrs0.len(),
                ovr0 matches Some(s) ==> s.len() == n,
                recipients@ == rec0,
                metadata_uris@ == uris0,
                attributes_list@ == attrs0,
                ovr0 == opt_view(royalty_overrides),
                v0 == old(self).ledger(),
                e0 == old(self).emitted(),
                i <= n,
                uris@ == uris0.subrange(i as int, n as int),
                attrs@ == attrs0.subrange(i as int, n as int),
                self.wf(),
                ({
                    let all = mint_run(v0, caller, rec0, uris0, attrs0, ovr0, now);
                    let rest = mint_run(
                        self.ledger(),
                        caller,
                        rec0.subrange(i as int, n as int),
                        uris@,
                        attrs@,
                        match ovr0 {
                            Some(s) => Some(s.subrange(i as int, n as int)),
                            None => None,
                        },
                        now,
                    );
                    &&& all.0 == rest.0
                    &&& e0 + all.1 == self.emitted() + rest.1
                    &&& all.2 == ids@ + rest.2
                    &&& all.3 == rest.3
                }),
            decreases n - i,
        {
            let to = recipients[i];
            let ro = match &royalty_overrides {
                Some(o) => Some(o[i]),
                None => None,
            };
            let ghost before = self.ledger();
            let ghost ev_before = self.emitted();
            let ghost ids_before = ids@;
            let ghost rsub = rec0.subrange(i as int, n as int);
            let ghost osub = match ovr0 {
                Some(s) => Some(s.subrange(i as int, n as int)),
                None => None::<Seq<RoyaltyInfo>>,
            };
            let ghost usub = uris@;
            let ghost asub = attrs@;
            let uri = uris.remove(0);
            let attributes = attrs.remove(0);
            proof {
                assert(rsub[0] == to);
                assert(rsub.drop_first() =~= rec0.subrange(i + 1, n as int));
                assert(usub.drop_first() =~= uris0.subrange(i + 1, n as int));
                assert(asub.drop_first() =~= attrs0.subrange(i + 1, n as int));
                assert(uris@ =~= uris0.subrange(i + 1, n as int));
                assert(attrs@ =~= attrs0.subrange(i + 1, n as int));
                if let Some(s) = ovr0 {
                    assert(s.subrange(i as int, n as int)[0] == s[i as int]);
                    assert(s.subrange(i as int, n as int).drop_first() =~= s.subrange(
                        i + 1,
                        n as int,
                    ));
                }
            }
            match self.mint(caller, to, uri, attributes, ro, None, now) {
                Ok(id) => {
                    ids.push(id);
                    proof {
                        let osub_next = match ovr0 {
                            Some(s) => Some(s.subrange(i + 1, n as int)),
                            None => None::<Seq<RoyaltyInfo>>,
                        };
                        let rest = mint_run(
                            self.ledger(),
                            caller,
                            rec0.subrange(i + 1, n as int),
                            uris@,
                            attrs@,
                            osub_next,
                            now,
                        );
                        let ev = Event::Mint(
                            MintEvent { to, token_id: id, metadata_uri: usub[0], creator: caller },
                        );
                        assert(ev_before + (seq![ev] + rest.1) =~= ev_before.push(ev) + rest.1);
                        assert(ids_before + (seq![id] + rest.2) =~= ids@ + rest.2);
                    }
                },
                Err(e) => {
                    proof {
                        assert(mint_run(before, caller, rsub, usub, asub, osub, now).3 == Some(e));
                        assert(self.emitted() + Seq::<Event>::empty() =~= self.emitted());
                    }
                    return Err(e);
                },
            }
            i = i + 1;
        }
        proof {
            assert(self.emitted() + Seq::<Event>::empty() =~= self.emitted());
            assert(ids@ + Seq::<u64>::empty() =~= ids@);
        }
        Ok(ids)
    }

    /// Destroys token `token_id`; its owner may always burn it, anyone else needs the burner
    /// role. The id is never handed out again.
    pub fn burn(&mut self, caller: Address, token_id: u64, confirm: bool) -> (r: Result<
        (),
        ContractError,
    >)
        requires
            old(self).wf(),
        ensures
            final(self).wf(),
            old(self).ledger().burn_error(caller, token_id, confirm) is None ==> step(
                old(self).ledger(),
                final(self).ledger(),
                old(self).emitted(),
                final(self).emitted(),
                r,
                None,
                old(self).ledger().after_burn(token_id),
                Event::Burn(
                    BurnEvent {
                        from: old(self).ledger().tokens[token_id].owner,
                        token_id,
                    },
                ),
            ),
            old(self).ledger().burn_error(caller, token_id, confirm) matches Some(e) ==> {
                &&& r == Err::<(), ContractError>(e)
                &&& final(self).ledger() == old(self).ledger()
                &&& final(self).emitted() == old(self).emitted()
            },
    {
        if !confirm {
            return Err(ContractError::BurnNotConfirmed);
        }
        let owner = match self.storage.get_token(token_id) {
            Some(t) => t.owner,
            None => {
                return Err(ContractError::TokenNotFound);
            },
        };
        if owner != caller {
            require_burner(&self.storage, caller)?;
        }
        let _burned = self.storage.remove_burned(token_id);
        self.events.emit_burn(owner, token_id);
        Ok(())
    }

    // ============ Ownership & approvals ============

    pub fn owner_of(&self, token_id: u64) -> (r: Result<Address, ContractError>)
        ensures
            !self.ledger().tokens.contains_key(token_id) ==> r == Err::<Address, ContractError>(
                ContractError::TokenNotFound,
            ),
            self.ledger().tokens.contains_key(token_id) ==> r == Ok::<Address, ContractError>(
                self.ledger().tokens[token_id].owner,
            ),
    {
        match self.storage.get_token(token_id) {
            Some(t) => Ok(t.owner),
            None => Err(ContractError::TokenNotFound),
        }
    }

    /// How many live tokens `owner` holds: the number of token records naming it.
    pub fn balance_of(&self, owner: Address) -> (r: u64)
        requires
            self.wf(),
        ensures
            r == owned_count(self.ledger().tokens, owner.id),
            r == self.ledger().tokens.dom().filter(
                |id: u64| self.ledger().tokens[id].owner == owner,
            ).len(),
    {
        let r = self.storage.get_balance(owner);
        proof {
            let t = self.ledger().tokens;
            assert(t.dom().filter(|id: u64| t[id].owner == owner) =~= t.dom().filter(
                |id: u64| t[id].owner.id == owner.id,
            ));
        }
        r
    }

    pub fn approve(&mut self, caller: Address, approved: Address, token_id: u64) -> (r: Result<
        (),
        ContractError,
    >)
        requires
            old(self).wf(),
        ensures
            final(self).wf(),
            step(
                old(self).ledger(),
                final(self).ledger(),
                old(self).emitted(),
                final(self).emitted(),
                r,
                old(self).ledger().approve_error(caller, approved, token_id),
                old(self).ledger().after_approve(approved, token_id),
                Event::Approval(
                    ApprovalEvent {
                        owner: old(self).ledger().tokens[token_id].owner,
                        approved,
                        token_id,
                    },
                ),
            ),
    {
        Transfer::approve(&mut self.storage, &mut self.events, caller, approved, token_id)
    }

    pub fn set_approval_for_all(&mut self, caller: Address, operator: Address, approved: bool) -> (r:
        Result<(), ContractError>)
        requires
            old(self).wf(),
        ensures
            final(self).wf(),
            step(
                old(self).ledger(),
                final(self).ledger(),
                old(self).emitted(),
                final(self).emitted(),
                r,
                if operator == caller {
                    Some(ContractError::SelfApproval)
                } else {
                    None
                },
                old(self).ledger().after_operator_approval(caller, operator, approved),
                Event::ApprovalForAll(
                    ApprovalForAllEvent { owner: caller, operator, approved },
                ),
            ),
    {
        Transfer::set_approval_for_all(&mut self.storage, &mut self.events, caller, operator, approved)
    }

    pub fn get_approved(&self, token_id: u64) -> (r: Result<Option<Address>, ContractError>)
        ensures
            !self.ledger().tokens.contains_key(token_id) ==> r == Err::<
                Option<Address>,
                ContractError,
            >(ContractError::TokenNotFound),
            self.ledger().tokens.contains_key(token_id) ==> r == Ok::<
                Option<Address>,
                ContractError,
            >(self.ledger().tokens[token_id].approved),
    {
        Transfer::get_approved(&self.storage, token_id)
    }

    pub fn is_approved_for_all(&self, owner: Address, operator: Address) -> (r: bool)
        ensures
            r == self.ledger().is_operator(owner, operator),
    {
        Transfer::is_approved_for_all(&self.storage, owner, operator)
    }

    // ============ Transfers ============

    pub fn transfer_from(&mut self, caller: Address, from: Address, to: Address, token_id: u64) -> (r:
        Result<(), ContractError>)
        requires
            old(self).wf(),
        ensures
            final(self).wf(),
            step(
                old(self).ledger(),
                final(self).ledger(),
                old(self).emitted(),
                final(self).emitted(),
                r,
                old(self).ledger().transfer_error(caller, from, token_id),
                old(self).ledger().after_transfer(to, token_id),
                Event::Transfer(TransferEvent { from, to, token_id }),
            ),
    {
        Transfer::transfer_from(&mut self.storage, &mut self.events, caller, from, to, token_id)
    }

    /// The same as `transfer_from`: no receiver hook is consulted, and `data` goes nowhere.
    pub fn safe_transfer_from(
        &mut self,
        caller: Address,
        from: Address,
        to: Address,
        token_id: u64,
        data: Option<Vec<u8>>,
    ) -> (r: Result<(), ContractError>)
        requires
            old(self).wf(),
        ensures
            final(self).wf(),
            step(
                old(self).ledger(),
                final(self).ledger(),
                old(self).emitted(),
                final(self).emitted(),
                r,
                old(self).ledger().transfer_error(caller, from, token_id),
                old(self).ledger().after_transfer(to, token_id),
                Event::Transfer(TransferEvent { from, to, token_id }),
            ),
    {
        Transfer::safe_transfer_from(
            &mut self.storage,
            &mut self.events,
            caller,
            from,
            to,
            token_id,
            data,
        )
    }

    /// Moves each of `token_ids` in order; moves before a refusal stay done.
    pub fn batch_transfer(
        &mut self,
        caller: Address,
        from: Address,
        to: Address,
        token_ids: Vec<u64>,
    ) -> (r: Result<(), ContractError>)
        requires
            old(self).wf(),
        ensures
            final(self).wf(),
            token_ids@.len() == 0 ==> {
                &&& r == Err::<(), ContractError>(ContractError::EmptyBatch)
                &&& final(self).ledger() == old(self).ledger()
                &&& final(self).emitted() == old(self).emitted()
            },
            token_ids@.len() > 0 ==> {
                let run = transfer_run(old(self).ledger(), caller, from, to, token_ids@);
                &&& final(self).ledger() == run.0
                &&& final(self).emitted() == old(self).emitted() + run.1
                &&& r == match run.2 {
                    Some(e) => Err(e),
                    None => Ok(()),
                }
            },
    {
        Transfer::batch_transfer(&mut self.storage, &mut self.events, caller, from, to, token_ids)
    }

    // ============ Metadata ============

    pub fn token_uri(&self, token_id: u64) -> (r: Result<String, ContractError>)
        ensures
            !self.ledger().tokens.contains_key(token_id) ==> r == Err::<String, ContractError>(
                ContractError::TokenNotFound,
            ),
            self.ledger().tokens.contains_key(token_id) && self.ledger().config is None ==> r
                == Err::<String, ContractError>(ContractError::ContractNotInitialized),
            self.ledger().tokens.contains_key(token_id) && self.ledger().config is Some ==> (r matches Ok(
                s,
            ) && s@ == self.ledger().tokens[token_id].metadata_uri@),
    {
        Metadata::get_token_uri(&self.storage, token_id)
    }

    pub fn token_metadata(&self, token_id: u64) -> (r: Result<&TokenData, ContractError>)
        ensures
            !self.ledger().tokens.contains_key(token_id) ==> r is Err && r->Err_0
                == ContractError::TokenNotFound,
            self.ledger().tokens.contains_key(token_id) ==> (r matches Ok(t) && *t
                == self.ledger().tokens[token_id]),
    {
        Metadata::get_token_metadata(&self.storage, token_id)
    }

    pub fn set_token_uri(&mut self, caller: Address, token_id: u64, metadata_uri: String) -> (r:
        Result<(), ContractError>)
        requires
            old(self).wf(),
        ensures
            final(self).wf(),
            step(
                old(self).ledger(),
                final(self).ledger(),
                old(self).emitted(),
                final(self).emitted(),
                r,
                old(self).ledger().set_token_uri_error(caller, token_id, metadata_uri@),
                old(self).ledger().after_token_uri(token_id, metadata_uri),
                Event::MetadataUpdate(
                    MetadataUpdateEvent { token_id, metadata_uri },
                ),
            ),
    {
        Metadata::set_token_uri(&mut self.storage, &mut self.events, caller, token_id, metadata_uri)
    }

    pub fn set_base_uri(&mut self, caller: Address, base_uri: String) -> (r: Result<
        (),
        ContractError,
    >)
        requires
            old(self).wf(),
        ensures
            final(self).wf(),
            step(
                old(self).ledger(),
                final(self).ledger(),
                old(self).emitted(),
                final(self).emitted(),
                r,
                old(self).ledger().set_base_uri_error(caller),
                old(self).ledger().after_base_uri(base_uri),
                Event::BaseUriUpdate(BaseURIUpdateEvent { base_uri }),
            ),
    {
        Metadata::set_base_uri(&mut self.storage, &mut self.events, caller, base_uri)
    }

    pub fn freeze_metadata(&mut self, caller: Address) -> (r: Result<(), ContractError>)
        requires
            old(self).wf(),
        ensures
            final(self).wf(),
            step(
                old(self).ledger(),
                final(self).ledger(),
                old(self).emitted(),
                final(self).emitted(),
                r,
                old(self).ledger().freeze_error(caller),
                old(self).ledger().after_freeze(),
                Event::MetadataFrozen,
            ),
    {
        Metadata::freeze_metadata(&mut self.storage, &mut self.events, caller)
    }

    pub fn is_metadata_frozen(&self) -> (r: Result<bool, ContractError>)
        ensures
            self.ledger().config is None ==> r == Err::<bool, ContractError>(
                ContractError::ContractNotInitialized,
            ),
            self.ledger().config matches Some(c) ==> r == Ok::<bool, ContractError>(
                c.metadata_is_frozen,
            ),
    {
        Metadata::is_metadata_frozen(&self.storage)
    }

    // ============ Royalties ============

    pub fn get_royalty_info(&self, token_id: u64, sale_price: i128) -> (r: Result<
        (Address, i128),
        ContractError,
    >)
        requires
            self.wf(),
        ensures
            !self.ledger().tokens.contains_key(token_id) ==> r == Err::<
                (Address, i128),
                ContractError,
            >(ContractError::TokenNotFound),
            self.ledger().tokens.contains_key(token_id) ==> (r matches Ok((recipient, amount))
                && {
                let share = self.ledger().royalty_share(token_id);
                &&& recipient == share.recipient
                &&& amount == royalty_amount(sale_price as int, share.percentage as int)
                &&& sale_price >= 0 ==> 0 <= amount <= sale_price
            }),
    {
        Royalty::get_royalty_info(&self.storage, token_id, sale_price)
    }

    pub fn set_default_royalty(&mut self, caller: Address, recipient: Address, percentage: u32) -> (r:
        Result<(), ContractError>)
        requires
            old(self).wf(),
        ensures
            final(self).wf(),
            step(
                old(self).ledger(),
                final(self).ledger(),
                old(self).emitted(),
                final(self).emitted(),
                r,
                old(self).ledger().set_default_royalty_error(caller, percentage),
                old(self).ledger().after_default_royalty(RoyaltyInfo { recipient, percentage }),
                Event::RoyaltyUpdate(
                    RoyaltyUpdateEvent { token_id: None, recipient, percentage },
                ),
            ),
    {
        Royalty::set_default_royalty(&mut self.storage, &mut self.events, caller, recipient, percentage)
    }

    pub fn set_token_royalty(
        &mut self,
        caller: Address,
        token_id: u64,
        recipient: Address,
        percentage: u32,
    ) -> (r: Result<(), ContractError>)
        requires
            old(self).wf(),
        ensures
            final(self).wf(),
            step(
                old(self).ledger(),
                final(self).ledger(),
                old(self).emitted(),
                final(self).emitted(),
                r,
                old(self).ledger().set_token_royalty_error(caller, token_id, percentage),
                old(self).ledger().after_token_royalty(
                    token_id,
                    RoyaltyInfo { recipient, percentage },
                ),
                Event::RoyaltyUpdate(
                    RoyaltyUpdateEvent {
                        token_id: Some(token_id),
                        recipient,
                        percentage,
                    },
                ),
            ),
    {
        Royalty::set_token_royalty(
            &mut self.storage,
            &mut self.events,
            caller,
            token_id,
            recipient,
            percentage,
        )
    }

    pub fn get_default_royalty(&self) -> (r: Result<RoyaltyInfo, ContractError>)
        ensures
            self.ledger().config is None ==> r == Err::<RoyaltyInfo, ContractError>(
                ContractError::ContractNotInitialized,
            ),
            self.ledger().config matches Some(c) ==> r == Ok::<RoyaltyInfo, ContractError>(
                c.royalty_default,
            ),
    {
        Royalty::get_default_royalty(&self.storage)
    }

    // ============ Collection info ============

    pub fn name(&self) -> (r: Result<String, ContractError>)
        ensures
            self.ledger().config is None ==> r == Err::<String, ContractError>(
                ContractError::ContractNotInitialized,
            ),
            self.ledger().config matches Some(c) ==> r == Ok::<String, ContractError>(c.name),
    {
        match self.storage.get_config() {
            Some(c) => Ok(c.name.clone()),
            None => Err(ContractError::ContractNotInitialized),
        }
    }

    pub fn symbol(&self) -> (r: Result<String, ContractError>)
        ensures
            self.ledger().config is None ==> r == Err::<String, ContractError>(
                ContractError::ContractNotInitialized,
            ),
            self.ledger().config matches Some(c) ==> r == Ok::<String, ContractError>(c.symbol),
    {
        match self.storage.get_config() {
            Some(c) => Ok(c.symbol.clone()),
            None => Err(ContractError::ContractNotInitialized),
        }
    }

    /// The number of live tokens.
    pub fn total_supply(&self) -> (r: u64)
        requires
            self.wf(),
        ensures
            r == self.ledger().tokens.dom().len(),
    {
        self.storage.get_total_supply()
    }

    pub fn max_supply(&self) -> (r: Result<Option<u64>, ContractError>)
        ensures
            self.ledger().config is None ==> r == Err::<Option<u64>, ContractError>(
                ContractError::ContractNotInitialized,
            ),
            self.ledger().config matches Some(c) ==> r == Ok::<Option<u64>, ContractError>(
                c.max_supply,
            ),
    {
        match self.storage.get_config() {
            Some(c) => Ok(c.max_supply),
            None => Err(ContractError::ContractNotInitialized),
        }
    }

    pub fn owner(&self) -> (r: Result<Address, ContractError>)
        ensures
            self.ledger().owner is None ==> r == Err::<Address, ContractError>(
                ContractError::NotFound,
            ),
            self.ledger().owner matches Some(o) ==> r == Ok::<Address, ContractError>(o),
    {
        match self.storage.get_owner() {
            Some(o) => Ok(o),
            None => Err(ContractError::NotFound),
        }
    }

    // ============ Access control ============

    pub fn has_role(&self, a: Address, role: Role) -> (r: bool)
        ensures
            r == self.ledger().has_role(a, role),
    {
        crate::access_control::has_role(&self.storage, a, role)
    }

    /// Adds `a` to the explicit set of `role`. Only the owner changes the admin set; an admin
    /// changes the others. Granting a held role again changes nothing but is reported.
    pub fn grant_role(&mut self, caller: Address, role: Role, a: Address) -> (r: Result<
        (),
        ContractError,
    >)
        requires
            old(self).wf(),
        ensures
            final(self).wf(),
            step(
                old(self).ledger(),
                final(self).ledger(),
                old(self).emitted(),
                final(self).emitted(),
                r,
                old(self).ledger().role_change_error(caller, role),
                old(self).ledger().after_role_change(role, a, true),
                Event::RoleUpdate(RoleUpdateEvent { role, address: a, added: true }),
            ),
    {
        self.change_role(caller, role, a, true)
    }

    /// Takes `a` out of the explicit set of `role`; revoking from a non-member is no error.
    pub fn revoke_role(&mut self, caller: Address, role: Role, a: Address) -> (r: Result<
        (),
        ContractError,
    >)
        requires
            old(self).wf(),
        ensures
            final(self).wf(),
            step(
                old(self).ledger(),
                final(self).ledger(),
                old(self).emitted(),
                final(self).emitted(),
                r,
                old(self).ledger().role_change_error(caller, role),
                old(self).ledger().after_role_change(role, a, false),
                Event::RoleUpdate(RoleUpdateEvent { role, address: a, added: false }),
            ),
    {
        self.change_role(caller, role, a, false)
    }

    fn change_role(&mut self, caller: Address, role: Role, a: Address, added: bool) -> (r: Result<
        (),
        ContractError,
    >)
        requires
            old(self).wf(),
        ensures
            final(self).wf(),
            step(
                old(self).ledger(),
                final(self).ledger(),
                old(self).emitted(),
                final(self).emitted(),
                r,
                old(self).ledger().role_change_error(caller, role),
                old(self).ledger().after_role_change(role, a, added),
                Event::RoleUpdate(RoleUpdateEvent { role, address: a, added }),
            ),
    {
        if role == Role::Owner {
            return Err(ContractError::InvalidInput);
        }
        if role == Role::Admin {
            require_owner(&self.storage, caller)?;
        }
        require_admin(&self.storage, caller)?;
        if added {
            self.storage.add_role_member(role, a);
        } else {
            self.storage.remove_role_member(role, a);
        }
        self.events.emit_role_update(role, a, added);
        Ok(())
    }

    pub fn add_admin(&mut self, caller: Address, admin: Address) -> (r: Result<(), ContractError>)
        requires
            old(self).wf(),
        ensures
            final(self).wf(),
            step(
                old(self).ledger(),
                final(self).ledger(),
                old(self).emitted(),
                final(self).emitted(),
                r,
                old(self).ledger().role_change_error(caller, Role::Admin),
                old(self).ledger().after_role_change(Role::Admin, admin, true),
                Event::RoleUpdate(RoleUpdateEvent { role: Role::Admin, address: admin, added: true }),
            ),
    {
        self.grant_role(caller, Role::Admin, admin)
    }

    pub fn remove_admin(&mut self, caller: Address, admin: Address) -> (r: Result<(), ContractError>)
        requires
            old(self).wf(),
        ensures
            final(self).wf(),
            step(
                old(self).ledger(),
                final(self).ledger(),
                old(self).emitted(),
                final(self).emitted(),
                r,
                old(self).ledger().role_change_error(caller, Role::Admin),
                old(self).ledger().after_role_change(Role::Admin, admin, false),
                Event::RoleUpdate(
                    RoleUpdateEvent { role: Role::Admin, address: admin, added: false },
                ),
            ),
    {
        self.revoke_role(caller, Role::Admin, admin)
    }

    pub fn add_minter(&mut self, caller: Address, minter: Address) -> (r: Result<(), ContractError>)
        requires
            old(self).wf(),
        ensures
            final(self).wf(),
            step(
                old(self).ledger(),
                final(self).ledger(),
                old(self).emitted(),
                final(self).emitted(),
                r,
                old(self).ledger().role_change_error(caller, Role::Minter),
                old(self).ledger().after_role_change(Role::Minter, minter, true),
                Event::RoleUpdate(
                    RoleUpdateEvent { role: Role::Minter, address: minter, added: true },
                ),
            ),
    {
        self.grant_role(caller, Role::Minter, minter)
    }

    pub fn remove_minter(&mut self, caller: Address, minter: Address) -> (r: Result<
        (),
        ContractError,
    >)
        requires
            old(self).wf(),
        ensures
            final(self).wf(),
            step(
                old(self).ledger(),
                final(self).ledger(),
                old(self).emitted(),
                final(self).emitted(),
                r,
                old(self).ledger().role_change_error(caller, Role::Minter),
                old(self).ledger().after_role_change(Role::Minter, minter, false),
                Event::RoleUpdate(
                    RoleUpdateEvent { role: Role::Minter, address: minter, added: false },
                ),
            ),
    {
        self.revoke_role(caller, Role::Minter, minter)
    }

    pub fn add_burner(&mut self, caller: Address, burner: Address) -> (r: Result<(), ContractError>)
        requires
            old(self).wf(),
        ensures
            final(self).wf(),
            step(
                old(self).ledger(),
                final(self).ledger(),
                old(self).emitted(),
                final(self).emitted(),
                r,
                old(self).ledger().role_change_error(caller, Role::Burner),
                old(self).ledger().after_role_change(Role::Burner, burner, true),
                Event::RoleUpdate(
                    RoleUpdateEvent { role: Role::Burner, address: burner, added: true },
                ),
            ),
    {
        self.grant_role(caller, Role::Burner, burner)
    }

    /// Puts `a` on the whitelist, or takes it off; admins only.
    pub fn set_whitelisted(&mut self, caller: Address, a: Address, listed: bool) -> (r: Result<
        (),
        ContractError,
    >)
        requires
            old(self).wf(),
        ensures
            final(self).wf(),
            step(
                old(self).ledger(),
                final(self).ledger(),
                old(self).emitted(),
                final(self).emitted(),
                r,
                if old(self).ledger().has_role(caller, Role::Admin) {
                    None
                } else {
                    Some(ContractError::Unauthorized)
                },
                LedgerView {
                    whitelist: if listed {
                        old(self).ledger().whitelist.insert(a.id)
                    } else {
                        old(self).ledger().whitelist.remove(a.id)
                    },
                    ..old(self).ledger()
                },
                Event::WhitelistUpdate(WhitelistUpdateEvent { address: a, listed }),
            ),
    {
        require_admin(&self.storage, caller)?;
        self.storage.set_whitelisted(a, listed);
        self.events.emit_whitelist_update(a, listed);
        Ok(())
    }

    pub fn pause(&mut self, caller: Address) -> (r: Result<(), ContractError>)
        requires
            old(self).wf(),
        ensures
            final(self).wf(),
            step(
                old(self).ledger(),
                final(self).ledger(),
                old(self).emitted(),
                final(self).emitted(),
                r,
                old(self).ledger().admin_config_error(caller),
                old(self).ledger().after_pause(true),
                Event::Pause(PauseEvent { is_paused: true }),
            ),
    {
        self.set_paused(caller, true)
    }

    pub fn unpause(&mut self, caller: Address) -> (r: Result<(), ContractError>)
        requires
            old(self).wf(),
        ensures
            final(self).wf(),
            step(
                old(self).ledger(),
                final(self).ledger(),
                old(self).emitted(),
                final(self).emitted(),
                r,
                old(self).ledger().admin_config_error(caller),
                old(self).ledger().after_pause(false),
                Event::Pause(PauseEvent { is_paused: false }),
            ),
    {
        self.set_paused(caller, false)
    }

    fn set_paused(&mut self, caller: Address, paused: bool) -> (r: Result<(), ContractError>)
        requires
            old(self).wf(),
        ensures
            final(self).wf(),
            step(
                old(self).ledger(),
                final(self).ledger(),
                old(self).emitted(),
                final(self).emitted(),
                r,
                old(self).ledger().admin_config_error(caller),
                old(self).ledger().after_pause(paused),
                Event::Pause(PauseEvent { is_paused: paused }),
            ),
    {
        require_admin(&self.storage, caller)?;
        if !self.storage.is_initialized() {
            return Err(ContractError::ContractNotInitialized);
        }
        self.storage.set_paused(paused);
        self.events.emit_pause(paused);
        Ok(())
    }

    // ============ Events ============

    /// Hands the pending events to the host and clears them.
    pub fn take_events(&mut self) -> (r: Vec<Event>)
        ensures
            r@ == old(self).emitted(),
            final(self).emitted() == Seq::<Event>::empty(),
            final(self).ledger() == old(self).ledger(),
            old(self).wf() ==> final(self).wf(),
    {
        self.events.take_all()
    }

    /// Read access to the records, for the queries `Storage` offers.
    pub fn storage(&self) -> (r: &Storage)
        ensures
            r@ == self.ledger(),
            self.wf() ==> r.wf(),
    {
        &self.storage
    }

    pub fn events(&self) -> (r: &Events)
        ensures
            r@ == self.emitted(),
    {
        &self.events
    }
}

} // verus!
