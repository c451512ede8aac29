use crate::access_control::{has_role, require_admin, Role};
use crate::error::ContractError;
use crate::events::{Event, Events, RoyaltyUpdateEvent};
use crate::storage::{CollectionConfig, LedgerView, Storage};
use crate::token::{royalty_amount, Address, RoyaltyInfo, TokenData};
use vstd::prelude::*;

verus! {

impl LedgerView {
    pub open spec fn set_default_royalty_error(self, caller: Address, percentage: u32) -> Option<
        ContractError,
    > {
        if !self.has_role(caller, Role::Admin) {
            Some(ContractError::Unauthorized)
        } else if percentage > 10000 {
            Some(ContractError::InvalidRoyalty)
        } else if self.config is None {
            Some(ContractError::ContractNotInitialized)
        } else {
            None
        }
    }

    pub open spec fn after_default_royalty(self, royalty: RoyaltyInfo) -> LedgerView {
        self.with_config(CollectionConfig { royalty_default: royalty, ..self.config->0 })
    }

    pub open spec fn set_token_royalty_error(
        self,
        caller: Address,
        token_id: u64,
        percentage: u32,
    ) -> Option<ContractError> {
        if !self.tokens.contains_key(token_id) {
            Some(ContractError::TokenNotFound)
        } else if !(self.tokens[token_id].owner == caller || self.has_role(caller, Role::Admin)) {
            Some(ContractError::Unauthorized)
        } else if percentage > 10000 {
            Some(ContractError::InvalidRoyalty)
        } else {
            None
        }
    }

    pub open spec fn after_token_royalty(self, token_id: u64, royalty: RoyaltyInfo) -> LedgerView {
        self.with_token(TokenData { royalty: Some(royalty), ..self.tokens[token_id] })
    }

    /// The share that applies to a sale of token `token_id` now: the token's own, else the
    /// collection default as it stands.
    pub open spec fn royalty_share(self, token_id: u64) -> RoyaltyInfo {
        match self.tokens[token_id].royalty {
            Some(ro) => ro,
            None => self.config->0.royalty_default,
        }
    }
}

/// For a price of zero or more the royalty lies between zero and the price itself: it is
/// neither negative nor larger than what was paid.
pub proof fn lemma_royalty_bounds(sale_price: int, bps: int)
    requires
        0 <= sale_price,
        0 <= bps <= 10000,
    ensures
        0 <= royalty_amount(sale_price, bps) <= sale_price,
{
    assert(0 <= sale_price * bps <= sale_price * 10000) by (nonlinear_arith)
        requires
            0 <= sale_price,
            0 <= bps <= 10000,
    ;
    assert((sale_price * 10000) / 10000 == sale_price) by (nonlinear_arith);
    assert(0 <= (sale_price * bps) / 10000 <= (sale_price * 10000) / 10000) by (nonlinear_arith)
        requires
            0 <= sale_price * bps <= sale_price * 10000,
    ;
}

/// A token with no share of its own follows the collection default: once the default
/// changes, a sale of that token pays the new recipient the new rate.
pub proof fn lemma_default_applies_to_tokens_without_share(
    v: LedgerView,
    token_id: u64,
    royalty: RoyaltyInfo,
)
    requires
        v.tokens.contains_key(token_id),
        v.tokens[token_id].royalty is None,
    ensures
        v.after_default_royalty(royalty).royalty_share(token_id) == royalty,
{
}

/// The royalty engine: per-token shares, the collection default, and what a sale owes.
pub struct Royalty;

impl Royalty {
    /// Who is paid, and how much, when token `token_id` sells for `sale_price`.
    pub fn get_royalty_info(store: &Storage, token_id: u64, sale_price: i128) -> (r: Result<
        (Address, i128),
        ContractError,
    >)
        requires
            store.wf(),
        ensures
            !store@.tokens.contains_key(token_id) ==> r == Err::<(Address, i128), ContractError>(
                ContractError::TokenNotFound,
            ),
            store@.tokens.contains_key(token_id) ==> (r matches Ok((recipient, amount)) && {
                let share = store@.royalty_share(token_id);
                &&& recipient == share.recipient
                &&& amount == royalty_amount(sale_price as int, share.percentage as int)
                &&& sale_price >= 0 ==> 0 <= amount <= sale_price
            }),
    {
        let own = match store.get_token(token_id) {
            Some(t) => t.royalty,
            None => {
                return Err(ContractError::TokenNotFound);
            },
        };
        let info = match own {
            Some(ro) => ro,
            None => match store.get_config() {
                Some(c) => c.royalty_default,
                // A live token implies an initialized collection.
                None => {
                    return Err(ContractError::ContractNotInitialized);
                },
            },
        };
        // Shares are validated when written; the check here is a second line of defence.
        let amount = info.calculate_royalty(sale_price)?;
        proof {
            if sale_price >= 0 {
                lemma_royalty_bounds(sale_price as int, info.percentage as int);
            }
        }
        Ok((info.recipient, amount))
    }

    /// Sets the share that new tokens get unless their mint names one.
    pub fn set_default_royalty(
        store: &mut Storage,
        events: &mut Events,
        caller: Address,
        recipient: Address,
        percentage: u32,
    ) -> (r: Result<(), ContractError>)
        requires
            old(store).wf(),
        ensures
            final(store).wf(),
            match old(store)@.set_default_royalty_error(caller, percentage) {
                Some(e) => {
                    &&& r == Err::<(), ContractError>(e)
                    &&& final(store)@ == old(store)@
                    &&& final(events)@ == old(events)@
                },
                None => {
                    &&& r is Ok
                    &&& final(store)@ == old(store)@.after_default_royalty(
                        RoyaltyInfo { recipient, percentage },
                    )
                    &&& final(events)@ == old(events)@.push(
                        Event::RoyaltyUpdate(
                            RoyaltyUpdateEvent { token_id: None, recipient, percentage },
                        ),
                    )
                },
            },
    {
        require_admin(store, caller)?;
        let royalty = RoyaltyInfo::new(recipient, percentage);
        if !royalty.validate() {
            return Err(ContractError::InvalidRoyalty);
        }
        if !store.is_initialized() {
            return Err(ContractError::ContractNotInitialized);
        }
        store.set_default_royalty(royalty);
        events.emit_royalty_update(None, recipient, percentage);
        Ok(())
    }

    /// Overrides the share of one token; its owner or an admin may do so.
    pub fn set_token_royalty(
        store: &mut Storage,
        events: &mut Events,
        caller: Address,
        token_id: u64,
        recipient: Address,
        percentage: u32,
    ) -> (r: Result<(), ContractError>)
        requires
            old(store).wf(),
        ensures
            final(store).wf(),
            match old(store)@.set_token_royalty_error(caller, token_id, percentage) {
                Some(e) => {
                    &&& r == Err::<(), ContractError>(e)
                    &&& final(store)@ == old(store)@
                    &&& final(events)@ == old(events)@
                },
                None => {
                    &&& r is Ok
                    &&& final(store)@ == old(store)@.after_token_royalty(
                        token_id,
                        RoyaltyInfo { recipient, percentage },
                    )
                    &&& final(events)@ == old(events)@.push(
                        Event::RoyaltyUpdate(
                            RoyaltyUpdateEvent { token_id: Some(token_id), recipient, percentage },
                        ),
                    )
                },
            },
    {
        let owner = match store.get_token(token_id) {
            Some(t) => t.owner,
            None => {
                return Err(ContractError::TokenNotFound);
            },
        };
        if owner != caller && !has_role(store, caller, Role::Admin) {
            return Err(ContractError::Unauthorized);
        }
        let royalty = RoyaltyInfo::new(recipient, percentage);
        if !royalty.validate() {
            return Err(ContractError::InvalidRoyalty);
        }
        store.set_token_royalty(token_id, royalty);
        events.emit_royalty_update(Some(token_id), recipient, percentage);
        Ok(())
    }

    pub fn get_default_royalty(store: &Storage) -> (r: Result<RoyaltyInfo, ContractError>)
        ensures
            store@.config is None ==> r == Err::<RoyaltyInfo, ContractError>(
                ContractError::ContractNotInitialized,
            ),
            store@.config matches Some(c) ==> r == Ok::<RoyaltyInfo, ContractError>(
                c.royalty_default,
            ),
    {
        match store.get_config() {
            Some(c) => Ok(c.royalty_default),
            None => Err(ContractError::ContractNotInitialized),
        }
    }
}

} // verus!
