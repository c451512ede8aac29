use crate::access_control::{has_role, require_admin, Role};
use crate::error::ContractError;
use crate::events::{BaseURIUpdateEvent, Event, Events, MetadataUpdateEvent};
use crate::storage::{CollectionConfig, LedgerView, Storage};
use crate::token::{Address, TokenData};
use crate::utils::Utils;
use vstd::prelude::*;

verus! {

impl LedgerView {
    pub open spec fn set_token_uri_error(
        self,
        caller: Address,
        token_id: u64,
        metadata_uri: Seq<char>,
    ) -> Option<ContractError> {
        if self.config is None {
            Some(ContractError::ContractNotInitialized)
        } else if self.is_frozen() {
            Some(ContractError::MetadataFrozen)
        } else if metadata_uri.len() == 0 {
            Some(ContractError::InvalidMetadataUri)
        } else if !self.tokens.contains_key(token_id) {
            Some(ContractError::TokenNotFound)
        } else if !(self.tokens[token_id].owner == caller || self.has_role(
            caller,
            Role::MetadataUpdater,
        )) {
            Some(ContractError::Unauthorized)
        } else {
            None
        }
    }

    pub open spec fn after_token_uri(self, token_id: u64, metadata_uri: String) -> LedgerView {
        self.with_token(TokenData { metadata_uri, ..self.tokens[token_id] })
    }

    /// The freeze is checked before the caller, so that a frozen collection refuses everyone
    /// alike.
    pub open spec fn set_base_uri_error(self, caller: Address) -> Option<ContractError> {
        if self.config is None {
            Some(ContractError::ContractNotInitialized)
        } else if self.is_frozen() {
            Some(ContractError::MetadataFrozen)
        } else if !self.has_role(caller, Role::Admin) {
            Some(ContractError::Unauthorized)
        } else {
            None
        }
    }

    pub open spec fn after_base_uri(self, base_uri: String) -> LedgerView {
        self.with_config(CollectionConfig { base_uri, ..self.config->0 })
    }

    pub open spec fn freeze_error(self, caller: Address) -> Option<ContractError> {
        if !self.has_role(caller, Role::Admin) {
            Some(ContractError::Unauthorized)
        } else if self.config is None {
            Some(ContractError::ContractNotInitialized)
        } else {
            None
        }
    }

    pub open spec fn after_freeze(self) -> LedgerView {
        self.with_config(CollectionConfig { metadata_is_frozen: true, ..self.config->0 })
    }
}

/// Once frozen, a collection stays frozen through every metadata change that succeeds, and
/// both kinds of metadata change are refused with `MetadataFrozen`, whoever asks.
pub proof fn lemma_freeze_is_final(
    v: LedgerView,
    caller: Address,
    token_id: u64,
    metadata_uri: String,
    base_uri: String,
)
    requires
        v.is_frozen(),
    ensures
        v.set_token_uri_error(caller, token_id, metadata_uri@) == Some(
            ContractError::MetadataFrozen,
        ),
        v.set_base_uri_error(caller) == Some(ContractError::MetadataFrozen),
        v.freeze_error(caller) is None ==> v.after_freeze().is_frozen(),
{
}

/// The metadata subsystem: token URIs, the collection's base URI, and the one-way freeze.
pub struct Metadata;

impl Metadata {
    /// The URI of token `token_id`, once the collection is initialized: the token's own URI.
    pub fn get_token_uri(store: &Storage, token_id: u64) -> (r: Result<String, ContractError>)
        ensures
            !store@.tokens.contains_key(token_id) ==> r == Err::<String, ContractError>(
                ContractError::TokenNotFound,
            ),
            store@.tokens.contains_key(token_id) && store@.config is None ==> r == Err::<
                String,
                ContractError,
            >(ContractError::ContractNotInitialized),
            store@.tokens.contains_key(token_id) && store@.config is Some ==> (r matches Ok(s)
                && s@ == store@.tokens[token_id].metadata_uri@),
    {
        let token = match store.get_token(token_id) {
            Some(t) => t,
            None => {
                return Err(ContractError::TokenNotFound);
            },
        };
        let config = match store.get_config() {
            Some(c) => c,
            None => {
                return Err(ContractError::ContractNotInitialized);
            },
        };
        Ok(Utils::combine_uri(&config.base_uri, &token.metadata_uri))
    }

    pub fn get_token_metadata(store: &Storage, token_id: u64) -> (r: Result<
        &TokenData,
        ContractError,
    >)
        ensures
            !store@.tokens.contains_key(token_id) ==> r is Err && r->Err_0
                == ContractError::TokenNotFound,
            store@.tokens.contains_key(token_id) ==> (r matches Ok(t) && *t
                == store@.tokens[token_id]),
    {
        match store.get_token(token_id) {
            Some(t) => Ok(t),
            None => Err(ContractError::TokenNotFound),
        }
    }

    /// Replaces the URI of one token; its owner or a metadata updater may do so.
    pub fn set_token_uri(
        store: &mut Storage,
        events: &mut Events,
        caller: Address,
        token_id: u64,
        metadata_uri: String,
    ) -> (r: Result<(), ContractError>)
        requires
            old(store).wf(),
        ensures
            final(store).wf(),
            match old(store)@.set_token_uri_error(caller, token_id, metadata_uri@) {
                Some(e) => {
                    &&& r == Err::<(), ContractError>(e)
                    &&& final(store)@ == old(store)@
                    &&& final(events)@ == old(events)@
                },
                None => {
                    &&& r is Ok
                    &&& final(store)@ == old(store)@.after_token_uri(token_id, metadata_uri)
                    &&& final(events)@ == old(events)@.push(
                        Event::MetadataUpdate(MetadataUpdateEvent { token_id, metadata_uri }),
                    )
                },
            },
    {
        let frozen = match store.get_config() {
            Some(c) => c.metadata_is_frozen,
            None => {
                return Err(ContractError::ContractNotInitialized);
            },
        };
        if frozen {
            return Err(ContractError::MetadataFrozen);
        }
        if !Utils::is_valid_string(&metadata_uri) {
            return Err(ContractError::InvalidMetadataUri);
        }
        let owner = match store.get_token(token_id) {
            Some(t) => t.owner,
            None => {
                return Err(ContractError::TokenNotFound);
            },
        };
        if owner != caller && !has_role(store, caller, Role::MetadataUpdater) {
            return Err(ContractError::Unauthorized);
        }
        let reported = metadata_uri.clone();
        store.set_token_uri(token_id, metadata_uri);
        events.emit_metadata_update(token_id, reported);
        Ok(())
    }

    pub fn set_base_uri(
        store: &mut Storage,
        events: &mut Events,
        caller: Address,
        base_uri: String,
    ) -> (r: Result<(), ContractError>)
        requires
            old(store).wf(),
        ensures
            final(store).wf(),
            match old(store)@.set_base_uri_error(caller) {
                Some(e) => {
                    &&& r == Err::<(), ContractError>(e)
                    &&& final(store)@ == old(store)@
                    &&& final(events)@ == old(events)@
                },
                None => {
                    &&& r is Ok
                    &&& final(store)@ == old(store)@.after_base_uri(base_uri)
                    &&& final(events)@ == old(events)@.push(
                        Event::BaseUriUpdate(BaseURIUpdateEvent { base_uri }),
                    )
                },
            },
    {
        let frozen = match store.get_config() {
            Some(c) => c.metadata_is_frozen,
            None => {
                return Err(ContractError::ContractNotInitialized);
            },
        };
        if frozen {
            return Err(ContractError::MetadataFrozen);
        }
        require_admin(store, caller)?;
        let reported = base_uri.clone();
        store.set_base_uri(base_uri);
        events.emit_base_uri_update(reported);
        Ok(())
    }

    /// Freezes metadata for good; freezing again succeeds and changes nothing more.
    pub fn freeze_metadata(store: &mut Storage, events: &mut Events, caller: Address) -> (r:
        Result<(), ContractError>)
        requires
            old(store).wf(),
        ensures
            final(store).wf(),
            match old(store)@.freeze_error(caller) {
                Some(e) => {
                    &&& r == Err::<(), ContractError>(e)
                    &&& final(store)@ == old(store)@
                    &&& final(events)@ == old(events)@
                },
                None => {
                    &&& r is Ok
                    &&& final(store)@ == old(store)@.after_freeze()
                    &&& final(events)@ == old(events)@.push(Event::MetadataFrozen)
                },
            },
    {
        require_admin(store, caller)?;
        if !store.is_initialized() {
            return Err(ContractError::ContractNotInitialized);
        }
        store.freeze_metadata();
        events.emit_metadata_frozen();
        Ok(())
    }

    pub fn is_metadata_frozen(store: &Storage) -> (r: Result<bool, ContractError>)
        ensures
            store@.config is None ==> r == Err::<bool, ContractError>(
                ContractError::ContractNotInitialized,
            ),
            store@.config matches Some(c) ==> r == Ok::<bool, ContractError>(
                c.metadata_is_frozen,
            ),
    {
        match store.get_config() {
            Some(c) => Ok(c.metadata_is_frozen),
            None => Err(ContractError::ContractNotInitialized),
        }
    }
}

} // verus!
