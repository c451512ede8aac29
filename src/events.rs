use crate::access_control::Role;
use crate::token::Address;
use vstd::prelude::*;

verus! {

#[derive(Clone, Copy, Debug, PartialEq, Eq, Structural)]
pub struct TransferEvent {
    pub from: Address,
    pub to: Address,
    pub token_id: u64,
}

#[derive(Clone, Copy, Debug, PartialEq, Eq, Structural)]
pub struct ApprovalEvent {
    pub owner: Address,
    pub approved: Address,
    pub token_id: u64,
}

#[derive(Clone, Copy, Debug, PartialEq, Eq, Structural)]
pub struct ApprovalForAllEvent {
    pub owner: Address,
    pub operator: Address,
    pub approved: bool,
}

#[derive(Clone, Debug)]
pub struct MintEvent {
    pub to: Address,
    pub token_id: u64,
    pub metadata_uri: String,
    pub creator: Address,
}

#[derive(Clone, Copy, Debug, PartialEq, Eq, Structural)]
pub struct BurnEvent {
    pub from: Address,
    pub token_id: u64,
}

#[derive(Clone, Debug)]
pub struct MetadataUpdateEvent {
    pub token_id: u64,
    pub metadata_uri: String,
}

#[derive(Clone, Debug)]
pub struct BaseURIUpdateEvent {
    pub base_uri: String,
}

#[derive(Clone, Copy, Debug, PartialEq, Eq, Structural)]
pub struct RoyaltyUpdateEvent {
    /// `None` for the collection default.
    pub token_id: Option<u64>,
    pub recipient: Address,
    pub percentage: u32,
}

#[derive(Clone, Copy, Debug, PartialEq, Eq, Structural)]
pub struct PauseEvent {
    pub is_paused: bool,
}

#[derive(Clone, Copy, Debug, PartialEq, Eq, Structural)]
pub struct RoleUpdateEvent {
    pub role: Role,
    pub address: Address,
    pub added: bool,
}

#[derive(Clone, Copy, Debug, PartialEq, Eq, Structural)]
pub struct WhitelistUpdateEvent {
    pub address: Address,
    pub listed: bool,
}

/// One domain event, reported by a successful mutating operation.
#[derive(Clone, Debug)]
pub enum Event {
    Transfer(TransferEvent),
    Approval(ApprovalEvent),
    ApprovalForAll(ApprovalForAllEvent),
    Mint(MintEvent),
    Burn(BurnEvent),
    MetadataUpdate(MetadataUpdateEvent),
    BaseUriUpdate(BaseURIUpdateEvent),
    MetadataFrozen,
    RoyaltyUpdate(RoyaltyUpdateEvent),
    Pause(PauseEvent),
    RoleUpdate(RoleUpdateEvent),
    WhitelistUpdate(WhitelistUpdateEvent),
}

/// The write-only log of events, in the order they were emitted; the host drains it.
pub struct Events {
    log: Vec<Event>,
}

impl View for Events {
    type V = Seq<Event>;

    closed spec fn view(&self) -> Seq<Event> {
        self.log@
    }
}

impl Events {
    pub fn new() -> (r: Events)
        ensures
            r@ == Seq::<Event>::empty(),
    {
        Events { log: Vec::new() }
    }

    pub fn len(&self) -> (r: usize)
        ensures
            r == self@.len(),
    {
        self.log.len()
    }

    pub fn get(&self, i: usize) -> (r: &Event)
        requires
            i < self@.len(),
        ensures
            *r == self@[i as int],
    {
        &self.log[i]
    }

    /// Hands every pending event to the caller and empties the log.
    pub fn take_all(&mut self) -> (r: Vec<Event>)
        ensures
            r@ == old(self)@,
            final(self)@ == Seq::<Event>::empty(),
    {
        self.log.split_off(0)
    }

    pub fn emit(&mut self, e: Event)
        ensures
            final(self)@ == old(self)@.push(e),
    {
        self.log.push(e);
    }

    pub fn emit_transfer(&mut self, from: Address, to: Address, token_id: u64)
        ensures
            final(self)@ == old(self)@.push(Event::Transfer(TransferEvent { from, to, token_id })),
    {
        self.emit(Event::Transfer(TransferEvent { from, to, token_id }));
    }

    pub fn emit_approval(&mut self, owner: Address, approved: Address, token_id: u64)
        ensures
            final(self)@ == old(self)@.push(
                Event::Approval(ApprovalEvent { owner, approved, token_id }),
            ),
    {
        self.emit(Event::Approval(ApprovalEvent { owner, approved, token_id }));
    }

    pub fn emit_approval_for_all(&mut self, owner: Address, operator: Address, approved: bool)
        ensures
            final(self)@ == old(self)@.push(
                Event::ApprovalForAll(ApprovalForAllEvent { owner, operator, approved }),
            ),
    {
        self.emit(Event::ApprovalForAll(ApprovalForAllEvent { owner, operator, approved }));
    }

    pub fn emit_mint(&mut self, to: Address, token_id: u64, metadata_uri: String, creator: Address)
        ensures
            final(self)@ == old(self)@.push(
                Event::Mint(MintEvent { to, token_id, metadata_uri, creator }),
            ),
    {
        self.emit(Event::Mint(MintEvent { to, token_id, metadata_uri, creator }));
    }

    pub fn emit_burn(&mut self, from: Address, token_id: u64)
        ensures
            final(self)@ == old(self)@.push(Event::Burn(BurnEvent { from, token_id })),
    {
        self.emit(Event::Burn(BurnEvent { from, token_id }));
    }

    pub fn emit_metadata_update(&mut self, token_id: u64, metadata_uri: String)
        ensures
            final(self)@ == old(self)@.push(
                Event::MetadataUpdate(MetadataUpdateEvent { token_id, metadata_uri }),
            ),
    {
        self.emit(Event::MetadataUpdate(MetadataUpdateEvent { token_id, metadata_uri }));
    }

    pub fn emit_base_uri_update(&mut self, base_uri: String)
        ensures
            final(self)@ == old(self)@.push(Event::BaseUriUpdate(BaseURIUpdateEvent { base_uri })),
    {
        self.emit(Event::BaseUriUpdate(BaseURIUpdateEvent { base_uri }));
    }

    pub fn emit_metadata_frozen(&mut self)
        ensures
            final(self)@ == old(self)@.push(Event::MetadataFrozen),
    {
        self.emit(Event::MetadataFrozen);
    }

    pub fn emit_royalty_update(
        &mut self,
        token_id: Option<u64>,
        recipient: Address,
        percentage: u32,
    )
        ensures
            final(self)@ == old(self)@.push(
                Event::RoyaltyUpdate(RoyaltyUpdateEvent { token_id, recipient, percentage }),
            ),
    {
        self.emit(Event::RoyaltyUpdate(RoyaltyUpdateEvent { token_id, recipient, percentage }));
    }

    pub fn emit_pause(&mut self, is_paused: bool)
        ensures
            final(self)@ == old(self)@.push(Event::Pause(PauseEvent { is_paused })),
    {
        self.emit(Event::Pause(PauseEvent { is_paused }));
    }

    pub fn emit_role_update(&mut self, role: Role, address: Address, added: bool)
        ensures
            final(self)@ == old(self)@.push(
                Event::RoleUpdate(RoleUpdateEvent { role, address, added }),
            ),
    {
        self.emit(Event::RoleUpdate(RoleUpdateEvent { role, address, added }));
    }

    pub fn emit_whitelist_update(&mut self, address: Address, listed: bool)
        ensures
            final(self)@ == old(self)@.push(
                Event::WhitelistUpdate(WhitelistUpdateEvent { address, listed }),
            ),
    {
        self.emit(Event::WhitelistUpdate(WhitelistUpdateEvent { address, listed }));
    }
}

} // verus!
