use crate::error::ContractError;
use crate::storage::{LedgerView, Storage};
use crate::token::Address;
use vstd::prelude::*;

verus! {

/// The roles of the access guard. Owner is above admin, admin above the other three.
#[derive(Clone, Copy, Debug, PartialEq, Eq, Structural)]
pub enum Role {
    Owner,
    Admin,
    Minter,
    Burner,
    MetadataUpdater,
}

impl LedgerView {
    /// The explicit members of `role`; the owner is not a set but a single identity.
    pub open spec fn members(self, role: Role) -> Set<u64> {
        match role {
            Role::Owner => Set::empty(),
            Role::Admin => self.admins,
            Role::Minter => self.minters,
            Role::Burner => self.burners,
            Role::MetadataUpdater => self.metadata_updaters,
        }
    }

    /// The state with `s` as the explicit members of `role`.
    pub open spec fn with_members(self, role: Role, s: Set<u64>) -> LedgerView {
        match role {
            Role::Owner => self,
            Role::Admin => LedgerView { admins: s, ..self },
            Role::Minter => LedgerView { minters: s, ..self },
            Role::Burner => LedgerView { burners: s, ..self },
            Role::MetadataUpdater => LedgerView { metadata_updaters: s, ..self },
        }
    }

    pub open spec fn is_owner(self, a: Address) -> bool {
        self.owner == Some(a)
    }

    /// Resolution in order: the owner holds every role; an admin holds every role below
    /// owner; anyone else holds the roles whose sets name them.
    pub open spec fn has_role(self, a: Address, role: Role) -> bool {
        ||| self.is_owner(a)
        ||| role != Role::Owner && self.admins.contains(a.id)
        ||| self.members(role).contains(a.id)
    }
}

/// The owner passes every role check, and an admin every check below owner, whatever the
/// explicit role sets hold.
pub proof fn lemma_role_hierarchy(v: LedgerView, a: Address, role: Role)
    ensures
        v.is_owner(a) ==> v.has_role(a, role),
        v.admins.contains(a.id) && role != Role::Owner ==> v.has_role(a, role),
        v.has_role(a, Role::Owner) ==> v.has_role(a, role),
        v.has_role(a, Role::Admin) && role != Role::Owner ==> v.has_role(a, role),
{
}

impl Storage {
    pub fn is_owner(&self, a: Address) -> (r: bool)
        ensures
            r == self@.is_owner(a),
    {
        self.get_owner() == Some(a)
    }

    /// The owner counts as an admin.
    pub fn is_admin(&self, a: Address) -> (r: bool)
        ensures
            r == self@.has_role(a, Role::Admin),
    {
        has_role(self, a, Role::Admin)
    }

    /// The owner and the admins count as minters.
    pub fn is_minter(&self, a: Address) -> (r: bool)
        ensures
            r == self@.has_role(a, Role::Minter),
    {
        has_role(self, a, Role::Minter)
    }

    /// The owner and the admins count as burners.
    pub fn is_burner(&self, a: Address) -> (r: bool)
        ensures
            r == self@.has_role(a, Role::Burner),
    {
        has_role(self, a, Role::Burner)
    }

    /// The owner and the admins count as metadata updaters.
    pub fn is_metadata_updater(&self, a: Address) -> (r: bool)
        ensures
            r == self@.has_role(a, Role::MetadataUpdater),
    {
        has_role(self, a, Role::MetadataUpdater)
    }
}

/// Whether `a` holds `role`, resolved owner first, then admin, then the role's own set.
pub fn has_role(store: &Storage, a: Address, role: Role) -> (r: bool)
    ensures
        r == store@.has_role(a, role),
{
    if store.get_owner() == Some(a) {
        return true;
    }
    if role != Role::Owner && store.role_contains(Role::Admin, a) {
        return true;
    }
    store.role_contains(role, a)
}

pub fn require_role(store: &Storage, a: Address, role: Role) -> (r: Result<(), ContractError>)
    ensures
        r is Ok <==> store@.has_role(a, role),
        r matches Err(e) ==> e == ContractError::Unauthorized,
{
    if has_role(store, a, role) {
        Ok(())
    } else {
        Err(ContractError::Unauthorized)
    }
}

pub fn require_owner(store: &Storage, caller: Address) -> (r: Result<(), ContractError>)
    ensures
        r is Ok <==> store@.is_owner(caller),
        r matches Err(e) ==> e == ContractError::Unauthorized,
{
    require_role(store, caller, Role::Owner)
}

pub fn require_admin(store: &Storage, caller: Address) -> (r: Result<(), ContractError>)
    ensures
        r is Ok <==> store@.has_role(caller, Role::Admin),
        r matches Err(e) ==> e == ContractError::Unauthorized,
{
    require_role(store, caller, Role::Admin)
}

pub fn require_minter(store: &Storage, caller: Address) -> (r: Result<(), ContractError>)
    ensures
        r is Ok <==> store@.has_role(caller, Role::Minter),
        r matches Err(e) ==> e == ContractError::Unauthorized,
{
    require_role(store, caller, Role::Minter)
}

pub fn require_burner(store: &Storage, caller: Address) -> (r: Result<(), ContractError>)
    ensures
        r is Ok <==> store@.has_role(caller, Role::Burner),
        r matches Err(e) ==> e == ContractError::Unauthorized,
{
    require_role(store, caller, Role::Burner)
}

pub fn require_metadata_updater(store: &Storage, caller: Address) -> (r: Result<(), ContractError>)
    ensures
        r is Ok <==> store@.has_role(caller, Role::MetadataUpdater),
        r matches Err(e) ==> e == ContractError::Unauthorized,
{
    require_role(store, caller, Role::MetadataUpdater)
}

pub fn require_not_paused(store: &Storage) -> (r: Result<(), ContractError>)
    ensures
        r is Ok <==> !store@.is_paused(),
        r matches Err(e) ==> e == ContractError::Paused,
{
    match store.get_config() {
        Some(c) => if c.is_paused {
            Err(ContractError::Paused)
        } else {
            Ok(())
        },
        None => Ok(()),
    }
}

/// With no owner recorded there is no whitelist to consult; otherwise the owner is always
/// admitted, and anyone else must be on the whitelist.
pub fn require_whitelisted(store: &Storage, a: Address) -> (r: Result<(), ContractError>)
    ensures
        store@.owner is None ==> r == Err::<(), ContractError>(ContractError::NotFound),
        store@.owner is Some ==> (r is Ok <==> store@.is_owner(a) || store@.whitelist.contains(
            a.id,
        )),
        store@.owner is Some && r is Err ==> r == Err::<(), ContractError>(
            ContractError::NotWhitelisted,
        ),
{
    let owner = match store.get_owner() {
        Some(o) => o,
        None => {
            return Err(ContractError::NotFound);
        },
    };
    if owner == a || store.is_whitelisted(a) {
        Ok(())
    } else {
        Err(ContractError::NotWhitelisted)
    }
}

} // verus!
