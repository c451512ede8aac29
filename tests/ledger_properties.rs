use nft_contract::access_control::require_whitelisted;
use nft_contract::events::{BurnEvent, MintEvent, TransferEvent};
use nft_contract::{
    Address, ContractError, Event, NftContract, Role, RoyaltyInfo, Storage, TokenAttribute, Utils,
};

const OWNER: Address = Address { id: 1 };
const ADMIN: Address = Address { id: 2 };
const MINTER: Address = Address { id: 3 };
const ALICE: Address = Address { id: 10 };
const BOB: Address = Address { id: 11 };
const CAROL: Address = Address { id: 12 };
const ROYALTY_TO: Address = Address { id: 20 };

fn ledger(max_supply: Option<u64>) -> NftContract {
    let mut c = NftContract::new();
    c.initialize(
        OWNER,
        "Props".to_string(),
        "PRP".to_string(),
        "https://base/".to_string(),
        max_supply,
        None,
        RoyaltyInfo::new(ROYALTY_TO, 500),
    )
    .unwrap();
    c.add_admin(OWNER, ADMIN).unwrap();
    c.add_minter(ADMIN, MINTER).unwrap();
    c
}

fn mint_to(c: &mut NftContract, to: Address) -> u64 {
    c.mint(MINTER, to, "t.json".to_string(), Vec::new(), None, None, 77).unwrap()
}

#[test]
fn mint_transfer_burn_scenario() {
    let mut c = ledger(None);
    let id = mint_to(&mut c, ALICE);
    assert_eq!(id, 1);
    assert_eq!(c.balance_of(ALICE), 1);
    assert_eq!(c.total_supply(), 1);

    c.transfer_from(ALICE, ALICE, BOB, id).unwrap();
    assert_eq!(c.balance_of(ALICE), 0);
    assert_eq!(c.balance_of(BOB), 1);
    assert_eq!(c.owner_of(1), Ok(BOB));
    assert_eq!(c.get_approved(1), Ok(None));

    c.burn(BOB, 1, true).unwrap();
    assert_eq!(c.total_supply(), 0);
    assert_eq!(c.balance_of(BOB), 0);
    assert_eq!(c.owner_of(1), Err(ContractError::TokenNotFound));
}

#[test]
fn max_supply_scenario() {
    let mut c = ledger(Some(2));
    assert_eq!(mint_to(&mut c, ALICE), 1);
    assert_eq!(mint_to(&mut c, ALICE), 2);
    let third = c.mint(MINTER, ALICE, "t.json".to_string(), Vec::new(), None, None, 0);
    assert_eq!(third, Err(ContractError::SupplyLimitExceeded));
    assert_eq!(c.total_supply(), 2);
}

#[test]
fn default_royalty_scenario() {
    let mut c = ledger(None);
    c.set_default_royalty(ADMIN, ROYALTY_TO, 750).unwrap();
    let id = mint_to(&mut c, ALICE);
    assert_eq!(c.get_royalty_info(id, 20000), Ok((ROYALTY_TO, 1500)));
}

#[test]
fn unauthorized_mint_then_granted_scenario() {
    let mut c = ledger(None);
    let r = c.mint(CAROL, ALICE, "t.json".to_string(), Vec::new(), None, None, 0);
    assert_eq!(r, Err(ContractError::Unauthorized));
    c.add_minter(ADMIN, CAROL).unwrap();
    let r = c.mint(CAROL, ALICE, "t.json".to_string(), Vec::new(), None, None, 0);
    assert_eq!(r, Ok(1));
}

#[test]
fn balances_match_token_counts() {
    let mut c = ledger(None);
    for _ in 0..3 {
        mint_to(&mut c, ALICE);
    }
    mint_to(&mut c, BOB);
    c.transfer_from(ALICE, ALICE, BOB, 2).unwrap();
    c.burn(ALICE, 1, true).unwrap();
    // ALICE holds 3, BOB holds 2 and 4.
    assert_eq!(c.balance_of(ALICE), 1);
    assert_eq!(c.balance_of(BOB), 2);
    assert_eq!(c.balance_of(CAROL), 0);
    assert_eq!(c.total_supply(), 3);
}

#[test]
fn supply_moves_only_with_mint_and_burn() {
    let mut c = ledger(None);
    let id = mint_to(&mut c, ALICE);
    assert_eq!(c.total_supply(), 1);
    c.approve(ALICE, BOB, id).unwrap();
    c.set_token_uri(ALICE, id, "new.json".to_string()).unwrap();
    c.set_token_royalty(ALICE, id, BOB, 100).unwrap();
    c.transfer_from(BOB, ALICE, CAROL, id).unwrap();
    c.pause(ADMIN).unwrap();
    c.unpause(ADMIN).unwrap();
    assert_eq!(c.total_supply(), 1);
    c.burn(CAROL, id, true).unwrap();
    assert_eq!(c.total_supply(), 0);
}

#[test]
fn ids_are_not_reused_after_burn() {
    let mut c = ledger(None);
    let first = mint_to(&mut c, ALICE);
    c.burn(ALICE, first, true).unwrap();
    let second = mint_to(&mut c, ALICE);
    assert_eq!(first, 1);
    assert_eq!(second, 2);
}

#[test]
fn transfer_clears_approval() {
    let mut c = ledger(None);
    let id = mint_to(&mut c, ALICE);
    c.approve(ALICE, BOB, id).unwrap();
    assert_eq!(c.get_approved(id), Ok(Some(BOB)));
    c.transfer_from(BOB, ALICE, CAROL, id).unwrap();
    assert_eq!(c.get_approved(id), Ok(None));
    assert_eq!(c.token_metadata(id).unwrap().approved, None);
}

#[test]
fn role_hierarchy() {
    let c = ledger(None);
    for role in [Role::Owner, Role::Admin, Role::Minter, Role::Burner, Role::MetadataUpdater] {
        assert!(c.has_role(OWNER, role));
    }
    assert!(c.has_role(ADMIN, Role::Admin));
    assert!(c.has_role(ADMIN, Role::Minter));
    assert!(c.has_role(ADMIN, Role::Burner));
    assert!(c.has_role(ADMIN, Role::MetadataUpdater));
    assert!(!c.has_role(ADMIN, Role::Owner));
    assert!(c.has_role(MINTER, Role::Minter));
    assert!(!c.has_role(MINTER, Role::Burner));
    assert!(!c.has_role(CAROL, Role::Minter));
}

#[test]
fn role_administration_rules() {
    let mut c = ledger(None);
    // Only the owner changes the admin set.
    assert_eq!(c.add_admin(ADMIN, CAROL), Err(ContractError::Unauthorized));
    // The owner is not a grantable role.
    assert_eq!(c.grant_role(OWNER, Role::Owner, CAROL), Err(ContractError::InvalidInput));
    // Admins manage the lower roles; removing a non-member is no error.
    c.grant_role(ADMIN, Role::MetadataUpdater, CAROL).unwrap();
    assert!(c.has_role(CAROL, Role::MetadataUpdater));
    c.revoke_role(ADMIN, Role::MetadataUpdater, CAROL).unwrap();
    c.revoke_role(ADMIN, Role::MetadataUpdater, CAROL).unwrap();
    assert!(!c.has_role(CAROL, Role::MetadataUpdater));
    c.remove_minter(ADMIN, MINTER).unwrap();
    assert!(!c.has_role(MINTER, Role::Minter));
    c.remove_admin(OWNER, ADMIN).unwrap();
    assert!(!c.has_role(ADMIN, Role::Minter));
}

#[test]
fn royalty_bounds() {
    let mut c = ledger(None);
    let id = mint_to(&mut c, ALICE);
    assert_eq!(c.set_default_royalty(ADMIN, BOB, 10001), Err(ContractError::InvalidRoyalty));
    assert_eq!(c.set_token_royalty(ALICE, id, BOB, 10001), Err(ContractError::InvalidRoyalty));

    c.set_token_royalty(ALICE, id, BOB, 10000).unwrap();
    let top = i128::MAX / 10000;
    assert_eq!(c.get_royalty_info(id, top), Ok((BOB, top)));

    c.set_token_royalty(ALICE, id, BOB, 9999).unwrap();
    let (_, amount) = c.get_royalty_info(id, i128::MAX).unwrap();
    assert!(amount >= 0 && amount <= i128::MAX);
    assert_eq!(amount, i128::MAX / 10000 * 9999 + (i128::MAX % 10000) * 9999 / 10000);
    assert_eq!(c.get_royalty_info(id, 0), Ok((BOB, 0)));
}

#[test]
fn royalty_rounds_down() {
    let r = RoyaltyInfo::new(ROYALTY_TO, 333);
    assert_eq!(r.calculate_royalty(100), Ok(3));
    assert_eq!(r.calculate_royalty(-100), Ok(-4));
    assert_eq!(RoyaltyInfo::new(ROYALTY_TO, 500).calculate_royalty(-1000), Ok(-50));
    assert_eq!(RoyaltyInfo::new(ROYALTY_TO, 10000).calculate_royalty(i128::MIN), Ok(i128::MIN));
    assert_eq!(RoyaltyInfo::new(ROYALTY_TO, 10001).calculate_royalty(5), Err(ContractError::InvalidRoyalty));
}

#[test]
fn freeze_is_final() {
    let mut c = ledger(None);
    let id = mint_to(&mut c, ALICE);
    c.freeze_metadata(ADMIN).unwrap();
    assert_eq!(c.set_token_uri(ALICE, id, "x".to_string()), Err(ContractError::MetadataFrozen));
    assert_eq!(c.set_base_uri(ADMIN, "y".to_string()), Err(ContractError::MetadataFrozen));
    assert_eq!(c.set_base_uri(CAROL, "y".to_string()), Err(ContractError::MetadataFrozen));
    c.pause(ADMIN).unwrap();
    c.unpause(ADMIN).unwrap();
    assert_eq!(c.set_token_uri(OWNER, id, "x".to_string()), Err(ContractError::MetadataFrozen));
    assert_eq!(c.is_metadata_frozen(), Ok(true));
}

#[test]
fn token_uri_is_the_token_part() {
    let mut c = ledger(None);
    let id = mint_to(&mut c, ALICE);
    assert_eq!(c.token_uri(id).unwrap(), "t.json");
    c.set_base_uri(ADMIN, String::new()).unwrap();
    assert_eq!(c.token_uri(id).unwrap(), "t.json");
    c.set_token_uri(ALICE, id, "u.json".to_string()).unwrap();
    assert_eq!(c.token_uri(id).unwrap(), "u.json");
    assert_eq!(c.set_token_uri(CAROL, id, "v".to_string()), Err(ContractError::Unauthorized));
    assert_eq!(c.set_token_uri(ALICE, id, String::new()), Err(ContractError::InvalidMetadataUri));
}

#[test]
fn minted_record_holds_its_inputs() {
    let mut c = ledger(None);
    let attrs = vec![TokenAttribute {
        trait_type: "color".to_string(),
        value: "red".to_string(),
        display_type: None,
    }];
    let id = c
        .mint(MINTER, ALICE, "a.json".to_string(), attrs, Some(RoyaltyInfo::new(BOB, 250)), Some((3, 10)), 1234)
        .unwrap();
    let t = c.token_metadata(id).unwrap();
    assert_eq!(t.id, id);
    assert_eq!(t.owner, ALICE);
    assert_eq!(t.creator, MINTER);
    assert_eq!(t.created_at, 1234);
    assert_eq!(t.royalty, Some(RoyaltyInfo::new(BOB, 250)));
    assert_eq!(t.edition_info, Some((3, 10)));
    assert!(t.is_edition());
    assert_eq!(t.attributes.len(), 1);
    assert_eq!(t.attributes[0].value, "red");
}

#[test]
fn events_report_each_success() {
    let mut c = ledger(None);
    c.take_events();
    let id = mint_to(&mut c, ALICE);
    c.transfer_from(ALICE, ALICE, BOB, id).unwrap();
    assert!(c.transfer_from(ALICE, ALICE, BOB, id).is_err());
    c.burn(BOB, id, true).unwrap();
    let evs = c.take_events();
    assert_eq!(evs.len(), 3);
    match &evs[0] {
        Event::Mint(MintEvent { to, token_id, metadata_uri, creator }) => {
            assert_eq!((*to, *token_id, metadata_uri.as_str(), *creator), (ALICE, 1, "t.json", MINTER));
        }
        other => panic!("unexpected {:?}", other),
    }
    match &evs[1] {
        Event::Transfer(e) => assert_eq!(*e, TransferEvent { from: ALICE, to: BOB, token_id: 1 }),
        other => panic!("unexpected {:?}", other),
    }
    match &evs[2] {
        Event::Burn(e) => assert_eq!(*e, BurnEvent { from: BOB, token_id: 1 }),
        other => panic!("unexpected {:?}", other),
    }
    assert_eq!(c.take_events().len(), 0);
}

#[test]
fn operators_act_for_owners() {
    let mut c = ledger(None);
    let id = mint_to(&mut c, ALICE);
    assert_eq!(c.transfer_from(CAROL, ALICE, BOB, id), Err(ContractError::NotApproved));
    c.set_approval_for_all(ALICE, CAROL, true).unwrap();
    assert!(c.is_approved_for_all(ALICE, CAROL));
    c.approve(CAROL, BOB, id).unwrap();
    c.transfer_from(CAROL, ALICE, BOB, id).unwrap();
    assert_eq!(c.owner_of(id), Ok(BOB));
    c.set_approval_for_all(ALICE, CAROL, false).unwrap();
    assert!(!c.is_approved_for_all(ALICE, CAROL));
}

#[test]
fn each_error_has_its_input() {
    let mut fresh = NftContract::new();
    assert_eq!(fresh.owner(), Err(ContractError::NotFound));
    assert_eq!(fresh.name(), Err(ContractError::ContractNotInitialized));
    let empty_name = fresh.initialize(OWNER, String::new(), "S".to_string(), String::new(), None, None, RoyaltyInfo::new(OWNER, 0));
    assert_eq!(empty_name, Err(ContractError::InvalidInput));
    let bad_royalty = fresh.initialize(OWNER, "N".to_string(), "S".to_string(), String::new(), None, None, RoyaltyInfo::new(OWNER, 10001));
    assert_eq!(bad_royalty, Err(ContractError::InvalidRoyalty));

    let mut c = ledger(None);
    let again = c.initialize(OWNER, "N".to_string(), "S".to_string(), String::new(), None, None, RoyaltyInfo::new(OWNER, 0));
    assert_eq!(again, Err(ContractError::AlreadyExists));

    let id = mint_to(&mut c, ALICE);
    assert_eq!(c.owner_of(99), Err(ContractError::TokenNotFound));
    assert_eq!(c.transfer_from(BOB, BOB, CAROL, id), Err(ContractError::NotOwner));
    assert_eq!(c.approve(BOB, CAROL, id), Err(ContractError::NotOwner));
    assert_eq!(c.approve(ALICE, ALICE, id), Err(ContractError::SelfApproval));
    assert_eq!(c.set_approval_for_all(ALICE, ALICE, true), Err(ContractError::SelfApproval));
    assert_eq!(c.burn(ALICE, id, false), Err(ContractError::BurnNotConfirmed));
    assert_eq!(c.burn(BOB, id, true), Err(ContractError::Unauthorized));
    assert_eq!(
        c.mint(MINTER, ALICE, String::new(), Vec::new(), None, None, 0),
        Err(ContractError::InvalidMetadataUri)
    );
    assert_eq!(
        c.mint(MINTER, ALICE, "x".to_string(), Vec::new(), Some(RoyaltyInfo::new(BOB, 10001)), None, 0),
        Err(ContractError::InvalidRoyalty)
    );
    assert_eq!(c.batch_transfer(ALICE, ALICE, BOB, Vec::new()), Err(ContractError::EmptyBatch));
    assert_eq!(
        c.batch_mint(MINTER, vec![ALICE, BOB], vec!["a".to_string()], vec![Vec::new(), Vec::new()], None, 0),
        Err(ContractError::BatchLengthMismatch)
    );
    assert_eq!(
        c.batch_mint(MINTER, Vec::new(), Vec::new(), Vec::new(), None, 0),
        Err(ContractError::EmptyBatch)
    );
    assert_eq!(
        c.batch_mint(MINTER, Vec::new(), vec!["a".to_string()], Vec::new(), None, 0),
        Err(ContractError::BatchLengthMismatch)
    );
    assert_eq!(c.pause(CAROL), Err(ContractError::Unauthorized));
    c.pause(ADMIN).unwrap();
    assert_eq!(c.transfer_from(ALICE, ALICE, BOB, id), Err(ContractError::Paused));
    assert_eq!(
        c.mint(MINTER, ALICE, "x".to_string(), Vec::new(), None, None, 0),
        Err(ContractError::Paused)
    );
    c.unpause(ADMIN).unwrap();

    let store = Storage::new();
    assert_eq!(require_whitelisted(&store, ALICE), Err(ContractError::NotFound));
    assert_eq!(require_whitelisted(c.storage(), BOB), Err(ContractError::NotWhitelisted));
    assert_eq!(require_whitelisted(c.storage(), OWNER), Ok(()));
}

#[test]
fn whitelist_admits_listed_and_owner() {
    let mut c = ledger(None);
    assert_eq!(c.set_whitelisted(CAROL, ALICE, true), Err(ContractError::Unauthorized));
    c.set_whitelisted(ADMIN, ALICE, true).unwrap();
    assert!(matches!(c.take_events().last(), Some(Event::WhitelistUpdate(_))));
    assert_eq!(require_whitelisted(c.storage(), ALICE), Ok(()));
    c.set_whitelisted(ADMIN, ALICE, false).unwrap();
    assert_eq!(require_whitelisted(c.storage(), ALICE), Err(ContractError::NotWhitelisted));
}

#[test]
fn batch_mint_with_overrides_and_fail_fast() {
    let mut c = ledger(Some(2));
    let ids = c
        .batch_mint(
            MINTER,
            vec![ALICE, BOB],
            vec!["a".to_string(), "b".to_string()],
            vec![Vec::new(), Vec::new()],
            Some(vec![RoyaltyInfo::new(CAROL, 100), RoyaltyInfo::new(CAROL, 200)]),
            5,
        )
        .unwrap();
    assert_eq!(ids, vec![1, 2]);
    assert_eq!(c.get_royalty_info(2, 10000), Ok((CAROL, 200)));

    let mut d = ledger(Some(2));
    mint_to(&mut d, CAROL);
    let r = d.batch_mint(
        MINTER,
        vec![ALICE, BOB],
        vec!["a".to_string(), "b".to_string()],
        vec![Vec::new(), Vec::new()],
        None,
        5,
    );
    assert_eq!(r, Err(ContractError::SupplyLimitExceeded));
    assert_eq!(d.balance_of(ALICE), 1);
    assert_eq!(d.balance_of(BOB), 0);
    assert_eq!(d.total_supply(), 2);
}

#[test]
fn utils_checks() {
    assert!(Utils::is_valid_token_id(1));
    assert!(!Utils::is_valid_token_id(0));
    assert!(Utils::is_valid_string(&"a".to_string()));
    assert!(!Utils::is_valid_string(&String::new()));
    assert_eq!(Utils::combine_uri(&"ab".to_string(), &"cd".to_string()), "cd");
}

#[test]
fn storage_role_queries_follow_the_hierarchy() {
    let store = Storage::new();
    assert!(!store.is_owner(OWNER));
    assert!(!store.is_admin(OWNER));
    assert!(!store.is_minter(ALICE));
    assert!(!store.is_burner(ALICE));
    assert!(!store.is_metadata_updater(ALICE));

    let c = ledger(None);
    let s = c.storage();
    assert!(s.is_owner(OWNER));
    assert!(!s.is_owner(ADMIN));
    assert!(s.is_admin(OWNER) && s.is_admin(ADMIN) && !s.is_admin(MINTER));
    assert!(s.is_minter(OWNER) && s.is_minter(ADMIN) && s.is_minter(MINTER));
    assert!(s.is_burner(ADMIN) && !s.is_burner(MINTER));
    assert!(s.is_metadata_updater(OWNER) && !s.is_metadata_updater(ALICE));
}

#[test]
fn default_royalty_applies_after_mint() {
    let mut c = ledger(None);
    let plain = mint_to(&mut c, ALICE);
    let own = c
        .mint(MINTER, ALICE, "o.json".to_string(), Vec::new(), Some(RoyaltyInfo::new(CAROL, 100)), None, 0)
        .unwrap();
    assert_eq!(c.get_royalty_info(plain, 20000), Ok((ROYALTY_TO, 1000)));
    c.set_default_royalty(OWNER, BOB, 750).unwrap();
    assert_eq!(c.get_royalty_info(plain, 20000), Ok((BOB, 1500)));
    assert_eq!(c.get_royalty_info(own, 20000), Ok((CAROL, 200)));
    c.set_token_royalty(ALICE, plain, CAROL, 50).unwrap();
    c.set_default_royalty(OWNER, ROYALTY_TO, 900).unwrap();
    assert_eq!(c.get_royalty_info(plain, 20000), Ok((CAROL, 100)));
    assert_eq!(c.token_metadata(plain).unwrap().royalty, Some(RoyaltyInfo::new(CAROL, 50)));
}
