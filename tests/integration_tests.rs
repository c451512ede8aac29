use nft_contract::{Address, ContractError, NftContract, Role, RoyaltyInfo};

fn collection(
    owner: Address,
    name: &str,
    symbol: &str,
    base_uri: &str,
    max_supply: Option<u64>,
    mint_price: Option<i128>,
    default_royalty: RoyaltyInfo,
) -> NftContract {
    let mut client = NftContract::new();
    client
        .initialize(
            owner,
            name.to_string(),
            symbol.to_string(),
            base_uri.to_string(),
            max_supply,
            mint_price,
            default_royalty,
        )
        .unwrap();
    client
}

#[test]
fn test_mint_and_transfer_workflow() {
    let admin = Address::new(1);
    let user1 = Address::new(2);
    let user2 = Address::new(3);
    let mut client = collection(admin, "Workflow", "WF", "", None, None, RoyaltyInfo::new(admin, 0));

    // Grant the minter role to user1.
    client.grant_role(admin, Role::Minter, user1).unwrap();

    let id = client.mint(user1, user1, "ipfs://test".to_string(), Vec::new(), None, None, 0).unwrap();
    assert_eq!(id, 1);

    client.safe_transfer_from(user1, user1, user2, id, None).unwrap();
    client.burn(user2, id, true).unwrap();
}

#[test]
fn test_royalties() {
    let admin = Address::new(1);
    let creator = Address::new(2);
    let holder = Address::new(3);
    let mut client = collection(admin, "Royalties", "ROY", "", None, None, RoyaltyInfo::new(admin, 0));

    client.set_default_royalty(admin, creator, 500).unwrap();
    // Token 1 must exist for its royalty to be asked about.
    client.mint(admin, holder, "ipfs://test".to_string(), Vec::new(), None, None, 0).unwrap();

    let (recipient, amount) = client.get_royalty_info(1, 10000).unwrap();
    assert_eq!(recipient, creator);
    assert_eq!(amount, 500);
}

#[test]
fn test_full_workflow() {
    let owner = Address::new(1);
    let minter = Address::new(2);
    let user1 = Address::new(3);
    let user2 = Address::new(4);
    let royalty_recipient = Address::new(5);

    let default_royalty = RoyaltyInfo::new(royalty_recipient, 750); // 7.5%
    let mut client = collection(
        owner,
        "Test Collection",
        "TCOL",
        "https://api.example.com/metadata/",
        Some(100u64),
        Some(1000000i128),
        default_royalty,
    );

    client.add_minter(owner, minter).unwrap();

    let token_id1 =
        client.mint(minter, user1, "token1.json".to_string(), Vec::new(), None, None, 0).unwrap();
    let token_id2 =
        client.mint(minter, user1, "token2.json".to_string(), Vec::new(), None, None, 0).unwrap();

    assert_eq!(token_id1, 1u64);
    assert_eq!(token_id2, 2u64);
    assert_eq!(client.balance_of(user1), 2u64);
    assert_eq!(client.total_supply(), 2u64);

    client.transfer_from(user1, user1, user2, token_id1).unwrap();

    assert_eq!(client.balance_of(user1), 1u64);
    assert_eq!(client.balance_of(user2), 1u64);
    assert_eq!(client.owner_of(token_id1).unwrap(), user2);

    let approved = Address::new(6);
    client.approve(user1, approved, token_id2).unwrap();
    assert_eq!(client.get_approved(token_id2).unwrap(), Some(approved));

    let sale_price = 20000i128;
    let (royalty_recipient_addr, royalty_amount) =
        client.get_royalty_info(token_id1, sale_price).unwrap();
    assert_eq!(royalty_recipient_addr, royalty_recipient);
    assert_eq!(royalty_amount, 1500i128); // 7.5% of 20000
}

#[test]
fn test_batch_operations() {
    let owner = Address::new(1);
    let minter = Address::new(2);
    let user1 = Address::new(3);
    let user2 = Address::new(4);
    let user3 = Address::new(5);
    let royalty_recipient = Address::new(6);
    let mut client = collection(
        owner,
        "Batch Collection",
        "BATCH",
        "https://api.example.com/",
        None,
        None,
        RoyaltyInfo::new(royalty_recipient, 500),
    );

    client.add_minter(owner, minter).unwrap();

    let recipients = vec![user1, user2, user3];
    let metadata_uris = vec!["1.json".to_string(), "2.json".to_string(), "3.json".to_string()];
    let attributes_list = vec![Vec::new(), Vec::new(), Vec::new()];

    let token_ids =
        client.batch_mint(minter, recipients, metadata_uris, attributes_list, None, 0).unwrap();

    assert_eq!(token_ids.len(), 3);
    assert_eq!(client.balance_of(user1), 1u64);
    assert_eq!(client.balance_of(user2), 1u64);
    assert_eq!(client.balance_of(user3), 1u64);
    assert_eq!(client.total_supply(), 3u64);

    // Token 1 moves; token 2 already belongs to user2, so the batch stops there with
    // NotOwner and the first move stays done.
    let result = client.batch_transfer(user1, user1, user2, vec![1u64, 2u64]);
    assert_eq!(result, Err(ContractError::NotOwner));

    assert_eq!(client.balance_of(user1), 0u64);
    assert_eq!(client.balance_of(user2), 2u64);
    assert_eq!(client.owner_of(1).unwrap(), user2);
}

#[test]
fn integration_tests_test_access_control() {
    let owner = Address::new(1);
    let admin = Address::new(2);
    let minter = Address::new(3);
    let burner = Address::new(4);
    let recipient = Address::new(6);
    let royalty_recipient = Address::new(7);
    let mut client = collection(
        owner,
        "Access Control Test",
        "ACT",
        "https://api.example.com/",
        None,
        None,
        RoyaltyInfo::new(royalty_recipient, 500),
    );

    client.add_admin(owner, admin).unwrap();
    client.add_minter(owner, minter).unwrap();
    client.add_burner(owner, burner).unwrap();

    let token_id =
        client.mint(minter, recipient, "test.json".to_string(), Vec::new(), None, None, 0).unwrap();
    assert_eq!(token_id, 1u64);

    client.pause(admin).unwrap();
    client.unpause(admin).unwrap();

    client.burn(burner, token_id, true).unwrap();

    assert_eq!(client.total_supply(), 0u64);
    assert_eq!(client.balance_of(recipient), 0u64);
}

#[test]
fn test_metadata_management() {
    let owner = Address::new(1);
    let minter = Address::new(2);
    let recipient = Address::new(3);
    let royalty_recipient = Address::new(4);
    let mut client = collection(
        owner,
        "Metadata Test",
        "META",
        "https://api.example.com/metadata/",
        None,
        None,
        RoyaltyInfo::new(royalty_recipient, 500),
    );

    client.add_minter(owner, minter).unwrap();

    let token_id =
        client.mint(minter, recipient, "token1.json".to_string(), Vec::new(), None, None, 0).unwrap();

    let token_uri = client.token_uri(token_id).unwrap();
    assert!(token_uri.len() > 0);

    client.set_base_uri(owner, "https://newapi.example.com/metadata/".to_string()).unwrap();
    client.freeze_metadata(owner).unwrap();
}

#[test]
fn test_max_supply() {
    let owner = Address::new(1);
    let minter = Address::new(2);
    let recipient = Address::new(3);
    let royalty_recipient = Address::new(4);
    let mut client = collection(
        owner,
        "Limited Collection",
        "LIMIT",
        "https://api.example.com/",
        Some(2u64),
        None,
        RoyaltyInfo::new(royalty_recipient, 500),
    );

    client.add_minter(owner, minter).unwrap();

    let token_id1 =
        client.mint(minter, recipient, "token.json".to_string(), Vec::new(), None, None, 0).unwrap();
    assert_eq!(token_id1, 1u64);

    let token_id2 =
        client.mint(minter, recipient, "token.json".to_string(), Vec::new(), None, None, 0).unwrap();
    assert_eq!(token_id2, 2u64);

    assert_eq!(client.max_supply().unwrap(), Some(2u64));
    assert_eq!(client.total_supply(), 2u64);
}
