use nft_contract::{Address, NftContract, RoyaltyInfo};

/// A collection named "Test NFT" owned by `owner`, with a 5% default royalty to `royalty_to`.
fn initialized(owner: Address, royalty_to: Address, max_supply: Option<u64>) -> NftContract {
    let mut client = NftContract::new();
    client
        .initialize(
            owner,
            "Test NFT".to_string(),
            "TNFT".to_string(),
            "https://example.com/".to_string(),
            max_supply,
            None,
            RoyaltyInfo::new(royalty_to, 500),
        )
        .unwrap();
    client
}

#[test]
fn unit_tests_test_royalty_calculation() {
    let recipient = Address::new(7);
    let royalty_info = RoyaltyInfo::new(recipient, 500);

    let sale_price = 1000i128;
    let royalty = royalty_info.calculate_royalty(sale_price).unwrap();
    assert_eq!(royalty, 50);

    let royalty_info_10 = RoyaltyInfo::new(recipient, 1000);
    let royalty_10 = royalty_info_10.calculate_royalty(10000i128).unwrap();
    assert_eq!(royalty_10, 1000);

    let royalty_info_0 = RoyaltyInfo::new(recipient, 0);
    let royalty_0 = royalty_info_0.calculate_royalty(1000i128).unwrap();
    assert_eq!(royalty_0, 0);
}

#[test]
fn unit_tests_test_royalty_validation() {
    let recipient = Address::new(7);

    let valid = RoyaltyInfo::new(recipient, 500);
    assert!(valid.validate());

    let valid_100 = RoyaltyInfo::new(recipient, 10000);
    assert!(valid_100.validate());

    let invalid = RoyaltyInfo::new(recipient, 10001);
    assert!(!invalid.validate());
}

#[test]
fn test_initialization() {
    let owner = Address::new(1);
    let mut client = NftContract::new();
    let name = "Test NFT".to_string();
    let symbol = "TNFT".to_string();
    let base_uri = "https://example.com/".to_string();
    let default_royalty = RoyaltyInfo::new(Address::new(2), 500);

    client
        .initialize(
            owner,
            name.clone(),
            symbol.clone(),
            base_uri,
            Some(1000u64),
            None,
            default_royalty,
        )
        .unwrap();

    assert_eq!(client.name().unwrap(), name);
    assert_eq!(client.symbol().unwrap(), symbol);
}

#[test]
fn test_mint() {
    let owner = Address::new(1);
    let minter = Address::new(2);
    let recipient = Address::new(3);
    let mut client = initialized(owner, Address::new(4), None);

    client.add_minter(owner, minter).unwrap();

    let token_id = client
        .mint(minter, recipient, "ipfs://QmTest123".to_string(), Vec::new(), None, None, 0)
        .unwrap();
    assert_eq!(token_id, 1u64);

    assert_eq!(client.owner_of(token_id).unwrap(), recipient);
    assert_eq!(client.balance_of(recipient), 1u64);
}

#[test]
fn test_transfer() {
    let owner = Address::new(1);
    let minter = Address::new(2);
    let from = Address::new(3);
    let to = Address::new(4);
    let mut client = initialized(owner, Address::new(5), None);

    client.add_minter(owner, minter).unwrap();
    let token_id = client
        .mint(minter, from, "ipfs://QmTest123".to_string(), Vec::new(), None, None, 0)
        .unwrap();

    client.transfer_from(from, from, to, token_id).unwrap();

    assert_eq!(client.owner_of(token_id).unwrap(), to);
    assert_eq!(client.balance_of(from), 0u64);
    assert_eq!(client.balance_of(to), 1u64);
}

#[test]
fn test_approval() {
    let owner = Address::new(1);
    let minter = Address::new(2);
    let token_owner = Address::new(3);
    let approved = Address::new(4);
    let mut client = initialized(owner, Address::new(5), None);

    client.add_minter(owner, minter).unwrap();
    let token_id = client
        .mint(minter, token_owner, "ipfs://QmTest123".to_string(), Vec::new(), None, None, 0)
        .unwrap();

    client.approve(token_owner, approved, token_id).unwrap();

    assert_eq!(client.get_approved(token_id).unwrap(), Some(approved));
}

#[test]
fn test_royalty_info() {
    let owner = Address::new(1);
    let minter = Address::new(2);
    let recipient = Address::new(3);
    let royalty_recipient = Address::new(4);
    let mut client = initialized(owner, royalty_recipient, None);

    client.add_minter(owner, minter).unwrap();
    let token_id = client
        .mint(minter, recipient, "ipfs://QmTest123".to_string(), Vec::new(), None, None, 0)
        .unwrap();

    let sale_price = 10000i128;
    let (royalty_recipient_addr, royalty_amount) =
        client.get_royalty_info(token_id, sale_price).unwrap();
    assert_eq!(royalty_recipient_addr, royalty_recipient);
    assert_eq!(royalty_amount, 500i128);
}

#[test]
fn unit_tests_test_access_control() {
    let client = NftContract::new();
    assert!(client.owner().is_err());
}

#[test]
fn test_metadata() {
    let client = NftContract::new();
    assert!(client.is_metadata_frozen().is_err());
}
