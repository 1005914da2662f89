use market_simple::registry::{Contract, MarketError};
use market_simple::sale::{listing_key, Price, SaleArgs};

fn market_with_deposit(owner: &str) -> Contract {
    let mut c = Contract::new();
    c.register_storage_deposit(owner.to_string());
    c
}

fn native_args(price: u128) -> SaleArgs {
    SaleArgs { prices: vec![Price { price: Some(price), ft_token_id: None }] }
}

fn add_native_listing(c: &mut Contract, owner: &str, price: u128) {
    let r = c.add_sale(
        "nft".to_string(),
        "token1".to_string(),
        owner.to_string(),
        1,
        native_args(price),
    );
    assert!(r.is_ok());
}

#[test]
fn add_sale_and_get_sale() {
    let mut c = market_with_deposit("alice");
    add_native_listing(&mut c, "alice", 1000);
    let sale = c.get_sale("nft".to_string(), "token1".to_string()).unwrap();
    assert_eq!(sale.owner_id, "alice");
    assert_eq!(sale.approval_id, 1);
    assert_eq!(*sale.conditions.get(&"near".to_string()).unwrap(), 1000u128);
}

#[test]
fn add_sale_without_deposit_fails() {
    let mut c = Contract::new();
    let r = c.add_sale(
        "nft".to_string(),
        "token1".to_string(),
        "alice".to_string(),
        1,
        native_args(1000),
    );
    assert_eq!(r, Err(MarketError::Precondition));
    assert!(c.get_sale("nft".to_string(), "token1".to_string()).is_err());
}

#[test]
fn add_sale_defaults_to_native_and_zero() {
    let mut c = market_with_deposit("alice");
    let r = c.add_sale(
        "nft".to_string(),
        "token1".to_string(),
        "alice".to_string(),
        1,
        SaleArgs { prices: vec![Price { price: None, ft_token_id: None }] },
    );
    assert!(r.is_ok());
    let sale = c.get_sale("nft".to_string(), "token1".to_string()).unwrap();
    assert_eq!(*sale.conditions.get(&"near".to_string()).unwrap(), 0u128);
}

#[test]
fn add_sale_last_write_wins_on_duplicate_currency() {
    let mut c = market_with_deposit("alice");
    let r = c.add_sale(
        "nft".to_string(),
        "token1".to_string(),
        "alice".to_string(),
        1,
        SaleArgs {
            prices: vec![
                Price { price: Some(700), ft_token_id: None },
                Price { price: Some(900), ft_token_id: None },
            ],
        },
    );
    assert!(r.is_ok());
    let sale = c.get_sale("nft".to_string(), "token1".to_string()).unwrap();
    assert_eq!(*sale.conditions.get(&"near".to_string()).unwrap(), 900u128);
}

#[test]
fn add_sale_supersedes_existing_listing() {
    let mut c = market_with_deposit("alice");
    add_native_listing(&mut c, "alice", 1000);
    add_native_listing(&mut c, "alice", 2500);
    let sale = c.get_sale("nft".to_string(), "token1".to_string()).unwrap();
    assert_eq!(*sale.conditions.get(&"near".to_string()).unwrap(), 2500u128);
}

#[test]
fn add_sale_mixed_currencies() {
    let mut c = market_with_deposit("alice");
    let r = c.add_sale(
        "nft".to_string(),
        "token1".to_string(),
        "alice".to_string(),
        7,
        SaleArgs {
            prices: vec![
                Price { price: Some(1000), ft_token_id: None },
                Price { price: Some(500), ft_token_id: Some("ft.token".to_string()) },
            ],
        },
    );
    assert!(r.is_ok());
    let sale = c.get_sale("nft".to_string(), "token1".to_string()).unwrap();
    assert_eq!(*sale.conditions.get(&"near".to_string()).unwrap(), 1000u128);
    assert_eq!(*sale.conditions.get(&"ft.token".to_string()).unwrap(), 500u128);
}

#[test]
fn update_price_by_owner() {
    let mut c = market_with_deposit("alice");
    add_native_listing(&mut c, "alice", 1000);
    let r = c.update_price(
        "alice".to_string(),
        "nft".to_string(),
        "token1".to_string(),
        "near".to_string(),
        1500,
    );
    assert!(r.is_ok());
    let sale = c.get_sale("nft".to_string(), "token1".to_string()).unwrap();
    assert_eq!(*sale.conditions.get(&"near".to_string()).unwrap(), 1500u128);
}

#[test]
fn update_price_by_non_owner_unauthorized() {
    let mut c = market_with_deposit("alice");
    add_native_listing(&mut c, "alice", 1000);
    let r = c.update_price(
        "mallory".to_string(),
        "nft".to_string(),
        "token1".to_string(),
        "near".to_string(),
        1,
    );
    assert_eq!(r, Err(MarketError::Unauthorized));
    let sale = c.get_sale("nft".to_string(), "token1".to_string()).unwrap();
    assert_eq!(*sale.conditions.get(&"near".to_string()).unwrap(), 1000u128);
}

#[test]
fn update_price_missing_listing_not_found() {
    let mut c = market_with_deposit("alice");
    let r = c.update_price(
        "alice".to_string(),
        "nft".to_string(),
        "token1".to_string(),
        "near".to_string(),
        1500,
    );
    assert_eq!(r, Err(MarketError::NotFound));
}

#[test]
fn remove_sale_by_owner() {
    let mut c = market_with_deposit("alice");
    add_native_listing(&mut c, "alice", 1000);
    let r = c.remove_sale("alice".to_string(), "nft".to_string(), "token1".to_string());
    match r {
        Ok(sale) => assert_eq!(sale.owner_id, "alice"),
        Err(_) => panic!("owner removal must succeed"),
    }
    assert!(c.get_sale("nft".to_string(), "token1".to_string()).is_err());
}

#[test]
fn remove_sale_by_non_owner_unauthorized() {
    let mut c = market_with_deposit("alice");
    add_native_listing(&mut c, "alice", 1000);
    let r = c.remove_sale("mallory".to_string(), "nft".to_string(), "token1".to_string());
    match r {
        Ok(_) => panic!("non-owner removal must fail"),
        Err(e) => assert_eq!(e, MarketError::Unauthorized),
    }
    assert!(c.get_sale("nft".to_string(), "token1".to_string()).is_ok());
}

#[test]
fn remove_sale_missing_listing_not_found() {
    let mut c = market_with_deposit("alice");
    let r = c.remove_sale("alice".to_string(), "nft".to_string(), "token1".to_string());
    match r {
        Ok(_) => panic!("removal of an absent listing must fail"),
        Err(e) => assert_eq!(e, MarketError::NotFound),
    }
}

#[test]
fn listing_key_concatenates_with_delimiter() {
    let key = listing_key(&"nft".to_string(), &"token1".to_string());
    assert_eq!(key, "nft:token1");
}
