use stablecoin_protocol::errors::ErrorCode;
use stablecoin_protocol::registry::{add_collateral_type, CollateralRegistry};
use stablecoin_protocol::state::AccountId;

#[test]
fn add_collateral_type_stores_entry() {
    let mut reg = CollateralRegistry::new();
    let ev = add_collateral_type(&mut reg, AccountId { id: 7 }, 120).unwrap();
    assert_eq!(ev.collateral_mint, AccountId { id: 7 });
    assert_eq!(ev.collateral_ratio, 120);
    let entry = reg.find_collateral_type(AccountId { id: 7 }).unwrap();
    assert_eq!(entry.collateral_mint, AccountId { id: 7 });
    assert_eq!(entry.collateral_ratio, 120);
    assert_eq!(entry.price_feed, AccountId { id: 7 });
    assert_eq!(entry.liquidation_threshold, 0);
    assert_eq!(entry.stability_fee, 0);
}

#[test]
fn add_collateral_type_rejects_low_ratio() {
    let mut reg = CollateralRegistry::new();
    let r = add_collateral_type(&mut reg, AccountId { id: 7 }, 100);
    assert_eq!(r, Err(ErrorCode::InvalidCollateralRatio));
    assert!(reg.find_collateral_type(AccountId { id: 7 }).is_none());
}

#[test]
fn add_collateral_type_rejects_duplicate() {
    let mut reg = CollateralRegistry::new();
    add_collateral_type(&mut reg, AccountId { id: 7 }, 120).unwrap();
    let r = add_collateral_type(&mut reg, AccountId { id: 7 }, 180);
    assert_eq!(r, Err(ErrorCode::CollateralTypeAlreadyExists));
    // The first registration is never silently overwritten.
    let entry = reg.find_collateral_type(AccountId { id: 7 }).unwrap();
    assert_eq!(entry.collateral_ratio, 120);
}

#[test]
fn find_collateral_type_misses_unknown_mint() {
    let mut reg = CollateralRegistry::new();
    add_collateral_type(&mut reg, AccountId { id: 7 }, 120).unwrap();
    assert!(reg.find_collateral_type(AccountId { id: 8 }).is_none());
}

#[test]
fn registry_keeps_distinct_types_apart() {
    let mut reg = CollateralRegistry::new();
    add_collateral_type(&mut reg, AccountId { id: 7 }, 120).unwrap();
    add_collateral_type(&mut reg, AccountId { id: 8 }, 180).unwrap();
    assert_eq!(reg.find_collateral_type(AccountId { id: 7 }).unwrap().collateral_ratio, 120);
    assert_eq!(reg.find_collateral_type(AccountId { id: 8 }).unwrap().collateral_ratio, 180);
}
