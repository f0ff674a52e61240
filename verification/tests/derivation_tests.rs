use grizzly_loyalty::addr::Address;
use grizzly_loyalty::derivation::{derive_address, derive_holding_address, SeedTag};

fn addr(b: u8) -> Address {
    Address { bytes: [b; 32] }
}

#[test]
fn derivation_is_deterministic() {
    let program = addr(9);
    let parents = vec![addr(1)];
    let first = derive_address(SeedTag::Merchant, &parents, &program).unwrap();
    let second = derive_address(SeedTag::Merchant, &parents, &program).unwrap();
    assert_eq!(first.0.bytes, second.0.bytes);
    assert_eq!(first.1, second.1);
}

#[test]
fn derivation_separates_tags() {
    let program = addr(9);
    let parents = vec![addr(1)];
    let merchant = derive_address(SeedTag::Merchant, &parents, &program).unwrap();
    let reward = derive_address(SeedTag::RewardPoints, &parents, &program).unwrap();
    let loyalty = derive_address(SeedTag::LoyaltyNft, &parents, &program).unwrap();
    assert_ne!(merchant.0.bytes, reward.0.bytes);
    assert_ne!(merchant.0.bytes, loyalty.0.bytes);
    assert_ne!(reward.0.bytes, loyalty.0.bytes);
}

#[test]
fn derivation_scopes_by_parent() {
    let program = addr(9);
    let a = derive_address(SeedTag::Merchant, &vec![addr(1)], &program).unwrap();
    let b = derive_address(SeedTag::Merchant, &vec![addr(2)], &program).unwrap();
    assert_ne!(a.0.bytes, b.0.bytes);
}

#[test]
fn derivation_scopes_by_program() {
    let a = derive_address(SeedTag::Merchant, &vec![addr(1)], &addr(9)).unwrap();
    let b = derive_address(SeedTag::Merchant, &vec![addr(1)], &addr(10)).unwrap();
    assert_ne!(a.0.bytes, b.0.bytes);
}

#[test]
fn holding_derivation_is_deterministic() {
    let owner = addr(3);
    let asset = addr(4);
    let first = derive_holding_address(&owner, &asset).unwrap();
    let second = derive_holding_address(&owner, &asset).unwrap();
    assert_eq!(first.0.bytes, second.0.bytes);
    let other = derive_holding_address(&owner, &addr(5)).unwrap();
    assert_ne!(first.0.bytes, other.0.bytes);
}

#[test]
fn holding_derivation_agrees_with_host_derivation() {
    // The library's holding-account address must be the host's: the same
    // owner and asset give the same address through the outside crate,
    // exercising both program-id constants and the seed layout.
    let owner = addr(3);
    let asset = addr(4);
    let ours = derive_holding_address(&owner, &asset).unwrap().0;
    let expected = anchor_spl::associated_token::get_associated_token_address(
        &anchor_lang::prelude::Pubkey::new_from_array(owner.bytes),
        &anchor_lang::prelude::Pubkey::new_from_array(asset.bytes),
    );
    assert_eq!(ours.bytes, expected.to_bytes());
}

#[test]
fn derived_address_agrees_with_host_derivation() {
    // The library's derivation must be the host's: the same seeds under
    // the same program give the same address through the outside crate.
    let program = addr(9);
    let parent = addr(1);
    let ours = derive_address(SeedTag::Merchant, &vec![parent], &program).unwrap();
    let program_key = anchor_lang::prelude::Pubkey::new_from_array(program.bytes);
    let (expected, expected_bump) = anchor_lang::prelude::Pubkey::find_program_address(
        &[b"MERCHANT", &parent.bytes],
        &program_key,
    );
    assert_eq!(ours.0.bytes, expected.to_bytes());
    assert_eq!(ours.1, expected_bump);
}
