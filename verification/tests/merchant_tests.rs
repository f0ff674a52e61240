use grizzly_loyalty::addr::Address;
use grizzly_loyalty::derivation::{derive_address, SeedTag};
use grizzly_loyalty::errors::LoyaltyError;
use grizzly_loyalty::init_merchant::{init_merchant_handler, InitMerchant};
use grizzly_loyalty::ledger::Ledger;
use grizzly_loyalty::update_loyalty_points::{update_loyalty_points_handler, UpdateLoyaltyPoints};
use grizzly_loyalty::update_reward_points::{update_reward_points_handler, UpdateRewardPoints};

fn addr(b: u8) -> Address {
    Address { bytes: [b; 32] }
}

fn program() -> Address {
    addr(9)
}

fn payment_mint() -> Address {
    addr(8)
}

fn merchant_addr_of(authority: Address) -> Address {
    derive_address(SeedTag::Merchant, &vec![authority], &program()).unwrap().0
}

fn ledger_with_merchant(authority: Address) -> (Ledger, Address) {
    let mut ledger = Ledger::new(program(), payment_mint());
    init_merchant_handler(&mut ledger, InitMerchant { authority }).unwrap();
    (ledger, merchant_addr_of(authority))
}

#[test]
fn init_merchant_creates_record() {
    let authority = addr(1);
    let (ledger, merchant) = ledger_with_merchant(authority);
    let record = *ledger.merchants.get(&merchant).unwrap();
    assert_eq!(record.authority.bytes, authority.bytes);
    assert_eq!(record.reward_points_basis_points, 0);
    assert_eq!(record.loyalty_discount_basis_points, 0);
    assert_eq!(record.reward_points_mint.bytes, [0u8; 32]);
    assert_eq!(record.loyalty_collection_mint.bytes, [0u8; 32]);
    // The payment destination exists and is empty.
    let dest = ledger.holdings.get(&record.payment_destination).unwrap();
    assert_eq!(dest.amount, 0);
    assert_eq!(dest.owner.bytes, authority.bytes);
    assert_eq!(dest.mint.bytes, payment_mint().bytes);
}

#[test]
fn init_merchant_is_single_shot() {
    let authority = addr(1);
    let (mut ledger, merchant) = ledger_with_merchant(authority);
    // Tamper-detection value: change the rate, then watch it survive.
    update_reward_points_handler(
        &mut ledger,
        UpdateRewardPoints { authority, merchant },
        250,
    )
    .unwrap();
    let second = init_merchant_handler(&mut ledger, InitMerchant { authority });
    assert_eq!(second, Err(LoyaltyError::AlreadyInitialized));
    let record = *ledger.merchants.get(&merchant).unwrap();
    assert_eq!(record.authority.bytes, authority.bytes);
    assert_eq!(record.reward_points_basis_points, 250);
}

#[test]
fn update_reward_points_by_owner() {
    let authority = addr(1);
    let (mut ledger, merchant) = ledger_with_merchant(authority);
    let r = update_reward_points_handler(
        &mut ledger,
        UpdateRewardPoints { authority, merchant },
        1234,
    );
    assert_eq!(r, Ok(()));
    assert_eq!(ledger.merchants.get(&merchant).unwrap().reward_points_basis_points, 1234);
}

#[test]
fn update_by_stranger_fails_authorization() {
    let authority = addr(1);
    let stranger = addr(2);
    let (mut ledger, merchant) = ledger_with_merchant(authority);
    // An identity other than merchant.authority invokes the update on the
    // existing record: it fails with AuthorizationError, and the record
    // keeps every field it had.
    let r = update_reward_points_handler(
        &mut ledger,
        UpdateRewardPoints { authority: stranger, merchant },
        9999,
    );
    assert_eq!(r, Err(LoyaltyError::AuthorizationError));
    let after = *ledger.merchants.get(&merchant).unwrap();
    assert_eq!(after.reward_points_basis_points, 0);
    assert_eq!(after.authority.bytes, authority.bytes);
}

#[test]
fn update_missing_merchant_not_found() {
    let authority = addr(1);
    let mut ledger = Ledger::new(program(), payment_mint());
    let merchant = merchant_addr_of(authority);
    let r = update_loyalty_points_handler(
        &mut ledger,
        UpdateLoyaltyPoints { authority, merchant },
        100,
    );
    assert_eq!(r, Err(LoyaltyError::NotFound));
}

#[test]
fn update_wrong_address_mismatch() {
    let authority = addr(1);
    let (mut ledger, _) = ledger_with_merchant(authority);
    let bogus = addr(7);
    let r = update_reward_points_handler(
        &mut ledger,
        UpdateRewardPoints { authority, merchant: bogus },
        100,
    );
    assert_eq!(r, Err(LoyaltyError::AddressMismatch));
}

#[test]
fn update_loyalty_points_by_owner() {
    let authority = addr(1);
    let (mut ledger, merchant) = ledger_with_merchant(authority);
    let r = update_loyalty_points_handler(
        &mut ledger,
        UpdateLoyaltyPoints { authority, merchant },
        500,
    );
    assert_eq!(r, Ok(()));
    assert_eq!(ledger.merchants.get(&merchant).unwrap().loyalty_discount_basis_points, 500);
}
