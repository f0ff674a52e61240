use grizzly_loyalty::addr::Address;
use grizzly_loyalty::derivation::{derive_address, derive_holding_address, SeedTag};
use grizzly_loyalty::errors::LoyaltyError;
use grizzly_loyalty::init_merchant::{init_merchant_handler, InitMerchant};
use grizzly_loyalty::init_reward_points::{init_reward_points_handler, InitRewardPoints};
use grizzly_loyalty::ledger::Ledger;
use grizzly_loyalty::mint_reward_points::{mint_reward_points_handler, MintRewardPoints};
use grizzly_loyalty::transaction::{transaction_handler, Transaction};

fn addr(b: u8) -> Address {
    Address { bytes: [b; 32] }
}

fn program() -> Address {
    addr(9)
}

fn payment_mint() -> Address {
    addr(8)
}

/// A ledger with one merchant whose reward asset pays 250 basis points.
fn setup(authority: Address) -> (Ledger, Address, Address) {
    let mut ledger = Ledger::new(program(), payment_mint());
    init_merchant_handler(&mut ledger, InitMerchant { authority }).unwrap();
    let merchant = derive_address(SeedTag::Merchant, &vec![authority], &program()).unwrap().0;
    init_reward_points_handler(
        &mut ledger,
        InitRewardPoints { authority, merchant },
        250,
        String::from("https://example.invalid/points.json"),
        String::from("Points"),
        String::from("PTS"),
    )
    .unwrap();
    let reward_mint = derive_address(SeedTag::RewardPoints, &vec![merchant], &program())
        .unwrap()
        .0;
    (ledger, merchant, reward_mint)
}

#[test]
fn init_reward_points_links_merchant() {
    let authority = addr(1);
    let (ledger, merchant, reward_mint) = setup(authority);
    let record = *ledger.merchants.get(&merchant).unwrap();
    assert_eq!(record.reward_points_mint.bytes, reward_mint.bytes);
    assert_eq!(record.reward_points_basis_points, 250);
    let mint = *ledger.mints.get(&reward_mint).unwrap();
    // The asset owns itself: its authority is its own address.
    assert_eq!(mint.authority.bytes, reward_mint.bytes);
    assert_eq!(mint.decimals, 6);
    assert_eq!(mint.supply, 0);
    let md = ledger.metadata.get(&reward_mint).unwrap();
    assert_eq!(md.name, "Points");
    assert_eq!(md.symbol, "PTS");
    assert!(md.creator.is_none());
}

#[test]
fn init_reward_points_is_single_shot() {
    let authority = addr(1);
    let (mut ledger, merchant, _) = setup(authority);
    let again = init_reward_points_handler(
        &mut ledger,
        InitRewardPoints { authority, merchant },
        100,
        String::from("u"),
        String::from("n"),
        String::from("s"),
    );
    assert_eq!(again, Err(LoyaltyError::AlreadyInitialized));
    assert_eq!(ledger.merchants.get(&merchant).unwrap().reward_points_basis_points, 250);
}

#[test]
fn transaction_pays_and_rewards() {
    let authority = addr(1);
    let customer = addr(2);
    let (mut ledger, merchant, reward_mint) = setup(authority);
    ledger.deposit(&customer, &payment_mint(), 10000).unwrap();
    let r = transaction_handler(&mut ledger, Transaction { customer, authority, merchant }, 10000);
    assert_eq!(r, Ok(()));
    // The customer paid everything.
    let src = derive_holding_address(&customer, &payment_mint()).unwrap().0;
    assert_eq!(ledger.holdings.get(&src).unwrap().amount, 0);
    // The merchant received it.
    let dest = ledger.merchants.get(&merchant).unwrap().payment_destination;
    assert_eq!(ledger.holdings.get(&dest).unwrap().amount, 10000);
    // The customer earned floor(10000 * 250 / 10000) = 250 points.
    let reward_acct = derive_holding_address(&customer, &reward_mint).unwrap().0;
    assert_eq!(ledger.holdings.get(&reward_acct).unwrap().amount, 250);
    assert_eq!(ledger.mints.get(&reward_mint).unwrap().supply, 250);
}

#[test]
fn transaction_insufficient_balance() {
    let authority = addr(1);
    let customer = addr(2);
    let (mut ledger, merchant, _) = setup(authority);
    ledger.deposit(&customer, &payment_mint(), 99).unwrap();
    let r = transaction_handler(&mut ledger, Transaction { customer, authority, merchant }, 100);
    assert_eq!(r, Err(LoyaltyError::InsufficientBalance));
    let src = derive_holding_address(&customer, &payment_mint()).unwrap().0;
    assert_eq!(ledger.holdings.get(&src).unwrap().amount, 99);
}

#[test]
fn transaction_overflow_rolls_back_transfer() {
    let authority = addr(1);
    let customer = addr(2);
    let (mut ledger, merchant, reward_mint) = setup(authority);
    // A balance that covers the payment, so only the reward arithmetic
    // fails: u64::MAX * 250 overflows the checked multiplication.
    ledger.deposit(&customer, &payment_mint(), u64::MAX).unwrap();
    let r = transaction_handler(
        &mut ledger,
        Transaction { customer, authority, merchant },
        u64::MAX,
    );
    assert_eq!(r, Err(LoyaltyError::ArithmeticOverflow));
    // The transfer was rolled back too: payer and payee stand exactly as
    // before the call.
    let src = derive_holding_address(&customer, &payment_mint()).unwrap().0;
    assert_eq!(ledger.holdings.get(&src).unwrap().amount, u64::MAX);
    let dest = ledger.merchants.get(&merchant).unwrap().payment_destination;
    assert_eq!(ledger.holdings.get(&dest).unwrap().amount, 0);
    // And no points appeared.
    assert_eq!(ledger.mints.get(&reward_mint).unwrap().supply, 0);
    assert!(ledger.holdings.get(&derive_holding_address(&customer, &reward_mint).unwrap().0).is_none());
}

#[test]
fn deposit_rejects_overflowing_balance() {
    let customer = addr(2);
    let mut ledger = Ledger::new(program(), payment_mint());
    ledger.deposit(&customer, &payment_mint(), u64::MAX).unwrap();
    let again = ledger.deposit(&customer, &payment_mint(), 1);
    assert_eq!(again.unwrap_err(), LoyaltyError::ArithmeticOverflow);
    let acct = derive_holding_address(&customer, &payment_mint()).unwrap().0;
    assert_eq!(ledger.holdings.get(&acct).unwrap().amount, u64::MAX);
}

#[test]
fn transaction_requires_reward_asset() {
    let authority = addr(1);
    let customer = addr(2);
    let mut ledger = Ledger::new(program(), payment_mint());
    init_merchant_handler(&mut ledger, InitMerchant { authority }).unwrap();
    let merchant = derive_address(SeedTag::Merchant, &vec![authority], &program()).unwrap().0;
    ledger.deposit(&customer, &payment_mint(), 1000).unwrap();
    // No reward asset was initialized: the linked field is still zero,
    // so the canonical derivation cannot match it.
    let r = transaction_handler(&mut ledger, Transaction { customer, authority, merchant }, 100);
    assert_eq!(r, Err(LoyaltyError::AddressMismatch));
}

#[test]
fn mint_reward_points_grants() {
    let authority = addr(1);
    let customer = addr(2);
    let (mut ledger, merchant, reward_mint) = setup(authority);
    let r = mint_reward_points_handler(
        &mut ledger,
        MintRewardPoints { authority, customer, merchant },
        777,
    );
    assert_eq!(r, Ok(()));
    let acct = derive_holding_address(&customer, &reward_mint).unwrap().0;
    assert_eq!(ledger.holdings.get(&acct).unwrap().amount, 777);
    assert_eq!(ledger.mints.get(&reward_mint).unwrap().supply, 777);
    // Repeated grants accumulate without a cap.
    mint_reward_points_handler(
        &mut ledger,
        MintRewardPoints { authority, customer, merchant },
        3,
    )
    .unwrap();
    assert_eq!(ledger.holdings.get(&acct).unwrap().amount, 780);
}

#[test]
fn mint_reward_points_stranger_fails() {
    let authority = addr(1);
    let customer = addr(2);
    let stranger = addr(3);
    let (mut ledger, merchant, reward_mint) = setup(authority);
    let r = mint_reward_points_handler(
        &mut ledger,
        MintRewardPoints { authority: stranger, customer, merchant },
        1,
    );
    assert_eq!(r, Err(LoyaltyError::AuthorizationError));
    // Nothing was minted and no account appeared.
    assert_eq!(ledger.mints.get(&reward_mint).unwrap().supply, 0);
    assert!(ledger.holdings.get(&derive_holding_address(&customer, &reward_mint).unwrap().0).is_none());
}
