use grizzly_loyalty::addr::Address;
use grizzly_loyalty::create_collection_nft::{create_collection_nft_handler, CreateCollectionNft};
use grizzly_loyalty::create_nft_in_collection::{
    create_nft_in_collection_handler, CreateNftInCollection,
};
use grizzly_loyalty::derivation::{derive_address, derive_holding_address, SeedTag};
use grizzly_loyalty::errors::LoyaltyError;
use grizzly_loyalty::init_merchant::{init_merchant_handler, InitMerchant};
use grizzly_loyalty::ledger::Ledger;
use grizzly_loyalty::state::CollectionStatus;

fn addr(b: u8) -> Address {
    Address { bytes: [b; 32] }
}

fn program() -> Address {
    addr(9)
}

fn payment_mint() -> Address {
    addr(8)
}

fn setup_collection(authority: Address) -> (Ledger, Address, Address) {
    let mut ledger = Ledger::new(program(), payment_mint());
    init_merchant_handler(&mut ledger, InitMerchant { authority }).unwrap();
    let merchant = derive_address(SeedTag::Merchant, &vec![authority], &program()).unwrap().0;
    create_collection_nft_handler(
        &mut ledger,
        CreateCollectionNft { authority, merchant },
        700,
        String::from("https://example.invalid/collection.json"),
        String::from("Badges"),
        String::from("BDG"),
    )
    .unwrap();
    let collection = derive_address(SeedTag::LoyaltyNft, &vec![merchant], &program()).unwrap().0;
    (ledger, merchant, collection)
}

#[test]
fn create_collection_links_and_caps_supply() {
    let authority = addr(1);
    let (ledger, merchant, collection) = setup_collection(authority);
    let record = *ledger.merchants.get(&merchant).unwrap();
    assert_eq!(record.loyalty_collection_mint.bytes, collection.bytes);
    assert_eq!(record.loyalty_discount_basis_points, 700);
    let mint = *ledger.mints.get(&collection).unwrap();
    // Supply exactly one, capped, owned by its own address.
    assert_eq!(mint.supply, 1);
    assert!(mint.unique);
    assert_eq!(mint.decimals, 0);
    assert_eq!(mint.authority.bytes, collection.bytes);
    // The single unit sits in the owner's holding account.
    let held = derive_holding_address(&authority, &collection).unwrap().0;
    assert_eq!(ledger.holdings.get(&held).unwrap().amount, 1);
    // The creator claim names the merchant's owner and is verified.
    let md = ledger.metadata.get(&collection).unwrap();
    let creator = md.creator.unwrap();
    assert_eq!(creator.address.bytes, authority.bytes);
    assert!(creator.verified);
    assert_eq!(md.collection_status, CollectionStatus::Unset);
}

#[test]
fn create_collection_is_single_shot() {
    let authority = addr(1);
    let (mut ledger, merchant, _) = setup_collection(authority);
    let again = create_collection_nft_handler(
        &mut ledger,
        CreateCollectionNft { authority, merchant },
        100,
        String::from("u"),
        String::from("n"),
        String::from("s"),
    );
    assert_eq!(again, Err(LoyaltyError::AlreadyInitialized));
    assert_eq!(ledger.merchants.get(&merchant).unwrap().loyalty_discount_basis_points, 700);
}

#[test]
fn item_membership_ends_verified() {
    let authority = addr(1);
    let customer = addr(2);
    let (mut ledger, merchant, collection) = setup_collection(authority);
    let r = create_nft_in_collection_handler(
        &mut ledger,
        CreateNftInCollection { customer, authority, merchant },
        String::from("https://example.invalid/item.json"),
        String::from("Badge"),
        String::from("BDG"),
    );
    assert_eq!(r, Ok(()));
    let item = derive_address(SeedTag::LoyaltyNft, &vec![merchant, customer], &program())
        .unwrap()
        .0;
    let md = ledger.metadata.get(&item).unwrap();
    // The item is verified and references the merchant's collection.
    assert_eq!(md.collection_status, CollectionStatus::Verified);
    assert_eq!(md.collection.unwrap().bytes, collection.bytes);
    // The item's single unit is held by the customer, and the item asset
    // is owned by the collection, not by itself.
    let mint = *ledger.mints.get(&item).unwrap();
    assert_eq!(mint.supply, 1);
    assert!(mint.unique);
    assert_eq!(mint.authority.bytes, collection.bytes);
    let held = derive_holding_address(&customer, &item).unwrap().0;
    let acct = *ledger.holdings.get(&held).unwrap();
    assert_eq!(acct.amount, 1);
    assert_eq!(acct.owner.bytes, customer.bytes);
}

#[test]
fn item_is_single_shot_per_customer() {
    let authority = addr(1);
    let customer = addr(2);
    let (mut ledger, merchant, _) = setup_collection(authority);
    create_nft_in_collection_handler(
        &mut ledger,
        CreateNftInCollection { customer, authority, merchant },
        String::from("u"),
        String::from("n"),
        String::from("s"),
    )
    .unwrap();
    let again = create_nft_in_collection_handler(
        &mut ledger,
        CreateNftInCollection { customer, authority, merchant },
        String::from("u"),
        String::from("n"),
        String::from("s"),
    );
    assert_eq!(again, Err(LoyaltyError::AlreadyInitialized));
    // Two customers get two distinct items.
    let other = addr(3);
    create_nft_in_collection_handler(
        &mut ledger,
        CreateNftInCollection { customer: other, authority, merchant },
        String::from("u"),
        String::from("n"),
        String::from("s"),
    )
    .unwrap();
    let a = derive_address(SeedTag::LoyaltyNft, &vec![merchant, customer], &program())
        .unwrap()
        .0;
    let b = derive_address(SeedTag::LoyaltyNft, &vec![merchant, other], &program()).unwrap().0;
    assert_ne!(a.bytes, b.bytes);
}

#[test]
fn item_requires_collection() {
    let authority = addr(1);
    let customer = addr(2);
    let mut ledger = Ledger::new(program(), payment_mint());
    init_merchant_handler(&mut ledger, InitMerchant { authority }).unwrap();
    let merchant = derive_address(SeedTag::Merchant, &vec![authority], &program()).unwrap().0;
    // With no collection created, the record's linked collection is still
    // the zero address, so the canonical derivation cannot match it, and
    // nothing changes.
    let r = create_nft_in_collection_handler(
        &mut ledger,
        CreateNftInCollection { customer, authority, merchant },
        String::from("u"),
        String::from("n"),
        String::from("s"),
    );
    assert_eq!(r, Err(LoyaltyError::AddressMismatch));
    let item = derive_address(SeedTag::LoyaltyNft, &vec![merchant, customer], &program())
        .unwrap()
        .0;
    // In particular no item metadata was left pending.
    assert!(ledger.metadata.get(&item).is_none());
    assert!(ledger.mints.get(&item).is_none());
}

#[test]
fn failed_verification_leaves_no_pending_item() {
    let authority = addr(1);
    let customer = addr(2);
    let (mut ledger, merchant, collection) = setup_collection(authority);
    // Break the verification precondition: strip the collection's
    // uniqueness marker, as if its marker had never been placed.
    let mut coll_mint = *ledger.mints.get(&collection).unwrap();
    coll_mint.unique = false;
    ledger.mints.set(collection, coll_mint);
    let r = create_nft_in_collection_handler(
        &mut ledger,
        CreateNftInCollection { customer, authority, merchant },
        String::from("u"),
        String::from("n"),
        String::from("s"),
    );
    assert_eq!(r, Err(LoyaltyError::NotFound));
    let item = derive_address(SeedTag::LoyaltyNft, &vec![merchant, customer], &program())
        .unwrap()
        .0;
    // The whole operation aborted: no item asset, no metadata, and in
    // particular no record stuck in PendingVerification.
    assert!(ledger.metadata.get(&item).is_none());
    assert!(ledger.mints.get(&item).is_none());
}
