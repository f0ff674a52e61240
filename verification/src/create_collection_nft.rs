use vstd::prelude::*;
use crate::addr::{addr_eq, Address};
use crate::derivation::{
    addrs_view, derivation_of, derive_address, derive_holding_address, holding_derivation,
    DerivationPath, SeedTag,
};
use crate::errors::LoyaltyError;
use crate::ledger::{merchant_check, same_config, unchanged, Ledger};
use crate::state::{CollectionStatus, CreatorRecord, MerchantState, MetadataState};

verus! {

/// The identities a `create_collection_nft_handler` call names.
pub struct CreateCollectionNft {
    /// The authenticated caller; must own the merchant record.
    pub authority: Address,
    /// The merchant record's address.
    pub merchant: Address,
}

/// The exact outcome of creating a merchant's collection badge, checked
/// in order: the merchant must resolve for this authority, the collection
/// address must derive (`AddressMismatch`) and must not be populated yet
/// (`AlreadyInitialized`), the owner's holding account must derive
/// (`AddressMismatch`) and, if it already exists, hold this asset
/// (`AddressMismatch`) with room for one more unit
/// (`ArithmeticOverflow`).
pub open spec fn create_collection_check(pre: Ledger, authority: Seq<u8>, merchant: Seq<u8>) -> Result<
    (),
    LoyaltyError,
> {
    match merchant_check(pre, authority, merchant) {
        Err(e) => Err(e),
        Ok(_) => match derivation_of(SeedTag::LoyaltyNft, seq![merchant], pre.program@) {
            None => Err(LoyaltyError::AddressMismatch),
            Some(p) => {
                if pre.mints@.contains_key(p.0) {
                    Err(LoyaltyError::AlreadyInitialized)
                } else {
                    match holding_derivation(authority, p.0) {
                        None => Err(LoyaltyError::AddressMismatch),
                        Some(hp) => {
                            let existing = pre.holdings@.contains_key(hp.0);
                            if existing && pre.holdings@[hp.0].mint@ != p.0 {
                                Err(LoyaltyError::AddressMismatch)
                            } else if existing && pre.holdings@[hp.0].amount + 1 > u64::MAX {
                                Err(LoyaltyError::ArithmeticOverflow)
                            } else {
                                Ok(())
                            }
                        },
                    }
                }
            },
        },
    }
}

/// Creates the merchant's one-of-a-kind collection badge at its canonical
/// derived address, exactly once: a supply-one asset owned by its own
/// address, its single unit held by the merchant's owner, carrying the
/// uniqueness marker, with metadata whose creator claim names the
/// merchant's owner and is verified by the caller's own signature.  The
/// merchant record is linked to the collection with the given discount
/// rate.  On every error nothing changes.
pub fn create_collection_nft_handler(
    ledger: &mut Ledger,
    accounts: CreateCollectionNft,
    loyalty_discount_basis_points: u16,
    uri: String,
    name: String,
    symbol: String,
) -> (r: Result<(), LoyaltyError>)
    requires
        old(ledger).wf(),
        loyalty_discount_basis_points <= 10000,
    ensures
        final(ledger).wf(),
        same_config(*old(ledger), *final(ledger)),
        r == create_collection_check(*old(ledger), accounts.authority@, accounts.merchant@),
        r is Err ==> unchanged(*old(ledger), *final(ledger)),
        r is Ok ==> {
            &&& derivation_of(
                SeedTag::LoyaltyNft,
                seq![accounts.merchant@],
                old(ledger).program@,
            ) matches Some(p) && {
                let mint = final(ledger).mints@[p.0];
                let m = old(ledger).merchants@[accounts.merchant@];
                &&& final(ledger).mints@ == old(ledger).mints@.insert(p.0, mint)
                &&& mint.authority@ == p.0
                &&& mint.decimals == 0
                &&& mint.supply == 1
                &&& mint.unique == true
                &&& final(ledger).metadata@ == old(ledger).metadata@.insert(
                    p.0,
                    MetadataState {
                        name,
                        symbol,
                        uri,
                        creator: Some(
                            CreatorRecord { address: accounts.authority, verified: true },
                        ),
                        collection: None,
                        collection_status: CollectionStatus::Unset,
                    },
                )
                &&& holding_derivation(accounts.authority@, p.0) matches Some(hp) && {
                    let h = hp.0;
                    let existing = old(ledger).holdings@.contains_key(h);
                    &&& final(ledger).holdings@.contains_key(h)
                    &&& final(ledger).holdings@ == old(ledger).holdings@.insert(
                        h,
                        final(ledger).holdings@[h],
                    )
                    &&& final(ledger).holdings@[h].mint@ == p.0
                    &&& final(ledger).holdings@[h].amount == (if existing {
                        old(ledger).holdings@[h].amount + 1
                    } else {
                        1
                    })
                    &&& final(ledger).holdings@[h].owner == (if existing {
                        old(ledger).holdings@[h].owner
                    } else {
                        accounts.authority
                    })
                }
                &&& final(ledger).merchants@ == old(ledger).merchants@.insert(
                    accounts.merchant@,
                    MerchantState {
                        authority: m.authority,
                        payment_destination: m.payment_destination,
                        reward_points_mint: m.reward_points_mint,
                        reward_points_basis_points: m.reward_points_basis_points,
                        loyalty_collection_mint: final(ledger).merchants@[accounts.merchant@].loyalty_collection_mint,
                        loyalty_discount_basis_points,
                    },
                )
                &&& final(ledger).merchants@[accounts.merchant@].loyalty_collection_mint@ == p.0
            }
        },
{
    let record = match ledger.resolve_merchant(&accounts.authority, &accounts.merchant) {
        Ok(m) => m,
        Err(e) => {
            return Err(e);
        },
    };
    let mut parents: Vec<Address> = Vec::new();
    parents.push(accounts.merchant);
    proof {
        assert(addrs_view(parents@) =~= seq![accounts.merchant@]);
    }
    let (coll_addr, bump) = match derive_address(SeedTag::LoyaltyNft, &parents, &ledger.program) {
        Some(p) => p,
        None => {
            return Err(LoyaltyError::AddressMismatch);
        },
    };
    if ledger.mints.contains(&coll_addr) {
        return Err(LoyaltyError::AlreadyInitialized);
    }
    let holding_addr = match derive_holding_address(&accounts.authority, &coll_addr) {
        Some(hp) => hp.0,
        None => {
            return Err(LoyaltyError::AddressMismatch);
        },
    };
    match ledger.holdings.get(&holding_addr) {
        Some(acct) => {
            if !addr_eq(&acct.mint, &coll_addr) {
                return Err(LoyaltyError::AddressMismatch);
            }
            if acct.amount.checked_add(1).is_none() {
                return Err(LoyaltyError::ArithmeticOverflow);
            }
        },
        None => {},
    }
    let cap = DerivationPath { tag: SeedTag::LoyaltyNft, parents, disambiguator: bump };
    match ledger.create_mint(coll_addr, coll_addr, 0) {
        Ok(()) => {},
        Err(_) => unreached(),
    }
    let created = match ledger.create_holding_if_absent(&accounts.authority, &coll_addr) {
        Ok(h) => h,
        Err(_) => unreached(),
    };
    match ledger.mint_to(&coll_addr, &created, 1, &cap) {
        Ok(()) => {},
        Err(_) => unreached(),
    }
    match ledger.register_metadata(
        &coll_addr,
        name,
        symbol,
        uri,
        Some(CreatorRecord { address: accounts.authority, verified: false }),
    ) {
        Ok(()) => {},
        Err(_) => unreached(),
    }
    match ledger.mark_unique_supply(&coll_addr, &cap) {
        Ok(()) => {},
        Err(_) => unreached(),
    }
    match ledger.verify_creator(&coll_addr, &accounts.authority, &accounts.authority) {
        Ok(()) => {},
        Err(_) => unreached(),
    }
    ledger.merchants.set(
        accounts.merchant,
        MerchantState {
            authority: record.authority,
            payment_destination: record.payment_destination,
            reward_points_mint: record.reward_points_mint,
            reward_points_basis_points: record.reward_points_basis_points,
            loyalty_collection_mint: coll_addr,
            loyalty_discount_basis_points,
        },
    );
    proof {
        assert(ledger.mints@ =~= old(ledger).mints@.insert(coll_addr@, ledger.mints@[coll_addr@]));
        assert(ledger.holdings@ =~= old(ledger).holdings@.insert(
            holding_addr@,
            ledger.holdings@[holding_addr@],
        ));
        assert(ledger.metadata@ =~= old(ledger).metadata@.insert(
            coll_addr@,
            ledger.metadata@[coll_addr@],
        ));
    }
    Ok(())
}

} // verus!
