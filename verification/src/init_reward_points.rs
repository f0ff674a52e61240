use vstd::prelude::*;
use crate::addr::Address;
use crate::derivation::{addrs_view, derivation_of, derive_address, SeedTag};
use crate::errors::LoyaltyError;
use crate::ledger::{merchant_check, same_config, unchanged, Ledger};
use crate::state::{CollectionStatus, MerchantState, MetadataState};

verus! {

/// The identities an `init_reward_points_handler` call names.
pub struct InitRewardPoints {
    /// The authenticated caller; must own the merchant record.
    pub authority: Address,
    /// The merchant record's address.
    pub merchant: Address,
}

/// The exact outcome of initializing a merchant's reward asset, checked
/// in order: the merchant must resolve for this authority, the reward
/// asset address must derive (`AddressMismatch`), and it must not be
/// populated yet (`AlreadyInitialized`).
pub open spec fn init_reward_check(pre: Ledger, authority: Seq<u8>, merchant: Seq<u8>) -> Result<
    (),
    LoyaltyError,
> {
    match merchant_check(pre, authority, merchant) {
        Err(e) => Err(e),
        Ok(_) => match derivation_of(SeedTag::RewardPoints, seq![merchant], pre.program@) {
            None => Err(LoyaltyError::AddressMismatch),
            Some(p) => {
                if pre.mints@.contains_key(p.0) {
                    Err(LoyaltyError::AlreadyInitialized)
                } else {
                    Ok(())
                }
            },
        },
    }
}

/// Creates the merchant's reward-point balance asset at its canonical
/// derived address, exactly once.  The asset's owning authority is its
/// own address, its descriptive metadata is registered with no creator
/// claim, and the merchant record is linked to it with the given rate.
/// Only the merchant's owner may call it; on every error nothing changes.
pub fn init_reward_points_handler(
    ledger: &mut Ledger,
    accounts: InitRewardPoints,
    reward_points_basis_points: u16,
    uri: String,
    name: String,
    symbol: String,
) -> (r: Result<(), LoyaltyError>)
    requires
        old(ledger).wf(),
        reward_points_basis_points <= 10000,
    ensures
        final(ledger).wf(),
        same_config(*old(ledger), *final(ledger)),
        r == init_reward_check(*old(ledger), accounts.authority@, accounts.merchant@),
        r is Err ==> unchanged(*old(ledger), *final(ledger)),
        r is Ok ==> {
            &&& final(ledger).holdings@ == old(ledger).holdings@
            &&& derivation_of(
                SeedTag::RewardPoints,
                seq![accounts.merchant@],
                old(ledger).program@,
            ) matches Some(p) && {
                let mint = final(ledger).mints@[p.0];
                let m = old(ledger).merchants@[accounts.merchant@];
                &&& final(ledger).mints@ == old(ledger).mints@.insert(p.0, mint)
                &&& mint.authority@ == p.0
                &&& mint.decimals == 6
                &&& mint.supply == 0
                &&& mint.unique == false
                &&& final(ledger).metadata@ == old(ledger).metadata@.insert(
                    p.0,
                    MetadataState {
                        name,
                        symbol,
                        uri,
                        creator: None,
                        collection: None,
                        collection_status: CollectionStatus::Unset,
                    },
                )
                &&& final(ledger).merchants@ == old(ledger).merchants@.insert(
                    accounts.merchant@,
                    MerchantState {
                        authority: m.authority,
                        payment_destination: m.payment_destination,
                        reward_points_mint: final(ledger).merchants@[accounts.merchant@].reward_points_mint,
                        reward_points_basis_points,
                        loyalty_collection_mint: m.loyalty_collection_mint,
                        loyalty_discount_basis_points: m.loyalty_discount_basis_points,
                    },
                )
                &&& final(ledger).merchants@[accounts.merchant@].reward_points_mint@ == p.0
            }
        },
{
    let record = match ledger.resolve_merchant(&accounts.authority, &accounts.merchant) {
        Ok(m) => m,
        Err(e) => {
            return Err(e);
        },
    };
    let mut parents: Vec<Address> = Vec::new();
    parents.push(accounts.merchant);
    proof {
        assert(addrs_view(parents@) =~= seq![accounts.merchant@]);
    }
    let mint_addr = match derive_address(SeedTag::RewardPoints, &parents, &ledger.program) {
        Some(p) => p.0,
        None => {
            return Err(LoyaltyError::AddressMismatch);
        },
    };
    if ledger.mints.contains(&mint_addr) {
        return Err(LoyaltyError::AlreadyInitialized);
    }
    match ledger.create_mint(mint_addr, mint_addr, 6) {
        Ok(()) => {},
        Err(_) => unreached(),
    }
    match ledger.register_metadata(&mint_addr, name, symbol, uri, None) {
        Ok(()) => {},
        Err(_) => unreached(),
    }
    ledger.merchants.set(
        accounts.merchant,
        MerchantState {
            authority: record.authority,
            payment_destination: record.payment_destination,
            reward_points_mint: mint_addr,
            reward_points_basis_points,
            loyalty_collection_mint: record.loyalty_collection_mint,
            loyalty_discount_basis_points: record.loyalty_discount_basis_points,
        },
    );
    Ok(())
}

} // verus!
