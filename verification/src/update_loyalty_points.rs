use vstd::prelude::*;
use crate::addr::Address;
use crate::errors::LoyaltyError;
use crate::ledger::{merchant_check, same_config, unchanged, Ledger};
use crate::state::MerchantState;

verus! {

/// The identities an `update_loyalty_points_handler` call names.
pub struct UpdateLoyaltyPoints {
    /// The authenticated caller.
    pub authority: Address,
    /// The merchant record's address.
    pub merchant: Address,
}

/// The exact outcome: the merchant must resolve for this authority
/// (`merchant_check`); then the update succeeds.
pub open spec fn update_loyalty_check(
    pre: Ledger,
    authority: Seq<u8>,
    merchant: Seq<u8>,
) -> Result<(), LoyaltyError> {
    match merchant_check(pre, authority, merchant) {
        Ok(_) => Ok(()),
        Err(e) => Err(e),
    }
}

/// Overwrites a merchant's loyalty-discount rate: the checkout discount
/// granted for holding a badge of the merchant's collection.  Only the
/// record's owner may call it; any other identity fails with
/// `AuthorizationError`, and on every error nothing changes.
pub fn update_loyalty_points_handler(
    ledger: &mut Ledger,
    accounts: UpdateLoyaltyPoints,
    loyalty_discount_basis_points: u16,
) -> (r: Result<(), LoyaltyError>)
    requires
        old(ledger).wf(),
        loyalty_discount_basis_points <= 10000,
    ensures
        final(ledger).wf(),
        same_config(*old(ledger), *final(ledger)),
        r == update_loyalty_check(*old(ledger), accounts.authority@, accounts.merchant@),
        r is Err ==> unchanged(*old(ledger), *final(ledger)),
        r is Ok ==> {
            let m = old(ledger).merchants@[accounts.merchant@];
            &&& final(ledger).merchants@ == old(ledger).merchants@.insert(
                accounts.merchant@,
                MerchantState {
                    authority: m.authority,
                    payment_destination: m.payment_destination,
                    reward_points_mint: m.reward_points_mint,
                    reward_points_basis_points: m.reward_points_basis_points,
                    loyalty_collection_mint: m.loyalty_collection_mint,
                    loyalty_discount_basis_points,
                },
            )
            &&& final(ledger).mints@ == old(ledger).mints@
            &&& final(ledger).holdings@ == old(ledger).holdings@
            &&& final(ledger).metadata@ == old(ledger).metadata@
        },
{
    let record = match ledger.resolve_merchant(&accounts.authority, &accounts.merchant) {
        Ok(m) => m,
        Err(e) => {
            return Err(e);
        },
    };
    ledger.merchants.set(
        accounts.merchant,
        MerchantState {
            authority: record.authority,
            payment_destination: record.payment_destination,
            reward_points_mint: record.reward_points_mint,
            reward_points_basis_points: record.reward_points_basis_points,
            loyalty_collection_mint: record.loyalty_collection_mint,
            loyalty_discount_basis_points,
        },
    );
    Ok(())
}

} // verus!
