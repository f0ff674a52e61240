use vstd::prelude::*;
use crate::addr::Address;
use crate::errors::LoyaltyError;
use crate::ledger::{merchant_check, same_config, unchanged, Ledger};
use crate::state::MerchantState;

verus! {

/// The identities an `update_reward_points_handler` call names: the
/// signing authority and the merchant record to update.
pub struct UpdateRewardPoints {
    /// The authenticated caller.
    pub authority: Address,
    /// The merchant record's address.
    pub merchant: Address,
}

/// The exact outcome: the merchant must resolve for this authority
/// (`merchant_check`); then the update succeeds.
pub open spec fn update_reward_check(
    pre: Ledger,
    authority: Seq<u8>,
    merchant: Seq<u8>,
) -> Result<(), LoyaltyError> {
    match merchant_check(pre, authority, merchant) {
        Ok(_) => Ok(()),
        Err(e) => Err(e),
    }
}

/// Overwrites a merchant's reward rate: the share of every payment minted
/// back to the customer as reward points.  Only the record's owner may
/// call it; a caller with any other identity fails with
/// `AuthorizationError` and the record is left unchanged, as is the rest
/// of the ledger on every error.
pub fn update_reward_points_handler(
    ledger: &mut Ledger,
    accounts: UpdateRewardPoints,
    reward_points_basis_points: u16,
) -> (r: Result<(), LoyaltyError>)
    requires
        old(ledger).wf(),
        reward_points_basis_points <= 10000,
    ensures
        final(ledger).wf(),
        same_config(*old(ledger), *final(ledger)),
        r == update_reward_check(*old(ledger), accounts.authority@, accounts.merchant@),
        r is Err ==> unchanged(*old(ledger), *final(ledger)),
        r is Ok ==> {
            let m = old(ledger).merchants@[accounts.merchant@];
            &&& final(ledger).merchants@ == old(ledger).merchants@.insert(
                accounts.merchant@,
                MerchantState {
                    authority: m.authority,
                    payment_destination: m.payment_destination,
                    reward_points_mint: m.reward_points_mint,
                    reward_points_basis_points,
                    loyalty_collection_mint: m.loyalty_collection_mint,
                    loyalty_discount_basis_points: m.loyalty_discount_basis_points,
                },
            )
            &&& final(ledger).mints@ == old(ledger).mints@
            &&& final(ledger).holdings@ == old(ledger).holdings@
            &&& final(ledger).metadata@ == old(ledger).metadata@
        },
{
    let record = match ledger.resolve_merchant(&accounts.authority, &accounts.merchant) {
        Ok(m) => m,
        Err(e) => {
            return Err(e);
        },
    };
    ledger.merchants.set(
        accounts.merchant,
        MerchantState {
            authority: record.authority,
            payment_destination: record.payment_destination,
            reward_points_mint: record.reward_points_mint,
            reward_points_basis_points,
            loyalty_collection_mint: record.loyalty_collection_mint,
            loyalty_discount_basis_points: record.loyalty_discount_basis_points,
        },
    );
    Ok(())
}

/// Authorization is required: whenever the record at the supplied
/// address exists and is owned by an identity other than the caller, an
/// update fails with exactly `AuthorizationError` — and so, by the
/// handler's contract, leaves the record and everything else unchanged.
pub proof fn lemma_update_requires_authority(pre: Ledger, authority: Seq<u8>, merchant: Seq<u8>)
    requires
        pre.merchants@.contains_key(merchant),
        pre.merchants@[merchant].authority@ != authority,
    ensures
        update_reward_check(pre, authority, merchant) == Err::<(), LoyaltyError>(
            LoyaltyError::AuthorizationError,
        ),
{
}

} // verus!
