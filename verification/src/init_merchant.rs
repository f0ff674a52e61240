use vstd::prelude::*;
use crate::addr::{zero_addr, zero_address, Address};
use crate::derivation::{addrs_view, derivation_of, derive_address, holding_derivation, SeedTag};
use crate::errors::LoyaltyError;
use crate::ledger::{same_config, unchanged, Ledger};
use crate::state::MerchantState;

verus! {

/// The identities an `init_merchant_handler` call names.
pub struct InitMerchant {
    /// The authenticated caller, becoming the new record's owner.
    pub authority: Address,
}

/// The exact outcome of registering a merchant, checked in order: the
/// merchant address must derive (`AddressMismatch`), must not be
/// populated yet (`AlreadyInitialized`), the payment medium must be
/// registered (`NotFound`), and the payment-destination holding account
/// must derive (`AddressMismatch`).
pub open spec fn init_merchant_check(pre: Ledger, authority: Seq<u8>) -> Result<(), LoyaltyError> {
    match derivation_of(SeedTag::Merchant, seq![authority], pre.program@) {
        None => Err(LoyaltyError::AddressMismatch),
        Some(p) => {
            if pre.merchants@.contains_key(p.0) {
                Err(LoyaltyError::AlreadyInitialized)
            } else if !pre.mints@.contains_key(pre.payment_mint@) {
                Err(LoyaltyError::NotFound)
            } else if holding_derivation(authority, pre.payment_mint@) is None {
                Err(LoyaltyError::AddressMismatch)
            } else {
                Ok(())
            }
        },
    }
}

/// Creates the merchant record at its canonical derived address, with the
/// caller as owner, the caller's holding account for the payment medium
/// (created if absent) as payment destination, and every linked-asset
/// field empty.  A second call for the same authority fails with
/// `AlreadyInitialized`, and on every error nothing changes.
pub fn init_merchant_handler(ledger: &mut Ledger, accounts: InitMerchant) -> (r: Result<
    (),
    LoyaltyError,
>)
    requires
        old(ledger).wf(),
    ensures
        final(ledger).wf(),
        same_config(*old(ledger), *final(ledger)),
        r == init_merchant_check(*old(ledger), accounts.authority@),
        r is Err ==> unchanged(*old(ledger), *final(ledger)),
        r is Ok ==> {
            &&& derivation_of(
                SeedTag::Merchant,
                seq![accounts.authority@],
                old(ledger).program@,
            ) matches Some(p) && {
                let m = final(ledger).merchants@[p.0];
                &&& final(ledger).merchants@ == old(ledger).merchants@.insert(p.0, m)
                &&& m.authority == accounts.authority
                &&& holding_derivation(accounts.authority@, old(ledger).payment_mint@)
                    matches Some(q) && m.payment_destination@ == q.0 && final(ledger).holdings@
                    == (if old(ledger).holdings@.contains_key(q.0) {
                    old(ledger).holdings@
                } else {
                    old(ledger).holdings@.insert(
                        q.0,
                        crate::state::TokenAccountState {
                            owner: accounts.authority,
                            mint: old(ledger).payment_mint,
                            amount: 0,
                        },
                    )
                })
                &&& m.reward_points_mint@ == zero_addr()
                &&& m.reward_points_basis_points == 0
                &&& m.loyalty_collection_mint@ == zero_addr()
                &&& m.loyalty_discount_basis_points == 0
            }
            &&& final(ledger).mints@ == old(ledger).mints@
            &&& final(ledger).metadata@ == old(ledger).metadata@
        },
{
    let mut parents: Vec<Address> = Vec::new();
    parents.push(accounts.authority);
    proof {
        assert(addrs_view(parents@) =~= seq![accounts.authority@]);
    }
    let merchant_addr = match derive_address(SeedTag::Merchant, &parents, &ledger.program) {
        Some(p) => p.0,
        None => {
            return Err(LoyaltyError::AddressMismatch);
        },
    };
    if ledger.merchants.contains(&merchant_addr) {
        return Err(LoyaltyError::AlreadyInitialized);
    }
    let payment_mint = ledger.payment_mint;
    if !ledger.mints.contains(&payment_mint) {
        return Err(LoyaltyError::NotFound);
    }
    let payment_destination = match ledger.create_holding_if_absent(
        &accounts.authority,
        &payment_mint,
    ) {
        Ok(h) => h,
        Err(e) => {
            return Err(e);
        },
    };
    ledger.merchants.insert(
        merchant_addr,
        MerchantState {
            authority: accounts.authority,
            payment_destination,
            reward_points_mint: zero_address(),
            reward_points_basis_points: 0,
            loyalty_collection_mint: zero_address(),
            loyalty_discount_basis_points: 0,
        },
    );
    Ok(())
}

/// Registering a merchant is single-shot: once the record at the
/// canonical derived address exists, a second call for the same authority
/// fails with exactly `AlreadyInitialized` — and so, by the handler's
/// contract, leaves the original record and everything else unchanged.
pub proof fn lemma_init_merchant_single_shot(pre: Ledger, authority: Seq<u8>)
    requires
        derivation_of(SeedTag::Merchant, seq![authority], pre.program@) matches Some(p)
            && pre.merchants@.contains_key(p.0),
    ensures
        init_merchant_check(pre, authority) == Err::<(), LoyaltyError>(
            LoyaltyError::AlreadyInitialized,
        ),
{
}

} // verus!
