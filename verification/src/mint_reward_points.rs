use vstd::prelude::*;
use crate::addr::{addr_eq, Address};
use crate::derivation::{
    addrs_view, check_path, derivation_of, derive_address, holding_derivation, DerivationPath,
    SeedTag,
};
use crate::errors::LoyaltyError;
use crate::ledger::{merchant_check, same_config, unchanged, Ledger};
use crate::state::MintState;

verus! {

/// The identities a `mint_reward_points_handler` call names.
pub struct MintRewardPoints {
    /// The authenticated caller; must own the merchant record.
    pub authority: Address,
    /// The customer receiving the points.
    pub customer: Address,
    /// The merchant record's address.
    pub merchant: Address,
}

/// The exact outcome of a manual reward grant, checked in order: the
/// merchant must resolve for this authority; the reward asset address
/// must derive and match the record's linked asset (`AddressMismatch`)
/// and exist (`NotFound`); the asset must be its own owning authority, so
/// that the derivation capability authorizes the mint
/// (`AuthorizationError`); the customer's holding account must derive
/// (`AddressMismatch`) and, if it exists, hold this asset
/// (`AddressMismatch`); and the new supply and balance must fit
/// (`ArithmeticOverflow`), respecting a uniqueness marker
/// (`AlreadyInitialized`).
pub open spec fn mint_reward_check(
    pre: Ledger,
    authority: Seq<u8>,
    merchant: Seq<u8>,
    customer: Seq<u8>,
    amount: u64,
) -> Result<(), LoyaltyError> {
    match merchant_check(pre, authority, merchant) {
        Err(e) => Err(e),
        Ok(m) => match derivation_of(SeedTag::RewardPoints, seq![merchant], pre.program@) {
            None => Err(LoyaltyError::AddressMismatch),
            Some(p) => {
                if p.0 != m.reward_points_mint@ {
                    Err(LoyaltyError::AddressMismatch)
                } else if !pre.mints@.contains_key(p.0) {
                    Err(LoyaltyError::NotFound)
                } else if pre.mints@[p.0].authority@ != p.0 {
                    Err(LoyaltyError::AuthorizationError)
                } else {
                    match holding_derivation(customer, p.0) {
                        None => Err(LoyaltyError::AddressMismatch),
                        Some(hp) => {
                            let existing = pre.holdings@.contains_key(hp.0);
                            let prior: u64 = if existing {
                                pre.holdings@[hp.0].amount
                            } else {
                                0
                            };
                            if existing && pre.holdings@[hp.0].mint@ != p.0 {
                                Err(LoyaltyError::AddressMismatch)
                            } else if pre.mints@[p.0].supply + amount > u64::MAX {
                                Err(LoyaltyError::ArithmeticOverflow)
                            } else if pre.mints@[p.0].unique && pre.mints@[p.0].supply + amount
                                > 1 {
                                Err(LoyaltyError::AlreadyInitialized)
                            } else if prior + amount > u64::MAX {
                                Err(LoyaltyError::ArithmeticOverflow)
                            } else {
                                Ok(())
                            }
                        },
                    }
                }
            },
        },
    }
}

/// What a successful grant does to the ledger: the asset's supply grows
/// by the amount, and the customer's canonical holding account — created
/// empty if it was absent — is credited with it.  Nothing else changes.
pub open spec fn minted_reward(
    pre: Ledger,
    post: Ledger,
    merchant: Seq<u8>,
    customer: Address,
    amount: u64,
) -> bool {
    &&& post.merchants@ == pre.merchants@
    &&& post.metadata@ == pre.metadata@
    &&& derivation_of(SeedTag::RewardPoints, seq![merchant], pre.program@) matches Some(p) && {
        let mint_a = p.0;
        let m = pre.mints@[mint_a];
        &&& pre.mints@.contains_key(mint_a)
        &&& m.supply + amount <= u64::MAX
        &&& post.mints@ == pre.mints@.insert(
            mint_a,
            MintState {
                authority: m.authority,
                decimals: m.decimals,
                supply: (m.supply + amount) as u64,
                unique: m.unique,
            },
        )
        &&& holding_derivation(customer@, mint_a) matches Some(hp) && {
            let h = hp.0;
            let existing = pre.holdings@.contains_key(h);
            let prior: u64 = if existing {
                pre.holdings@[h].amount
            } else {
                0
            };
            &&& prior + amount <= u64::MAX
            &&& post.holdings@.contains_key(h)
            &&& post.holdings@ == pre.holdings@.insert(h, post.holdings@[h])
            &&& post.holdings@[h].amount == prior + amount
            &&& post.holdings@[h].mint@ == mint_a
            &&& post.holdings@[h].owner == (if existing {
                pre.holdings@[h].owner
            } else {
                customer
            })
        }
    }
}

/// Grants reward points to a customer by hand: issues `amount` units of
/// the merchant's reward asset into the customer's holding account,
/// creating that account if absent, authorized by the asset's own
/// derivation capability.  Only the merchant's owner may call it, there
/// is no cap on repeated grants, and on every error nothing changes.
pub fn mint_reward_points_handler(
    ledger: &mut Ledger,
    accounts: MintRewardPoints,
    amount: u64,
) -> (r: Result<(), LoyaltyError>)
    requires
        old(ledger).wf(),
    ensures
        final(ledger).wf(),
        same_config(*old(ledger), *final(ledger)),
        r == mint_reward_check(
            *old(ledger),
            accounts.authority@,
            accounts.merchant@,
            accounts.customer@,
            amount,
        ),
        r is Err ==> unchanged(*old(ledger), *final(ledger)),
        r is Ok ==> minted_reward(
            *old(ledger),
            *final(ledger),
            accounts.merchant@,
            accounts.customer,
            amount,
        ),
{
    let record = match ledger.resolve_merchant(&accounts.authority, &accounts.merchant) {
        Ok(m) => m,
        Err(e) => {
            return Err(e);
        },
    };
    let mut parents: Vec<Address> = Vec::new();
    parents.push(accounts.merchant);
    proof {
        assert(addrs_view(parents@) =~= seq![accounts.merchant@]);
    }
    let (mint_addr, bump) = match derive_address(SeedTag::RewardPoints, &parents, &ledger.program)
        {
        Some(p) => p,
        None => {
            return Err(LoyaltyError::AddressMismatch);
        },
    };
    if !addr_eq(&mint_addr, &record.reward_points_mint) {
        return Err(LoyaltyError::AddressMismatch);
    }
    let mint = match ledger.mints.get(&mint_addr) {
        Some(m) => *m,
        None => {
            return Err(LoyaltyError::NotFound);
        },
    };
    let cap = DerivationPath { tag: SeedTag::RewardPoints, parents, disambiguator: bump };
    if !check_path(&cap, &mint.authority, &ledger.program) {
        return Err(LoyaltyError::AuthorizationError);
    }
    let holding_addr = match crate::derivation::derive_holding_address(
        &accounts.customer,
        &mint_addr,
    ) {
        Some(hp) => hp.0,
        None => {
            return Err(LoyaltyError::AddressMismatch);
        },
    };
    let (dest_exists, prior): (bool, u64) = match ledger.holdings.get(&holding_addr) {
        Some(acct) => {
            if !addr_eq(&acct.mint, &mint_addr) {
                return Err(LoyaltyError::AddressMismatch);
            }
            (true, acct.amount)
        },
        None => (false, 0),
    };
    let new_supply = match mint.supply.checked_add(amount) {
        Some(n) => n,
        None => {
            return Err(LoyaltyError::ArithmeticOverflow);
        },
    };
    if mint.unique && new_supply > 1 {
        return Err(LoyaltyError::AlreadyInitialized);
    }
    if prior.checked_add(amount).is_none() {
        return Err(LoyaltyError::ArithmeticOverflow);
    }
    let created = match ledger.create_holding_if_absent(&accounts.customer, &mint_addr) {
        Ok(h) => h,
        Err(_) => unreached(),
    };
    match ledger.mint_to(&mint_addr, &created, amount, &cap) {
        Ok(()) => {
            proof {
                assert(ledger.holdings@ =~= old(ledger).holdings@.insert(
                    holding_addr@,
                    ledger.holdings@[holding_addr@],
                ));
            }
            Ok(())
        },
        Err(_) => unreached(),
    }
}

} // verus!
