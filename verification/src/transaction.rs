use vstd::prelude::*;
use crate::addr::{addr_eq, Address};
use crate::derivation::{
    addrs_view, derivation_of, derive_address, derive_holding_address, holding_derivation,
    check_path, DerivationPath, SeedTag,
};
use crate::errors::LoyaltyError;
use crate::ledger::{merchant_check, same_config, transfer_apply, unchanged, Ledger};
use crate::rewards::{compute_reward, reward_fits, reward_of};
use crate::state::MintState;

verus! {

/// The identities a `transaction_handler` call names.
pub struct Transaction {
    /// The authenticated caller: the paying customer.
    pub customer: Address,
    /// The merchant record's owner, named for address resolution only.
    pub authority: Address,
    /// The merchant record's address.
    pub merchant: Address,
}

/// The exact outcome of a payment, checked in order.  First the account
/// resolution: the merchant must resolve for the named authority; the
/// recorded payment destination must exist (`NotFound`) and hold the
/// payment medium (`AddressMismatch`); the customer's payment account
/// must derive (`AddressMismatch`), exist (`NotFound`), hold the payment
/// medium (`AddressMismatch`) and belong to the customer
/// (`AuthorizationError`); the reward asset must derive to the record's
/// linked asset (`AddressMismatch`), exist (`NotFound`) and be its own
/// owning authority (`AuthorizationError`).  Then the transfer: the
/// customer's balance must cover the amount (`InsufficientBalance`) and
/// the credited destination must fit (`ArithmeticOverflow`).  Then the
/// reward: `amount * rate` must fit (`ArithmeticOverflow`), the
/// customer's reward account must derive (`AddressMismatch`) and, if
/// present after the transfer, hold the reward asset (`AddressMismatch`),
/// and the new supply and balance must fit (`ArithmeticOverflow`),
/// respecting a uniqueness marker (`AlreadyInitialized`).
pub open spec fn transaction_check(
    pre: Ledger,
    customer: Seq<u8>,
    authority: Seq<u8>,
    merchant: Seq<u8>,
    amount: u64,
) -> Result<(), LoyaltyError> {
    match merchant_check(pre, authority, merchant) {
        Err(e) => Err(e),
        Ok(m) => {
            let dest = m.payment_destination@;
            if !pre.holdings@.contains_key(dest) {
                Err(LoyaltyError::NotFound)
            } else if pre.holdings@[dest].mint@ != pre.payment_mint@ {
                Err(LoyaltyError::AddressMismatch)
            } else {
                match holding_derivation(customer, pre.payment_mint@) {
                    None => Err(LoyaltyError::AddressMismatch),
                    Some(cp) => {
                        let src = cp.0;
                        if !pre.holdings@.contains_key(src) {
                            Err(LoyaltyError::NotFound)
                        } else if pre.holdings@[src].mint@ != pre.payment_mint@ {
                            Err(LoyaltyError::AddressMismatch)
                        } else if pre.holdings@[src].owner@ != customer {
                            Err(LoyaltyError::AuthorizationError)
                        } else {
                            match derivation_of(SeedTag::RewardPoints, seq![merchant], pre.program@) {
                                None => Err(LoyaltyError::AddressMismatch),
                                Some(p) => {
                                    if p.0 != m.reward_points_mint@ {
                                        Err(LoyaltyError::AddressMismatch)
                                    } else if !pre.mints@.contains_key(p.0) {
                                        Err(LoyaltyError::NotFound)
                                    } else if pre.mints@[p.0].authority@ != p.0 {
                                        Err(LoyaltyError::AuthorizationError)
                                    } else if pre.holdings@[src].amount < amount {
                                        Err(LoyaltyError::InsufficientBalance)
                                    } else if src != dest && pre.holdings@[dest].amount + amount
                                        > u64::MAX {
                                        Err(LoyaltyError::ArithmeticOverflow)
                                    } else if !reward_fits(amount, m.reward_points_basis_points) {
                                        Err(LoyaltyError::ArithmeticOverflow)
                                    } else {
                                        transaction_reward_check(pre, customer, merchant, amount)
                                    }
                                },
                            }
                        }
                    },
                }
            }
        },
    }
}

/// The tail of `transaction_check`: feasibility of the reward mint on the
/// holdings as they stand after the payment transfer.
pub open spec fn transaction_reward_check(
    pre: Ledger,
    customer: Seq<u8>,
    merchant: Seq<u8>,
    amount: u64,
) -> Result<(), LoyaltyError> {
    let m = pre.merchants@[merchant];
    let reward = reward_of(amount, m.reward_points_basis_points) as u64;
    let p = derivation_of(SeedTag::RewardPoints, seq![merchant], pre.program@)->Some_0;
    let src = holding_derivation(customer, pre.payment_mint@)->Some_0.0;
    let mid = transfer_apply(pre.holdings@, src, m.payment_destination@, amount);
    match holding_derivation(customer, p.0) {
        None => Err(LoyaltyError::AddressMismatch),
        Some(rp) => {
            let rh = rp.0;
            let existing = mid.contains_key(rh);
            let prior: u64 = if existing {
                mid[rh].amount
            } else {
                0
            };
            if existing && mid[rh].mint@ != p.0 {
                Err(LoyaltyError::AddressMismatch)
            } else if pre.mints@[p.0].supply + reward > u64::MAX {
                Err(LoyaltyError::ArithmeticOverflow)
            } else if pre.mints@[p.0].unique && pre.mints@[p.0].supply + reward > 1 {
                Err(LoyaltyError::AlreadyInitialized)
            } else if prior + reward > u64::MAX {
                Err(LoyaltyError::ArithmeticOverflow)
            } else {
                Ok(())
            }
        },
    }
}

/// Pays a merchant and rewards the customer as one unit: transfers
/// `amount` of the payment medium from the customer's holding account to
/// the merchant's payment destination, authorized by the customer, then
/// mints `floor(amount * rate / 10000)` reward points to the customer,
/// authorized by the reward asset's own derivation capability.  Any
/// failure — a short balance, an overflowing product, anything — aborts
/// the whole operation with nothing changed: a transfer is never left
/// committed on its own.
pub fn transaction_handler(ledger: &mut Ledger, accounts: Transaction, amount: u64) -> (r: Result<
    (),
    LoyaltyError,
>)
    requires
        old(ledger).wf(),
    ensures
        final(ledger).wf(),
        same_config(*old(ledger), *final(ledger)),
        r == transaction_check(
            *old(ledger),
            accounts.customer@,
            accounts.authority@,
            accounts.merchant@,
            amount,
        ),
        r is Err ==> unchanged(*old(ledger), *final(ledger)),
        r is Ok ==> {
            let m = old(ledger).merchants@[accounts.merchant@];
            let reward = reward_of(amount, m.reward_points_basis_points) as u64;
            &&& final(ledger).merchants@ == old(ledger).merchants@
            &&& final(ledger).metadata@ == old(ledger).metadata@
            &&& derivation_of(
                SeedTag::RewardPoints,
                seq![accounts.merchant@],
                old(ledger).program@,
            ) matches Some(p) && {
                let mint = old(ledger).mints@[p.0];
                &&& final(ledger).mints@ == old(ledger).mints@.insert(
                    p.0,
                    MintState {
                        authority: mint.authority,
                        decimals: mint.decimals,
                        supply: (mint.supply + reward) as u64,
                        unique: mint.unique,
                    },
                )
                &&& holding_derivation(accounts.customer@, old(ledger).payment_mint@)
                    matches Some(cp) && holding_derivation(accounts.customer@, p.0)
                    matches Some(rp) && {
                    let mid = transfer_apply(
                        old(ledger).holdings@,
                        cp.0,
                        m.payment_destination@,
                        amount,
                    );
                    let existing = mid.contains_key(rp.0);
                    &&& final(ledger).holdings@.contains_key(rp.0)
                    &&& final(ledger).holdings@ == mid.insert(rp.0, final(ledger).holdings@[rp.0])
                    &&& final(ledger).holdings@[rp.0].amount == (if existing {
                        mid[rp.0].amount
                    } else {
                        0
                    }) + reward
                    &&& final(ledger).holdings@[rp.0].mint@ == p.0
                    &&& final(ledger).holdings@[rp.0].owner == (if existing {
                        mid[rp.0].owner
                    } else {
                        accounts.customer
                    })
                }
            }
        },
{
    let record = match ledger.resolve_merchant(&accounts.authority, &accounts.merchant) {
        Ok(m) => m,
        Err(e) => {
            return Err(e);
        },
    };
    let dest_addr = record.payment_destination;
    let payment_mint = ledger.payment_mint;
    let dest_acct = match ledger.holdings.get(&dest_addr) {
        Some(a) => *a,
        None => {
            return Err(LoyaltyError::NotFound);
        },
    };
    if !addr_eq(&dest_acct.mint, &payment_mint) {
        return Err(LoyaltyError::AddressMismatch);
    }
    let src_addr = match derive_holding_address(&accounts.customer, &payment_mint) {
        Some(cp) => cp.0,
        None => {
            return Err(LoyaltyError::AddressMismatch);
        },
    };
    let src_acct = match ledger.holdings.get(&src_addr) {
        Some(a) => *a,
        None => {
            return Err(LoyaltyError::NotFound);
        },
    };
    if !addr_eq(&src_acct.mint, &payment_mint) {
        return Err(LoyaltyError::AddressMismatch);
    }
    if !addr_eq(&src_acct.owner, &accounts.customer) {
        return Err(LoyaltyError::AuthorizationError);
    }
    let mut parents: Vec<Address> = Vec::new();
    parents.push(accounts.merchant);
    proof {
        assert(addrs_view(parents@) =~= seq![accounts.merchant@]);
    }
    let (mint_addr, bump) = match derive_address(SeedTag::RewardPoints, &parents, &ledger.program)
        {
        Some(p) => p,
        None => {
            return Err(LoyaltyError::AddressMismatch);
        },
    };
    if !addr_eq(&mint_addr, &record.reward_points_mint) {
        return Err(LoyaltyError::AddressMismatch);
    }
    let mint = match ledger.mints.get(&mint_addr) {
        Some(m) => *m,
        None => {
            return Err(LoyaltyError::NotFound);
        },
    };
    let cap = DerivationPath { tag: SeedTag::RewardPoints, parents, disambiguator: bump };
    if !check_path(&cap, &mint.authority, &ledger.program) {
        return Err(LoyaltyError::AuthorizationError);
    }
    if src_acct.amount < amount {
        return Err(LoyaltyError::InsufficientBalance);
    }
    let src_is_dest = addr_eq(&src_addr, &dest_addr);
    let dest_after: u64 = if src_is_dest {
        dest_acct.amount
    } else {
        match dest_acct.amount.checked_add(amount) {
            Some(n) => n,
            None => {
                return Err(LoyaltyError::ArithmeticOverflow);
            },
        }
    };
    let src_after: u64 = if src_is_dest {
        src_acct.amount
    } else {
        src_acct.amount - amount
    };
    let reward = match compute_reward(amount, record.reward_points_basis_points) {
        Ok(n) => n,
        Err(e) => {
            return Err(e);
        },
    };
    let reward_addr = match derive_holding_address(&accounts.customer, &mint_addr) {
        Some(rp) => rp.0,
        None => {
            return Err(LoyaltyError::AddressMismatch);
        },
    };
    let (reward_exists, reward_prior): (bool, u64) = match ledger.holdings.get(&reward_addr) {
        Some(acct) => {
            if !addr_eq(&acct.mint, &mint_addr) {
                return Err(LoyaltyError::AddressMismatch);
            }
            if addr_eq(&reward_addr, &dest_addr) {
                (true, dest_after)
            } else if addr_eq(&reward_addr, &src_addr) {
                (true, src_after)
            } else {
                (true, acct.amount)
            }
        },
        None => (false, 0),
    };
    let new_supply = match mint.supply.checked_add(reward) {
        Some(n) => n,
        None => {
            return Err(LoyaltyError::ArithmeticOverflow);
        },
    };
    if mint.unique && new_supply > 1 {
        return Err(LoyaltyError::AlreadyInitialized);
    }
    if reward_prior.checked_add(reward).is_none() {
        return Err(LoyaltyError::ArithmeticOverflow);
    }
    match ledger.transfer(&src_addr, &dest_addr, &accounts.customer, amount) {
        Ok(()) => {},
        Err(_) => unreached(),
    }
    let created = match ledger.create_holding_if_absent(&accounts.customer, &mint_addr) {
        Ok(h) => h,
        Err(_) => unreached(),
    };
    match ledger.mint_to(&mint_addr, &created, reward, &cap) {
        Ok(()) => {
            proof {
                let mid = transfer_apply(
                    old(ledger).holdings@,
                    src_addr@,
                    dest_addr@,
                    amount,
                );
                assert(ledger.holdings@ =~= mid.insert(
                    reward_addr@,
                    ledger.holdings@[reward_addr@],
                ));
            }
            Ok(())
        },
        Err(_) => unreached(),
    }
}

} // verus!
