use vstd::prelude::*;
use crate::addr::{addr_eq, Address};
use crate::derivation::{
    addrs_view, derivation_of, derive_address, derive_holding_address, holding_derivation,
    DerivationPath, SeedTag,
};
use crate::errors::LoyaltyError;
use crate::ledger::{merchant_check, same_config, unchanged, Ledger};
use crate::state::{CollectionStatus, MetadataState};

verus! {

/// The identities a `create_nft_in_collection_handler` call names.
pub struct CreateNftInCollection {
    /// The authenticated caller: the customer receiving the badge.
    pub customer: Address,
    /// The merchant record's owner, named for address resolution only.
    pub authority: Address,
    /// The merchant record's address.
    pub merchant: Address,
}

/// The exact outcome of issuing a membership badge, checked in order: the
/// merchant must resolve for the named authority; the collection address
/// must derive to the record's linked collection (`AddressMismatch`),
/// exist with its metadata and uniqueness marker (`NotFound`), and be its
/// own owning authority, so the collection's derivation capability can
/// sign (`AuthorizationError`); the item address must derive
/// (`AddressMismatch`) and must not be populated yet
/// (`AlreadyInitialized`); and the customer's holding account must derive
/// (`AddressMismatch`) and, if present, hold the item asset
/// (`AddressMismatch`) with room for its one unit (`ArithmeticOverflow`).
pub open spec fn create_item_check(
    pre: Ledger,
    customer: Seq<u8>,
    authority: Seq<u8>,
    merchant: Seq<u8>,
) -> Result<(), LoyaltyError> {
    match merchant_check(pre, authority, merchant) {
        Err(e) => Err(e),
        Ok(m) => match derivation_of(SeedTag::LoyaltyNft, seq![merchant], pre.program@) {
            None => Err(LoyaltyError::AddressMismatch),
            Some(cp) => {
                let coll = cp.0;
                if coll != m.loyalty_collection_mint@ {
                    Err(LoyaltyError::AddressMismatch)
                } else if !pre.mints@.contains_key(coll) {
                    Err(LoyaltyError::NotFound)
                } else if !pre.metadata@.contains_key(coll) {
                    Err(LoyaltyError::NotFound)
                } else if !pre.mints@[coll].unique {
                    Err(LoyaltyError::NotFound)
                } else if pre.mints@[coll].authority@ != coll {
                    Err(LoyaltyError::AuthorizationError)
                } else {
                    match derivation_of(SeedTag::LoyaltyNft, seq![merchant, customer], pre.program@) {
                        None => Err(LoyaltyError::AddressMismatch),
                        Some(ip) => {
                            let item = ip.0;
                            if pre.mints@.contains_key(item) {
                                Err(LoyaltyError::AlreadyInitialized)
                            } else {
                                match holding_derivation(customer, item) {
                                    None => Err(LoyaltyError::AddressMismatch),
                                    Some(hp) => {
                                        let existing = pre.holdings@.contains_key(hp.0);
                                        if existing && pre.holdings@[hp.0].mint@ != item {
                                            Err(LoyaltyError::AddressMismatch)
                                        } else if existing && pre.holdings@[hp.0].amount + 1
                                            > u64::MAX {
                                            Err(LoyaltyError::ArithmeticOverflow)
                                        } else {
                                            Ok(())
                                        }
                                    },
                                }
                            }
                        },
                    }
                }
            },
        },
    }
}

/// Issues a customer's membership badge for a merchant's collection,
/// exactly once per (merchant, customer): a supply-one asset at the
/// canonical derived address, minted to the customer and owned by the
/// collection asset — the collection, not the item, is the issuing
/// authority, establishing provenance.  The item's metadata passes the
/// two-phase membership protocol within the single operation: the claim
/// is recorded (`PendingVerification`) and immediately verified against
/// the collection's metadata and uniqueness marker under the collection's
/// derivation capability, ending `Verified`.  On every error nothing
/// changes, so no item is ever left pending.
pub fn create_nft_in_collection_handler(
    ledger: &mut Ledger,
    accounts: CreateNftInCollection,
    uri: String,
    name: String,
    symbol: String,
) -> (r: Result<(), LoyaltyError>)
    requires
        old(ledger).wf(),
    ensures
        final(ledger).wf(),
        same_config(*old(ledger), *final(ledger)),
        r == create_item_check(
            *old(ledger),
            accounts.customer@,
            accounts.authority@,
            accounts.merchant@,
        ),
        r is Err ==> unchanged(*old(ledger), *final(ledger)),
        r is Ok ==> {
            let m = old(ledger).merchants@[accounts.merchant@];
            &&& final(ledger).merchants@ == old(ledger).merchants@
            &&& derivation_of(
                SeedTag::LoyaltyNft,
                seq![accounts.merchant@, accounts.customer@],
                old(ledger).program@,
            ) matches Some(ip) && {
                let item = ip.0;
                let mint = final(ledger).mints@[item];
                let md = final(ledger).metadata@[item];
                &&& final(ledger).mints@ == old(ledger).mints@.insert(item, mint)
                &&& mint.authority@ == m.loyalty_collection_mint@
                &&& mint.decimals == 0
                &&& mint.supply == 1
                &&& mint.unique == true
                &&& final(ledger).metadata@ == old(ledger).metadata@.insert(item, md)
                &&& md.name == name
                &&& md.symbol == symbol
                &&& md.uri == uri
                &&& md.creator is None
                &&& md.collection matches Some(c) && c@ == m.loyalty_collection_mint@
                &&& md.collection_status == CollectionStatus::Verified
                &&& holding_derivation(accounts.customer@, item) matches Some(hp) && {
                    let h = hp.0;
                    let existing = old(ledger).holdings@.contains_key(h);
                    &&& final(ledger).holdings@.contains_key(h)
                    &&& final(ledger).holdings@ == old(ledger).holdings@.insert(
                        h,
                        final(ledger).holdings@[h],
                    )
                    &&& final(ledger).holdings@[h].mint@ == item
                    &&& final(ledger).holdings@[h].amount == (if existing {
                        old(ledger).holdings@[h].amount + 1
                    } else {
                        1
                    })
                    &&& final(ledger).holdings@[h].owner == (if existing {
                        old(ledger).holdings@[h].owner
                    } else {
                        accounts.customer
                    })
                }
            }
        },
{
    let record = match ledger.resolve_merchant(&accounts.authority, &accounts.merchant) {
        Ok(m) => m,
        Err(e) => {
            return Err(e);
        },
    };
    let mut coll_parents: Vec<Address> = Vec::new();
    coll_parents.push(accounts.merchant);
    proof {
        assert(addrs_view(coll_parents@) =~= seq![accounts.merchant@]);
    }
    let (coll_addr, coll_bump) = match derive_address(
        SeedTag::LoyaltyNft,
        &coll_parents,
        &ledger.program,
    ) {
        Some(p) => p,
        None => {
            return Err(LoyaltyError::AddressMismatch);
        },
    };
    if !addr_eq(&coll_addr, &record.loyalty_collection_mint) {
        return Err(LoyaltyError::AddressMismatch);
    }
    let coll_mint = match ledger.mints.get(&coll_addr) {
        Some(m) => *m,
        None => {
            return Err(LoyaltyError::NotFound);
        },
    };
    if !ledger.metadata.contains(&coll_addr) {
        return Err(LoyaltyError::NotFound);
    }
    if !coll_mint.unique {
        return Err(LoyaltyError::NotFound);
    }
    let cap = DerivationPath {
        tag: SeedTag::LoyaltyNft,
        parents: coll_parents,
        disambiguator: coll_bump,
    };
    if !crate::derivation::check_path(&cap, &coll_mint.authority, &ledger.program) {
        return Err(LoyaltyError::AuthorizationError);
    }
    let mut item_parents: Vec<Address> = Vec::new();
    item_parents.push(accounts.merchant);
    item_parents.push(accounts.customer);
    proof {
        assert(addrs_view(item_parents@) =~= seq![accounts.merchant@, accounts.customer@]);
    }
    let item_addr = match derive_address(SeedTag::LoyaltyNft, &item_parents, &ledger.program) {
        Some(p) => p.0,
        None => {
            return Err(LoyaltyError::AddressMismatch);
        },
    };
    if ledger.mints.contains(&item_addr) {
        return Err(LoyaltyError::AlreadyInitialized);
    }
    let holding_addr = match derive_holding_address(&accounts.customer, &item_addr) {
        Some(hp) => hp.0,
        None => {
            return Err(LoyaltyError::AddressMismatch);
        },
    };
    match ledger.holdings.get(&holding_addr) {
        Some(acct) => {
            if !addr_eq(&acct.mint, &item_addr) {
                return Err(LoyaltyError::AddressMismatch);
            }
            if acct.amount.checked_add(1).is_none() {
                return Err(LoyaltyError::ArithmeticOverflow);
            }
        },
        None => {},
    }
    match ledger.create_mint(item_addr, coll_addr, 0) {
        Ok(()) => {},
        Err(_) => unreached(),
    }
    let created = match ledger.create_holding_if_absent(&accounts.customer, &item_addr) {
        Ok(h) => h,
        Err(_) => unreached(),
    };
    match ledger.mint_to(&item_addr, &created, 1, &cap) {
        Ok(()) => {},
        Err(_) => unreached(),
    }
    match ledger.register_metadata(&item_addr, name, symbol, uri, None) {
        Ok(()) => {},
        Err(_) => unreached(),
    }
    match ledger.mark_unique_supply(&item_addr, &cap) {
        Ok(()) => {},
        Err(_) => unreached(),
    }
    match ledger.claim_collection(&item_addr, &coll_addr) {
        Ok(()) => {},
        Err(_) => unreached(),
    }
    match ledger.verify_collection_membership(&item_addr, &coll_addr, &cap) {
        Ok(()) => {},
        Err(_) => unreached(),
    }
    proof {
        assert(ledger.mints@ =~= old(ledger).mints@.insert(item_addr@, ledger.mints@[item_addr@]));
        assert(ledger.holdings@ =~= old(ledger).holdings@.insert(
            holding_addr@,
            ledger.holdings@[holding_addr@],
        ));
        assert(ledger.metadata@ =~= old(ledger).metadata@.insert(
            item_addr@,
            ledger.metadata@[item_addr@],
        ));
    }
    Ok(())
}

} // verus!
