use vstd::prelude::*;
use crate::addr::{addr_eq, Address};
use crate::derivation::{check_path, path_authorizes, DerivationPath};
use crate::errors::LoyaltyError;
use crate::state::{
    CollectionStatus, CreatorRecord, MerchantState, MetadataState, MintState, TokenAccountState,
};
use crate::table::Table;

verus! {

/// The model of everything an operation can read or write: the host's
/// account storage (merchant records and holding accounts), the asset
/// ledger (mints) and the metadata registry, together with the two
/// configuration values injected once at bootstrap.  The host executes
/// each operation as a single all-or-nothing unit; accordingly every
/// operation on this model either commits all its effects or leaves it
/// exactly as it was.
pub struct Ledger {
    /// The deriving program's own address: the namespace under which
    /// every record and asset address is derived.
    pub program: Address,
    /// The payment-medium asset, injected at bootstrap.
    pub payment_mint: Address,
    pub merchants: Table<MerchantState>,
    pub mints: Table<MintState>,
    pub holdings: Table<TokenAccountState>,
    pub metadata: Table<MetadataState>,
}

/// The two bootstrap configuration values never change.
pub open spec fn same_config(pre: Ledger, post: Ledger) -> bool {
    &&& post.program == pre.program
    &&& post.payment_mint == pre.payment_mint
}

/// No observable difference at all.
pub open spec fn unchanged(pre: Ledger, post: Ledger) -> bool {
    &&& same_config(pre, post)
    &&& post.merchants@ == pre.merchants@
    &&& post.mints@ == pre.mints@
    &&& post.holdings@ == pre.holdings@
    &&& post.metadata@ == pre.metadata@
}

impl Ledger {
    pub open spec fn wf(self) -> bool {
        &&& self.merchants.wf()
        &&& self.mints.wf()
        &&& self.holdings.wf()
        &&& self.metadata.wf()
        &&& forall|k: Seq<u8>| #[trigger]
            self.merchants@.contains_key(k) ==> self.merchants@[k].wf()
        &&& forall|k: Seq<u8>| #[trigger]
            self.metadata@.contains_key(k) ==> self.metadata@[k].wf()
        &&& forall|k: Seq<u8>| #[trigger]
            self.metadata@.contains_key(k) ==> self.mints@.contains_key(k)
    }

    /// Bootstraps an empty ledger around a deriving program and a
    /// payment medium.  The payment asset is recorded with the all-zero
    /// owning authority: the program itself can never issue units of it.
    pub fn new(program: Address, payment_mint: Address) -> (r: Ledger)
        ensures
            r.wf(),
            r.program == program,
            r.payment_mint == payment_mint,
            r.merchants@ == Map::<Seq<u8>, MerchantState>::empty(),
            r.holdings@ == Map::<Seq<u8>, TokenAccountState>::empty(),
            r.metadata@ == Map::<Seq<u8>, MetadataState>::empty(),
            r.mints@.dom() == set![payment_mint@],
            r.mints@[payment_mint@].authority@ == crate::addr::zero_addr(),
            r.mints@[payment_mint@].decimals == 6,
            r.mints@[payment_mint@].supply == 0,
            r.mints@[payment_mint@].unique == false,
    {
        let mut mints = Table::<MintState>::new();
        mints.insert(
            payment_mint,
            MintState { authority: crate::addr::zero_address(), decimals: 6, supply: 0, unique: false },
        );
        Ledger {
            program,
            payment_mint,
            merchants: Table::new(),
            mints,
            holdings: Table::new(),
            metadata: Table::new(),
        }
    }

    /// Models an external deposit of an asset into an owner's holding
    /// account, as the environment outside the program funds customers
    /// with the payment medium: creates the canonical holding account if
    /// absent and credits it.  Fails with `AddressMismatch` when the
    /// owner and asset admit no canonical derivation, and with
    /// `ArithmeticOverflow` when the credited balance would not fit.
    pub fn deposit(&mut self, owner: &Address, asset: &Address, amount: u64) -> (r: Result<
        Address,
        LoyaltyError,
    >)
        requires
            old(self).wf(),
        ensures
            final(self).wf(),
            same_config(*old(self), *final(self)),
            final(self).merchants@ == old(self).merchants@,
            final(self).mints@ == old(self).mints@,
            final(self).metadata@ == old(self).metadata@,
            match r {
                Ok(h) => {
                    &&& crate::derivation::holding_derivation(owner@, asset@) matches Some(p)
                        && p.0 == h@
                    &&& {
                        let prior: u64 = if old(self).holdings@.contains_key(h@) {
                            old(self).holdings@[h@].amount
                        } else {
                            0
                        };
                        let prior_owner = if old(self).holdings@.contains_key(h@) {
                            old(self).holdings@[h@].owner
                        } else {
                            *owner
                        };
                        let prior_mint = if old(self).holdings@.contains_key(h@) {
                            old(self).holdings@[h@].mint
                        } else {
                            *asset
                        };
                        &&& prior + amount <= u64::MAX
                        &&& final(self).holdings@ == old(self).holdings@.insert(
                            h@,
                            TokenAccountState {
                                owner: prior_owner,
                                mint: prior_mint,
                                amount: (prior + amount) as u64,
                            },
                        )
                    }
                },
                Err(e) => {
                    &&& unchanged(*old(self), *final(self))
                    &&& (e == LoyaltyError::AddressMismatch || e
                        == LoyaltyError::ArithmeticOverflow)
                    &&& (e == LoyaltyError::AddressMismatch <==> crate::derivation::holding_derivation(
                        owner@,
                        asset@,
                    ) is None)
                },
            },
    {
        let h = match crate::derivation::derive_holding_address(owner, asset) {
            Some(p) => p.0,
            None => {
                return Err(LoyaltyError::AddressMismatch);
            },
        };
        let (prior_owner, prior_mint, prior_amount): (Address, Address, u64) =
            match self.holdings.get(&h) {
            Some(acct) => (acct.owner, acct.mint, acct.amount),
            None => (*owner, *asset, 0),
        };
        let new_amount = match prior_amount.checked_add(amount) {
            Some(n) => n,
            None => {
                return Err(LoyaltyError::ArithmeticOverflow);
            },
        };
        self.holdings.set(
            h,
            TokenAccountState { owner: prior_owner, mint: prior_mint, amount: new_amount },
        );
        Ok(h)
    }

    /// Creates a balance asset at an address that must not be populated
    /// yet, owned by the given authority.  `createAsset` of the ledger
    /// service; a supply cap is added separately by `mark_unique_supply`.
    pub fn create_mint(&mut self, asset: Address, authority: Address, decimals: u8) -> (r: Result<
        (),
        LoyaltyError,
    >)
        requires
            old(self).wf(),
        ensures
            final(self).wf(),
            same_config(*old(self), *final(self)),
            final(self).merchants@ == old(self).merchants@,
            final(self).holdings@ == old(self).holdings@,
            final(self).metadata@ == old(self).metadata@,
            old(self).mints@.contains_key(asset@) ==> r == Err::<(), LoyaltyError>(
                LoyaltyError::AlreadyInitialized,
            ) && unchanged(*old(self), *final(self)),
            !old(self).mints@.contains_key(asset@) ==> r == Ok::<(), LoyaltyError>(())
                && final(self).mints@ == old(self).mints@.insert(
                asset@,
                MintState { authority, decimals, supply: 0, unique: false },
            ),
    {
        if self.mints.contains(&asset) {
            return Err(LoyaltyError::AlreadyInitialized);
        }
        self.mints.insert(asset, MintState { authority, decimals, supply: 0, unique: false });
        Ok(())
    }

    /// Creates the canonical holding account for an owner and an asset if
    /// it does not exist yet, and returns its address.
    /// `createHoldingAccountIfAbsent` of the ledger service.
    pub fn create_holding_if_absent(&mut self, owner: &Address, asset: &Address) -> (r: Result<
        Address,
        LoyaltyError,
    >)
        requires
            old(self).wf(),
        ensures
            final(self).wf(),
            same_config(*old(self), *final(self)),
            final(self).merchants@ == old(self).merchants@,
            final(self).mints@ == old(self).mints@,
            final(self).metadata@ == old(self).metadata@,
            match r {
                Ok(h) => {
                    &&& crate::derivation::holding_derivation(owner@, asset@) matches Some(p)
                        && p.0 == h@
                    &&& final(self).holdings@ == if old(self).holdings@.contains_key(h@) {
                        old(self).holdings@
                    } else {
                        old(self).holdings@.insert(
                            h@,
                            TokenAccountState { owner: *owner, mint: *asset, amount: 0 },
                        )
                    }
                },
                Err(e) => {
                    &&& unchanged(*old(self), *final(self))
                    &&& e == LoyaltyError::AddressMismatch
                    &&& crate::derivation::holding_derivation(owner@, asset@) is None
                },
            },
    {
        let h = match crate::derivation::derive_holding_address(owner, asset) {
            Some(p) => p.0,
            None => {
                return Err(LoyaltyError::AddressMismatch);
            },
        };
        if !self.holdings.contains(&h) {
            self.holdings.insert(h, TokenAccountState { owner: *owner, mint: *asset, amount: 0 });
        }
        Ok(h)
    }

    /// Moves units between two holding accounts, authorized by the paying
    /// account's owner.  `transfer` of the ledger service.  The exact
    /// outcome is `transfer_check`; on any error nothing changes.
    pub fn transfer(&mut self, from: &Address, to: &Address, caller: &Address, amount: u64) -> (r:
        Result<(), LoyaltyError>)
        requires
            old(self).wf(),
        ensures
            final(self).wf(),
            same_config(*old(self), *final(self)),
            final(self).merchants@ == old(self).merchants@,
            final(self).mints@ == old(self).mints@,
            final(self).metadata@ == old(self).metadata@,
            r == transfer_check(*old(self), from@, to@, caller@, amount),
            r is Ok ==> final(self).holdings@ == transfer_apply(
                old(self).holdings@,
                from@,
                to@,
                amount,
            ),
            r is Err ==> final(self).holdings@ == old(self).holdings@,
    {
        let from_acct = match self.holdings.get(from) {
            Some(a) => *a,
            None => {
                return Err(LoyaltyError::NotFound);
            },
        };
        if !addr_eq(&from_acct.owner, caller) {
            return Err(LoyaltyError::AuthorizationError);
        }
        let to_acct = match self.holdings.get(to) {
            Some(a) => *a,
            None => {
                return Err(LoyaltyError::NotFound);
            },
        };
        if !addr_eq(&from_acct.mint, &to_acct.mint) {
            return Err(LoyaltyError::AddressMismatch);
        }
        if from_acct.amount < amount {
            return Err(LoyaltyError::InsufficientBalance);
        }
        if addr_eq(from, to) {
            return Ok(());
        }
        let credited = match to_acct.amount.checked_add(amount) {
            Some(n) => n,
            None => {
                return Err(LoyaltyError::ArithmeticOverflow);
            },
        };
        self.holdings.set(
            *from,
            TokenAccountState {
                owner: from_acct.owner,
                mint: from_acct.mint,
                amount: from_acct.amount - amount,
            },
        );
        self.holdings.set(
            *to,
            TokenAccountState { owner: to_acct.owner, mint: to_acct.mint, amount: credited },
        );
        Ok(())
    }

    /// Issues new units of an asset into a holding account, authorized by
    /// the asset's derivation capability.  `mint` of the ledger service.
    /// The exact outcome is `mint_check`; on any error nothing changes.
    pub fn mint_to(
        &mut self,
        asset: &Address,
        dest: &Address,
        amount: u64,
        cap: &DerivationPath,
    ) -> (r: Result<(), LoyaltyError>)
        requires
            old(self).wf(),
        ensures
            final(self).wf(),
            same_config(*old(self), *final(self)),
            final(self).merchants@ == old(self).merchants@,
            final(self).metadata@ == old(self).metadata@,
            r == mint_check(*old(self), asset@, dest@, amount, *cap),
            r is Ok ==> {
                let m = old(self).mints@[asset@];
                let d = old(self).holdings@[dest@];
                &&& final(self).mints@ == old(self).mints@.insert(
                    asset@,
                    MintState {
                        authority: m.authority,
                        decimals: m.decimals,
                        supply: (m.supply + amount) as u64,
                        unique: m.unique,
                    },
                )
                &&& final(self).holdings@ == old(self).holdings@.insert(
                    dest@,
                    TokenAccountState {
                        owner: d.owner,
                        mint: d.mint,
                        amount: (d.amount + amount) as u64,
                    },
                )
            },
            r is Err ==> final(self).mints@ == old(self).mints@ && final(self).holdings@ == old(
                self,
            ).holdings@,
    {
        let mint = match self.mints.get(asset) {
            Some(m) => *m,
            None => {
                return Err(LoyaltyError::NotFound);
            },
        };
        if !check_path(cap, &mint.authority, &self.program) {
            return Err(LoyaltyError::AuthorizationError);
        }
        let dest_acct = match self.holdings.get(dest) {
            Some(a) => *a,
            None => {
                return Err(LoyaltyError::NotFound);
            },
        };
        if !addr_eq(&dest_acct.mint, asset) {
            return Err(LoyaltyError::AddressMismatch);
        }
        let new_supply = match mint.supply.checked_add(amount) {
            Some(n) => n,
            None => {
                return Err(LoyaltyError::ArithmeticOverflow);
            },
        };
        if mint.unique && new_supply > 1 {
            return Err(LoyaltyError::AlreadyInitialized);
        }
        let credited = match dest_acct.amount.checked_add(amount) {
            Some(n) => n,
            None => {
                return Err(LoyaltyError::ArithmeticOverflow);
            },
        };
        self.mints.set(
            *asset,
            MintState {
                authority: mint.authority,
                decimals: mint.decimals,
                supply: new_supply,
                unique: mint.unique,
            },
        );
        self.holdings.set(
            *dest,
            TokenAccountState {
                owner: dest_acct.owner,
                mint: dest_acct.mint,
                amount: credited,
            },
        );
        Ok(())
    }
}

/// The exact outcome of a transfer, checked in order: the paying account
/// must exist and belong to the caller, the receiving account must exist
/// and hold the same asset, the paying balance must cover the amount, and
/// the credited balance must fit the numeric range.
pub open spec fn transfer_check(
    pre: Ledger,
    from: Seq<u8>,
    to: Seq<u8>,
    caller: Seq<u8>,
    amount: u64,
) -> Result<(), LoyaltyError> {
    if !pre.holdings@.contains_key(from) {
        Err(LoyaltyError::NotFound)
    } else if pre.holdings@[from].owner@ != caller {
        Err(LoyaltyError::AuthorizationError)
    } else if !pre.holdings@.contains_key(to) {
        Err(LoyaltyError::NotFound)
    } else if pre.holdings@[from].mint@ != pre.holdings@[to].mint@ {
        Err(LoyaltyError::AddressMismatch)
    } else if pre.holdings@[from].amount < amount {
        Err(LoyaltyError::InsufficientBalance)
    } else if from != to && pre.holdings@[to].amount + amount > u64::MAX {
        Err(LoyaltyError::ArithmeticOverflow)
    } else {
        Ok(())
    }
}

/// Holding accounts after a successful transfer: a debit then a credit,
/// the identity when an account pays itself.
pub open spec fn transfer_apply(
    h: Map<Seq<u8>, TokenAccountState>,
    from: Seq<u8>,
    to: Seq<u8>,
    amount: u64,
) -> Map<Seq<u8>, TokenAccountState> {
    if from == to {
        h
    } else {
        let fa = h[from];
        let ta = h[to];
        h.insert(
            from,
            TokenAccountState {
                owner: fa.owner,
                mint: fa.mint,
                amount: (fa.amount - amount) as u64,
            },
        ).insert(
            to,
            TokenAccountState { owner: ta.owner, mint: ta.mint, amount: (ta.amount + amount) as u64 },
        )
    }
}

impl Ledger {
    /// Records descriptive metadata for an asset, exactly once.
    /// `registerMetadata` of the metadata registry: the asset must exist
    /// (`NotFound`), its metadata record must not (`AlreadyInitialized`);
    /// the record starts with the creator claim unverified as given and
    /// no collection membership.
    pub fn register_metadata(
        &mut self,
        asset: &Address,
        name: String,
        symbol: String,
        uri: String,
        creator: Option<CreatorRecord>,
    ) -> (r: Result<(), LoyaltyError>)
        requires
            old(self).wf(),
        ensures
            final(self).wf(),
            same_config(*old(self), *final(self)),
            final(self).merchants@ == old(self).merchants@,
            final(self).mints@ == old(self).mints@,
            final(self).holdings@ == old(self).holdings@,
            !old(self).mints@.contains_key(asset@) ==> r == Err::<(), LoyaltyError>(
                LoyaltyError::NotFound,
            ) && unchanged(*old(self), *final(self)),
            old(self).mints@.contains_key(asset@) && old(self).metadata@.contains_key(asset@)
                ==> r == Err::<(), LoyaltyError>(LoyaltyError::AlreadyInitialized) && unchanged(
                *old(self),
                *final(self),
            ),
            old(self).mints@.contains_key(asset@) && !old(self).metadata@.contains_key(asset@)
                ==> r == Ok::<(), LoyaltyError>(()) && final(self).metadata@ == old(
                self,
            ).metadata@.insert(
                asset@,
                MetadataState {
                    name,
                    symbol,
                    uri,
                    creator,
                    collection: None,
                    collection_status: CollectionStatus::Unset,
                },
            ),
    {
        if !self.mints.contains(asset) {
            return Err(LoyaltyError::NotFound);
        }
        if self.metadata.contains(asset) {
            return Err(LoyaltyError::AlreadyInitialized);
        }
        self.metadata.insert(
            *asset,
            MetadataState {
                name,
                symbol,
                uri,
                creator,
                collection: None,
                collection_status: CollectionStatus::Unset,
            },
        );
        Ok(())
    }

    /// Places the uniqueness marker on an asset, capping its total supply
    /// at one unit for good.  `markUniqueSupply` of the metadata
    /// registry, authorized by the asset's derivation capability.  The
    /// asset must exist (`NotFound`), the capability must authorize its
    /// owning authority (`AuthorizationError`), the marker must not be
    /// placed yet (`AlreadyInitialized`), and the supply must not already
    /// exceed one (`ArithmeticOverflow`).
    pub fn mark_unique_supply(&mut self, asset: &Address, cap: &DerivationPath) -> (r: Result<
        (),
        LoyaltyError,
    >)
        requires
            old(self).wf(),
        ensures
            final(self).wf(),
            same_config(*old(self), *final(self)),
            final(self).merchants@ == old(self).merchants@,
            final(self).holdings@ == old(self).holdings@,
            final(self).metadata@ == old(self).metadata@,
            r == mark_unique_check(*old(self), asset@, *cap),
            r is Ok ==> {
                let m = old(self).mints@[asset@];
                final(self).mints@ == old(self).mints@.insert(
                    asset@,
                    MintState {
                        authority: m.authority,
                        decimals: m.decimals,
                        supply: m.supply,
                        unique: true,
                    },
                )
            },
            r is Err ==> final(self).mints@ == old(self).mints@,
    {
        let mint = match self.mints.get(asset) {
            Some(m) => *m,
            None => {
                return Err(LoyaltyError::NotFound);
            },
        };
        if !check_path(cap, &mint.authority, &self.program) {
            return Err(LoyaltyError::AuthorizationError);
        }
        if mint.unique {
            return Err(LoyaltyError::AlreadyInitialized);
        }
        if mint.supply > 1 {
            return Err(LoyaltyError::ArithmeticOverflow);
        }
        self.mints.set(
            *asset,
            MintState {
                authority: mint.authority,
                decimals: mint.decimals,
                supply: mint.supply,
                unique: true,
            },
        );
        Ok(())
    }

    /// Marks an asset's creator claim as verified.  `verifyCreator` of
    /// the metadata registry, authorized by whichever signing identity
    /// invoked the operation: it must be the claimed creator itself.  The
    /// metadata record and a claim naming this creator must exist
    /// (`NotFound`); a caller other than the creator fails
    /// (`AuthorizationError`).
    pub fn verify_creator(&mut self, asset: &Address, creator: &Address, caller: &Address) -> (r:
        Result<(), LoyaltyError>)
        requires
            old(self).wf(),
        ensures
            final(self).wf(),
            same_config(*old(self), *final(self)),
            final(self).merchants@ == old(self).merchants@,
            final(self).mints@ == old(self).mints@,
            final(self).holdings@ == old(self).holdings@,
            r == verify_creator_check(*old(self), asset@, creator@, caller@),
            r is Ok ==> {
                let md = old(self).metadata@[asset@];
                final(self).metadata@ == old(self).metadata@.insert(
                    asset@,
                    MetadataState {
                        name: md.name,
                        symbol: md.symbol,
                        uri: md.uri,
                        creator: Some(CreatorRecord { address: *creator, verified: true }),
                        collection: md.collection,
                        collection_status: md.collection_status,
                    },
                )
            },
            r is Err ==> final(self).metadata@ == old(self).metadata@,
    {
        let claimed = match self.metadata.get(asset) {
            Some(md) => md.creator,
            None => {
                return Err(LoyaltyError::NotFound);
            },
        };
        let claim = match claimed {
            Some(c) => c,
            None => {
                return Err(LoyaltyError::NotFound);
            },
        };
        if !addr_eq(&claim.address, creator) {
            return Err(LoyaltyError::NotFound);
        }
        if !addr_eq(caller, creator) {
            return Err(LoyaltyError::AuthorizationError);
        }
        let md = match self.metadata.remove(asset) {
            Some(m) => m,
            None => unreached(),
        };
        self.metadata.insert(
            *asset,
            MetadataState {
                name: md.name,
                symbol: md.symbol,
                uri: md.uri,
                creator: Some(CreatorRecord { address: *creator, verified: true }),
                collection: md.collection,
                collection_status: md.collection_status,
            },
        );
        proof {
            assert(self.metadata@ =~= old(self).metadata@.insert(asset@, self.metadata@[asset@]));
        }
        Ok(())
    }
}

impl Ledger {
    /// Records an item's claim of membership in a collection, moving its
    /// metadata from `Unset` to `PendingVerification`.  The item's
    /// metadata record must exist (`NotFound`) and must not carry a
    /// claim yet (`AlreadyInitialized`).
    pub fn claim_collection(&mut self, item: &Address, collection: &Address) -> (r: Result<
        (),
        LoyaltyError,
    >)
        requires
            old(self).wf(),
        ensures
            final(self).wf(),
            same_config(*old(self), *final(self)),
            final(self).merchants@ == old(self).merchants@,
            final(self).mints@ == old(self).mints@,
            final(self).holdings@ == old(self).holdings@,
            r == claim_collection_check(*old(self), item@),
            r is Ok ==> {
                let md = old(self).metadata@[item@];
                final(self).metadata@ == old(self).metadata@.insert(
                    item@,
                    MetadataState {
                        name: md.name,
                        symbol: md.symbol,
                        uri: md.uri,
                        creator: md.creator,
                        collection: Some(*collection),
                        collection_status: CollectionStatus::PendingVerification,
                    },
                )
            },
            r is Err ==> final(self).metadata@ == old(self).metadata@,
    {
        let status = match self.metadata.get(item) {
            Some(md) => md.collection_status,
            None => {
                return Err(LoyaltyError::NotFound);
            },
        };
        if status != CollectionStatus::Unset {
            return Err(LoyaltyError::AlreadyInitialized);
        }
        let md = match self.metadata.remove(item) {
            Some(m) => m,
            None => unreached(),
        };
        self.metadata.insert(
            *item,
            MetadataState {
                name: md.name,
                symbol: md.symbol,
                uri: md.uri,
                creator: md.creator,
                collection: Some(*collection),
                collection_status: CollectionStatus::PendingVerification,
            },
        );
        proof {
            assert(self.metadata@ =~= old(self).metadata@.insert(item@, self.metadata@[item@]));
        }
        Ok(())
    }

    /// Verifies an item's pending membership claim against the
    /// collection's metadata and uniqueness marker, authorized by the
    /// collection asset's derivation capability; success moves the item
    /// from `PendingVerification` to the terminal `Verified`.
    /// `verifyCollectionMembership` of the metadata registry.
    pub fn verify_collection_membership(
        &mut self,
        item: &Address,
        collection: &Address,
        cap: &DerivationPath,
    ) -> (r: Result<(), LoyaltyError>)
        requires
            old(self).wf(),
        ensures
            final(self).wf(),
            same_config(*old(self), *final(self)),
            final(self).merchants@ == old(self).merchants@,
            final(self).mints@ == old(self).mints@,
            final(self).holdings@ == old(self).holdings@,
            r == verify_collection_check(*old(self), item@, collection@, *cap),
            r is Ok ==> {
                let md = old(self).metadata@[item@];
                final(self).metadata@ == old(self).metadata@.insert(
                    item@,
                    MetadataState {
                        name: md.name,
                        symbol: md.symbol,
                        uri: md.uri,
                        creator: md.creator,
                        collection: Some(*collection),
                        collection_status: CollectionStatus::Verified,
                    },
                )
            },
            r is Err ==> final(self).metadata@ == old(self).metadata@,
    {
        let (item_collection, item_status) = match self.metadata.get(item) {
            Some(md) => (md.collection, md.collection_status),
            None => {
                return Err(LoyaltyError::NotFound);
            },
        };
        let claimed = match item_collection {
            Some(c) => c,
            None => {
                return Err(LoyaltyError::AddressMismatch);
            },
        };
        if !addr_eq(&claimed, collection) {
            return Err(LoyaltyError::AddressMismatch);
        }
        if item_status == CollectionStatus::Verified {
            return Err(LoyaltyError::AlreadyInitialized);
        }
        if !self.metadata.contains(collection) {
            return Err(LoyaltyError::NotFound);
        }
        let coll_mint = match self.mints.get(collection) {
            Some(m) => *m,
            None => {
                return Err(LoyaltyError::NotFound);
            },
        };
        if !coll_mint.unique {
            return Err(LoyaltyError::NotFound);
        }
        if !check_path(cap, &coll_mint.authority, &self.program) {
            return Err(LoyaltyError::AuthorizationError);
        }
        let md = match self.metadata.remove(item) {
            Some(m) => m,
            None => unreached(),
        };
        self.metadata.insert(
            *item,
            MetadataState {
                name: md.name,
                symbol: md.symbol,
                uri: md.uri,
                creator: md.creator,
                collection: Some(*collection),
                collection_status: CollectionStatus::Verified,
            },
        );
        proof {
            assert(self.metadata@ =~= old(self).metadata@.insert(item@, self.metadata@[item@]));
        }
        Ok(())
    }
}

/// Resolution of a caller-supplied merchant address against its record
/// and its canonical derivation.  Ownership comes first: a record that
/// exists but names another owner than the given authority fails with
/// `AuthorizationError`, whatever address the caller derived it from.
/// An owned record still fails with `AddressMismatch` when the supplied
/// address is not the canonical derivation for that authority.  Where no
/// record exists, the canonical derivation fails with `NotFound` and any
/// other address with `AddressMismatch`.
pub open spec fn merchant_check(pre: Ledger, authority: Seq<u8>, merchant: Seq<u8>) -> Result<
    MerchantState,
    LoyaltyError,
> {
    let canonical = crate::derivation::derivation_of(
        crate::derivation::SeedTag::Merchant,
        seq![authority],
        pre.program@,
    ) matches Some(p) && p.0 == merchant;
    if pre.merchants@.contains_key(merchant) {
        if pre.merchants@[merchant].authority@ != authority {
            Err(LoyaltyError::AuthorizationError)
        } else if !canonical {
            Err(LoyaltyError::AddressMismatch)
        } else {
            Ok(pre.merchants@[merchant])
        }
    } else {
        if !canonical {
            Err(LoyaltyError::AddressMismatch)
        } else {
            Err(LoyaltyError::NotFound)
        }
    }
}

impl Ledger {
    /// Looks a merchant record up by a caller-supplied address, holding
    /// the record's owner against the named authority first and the
    /// address against its canonical derivation second.
    pub fn resolve_merchant(&self, authority: &Address, merchant: &Address) -> (r: Result<
        MerchantState,
        LoyaltyError,
    >)
        requires
            self.wf(),
        ensures
            r == merchant_check(*self, authority@, merchant@),
            r matches Ok(m) ==> m.wf(),
    {
        let record = match self.merchants.get(merchant) {
            Some(m) => Some(*m),
            None => None,
        };
        if let Some(m) = &record {
            if !addr_eq(&m.authority, authority) {
                return Err(LoyaltyError::AuthorizationError);
            }
        }
        let mut parents: Vec<Address> = Vec::new();
        parents.push(*authority);
        proof {
            assert(crate::derivation::addrs_view(parents@) =~= seq![authority@]);
        }
        let canonical = match crate::derivation::derive_address(
            crate::derivation::SeedTag::Merchant,
            &parents,
            &self.program,
        ) {
            Some(p) => Some(p.0),
            None => None,
        };
        let matches_canonical = match &canonical {
            Some(c) => addr_eq(c, merchant),
            None => false,
        };
        if !matches_canonical {
            return Err(LoyaltyError::AddressMismatch);
        }
        match record {
            Some(m) => Ok(m),
            None => Err(LoyaltyError::NotFound),
        }
    }
}

/// The exact outcome of recording a membership claim.
pub open spec fn claim_collection_check(pre: Ledger, item: Seq<u8>) -> Result<(), LoyaltyError> {
    if !pre.metadata@.contains_key(item) {
        Err(LoyaltyError::NotFound)
    } else if pre.metadata@[item].collection_status != CollectionStatus::Unset {
        Err(LoyaltyError::AlreadyInitialized)
    } else {
        Ok(())
    }
}

/// The exact outcome of membership verification, checked in order: the
/// item's record must exist and claim exactly this collection, must not
/// be verified already, the collection's record, asset and uniqueness
/// marker must exist, and the capability must authorize the collection
/// asset's owning authority.
pub open spec fn verify_collection_check(
    pre: Ledger,
    item: Seq<u8>,
    collection: Seq<u8>,
    cap: DerivationPath,
) -> Result<(), LoyaltyError> {
    if !pre.metadata@.contains_key(item) {
        Err(LoyaltyError::NotFound)
    } else if !(pre.metadata@[item].collection matches Some(c) && c@ == collection) {
        Err(LoyaltyError::AddressMismatch)
    } else if pre.metadata@[item].collection_status == CollectionStatus::Verified {
        Err(LoyaltyError::AlreadyInitialized)
    } else if !pre.metadata@.contains_key(collection) {
        Err(LoyaltyError::NotFound)
    } else if !pre.mints@.contains_key(collection) {
        Err(LoyaltyError::NotFound)
    } else if !pre.mints@[collection].unique {
        Err(LoyaltyError::NotFound)
    } else if !path_authorizes(cap, pre.mints@[collection].authority@, pre.program@) {
        Err(LoyaltyError::AuthorizationError)
    } else {
        Ok(())
    }
}

/// The exact outcome of placing the uniqueness marker.
pub open spec fn mark_unique_check(pre: Ledger, asset: Seq<u8>, cap: DerivationPath) -> Result<
    (),
    LoyaltyError,
> {
    if !pre.mints@.contains_key(asset) {
        Err(LoyaltyError::NotFound)
    } else if !path_authorizes(cap, pre.mints@[asset].authority@, pre.program@) {
        Err(LoyaltyError::AuthorizationError)
    } else if pre.mints@[asset].unique {
        Err(LoyaltyError::AlreadyInitialized)
    } else if pre.mints@[asset].supply > 1 {
        Err(LoyaltyError::ArithmeticOverflow)
    } else {
        Ok(())
    }
}

/// The exact outcome of verifying a creator claim.
pub open spec fn verify_creator_check(
    pre: Ledger,
    asset: Seq<u8>,
    creator: Seq<u8>,
    caller: Seq<u8>,
) -> Result<(), LoyaltyError> {
    if !pre.metadata@.contains_key(asset) {
        Err(LoyaltyError::NotFound)
    } else if !(pre.metadata@[asset].creator matches Some(c) && c.address@ == creator) {
        Err(LoyaltyError::NotFound)
    } else if caller != creator {
        Err(LoyaltyError::AuthorizationError)
    } else {
        Ok(())
    }
}

/// The exact outcome of minting, checked in order: the asset must exist,
/// the capability must authorize its owning authority, the destination
/// must exist and hold that asset, the new supply must fit the range and
/// respect a uniqueness marker, and the credited balance must fit.
pub open spec fn mint_check(
    pre: Ledger,
    asset: Seq<u8>,
    dest: Seq<u8>,
    amount: u64,
    cap: DerivationPath,
) -> Result<(), LoyaltyError> {
    if !pre.mints@.contains_key(asset) {
        Err(LoyaltyError::NotFound)
    } else if !path_authorizes(cap, pre.mints@[asset].authority@, pre.program@) {
        Err(LoyaltyError::AuthorizationError)
    } else if !pre.holdings@.contains_key(dest) {
        Err(LoyaltyError::NotFound)
    } else if pre.holdings@[dest].mint@ != asset {
        Err(LoyaltyError::AddressMismatch)
    } else if pre.mints@[asset].supply + amount > u64::MAX {
        Err(LoyaltyError::ArithmeticOverflow)
    } else if pre.mints@[asset].unique && pre.mints@[asset].supply + amount > 1 {
        Err(LoyaltyError::AlreadyInitialized)
    } else if pre.holdings@[dest].amount + amount > u64::MAX {
        Err(LoyaltyError::ArithmeticOverflow)
    } else {
        Ok(())
    }
}

} // verus!
