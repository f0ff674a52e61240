use vstd::prelude::*;
use crate::addr::Address;

verus! {

/// The per-merchant configuration record.  It lives at
/// `derive(Merchant, authority)`, is created once, is mutated only by its
/// owner, and is never destroyed.  The linked-asset fields hold the
/// all-zero address until the matching asset is initialized.
#[derive(Clone, Copy, Debug)]
pub struct MerchantState {
    pub authority: Address,
    pub payment_destination: Address,
    pub reward_points_mint: Address,
    pub reward_points_basis_points: u16,
    pub loyalty_collection_mint: Address,
    pub loyalty_discount_basis_points: u16,
}

impl MerchantState {
    /// Both rate fields always stay within one hundred percent.
    pub open spec fn wf(self) -> bool {
        &&& self.reward_points_basis_points <= 10000
        &&& self.loyalty_discount_basis_points <= 10000
    }
}

/// A balance asset.  For every asset the program issues, the owning
/// authority is the asset's own derived address, so that no private key
/// for it ever exists.
#[derive(Clone, Copy, Debug)]
pub struct MintState {
    /// The only identity allowed to issue new units.
    pub authority: Address,
    /// Decimal places of one unit.
    pub decimals: u8,
    /// Units issued so far.
    pub supply: u64,
    /// Whether a uniqueness marker caps the total supply at one.
    pub unique: bool,
}

/// A per-owner, per-asset holding account for units of one asset.
#[derive(Clone, Copy, Debug)]
pub struct TokenAccountState {
    pub owner: Address,
    pub mint: Address,
    pub amount: u64,
}

/// Where an asset's metadata record stands in the collection-membership
/// protocol.
#[derive(Clone, Copy, Debug, PartialEq, Eq, Structural)]
pub enum CollectionStatus {
    /// No collection is recorded for the asset.
    Unset,
    /// A collection is recorded but membership is not yet verified.
    PendingVerification,
    /// Membership in the recorded collection is verified.  Terminal.
    Verified,
}

/// A creator claim on a metadata record, unverified until the creator
/// itself signs it.
#[derive(Clone, Copy, Debug)]
pub struct CreatorRecord {
    pub address: Address,
    pub verified: bool,
}

/// The registry's descriptive record for one asset, keyed by the asset's
/// address.
#[derive(Debug)]
pub struct MetadataState {
    pub name: String,
    pub symbol: String,
    pub uri: String,
    /// The creator claim, if the registering party made one.
    pub creator: Option<CreatorRecord>,
    /// The collection the asset claims membership in, if any.
    pub collection: Option<Address>,
    /// How far that membership claim has been verified.
    pub collection_status: CollectionStatus,
}

impl MetadataState {
    /// A collection status other than `Unset` always refers to a recorded
    /// collection.
    pub open spec fn wf(self) -> bool {
        self.collection_status != CollectionStatus::Unset ==> self.collection is Some
    }
}

} // verus!
