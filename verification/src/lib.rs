//! A merchant loyalty ledger: merchants register a payment-collection
//! identity, configure reward and loyalty-discount rates, and issue
//! program-controlled assets (a reward-point balance asset and a
//! collection/item pair of loyalty badges) at deterministically derived
//! addresses.  Customers pay merchants and automatically receive reward
//! points, and may be issued a badge proving membership in a merchant's
//! loyalty collection.
//!
//! The heart of the crate is the deterministic-addressing and
//! authority-delegation model: every record and asset lives at an address
//! that any party can re-derive from public identifiers alone, and every
//! asset is controlled by the program through a derivation capability
//! rather than a stored secret.  The state of the ledger and of the
//! metadata registry is held in an explicit in-memory model, and each
//! exposed operation is a verified transition on that model: its contract
//! states exactly which inputs succeed, which error each rejected input
//! produces, and that a failed operation leaves the whole state unchanged.

pub mod addr;
pub mod create_collection_nft;
pub mod create_nft_in_collection;
pub mod derivation;
pub mod errors;
pub mod init_merchant;
pub mod init_reward_points;
pub mod layout;
pub mod ledger;
pub mod mint_reward_points;
pub mod rewards;
pub mod state;
pub mod table;
pub mod transaction;
pub mod update_loyalty_points;
pub mod update_reward_points;
