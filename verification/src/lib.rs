//! A ledger of unique assets.
//!
//! Every asset class has an identifier, a creator, a bounded piece of
//! descriptive metadata and a total supply. Accounts hold balances of each
//! asset. Three operations change the ledger: minting a new asset, burning
//! part of an asset's supply, and transferring balance to another account.
//!
//! The ledger keeps the total supply of every asset equal to the sum of the
//! balances held in it, and hands out identifiers in increasing order. Both
//! facts are proved in [`laws`].

pub mod types;
pub mod allocator;
pub mod balances;
pub mod registry;
pub mod model;
pub mod laws;
pub mod ledger;

pub use allocator::IdAllocator;
pub use balances::BalanceLedger;
pub use ledger::Pallet;
pub use model::{Call, LedgerState};
pub use registry::AssetRegistry;
pub use types::{AccountId, Balance, Error, Event, UniqueAssetDetails, UniqueAssetId};
