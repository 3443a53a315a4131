//! The values that the ledger stores, reports and returns.

use vstd::prelude::*;
use frame_support::BoundedVec;

verus! {

/// Identifier of an asset class. Identifiers are handed out in sequence,
/// starting at zero.
pub type UniqueAssetId = u128;

/// Identity of an account, as resolved by the host.
pub type AccountId = u64;

/// An amount of an asset.
pub type Balance = u128;

/// `frame_support::BoundedVec`, a vector whose length the type parameter `S`
/// bounds. The ledger stores such a value and hands it back; it never looks
/// inside one, so nothing is claimed of its contents.
#[verifier::external_type_specification]
#[verifier::external_body]
#[verifier::reject_recursive_types(T)]
#[verifier::reject_recursive_types(S)]
pub struct ExBoundedVec<T, S>(BoundedVec<T, S>);

/// What the registry records of one asset class.
#[verifier::reject_recursive_types(S)]
pub struct UniqueAssetDetails<S> {
    /// The account that minted the asset. It never changes.
    pub creator: AccountId,
    /// Descriptive bytes, bounded in length by `S`. They never change.
    pub metadata: BoundedVec<u8, S>,
    /// The total supply: the sum of all balances held in this asset.
    pub supply: Balance,
}

impl<S> UniqueAssetDetails<S> {
    /// A record with the given fields.
    pub fn new(creator: AccountId, metadata: BoundedVec<u8, S>, supply: Balance) -> (details: Self)
        ensures
            details == (UniqueAssetDetails { creator, metadata, supply }),
    {
        UniqueAssetDetails { creator, metadata, supply }
    }

    /// The account that minted the asset.
    pub fn creator(&self) -> (creator: AccountId)
        ensures
            creator == self.creator,
    {
        self.creator
    }

    /// The same record with another total supply.
    pub fn with_supply(self, supply: Balance) -> (details: Self)
        ensures
            details == (UniqueAssetDetails { supply, ..self }),
    {
        UniqueAssetDetails { creator: self.creator, metadata: self.metadata, supply }
    }
}

/// What an operation reports to the host when it succeeds.
#[derive(Clone, Copy, Debug, PartialEq, Eq, Structural)]
pub enum Event {
    /// A new asset class was created.
    Created { creator: AccountId, asset_id: UniqueAssetId },
    /// Part of an asset's supply was burned; `total_supply` is what is left.
    Burned { asset_id: UniqueAssetId, owner: AccountId, total_supply: Balance },
    /// `amount` of an asset moved from one account to another.
    Transferred { asset_id: UniqueAssetId, from: AccountId, to: AccountId, amount: Balance },
}

/// Why an operation was refused. A refused operation changes nothing.
#[derive(Clone, Copy, Debug, PartialEq, Eq, Structural)]
pub enum Error {
    /// No asset has this identifier.
    UnknownAssetId,
    /// The caller did not create this asset.
    NotOwned,
    /// An asset must be minted with a positive supply.
    InvalidSupply,
}

} // verus!
