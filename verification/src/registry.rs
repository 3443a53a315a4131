//! The asset registry: the record of every asset class that was minted.

use std::collections::HashMap;
use vstd::prelude::*;
use frame_support::BoundedVec;
use crate::allocator::{nonce_after, IdAllocator};
use crate::types::{AccountId, Balance, UniqueAssetDetails, UniqueAssetId};

verus! {

/// The records of a registry, by identifier.
pub type Assets<S> = Map<UniqueAssetId, UniqueAssetDetails<S>>;

/// Whether `account` created the asset `asset_id`. An asset that is not
/// recorded was created by nobody.
pub open spec fn owned_by<S>(
    assets: Assets<S>,
    asset_id: UniqueAssetId,
    account: AccountId,
) -> bool {
    assets.contains_key(asset_id) && assets[asset_id].creator == account
}

/// The records after the total supply of `asset_id` was set to `supply`.
pub open spec fn with_supply<S>(
    assets: Assets<S>,
    asset_id: UniqueAssetId,
    supply: Balance,
) -> Assets<S> {
    assets.insert(asset_id, UniqueAssetDetails { supply, ..assets[asset_id] })
}

/// The store of asset records. A record is never removed, and its creator
/// and metadata never change.
#[verifier::reject_recursive_types(S)]
pub struct AssetRegistry<S> {
    records: HashMap<UniqueAssetId, UniqueAssetDetails<S>>,
}

impl<S> View for AssetRegistry<S> {
    type V = Assets<S>;

    closed spec fn view(&self) -> Assets<S> {
        self.records@
    }
}

impl<S> AssetRegistry<S> {
    /// A registry without records.
    pub fn new() -> (registry: Self)
        ensures
            registry@ == Assets::<S>::empty(),
    {
        AssetRegistry { records: HashMap::new() }
    }

    /// Takes the next identifier from `allocator` and records a new asset
    /// under it. The caller has checked that `supply` is positive.
    pub fn create(
        &mut self,
        allocator: &mut IdAllocator,
        creator: AccountId,
        metadata: BoundedVec<u8, S>,
        supply: Balance,
    ) -> (asset_id: UniqueAssetId)
        requires
            supply > 0,
        ensures
            asset_id == old(allocator)@,
            final(allocator)@ == nonce_after(old(allocator)@),
            final(self)@ == old(self)@.insert(
                asset_id,
                UniqueAssetDetails { creator, metadata, supply },
            ),
    {
        let asset_id: UniqueAssetId = allocator.next_id();
        self.records.insert(asset_id, UniqueAssetDetails::new(creator, metadata, supply));
        asset_id
    }

    /// The record of `asset_id`, if there is one.
    pub fn get(&self, asset_id: UniqueAssetId) -> (found: Option<&UniqueAssetDetails<S>>)
        ensures
            found is Some <==> self@.contains_key(asset_id),
            found is Some ==> *found->0 == self@[asset_id],
    {
        self.records.get(&asset_id)
    }

    /// Sets the total supply of an asset that is recorded.
    pub fn set_supply(&mut self, asset_id: UniqueAssetId, supply: Balance)
        requires
            old(self)@.contains_key(asset_id),
        ensures
            final(self)@ == with_supply(old(self)@, asset_id, supply),
    {
        match self.records.remove(&asset_id) {
            Some(details) => {
                self.records.insert(asset_id, details.with_supply(supply));
            },
            None => {},
        }
    }

    /// Whether `account` created the asset `asset_id`.
    pub fn is_owned_by(&self, asset_id: UniqueAssetId, account: AccountId) -> (owned: bool)
        ensures
            owned == owned_by(self@, asset_id, account),
    {
        match self.records.get(&asset_id) {
            Some(details) => details.creator == account,
            None => false,
        }
    }
}

} // verus!
