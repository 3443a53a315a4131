//! The counter that hands out asset identifiers.

use vstd::prelude::*;
use crate::types::UniqueAssetId;

verus! {

/// The identifier that follows `nonce`. The counter stops at the largest
/// identifier instead of wrapping round.
pub open spec fn nonce_after(nonce: UniqueAssetId) -> UniqueAssetId {
    if nonce == UniqueAssetId::MAX {
        nonce
    } else {
        (nonce + 1) as UniqueAssetId
    }
}

/// The identifier that comes `count` steps after `nonce`.
pub open spec fn nonce_after_many(nonce: UniqueAssetId, count: nat) -> UniqueAssetId {
    if nonce + count > UniqueAssetId::MAX {
        UniqueAssetId::MAX
    } else {
        (nonce + count) as UniqueAssetId
    }
}

/// Hands out asset identifiers in sequence, starting at zero.
pub struct IdAllocator {
    nonce: UniqueAssetId,
}

impl View for IdAllocator {
    type V = UniqueAssetId;

    /// The identifier that the next call of `next_id` returns.
    closed spec fn view(&self) -> UniqueAssetId {
        self.nonce
    }
}

impl IdAllocator {
    /// An allocator that has handed out nothing yet.
    pub fn new() -> (allocator: Self)
        ensures
            allocator@ == 0,
    {
        IdAllocator { nonce: 0 }
    }

    /// An allocator that goes on from `nonce`.
    pub fn starting_at(nonce: UniqueAssetId) -> (allocator: Self)
        ensures
            allocator@ == nonce,
    {
        IdAllocator { nonce }
    }

    /// The identifier that the next call of `next_id` returns.
    pub fn nonce(&self) -> (nonce: UniqueAssetId)
        ensures
            nonce == self@,
    {
        self.nonce
    }

    /// Returns the current identifier and moves the counter on by one.
    pub fn next_id(&mut self) -> (id: UniqueAssetId)
        ensures
            id == old(self)@,
            final(self)@ == nonce_after(old(self)@),
    {
        let id: UniqueAssetId = self.nonce;
        self.nonce = id.saturating_add(1);
        id
    }
}

} // verus!
