//! The ledger and its three operations: mint, burn and transfer.
//!
//! An operation first checks whether it may go ahead, and changes the ledger
//! only then: one that is refused leaves everything as it was. One that
//! goes ahead returns the event that the host is to record.

use vstd::prelude::*;
use frame_support::BoundedVec;
use crate::allocator::IdAllocator;
use crate::balances::BalanceLedger;
use crate::laws::{
    lemma_burn_nothing, lemma_burned_inv, lemma_minted_inv, lemma_transferred_inv,
};
use crate::model::{Call, LedgerState};
use crate::registry::AssetRegistry;
use crate::types::{AccountId, Balance, Error, Event, UniqueAssetDetails, UniqueAssetId};

verus! {

/// The ledger: the counter of identifiers, the registry of assets and the
/// balances of all accounts.
#[verifier::reject_recursive_types(S)]
pub struct Pallet<S> {
    allocator: IdAllocator,
    registry: AssetRegistry<S>,
    balances: BalanceLedger,
}

impl<S> View for Pallet<S> {
    type V = LedgerState<S>;

    closed spec fn view(&self) -> LedgerState<S> {
        LedgerState { nonce: self.allocator@, assets: self.registry@, accounts: self.balances@ }
    }
}

impl<S> Pallet<S> {
    /// A ledger on which nothing has happened yet.
    pub fn new() -> (ledger: Self)
        ensures
            ledger@ == LedgerState::<S>::empty(),
            ledger@.inv(),
    {
        Pallet {
            allocator: IdAllocator::new(),
            registry: AssetRegistry::new(),
            balances: BalanceLedger::new(),
        }
    }

    /// A ledger without assets whose first mint returns `nonce`.
    pub fn starting_at(nonce: UniqueAssetId) -> (ledger: Self)
        ensures
            ledger@ == (LedgerState { nonce, ..LedgerState::<S>::empty() }),
            ledger@.inv(),
    {
        Pallet {
            allocator: IdAllocator::starting_at(nonce),
            registry: AssetRegistry::new(),
            balances: BalanceLedger::new(),
        }
    }

    /// The identifier that the next mint returns.
    pub fn nonce(&self) -> (nonce: UniqueAssetId)
        ensures
            nonce == self@.nonce,
    {
        self.allocator.nonce()
    }

    /// The record of the asset `asset_id`, if it was minted.
    pub fn unique_asset(&self, asset_id: UniqueAssetId) -> (found: Option<&UniqueAssetDetails<S>>)
        ensures
            found is Some <==> self@.assets.contains_key(asset_id),
            found is Some ==> *found->0 == self@.assets[asset_id],
    {
        self.registry.get(asset_id)
    }

    /// What `account` holds of `asset_id`: zero if it was never credited.
    pub fn account(&self, asset_id: UniqueAssetId, account: AccountId) -> (balance: Balance)
        ensures
            balance == self@.balance_of(asset_id, account),
    {
        self.balances.balance_of(asset_id, account)
    }

    /// The total supply of the asset `asset_id`, if it was minted.
    pub fn total_supply(&self, asset_id: UniqueAssetId) -> (supply: Option<Balance>)
        ensures
            supply is Some <==> self@.assets.contains_key(asset_id),
            supply is Some ==> supply->0 == self@.assets[asset_id].supply,
    {
        match self.registry.get(asset_id) {
            Some(details) => Some(details.supply),
            None => None,
        }
    }

    /// Checks that `asset_id` exists and that `caller` created it, and
    /// returns its total supply.
    fn authorize(&self, caller: AccountId, asset_id: UniqueAssetId) -> (checked: Result<Balance, Error>)
        ensures
            self@.refusal(caller, asset_id) is Some ==> checked == Err::<Balance, Error>(
                self@.refusal(caller, asset_id)->0,
            ),
            self@.refusal(caller, asset_id) is None ==> checked == Ok::<Balance, Error>(
                self@.assets[asset_id].supply,
            ),
    {
        match self.registry.get(asset_id) {
            None => Err(Error::UnknownAssetId),
            Some(details) => {
                if details.creator != caller {
                    Err(Error::NotOwned)
                } else {
                    Ok(details.supply)
                }
            },
        }
    }

    /// Creates a new asset with `supply` units, all held by `caller`, under
    /// the next identifier. A supply of zero is refused.
    pub fn mint(
        &mut self,
        caller: AccountId,
        metadata: BoundedVec<u8, S>,
        supply: Balance,
    ) -> (result: Result<Event, Error>)
        ensures
            supply == 0 ==> result == Err::<Event, Error>(Error::InvalidSupply) && final(self)@
                == old(self)@,
            supply > 0 ==> result == Ok::<Event, Error>(
                Event::Created { creator: caller, asset_id: old(self)@.nonce },
            ) && final(self)@ == old(self)@.minted(caller, metadata, supply),
            old(self)@.inv() && old(self)@.nonce < UniqueAssetId::MAX ==> final(self)@.inv(),
    {
        if supply == 0 {
            return Err(Error::InvalidSupply);
        }
        proof {
            if self@.inv() && self@.nonce < UniqueAssetId::MAX {
                lemma_minted_inv(self@, caller, metadata, supply);
            }
        }
        let asset_id: UniqueAssetId = self.registry.create(
            &mut self.allocator,
            caller,
            metadata,
            supply,
        );
        self.balances.credit(asset_id, caller, supply);
        Ok(Event::Created { creator: caller, asset_id })
    }

    /// Destroys up to `amount` units that `caller` holds of `asset_id`: all
    /// that it holds where that is less. Only the asset's creator may burn.
    /// The total supply falls by what was destroyed, and the event reports
    /// what is left of it.
    pub fn burn(
        &mut self,
        caller: AccountId,
        asset_id: UniqueAssetId,
        amount: Balance,
    ) -> (result: Result<Event, Error>)
        ensures
            old(self)@.refusal(caller, asset_id) is Some ==> result == Err::<Event, Error>(
                old(self)@.refusal(caller, asset_id)->0,
            ) && final(self)@ == old(self)@,
            old(self)@.refusal(caller, asset_id) is None ==> result == Ok::<Event, Error>(
                Event::Burned {
                    asset_id,
                    owner: caller,
                    total_supply: final(self)@.assets[asset_id].supply,
                },
            ) && final(self)@ == old(self)@.burned(caller, asset_id, amount),
            amount == 0 ==> final(self)@ == old(self)@,
            amount == 0 && old(self)@.refusal(caller, asset_id) is None ==> result == Ok::<
                Event,
                Error,
            >(
                Event::Burned {
                    asset_id,
                    owner: caller,
                    total_supply: old(self)@.assets[asset_id].supply,
                },
            ),
            old(self)@.inv() ==> final(self)@.inv(),
    {
        let supply: Balance = match self.authorize(caller, asset_id) {
            Ok(supply) => supply,
            Err(error) => {
                return Err(error);
            },
        };
        proof {
            if self@.inv() {
                lemma_burned_inv(self@, caller, asset_id, amount);
            }
            if amount == 0 {
                lemma_burn_nothing(self@, caller, asset_id);
            }
        }
        let burned: Balance = self.balances.debit(asset_id, caller, amount);
        let total_supply: Balance = supply.saturating_sub(burned);
        self.registry.set_supply(asset_id, total_supply);
        Ok(Event::Burned { asset_id, owner: caller, total_supply })
    }

    /// Moves up to `amount` units of `asset_id` from `caller` to `to`: all
    /// that `caller` holds where that is less. Only the asset's creator may
    /// transfer. The event reports what was moved.
    pub fn transfer(
        &mut self,
        caller: AccountId,
        asset_id: UniqueAssetId,
        amount: Balance,
        to: AccountId,
    ) -> (result: Result<Event, Error>)
        ensures
            old(self)@.refusal(caller, asset_id) is Some ==> result == Err::<Event, Error>(
                old(self)@.refusal(caller, asset_id)->0,
            ) && final(self)@ == old(self)@,
            old(self)@.refusal(caller, asset_id) is None ==> result == Ok::<Event, Error>(
                Event::Transferred {
                    asset_id,
                    from: caller,
                    to,
                    amount: old(self)@.movable(caller, asset_id, amount),
                },
            ) && final(self)@ == old(self)@.transferred(caller, asset_id, amount, to),
            old(self)@.inv() ==> final(self)@.inv(),
    {
        match self.authorize(caller, asset_id) {
            Ok(_) => {},
            Err(error) => {
                return Err(error);
            },
        }
        proof {
            if self@.inv() {
                lemma_transferred_inv(self@, caller, asset_id, amount, to);
            }
        }
        let moved: Balance = self.balances.debit(asset_id, caller, amount);
        self.balances.credit(asset_id, to, moved);
        Ok(Event::Transferred { asset_id, from: caller, to, amount: moved })
    }

    /// Carries out `call` for `caller`.
    pub fn dispatch(&mut self, caller: AccountId, call: Call<S>) -> (result: Result<Event, Error>)
        ensures
            result == old(self)@.outcome(caller, call),
            final(self)@ == old(self)@.apply(caller, call),
    {
        match call {
            Call::Mint { metadata, supply } => self.mint(caller, metadata, supply),
            Call::Burn { asset_id, amount } => self.burn(caller, asset_id, amount),
            Call::Transfer { asset_id, amount, to } => self.transfer(caller, asset_id, amount, to),
        }
    }
}

} // verus!
