//! The ledger as a mathematical object: its state, and what each operation
//! makes of a state.

use vstd::prelude::*;
use frame_support::BoundedVec;
use crate::allocator::nonce_after;
use crate::balances::{
    balance_in, credited, debited, finitely_held, issued_in, taken, Accounts,
};
use crate::registry::{with_supply, Assets};
use crate::types::{AccountId, Balance, Error, Event, UniqueAssetDetails, UniqueAssetId};

verus! {

/// One request to the ledger. The host says which account makes it.
#[verifier::reject_recursive_types(S)]
pub enum Call<S> {
    /// Create a new asset with `supply` units, all held by the caller.
    Mint { metadata: BoundedVec<u8, S>, supply: Balance },
    /// Destroy up to `amount` units that the caller holds of `asset_id`.
    Burn { asset_id: UniqueAssetId, amount: Balance },
    /// Move up to `amount` units of `asset_id` from the caller to `to`.
    Transfer { asset_id: UniqueAssetId, amount: Balance, to: AccountId },
}

/// The state of a ledger.
#[verifier::reject_recursive_types(S)]
pub struct LedgerState<S> {
    /// The identifier that the next mint returns.
    pub nonce: UniqueAssetId,
    /// The record of every asset that was minted.
    pub assets: Assets<S>,
    /// The recorded balances of every asset.
    pub accounts: Accounts,
}

/// `supply` lowered by `amount`, stopping at zero.
pub open spec fn lowered(supply: Balance, amount: Balance) -> Balance {
    if amount > supply {
        0
    } else {
        (supply - amount) as Balance
    }
}

impl<S> LedgerState<S> {
    /// The state of a ledger on which nothing has happened yet.
    pub open spec fn empty() -> Self {
        LedgerState { nonce: 0, assets: Map::empty(), accounts: Map::empty() }
    }

    /// What `account` holds of `asset_id`.
    pub open spec fn balance_of(self, asset_id: UniqueAssetId, account: AccountId) -> Balance {
        balance_in(self.accounts, asset_id, account)
    }

    /// The sum of all balances of `asset_id`.
    pub open spec fn issued(self, asset_id: UniqueAssetId) -> nat {
        issued_in(self.accounts, asset_id)
    }

    /// Why a burn or a transfer of `asset_id` by `caller` is refused, if it
    /// is: the asset must exist, and the caller must have created it.
    pub open spec fn refusal(self, caller: AccountId, asset_id: UniqueAssetId) -> Option<Error> {
        if !self.assets.contains_key(asset_id) {
            Some(Error::UnknownAssetId)
        } else if self.assets[asset_id].creator != caller {
            Some(Error::NotOwned)
        } else {
            None
        }
    }

    /// The state after `caller` minted an asset with a positive `supply`.
    pub open spec fn minted(
        self,
        caller: AccountId,
        metadata: BoundedVec<u8, S>,
        supply: Balance,
    ) -> Self {
        LedgerState {
            nonce: nonce_after(self.nonce),
            assets: self.assets.insert(
                self.nonce,
                UniqueAssetDetails { creator: caller, metadata, supply },
            ),
            accounts: credited(self.accounts, self.nonce, caller, supply),
        }
    }

    /// How much a burn or a transfer of `amount` by `caller` really moves:
    /// no more than the caller holds.
    pub open spec fn movable(
        self,
        caller: AccountId,
        asset_id: UniqueAssetId,
        amount: Balance,
    ) -> Balance {
        taken(self.balance_of(asset_id, caller), amount)
    }

    /// The state after the creator `caller` of `asset_id` burned `amount`.
    /// The total supply falls by what the caller's balance fell by.
    pub open spec fn burned(
        self,
        caller: AccountId,
        asset_id: UniqueAssetId,
        amount: Balance,
    ) -> Self {
        LedgerState {
            nonce: self.nonce,
            assets: with_supply(
                self.assets,
                asset_id,
                lowered(self.assets[asset_id].supply, self.movable(caller, asset_id, amount)),
            ),
            accounts: debited(self.accounts, asset_id, caller, amount),
        }
    }

    /// The state after the creator `caller` of `asset_id` transferred
    /// `amount` to `to`. What is taken from the caller is what `to` receives.
    pub open spec fn transferred(
        self,
        caller: AccountId,
        asset_id: UniqueAssetId,
        amount: Balance,
        to: AccountId,
    ) -> Self {
        LedgerState {
            nonce: self.nonce,
            assets: self.assets,
            accounts: credited(
                debited(self.accounts, asset_id, caller, amount),
                asset_id,
                to,
                self.movable(caller, asset_id, amount),
            ),
        }
    }

    /// What the ledger answers when `caller` makes `call` in this state.
    pub open spec fn outcome(self, caller: AccountId, call: Call<S>) -> Result<Event, Error> {
        match call {
            Call::Mint { metadata, supply } => {
                if supply == 0 {
                    Err(Error::InvalidSupply)
                } else {
                    Ok(Event::Created { creator: caller, asset_id: self.nonce })
                }
            },
            Call::Burn { asset_id, amount } => {
                match self.refusal(caller, asset_id) {
                    Some(error) => Err(error),
                    None => Ok(
                        Event::Burned {
                            asset_id,
                            owner: caller,
                            total_supply: self.burned(caller, asset_id, amount).assets[asset_id].supply,
                        },
                    ),
                }
            },
            Call::Transfer { asset_id, amount, to } => {
                match self.refusal(caller, asset_id) {
                    Some(error) => Err(error),
                    None => Ok(
                        Event::Transferred {
                            asset_id,
                            from: caller,
                            to,
                            amount: self.movable(caller, asset_id, amount),
                        },
                    ),
                }
            },
        }
    }

    /// The state after `caller` made `call` in this state. A call that is
    /// refused leaves the state as it is.
    pub open spec fn apply(self, caller: AccountId, call: Call<S>) -> Self {
        if self.outcome(caller, call) is Err {
            self
        } else {
            match call {
                Call::Mint { metadata, supply } => self.minted(caller, metadata, supply),
                Call::Burn { asset_id, amount } => self.burned(caller, asset_id, amount),
                Call::Transfer { asset_id, amount, to } => self.transferred(
                    caller,
                    asset_id,
                    amount,
                    to,
                ),
            }
        }
    }

    /// The state after the calls of `calls` were made one after the other,
    /// each by the account it is paired with.
    pub open spec fn run(self, calls: Seq<(AccountId, Call<S>)>) -> Self
        decreases calls.len(),
    {
        if calls.len() == 0 {
            self
        } else {
            self.run(calls.drop_last()).apply(calls.last().0, calls.last().1)
        }
    }

    /// The total supply of every asset is the sum of the balances held in it.
    pub open spec fn conserved(self) -> bool {
        forall|asset_id: UniqueAssetId| #[trigger]
            self.assets.contains_key(asset_id) ==> self.assets[asset_id].supply == self.issued(
                asset_id,
            )
    }

    /// What holds of a ledger as long as its identifiers have not run out:
    /// supplies are conserved, every asset has an identifier below the
    /// nonce, and balances are recorded of existing assets only.
    pub open spec fn inv(self) -> bool {
        &&& self.conserved()
        &&& finitely_held(self.accounts)
        &&& forall|asset_id: UniqueAssetId| #[trigger]
            self.assets.contains_key(asset_id) ==> asset_id < self.nonce
        &&& forall|asset_id: UniqueAssetId| #[trigger]
            self.accounts.contains_key(asset_id) ==> self.assets.contains_key(asset_id)
    }
}

/// Whether `call` is a mint that the ledger accepts.
pub open spec fn mints<S>(call: Call<S>) -> bool {
    call matches Call::Mint { supply, .. } && supply > 0
}

/// How many calls of `calls` are mints that the ledger accepts.
pub open spec fn mint_count<S>(calls: Seq<(AccountId, Call<S>)>) -> nat
    decreases calls.len(),
{
    if calls.len() == 0 {
        0
    } else {
        mint_count(calls.drop_last()) + if mints(calls.last().1) {
            1nat
        } else {
            0nat
        }
    }
}

} // verus!
