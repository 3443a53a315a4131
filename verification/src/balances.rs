//! The balance ledger: what every account holds of every asset.
//!
//! An account that was never credited holds nothing, so a balance that is
//! not recorded reads as zero.

use std::collections::HashMap;
use vstd::prelude::*;
use crate::types::{AccountId, Balance, UniqueAssetId};

verus! {

/// The balances of every asset: for each asset the accounts with a recorded
/// balance.
pub type Accounts = Map<UniqueAssetId, Map<AccountId, Balance>>;

/// The sum of all balances that `holdings` records.
pub open spec fn total(holdings: Map<AccountId, Balance>) -> nat
    decreases holdings.dom().len(),
    when holdings.dom().finite()
{
    if holdings.dom().is_empty() {
        0
    } else {
        let account = holdings.dom().choose();
        holdings[account] as nat + total(holdings.remove(account))
    }
}

/// What `account` holds in `holdings`: zero where nothing is recorded.
pub open spec fn held(holdings: Map<AccountId, Balance>, account: AccountId) -> Balance {
    if holdings.contains_key(account) {
        holdings[account]
    } else {
        0
    }
}

/// The recorded balances of one asset: none where the asset has no entry.
pub open spec fn holdings_of(
    accounts: Accounts,
    asset_id: UniqueAssetId,
) -> Map<AccountId, Balance> {
    if accounts.contains_key(asset_id) {
        accounts[asset_id]
    } else {
        Map::empty()
    }
}

/// What `account` holds of `asset_id`.
pub open spec fn balance_in(
    accounts: Accounts,
    asset_id: UniqueAssetId,
    account: AccountId,
) -> Balance {
    held(holdings_of(accounts, asset_id), account)
}

/// The sum of all balances of `asset_id`.
pub open spec fn issued_in(accounts: Accounts, asset_id: UniqueAssetId) -> nat {
    total(holdings_of(accounts, asset_id))
}

/// `balance` raised by `amount`, stopping at the largest balance.
pub open spec fn raised(balance: Balance, amount: Balance) -> Balance {
    if balance + amount > Balance::MAX {
        Balance::MAX
    } else {
        (balance + amount) as Balance
    }
}

/// How much of `amount` can be taken from `balance`.
pub open spec fn taken(balance: Balance, amount: Balance) -> Balance {
    if amount > balance {
        balance
    } else {
        amount
    }
}

/// The balances after `account` was credited with `amount` of `asset_id`.
/// The account's balance is recorded from then on.
pub open spec fn credited(
    accounts: Accounts,
    asset_id: UniqueAssetId,
    account: AccountId,
    amount: Balance,
) -> Accounts {
    accounts.insert(
        asset_id,
        holdings_of(accounts, asset_id).insert(
            account,
            raised(balance_in(accounts, asset_id, account), amount),
        ),
    )
}

/// The balances after as much of `amount` as `account` holds of `asset_id`
/// was taken from it. Where no balance is recorded for the account, nothing
/// changes.
pub open spec fn debited(
    accounts: Accounts,
    asset_id: UniqueAssetId,
    account: AccountId,
    amount: Balance,
) -> Accounts {
    if holdings_of(accounts, asset_id).contains_key(account) {
        let balance = balance_in(accounts, asset_id, account);
        accounts.insert(
            asset_id,
            holdings_of(accounts, asset_id).insert(
                account,
                (balance - taken(balance, amount)) as Balance,
            ),
        )
    } else {
        accounts
    }
}

/// Every asset in `accounts` records the balances of finitely many accounts.
pub open spec fn finitely_held(accounts: Accounts) -> bool {
    forall|asset_id: UniqueAssetId| #[trigger]
        accounts.contains_key(asset_id) ==> accounts[asset_id].dom().finite()
}

/// The store of balances, keyed by asset and then by account.
pub struct BalanceLedger {
    entries: HashMap<UniqueAssetId, HashMap<AccountId, Balance>>,
}

impl View for BalanceLedger {
    type V = Accounts;

    closed spec fn view(&self) -> Accounts {
        Map::new(
            |asset_id: UniqueAssetId| self.entries@.contains_key(asset_id),
            |asset_id: UniqueAssetId| self.entries@[asset_id]@,
        )
    }
}

impl BalanceLedger {
    /// A ledger in which nobody holds anything.
    pub fn new() -> (ledger: Self)
        ensures
            ledger@ == Accounts::empty(),
    {
        let ledger = BalanceLedger { entries: HashMap::new() };
        assert(ledger@ =~= Accounts::empty());
        ledger
    }

    /// A ledger records finitely many balances.
    pub proof fn lemma_finitely_held(&self)
        ensures
            finitely_held(self@),
    {
    }

    /// What `account` holds of `asset_id`: zero where nothing is recorded.
    pub fn balance_of(&self, asset_id: UniqueAssetId, account: AccountId) -> (balance: Balance)
        ensures
            balance == balance_in(self@, asset_id, account),
    {
        match self.entries.get(&asset_id) {
            Some(holdings) => match holdings.get(&account) {
                Some(balance) => *balance,
                None => 0,
            },
            None => 0,
        }
    }

    /// Adds `amount` to what `account` holds of `asset_id`. The balance stops
    /// at the largest value instead of wrapping round.
    pub fn credit(&mut self, asset_id: UniqueAssetId, account: AccountId, amount: Balance)
        ensures
            final(self)@ == credited(old(self)@, asset_id, account, amount),
            balance_in(final(self)@, asset_id, account) == raised(
                balance_in(old(self)@, asset_id, account),
                amount,
            ),
    {
        let mut holdings: HashMap<AccountId, Balance> = match self.entries.remove(&asset_id) {
            Some(holdings) => holdings,
            None => HashMap::new(),
        };
        let balance: Balance = match holdings.get(&account) {
            Some(balance) => *balance,
            None => 0,
        };
        holdings.insert(account, balance.saturating_add(amount));
        self.entries.insert(asset_id, holdings);
        assert(self@ =~= credited(old(self)@, asset_id, account, amount));
    }

    /// Takes `amount` from what `account` holds of `asset_id`, or all that it
    /// holds where that is less, and returns what was taken.
    pub fn debit(
        &mut self,
        asset_id: UniqueAssetId,
        account: AccountId,
        amount: Balance,
    ) -> (moved: Balance)
        ensures
            final(self)@ == debited(old(self)@, asset_id, account, amount),
            moved == taken(balance_in(old(self)@, asset_id, account), amount),
            balance_in(final(self)@, asset_id, account) == balance_in(
                old(self)@,
                asset_id,
                account,
            ) - moved,
            amount > balance_in(old(self)@, asset_id, account) ==> moved == balance_in(
                old(self)@,
                asset_id,
                account,
            ) && balance_in(final(self)@, asset_id, account) == 0,
    {
        match self.entries.remove(&asset_id) {
            Some(mut holdings) => {
                let found: Option<Balance> = match holdings.get(&account) {
                    Some(balance) => Some(*balance),
                    None => None,
                };
                let moved: Balance = match found {
                    Some(balance) => {
                        let rest: Balance = balance.saturating_sub(amount);
                        holdings.insert(account, rest);
                        balance - rest
                    },
                    None => 0,
                };
                self.entries.insert(asset_id, holdings);
                assert(self@ =~= debited(old(self)@, asset_id, account, amount));
                moved
            },
            None => {
                assert(self@ =~= old(self)@);
                0
            },
        }
    }
}

/// The sum of the balances is one balance plus the sum of all others.
pub proof fn lemma_total_split(holdings: Map<AccountId, Balance>, account: AccountId)
    requires
        holdings.dom().finite(),
        holdings.contains_key(account),
    ensures
        total(holdings) == holdings[account] + total(holdings.remove(account)),
    decreases holdings.dom().len(),
{
    let first = holdings.dom().choose();
    if first != account {
        let rest = holdings.remove(first);
        lemma_total_split(rest, account);
        let others = holdings.remove(account);
        lemma_total_split(others, first);
        assert(rest.remove(account) =~= others.remove(first));
    }
}

/// No balance is larger than the sum of all balances.
pub proof fn lemma_held_at_most_total(holdings: Map<AccountId, Balance>, account: AccountId)
    requires
        holdings.dom().finite(),
    ensures
        held(holdings, account) <= total(holdings),
{
    if holdings.contains_key(account) {
        lemma_total_split(holdings, account);
    }
}

/// Recording a balance changes the sum by the difference between the new
/// balance and what the account held before.
pub proof fn lemma_total_insert(
    holdings: Map<AccountId, Balance>,
    account: AccountId,
    balance: Balance,
)
    requires
        holdings.dom().finite(),
    ensures
        total(holdings.insert(account, balance)) == total(holdings) - held(holdings, account)
            + balance,
{
    let after = holdings.insert(account, balance);
    lemma_total_split(after, account);
    assert(after.remove(account) =~= holdings.remove(account));
    if holdings.contains_key(account) {
        lemma_total_split(holdings, account);
    } else {
        assert(holdings.remove(account) =~= holdings);
    }
}

/// The sum of two balances of different accounts is at most the sum of all
/// balances.
pub proof fn lemma_two_held_at_most_total(
    holdings: Map<AccountId, Balance>,
    one: AccountId,
    other: AccountId,
)
    requires
        holdings.dom().finite(),
        one != other,
    ensures
        held(holdings, one) + held(holdings, other) <= total(holdings),
{
    if holdings.contains_key(one) {
        lemma_total_split(holdings, one);
        lemma_held_at_most_total(holdings.remove(one), other);
    } else {
        lemma_held_at_most_total(holdings, other);
    }
}

} // verus!
