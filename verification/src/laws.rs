//! What holds of the ledger whatever is asked of it.
//!
//! The statements are made of the mathematical ledger of [`crate::model`];
//! the operations of [`crate::ledger`] are proved to do what that ledger
//! does.

use vstd::prelude::*;
use frame_support::BoundedVec;
use crate::balances::{
    held, holdings_of, lemma_held_at_most_total, lemma_total_insert,
    lemma_two_held_at_most_total, total,
};
use crate::allocator::nonce_after_many;
use crate::model::{mint_count, mints, Call, LedgerState};
use crate::types::{AccountId, Balance, Error, Event, UniqueAssetId};

verus! {

/// A ledger on which nothing has happened yet is in order.
pub proof fn lemma_empty_inv<S>()
    ensures
        LedgerState::<S>::empty().inv(),
{
}

/// A mint keeps the ledger in order, as long as the identifiers have not
/// run out. The new asset's supply is what its creator holds.
pub proof fn lemma_minted_inv<S>(
    state: LedgerState<S>,
    caller: AccountId,
    metadata: BoundedVec<u8, S>,
    supply: Balance,
)
    requires
        state.inv(),
        state.nonce < UniqueAssetId::MAX,
    ensures
        state.minted(caller, metadata, supply).inv(),
        state.minted(caller, metadata, supply).balance_of(state.nonce, caller) == supply,
        state.minted(caller, metadata, supply).issued(state.nonce) == supply,
{
    let after = state.minted(caller, metadata, supply);
    let fresh = state.nonce;
    assert(!state.assets.contains_key(fresh));
    assert(!state.accounts.contains_key(fresh));
    let before = holdings_of(state.accounts, fresh);
    assert(before =~= Map::empty());
    assert(total(before) == 0);
    lemma_total_insert(before, caller, supply);
    assert forall|asset_id: UniqueAssetId| #[trigger]
        after.assets.contains_key(asset_id) implies after.assets[asset_id].supply == after.issued(
        asset_id,
    ) by {
        if asset_id != fresh {
            assert(state.assets.contains_key(asset_id));
            assert(holdings_of(after.accounts, asset_id) == holdings_of(state.accounts, asset_id));
        }
    }
}

/// A burn by the asset's creator keeps the ledger in order. The total
/// supply falls by exactly what the creator's balance falls by.
pub proof fn lemma_burned_inv<S>(
    state: LedgerState<S>,
    caller: AccountId,
    asset_id: UniqueAssetId,
    amount: Balance,
)
    requires
        state.inv(),
        state.refusal(caller, asset_id) is None,
    ensures
        state.burned(caller, asset_id, amount).inv(),
        state.burned(caller, asset_id, amount).assets[asset_id].supply
            == state.assets[asset_id].supply - state.movable(caller, asset_id, amount),
        state.burned(caller, asset_id, amount).balance_of(asset_id, caller) == state.balance_of(
            asset_id,
            caller,
        ) - state.movable(caller, asset_id, amount),
{
    let after = state.burned(caller, asset_id, amount);
    let before = holdings_of(state.accounts, asset_id);
    let moved = state.movable(caller, asset_id, amount);
    assert(state.assets.contains_key(asset_id));
    lemma_held_at_most_total(before, caller);
    if before.contains_key(caller) {
        lemma_total_insert(before, caller, (held(before, caller) - moved) as Balance);
    }
    assert forall|other: UniqueAssetId| #[trigger]
        after.assets.contains_key(other) implies after.assets[other].supply == after.issued(
        other,
    ) by {
        if other != asset_id {
            assert(state.assets.contains_key(other));
            assert(holdings_of(after.accounts, other) == holdings_of(state.accounts, other));
        }
    }
    assert forall|other: UniqueAssetId| #[trigger]
        after.assets.contains_key(other) implies other < after.nonce by {
        assert(state.assets.contains_key(other));
    }
}

/// A burn of nothing by the asset's creator changes nothing, and reports
/// the total supply as it was.
pub proof fn lemma_burn_nothing<S>(state: LedgerState<S>, caller: AccountId, asset_id: UniqueAssetId)
    requires
        state.refusal(caller, asset_id) is None,
    ensures
        state.burned(caller, asset_id, 0) == state,
        state.outcome(caller, Call::Burn { asset_id, amount: 0 }) == Ok::<Event, Error>(
            Event::Burned {
                asset_id,
                owner: caller,
                total_supply: state.assets[asset_id].supply,
            },
        ),
        state.apply(caller, Call::Burn { asset_id, amount: 0 }) == state,
{
    let after = state.burned(caller, asset_id, 0);
    assert(after.assets =~= state.assets);
    assert(after.accounts =~~= state.accounts);
}

/// A transfer by the asset's creator keeps the ledger in order. No total
/// supply changes, and the recipient's balance rises by exactly what the
/// creator's balance falls by.
pub proof fn lemma_transferred_inv<S>(
    state: LedgerState<S>,
    caller: AccountId,
    asset_id: UniqueAssetId,
    amount: Balance,
    to: AccountId,
)
    requires
        state.inv(),
        state.refusal(caller, asset_id) is None,
    ensures
        state.transferred(caller, asset_id, amount, to).inv(),
        state.transferred(caller, asset_id, amount, to).issued(asset_id) == state.issued(
            asset_id,
        ),
        to != caller ==> state.transferred(caller, asset_id, amount, to).balance_of(
            asset_id,
            caller,
        ) == state.balance_of(asset_id, caller) - state.movable(caller, asset_id, amount),
        to != caller ==> state.transferred(caller, asset_id, amount, to).balance_of(asset_id, to)
            == state.balance_of(asset_id, to) + state.movable(caller, asset_id, amount),
        to == caller ==> state.transferred(caller, asset_id, amount, to).balance_of(
            asset_id,
            caller,
        ) == state.balance_of(asset_id, caller),
{
    let after = state.transferred(caller, asset_id, amount, to);
    let before = holdings_of(state.accounts, asset_id);
    let moved = state.movable(caller, asset_id, amount);
    assert(state.assets.contains_key(asset_id));
    lemma_held_at_most_total(before, caller);
    if to != caller {
        lemma_two_held_at_most_total(before, caller, to);
    }
    let between = if before.contains_key(caller) {
        before.insert(caller, (held(before, caller) - moved) as Balance)
    } else {
        before
    };
    if before.contains_key(caller) {
        lemma_total_insert(before, caller, (held(before, caller) - moved) as Balance);
    }
    assert(total(between) == total(before) - moved);
    assert(held(between, to) + moved <= Balance::MAX);
    lemma_total_insert(between, to, (held(between, to) + moved) as Balance);
    assert(holdings_of(after.accounts, asset_id) == between.insert(
        to,
        (held(between, to) + moved) as Balance,
    ));
    assert forall|other: UniqueAssetId| #[trigger]
        after.assets.contains_key(other) implies after.assets[other].supply == after.issued(
        other,
    ) by {
        if other != asset_id {
            assert(holdings_of(after.accounts, other) == holdings_of(state.accounts, other));
        }
    }
}

/// Any call keeps the ledger in order, as long as the identifiers have not
/// run out when it is a mint.
pub proof fn lemma_apply_inv<S>(state: LedgerState<S>, caller: AccountId, call: Call<S>)
    requires
        state.inv(),
        mints(call) ==> state.nonce < UniqueAssetId::MAX,
    ensures
        state.apply(caller, call).inv(),
{
    if state.outcome(caller, call) is Ok {
        match call {
            Call::Mint { metadata, supply } => {
                lemma_minted_inv(state, caller, metadata, supply);
            },
            Call::Burn { asset_id, amount } => {
                lemma_burned_inv(state, caller, asset_id, amount);
            },
            Call::Transfer { asset_id, amount, to } => {
                lemma_transferred_inv(state, caller, asset_id, amount, to);
            },
        }
    }
}

/// The calls before position `upto` hold one accepted mint more than those
/// before `upto - 1` if the call at `upto - 1` is one, and as many if not.
pub proof fn lemma_mint_count_step<S>(calls: Seq<(AccountId, Call<S>)>, upto: int)
    requires
        0 < upto <= calls.len(),
    ensures
        mint_count(calls.take(upto)) == mint_count(calls.take(upto - 1)) + if mints(
            calls[upto - 1].1,
        ) {
            1nat
        } else {
            0nat
        },
{
    assert(calls.take(upto).drop_last() =~= calls.take(upto - 1));
}

/// A longer beginning of `calls` holds at least as many accepted mints as a
/// shorter one.
pub proof fn lemma_mint_count_grows<S>(calls: Seq<(AccountId, Call<S>)>, fewer: int, more: int)
    requires
        0 <= fewer <= more <= calls.len(),
    ensures
        mint_count(calls.take(fewer)) <= mint_count(calls.take(more)),
    decreases more - fewer,
{
    if fewer < more {
        lemma_mint_count_step(calls, more);
        lemma_mint_count_grows(calls, fewer, more - 1);
    }
}

/// Identifiers are handed out one by one: after any calls the nonce has
/// moved on by the number of mints that were accepted, whatever was burned
/// or transferred in between. It stops at the largest identifier.
pub proof fn lemma_run_nonce<S>(state: LedgerState<S>, calls: Seq<(AccountId, Call<S>)>)
    ensures
        state.run(calls).nonce == nonce_after_many(state.nonce, mint_count(calls)),
    decreases calls.len(),
{
    if calls.len() > 0 {
        lemma_run_nonce(state, calls.drop_last());
    }
}

/// The mint at position `at` of `calls` is answered with the identifier
/// that lies as many steps after the first nonce as mints were accepted
/// before it.
pub proof fn lemma_mint_identifier<S>(
    state: LedgerState<S>,
    calls: Seq<(AccountId, Call<S>)>,
    at: int,
)
    requires
        0 <= at < calls.len(),
        mints(calls[at].1),
    ensures
        state.run(calls.take(at)).outcome(calls[at].0, calls[at].1) == Ok::<Event, Error>(
            Event::Created {
                creator: calls[at].0,
                asset_id: nonce_after_many(state.nonce, mint_count(calls.take(at))),
            },
        ),
{
    lemma_run_nonce(state, calls.take(at));
}

/// Monotonic identifiers: of two accepted mints in `calls`, the later one
/// gets a larger identifier, as long as the identifiers have not run out;
/// if no mint was accepted between the two, it is larger by exactly one.
pub proof fn lemma_identifiers_increase<S>(
    state: LedgerState<S>,
    calls: Seq<(AccountId, Call<S>)>,
    earlier: int,
    later: int,
)
    requires
        0 <= earlier < later < calls.len(),
        mints(calls[earlier].1),
        mints(calls[later].1),
        state.nonce + mint_count(calls.take(later)) <= UniqueAssetId::MAX,
    ensures
        state.run(calls.take(earlier)).nonce < state.run(calls.take(later)).nonce,
        (forall|between: int| earlier < between < later ==> !mints(#[trigger] calls[between].1))
            ==> state.run(calls.take(later)).nonce == state.run(calls.take(earlier)).nonce + 1,
{
    lemma_run_nonce(state, calls.take(earlier));
    lemma_run_nonce(state, calls.take(later));
    lemma_mint_count_step(calls, earlier + 1);
    lemma_mint_count_grows(calls, earlier + 1, later);
    if forall|between: int| earlier < between < later ==> !mints(#[trigger] calls[between].1) {
        lemma_mint_count_still(calls, earlier + 1, later);
    }
}

/// Calls that are no accepted mints do not change the count of them.
pub proof fn lemma_mint_count_still<S>(calls: Seq<(AccountId, Call<S>)>, from: int, upto: int)
    requires
        0 <= from <= upto <= calls.len(),
        forall|between: int| from <= between < upto ==> !mints(#[trigger] calls[between].1),
    ensures
        mint_count(calls.take(upto)) == mint_count(calls.take(from)),
    decreases upto - from,
{
    if from < upto {
        lemma_mint_count_step(calls, upto);
        lemma_mint_count_still(calls, from, upto - 1);
    }
}

/// Any calls keep the ledger in order, as long as the identifiers do not
/// run out: the nonce can move on by the number of mints that are accepted.
pub proof fn lemma_run_inv<S>(state: LedgerState<S>, calls: Seq<(AccountId, Call<S>)>)
    requires
        state.inv(),
        state.nonce + mint_count(calls) <= UniqueAssetId::MAX,
    ensures
        state.run(calls).inv(),
    decreases calls.len(),
{
    if calls.len() > 0 {
        let before = calls.drop_last();
        lemma_run_inv(state, before);
        lemma_run_nonce(state, before);
        lemma_apply_inv(state.run(before), calls.last().0, calls.last().1);
    }
}

/// Conservation: on a ledger that starts in order, the total supply of
/// every asset is the sum of the balances held in it after each call of any
/// sequence of calls, as long as the identifiers do not run out.
pub proof fn lemma_conserved_throughout<S>(
    state: LedgerState<S>,
    calls: Seq<(AccountId, Call<S>)>,
    upto: int,
)
    requires
        state.inv(),
        state.nonce + mint_count(calls) <= UniqueAssetId::MAX,
        0 <= upto <= calls.len(),
    ensures
        state.run(calls.take(upto)).conserved(),
{
    assert(calls.take(calls.len() as int) =~= calls);
    lemma_mint_count_grows(calls, upto, calls.len() as int);
    lemma_run_inv(state, calls.take(upto));
}

/// No call removes an asset or changes who created it or what describes
/// it, as long as the identifiers have not run out when the call is a mint.
pub proof fn lemma_apply_keeps_records<S>(
    state: LedgerState<S>,
    caller: AccountId,
    call: Call<S>,
    asset_id: UniqueAssetId,
)
    requires
        state.inv(),
        mints(call) ==> state.nonce < UniqueAssetId::MAX,
        state.assets.contains_key(asset_id),
    ensures
        state.apply(caller, call).assets.contains_key(asset_id),
        state.apply(caller, call).assets[asset_id].creator == state.assets[asset_id].creator,
        state.apply(caller, call).assets[asset_id].metadata == state.assets[asset_id].metadata,
{
}

/// No sequence of calls removes an asset or changes who created it or what
/// describes it, as long as the identifiers do not run out.
pub proof fn lemma_run_keeps_records<S>(
    state: LedgerState<S>,
    calls: Seq<(AccountId, Call<S>)>,
    asset_id: UniqueAssetId,
)
    requires
        state.inv(),
        state.nonce + mint_count(calls) <= UniqueAssetId::MAX,
        state.assets.contains_key(asset_id),
    ensures
        state.run(calls).assets.contains_key(asset_id),
        state.run(calls).assets[asset_id].creator == state.assets[asset_id].creator,
        state.run(calls).assets[asset_id].metadata == state.assets[asset_id].metadata,
    decreases calls.len(),
{
    if calls.len() > 0 {
        let before = calls.drop_last();
        lemma_run_keeps_records(state, before, asset_id);
        lemma_run_inv(state, before);
        lemma_run_nonce(state, before);
        lemma_apply_keeps_records(state.run(before), calls.last().0, calls.last().1, asset_id);
    }
}

} // verus!
