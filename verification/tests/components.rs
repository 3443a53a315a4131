use frame_support::traits::ConstU32;
use frame_support::BoundedVec;
use pallet_nft::{AssetRegistry, Balance, BalanceLedger, IdAllocator, UniqueAssetDetails, UniqueAssetId};

fn meta(bytes: &[u8]) -> BoundedVec<u8, ConstU32<8>> {
    BoundedVec::try_from(bytes.to_vec()).unwrap()
}

#[test]
fn allocator_counts_from_zero() {
    let mut allocator = IdAllocator::new();
    assert_eq!(allocator.nonce(), 0);
    assert_eq!(allocator.next_id(), 0);
    assert_eq!(allocator.next_id(), 1);
    assert_eq!(allocator.next_id(), 2);
    assert_eq!(allocator.nonce(), 3);
}

#[test]
fn allocator_stops_at_the_largest_identifier() {
    let mut allocator = IdAllocator::starting_at(UniqueAssetId::MAX - 1);
    assert_eq!(allocator.next_id(), UniqueAssetId::MAX - 1);
    assert_eq!(allocator.next_id(), UniqueAssetId::MAX);
    assert_eq!(allocator.next_id(), UniqueAssetId::MAX);
    assert_eq!(allocator.nonce(), UniqueAssetId::MAX);
}

#[test]
fn details_keep_their_fields() {
    let details = UniqueAssetDetails::new(4, meta(b"abc"), 9);
    assert_eq!(details.creator(), 4);
    assert_eq!(details.creator, 4);
    assert_eq!(details.metadata, meta(b"abc"));
    assert_eq!(details.supply, 9);
    let details = details.with_supply(2);
    assert_eq!(details.creator(), 4);
    assert_eq!(details.metadata, meta(b"abc"));
    assert_eq!(details.supply, 2);
}

#[test]
fn registry_creates_under_the_next_identifier() {
    let mut allocator = IdAllocator::new();
    let mut registry: AssetRegistry<ConstU32<8>> = AssetRegistry::new();
    assert!(registry.get(0).is_none());
    assert_eq!(registry.create(&mut allocator, 7, meta(b"a"), 10), 0);
    assert_eq!(registry.create(&mut allocator, 8, meta(b"b"), 20), 1);
    assert_eq!(allocator.nonce(), 2);
    let first = registry.get(0).unwrap();
    assert_eq!(first.creator(), 7);
    assert_eq!(first.metadata, meta(b"a"));
    assert_eq!(first.supply, 10);
    let second = registry.get(1).unwrap();
    assert_eq!(second.creator(), 8);
    assert_eq!(second.metadata, meta(b"b"));
    assert_eq!(second.supply, 20);
    assert!(registry.get(2).is_none());
}

#[test]
fn registry_sets_supply_and_keeps_the_rest() {
    let mut allocator = IdAllocator::new();
    let mut registry: AssetRegistry<ConstU32<8>> = AssetRegistry::new();
    registry.create(&mut allocator, 7, meta(b"a"), 10);
    registry.create(&mut allocator, 8, meta(b"b"), 20);
    registry.set_supply(0, 3);
    let first = registry.get(0).unwrap();
    assert_eq!(first.creator(), 7);
    assert_eq!(first.metadata, meta(b"a"));
    assert_eq!(first.supply, 3);
    assert_eq!(registry.get(1).unwrap().supply, 20);
    registry.set_supply(0, 0);
    assert_eq!(registry.get(0).unwrap().supply, 0);
}

#[test]
fn registry_knows_the_creator() {
    let mut allocator = IdAllocator::new();
    let mut registry: AssetRegistry<ConstU32<8>> = AssetRegistry::new();
    registry.create(&mut allocator, 7, meta(b"a"), 10);
    assert!(registry.is_owned_by(0, 7));
    assert!(!registry.is_owned_by(0, 8));
    assert!(!registry.is_owned_by(1, 7));
}

#[test]
fn balance_reads_zero_until_credited() {
    let mut ledger = BalanceLedger::new();
    assert_eq!(ledger.balance_of(0, 1), 0);
    ledger.credit(0, 1, 5);
    assert_eq!(ledger.balance_of(0, 1), 5);
    assert_eq!(ledger.balance_of(0, 2), 0);
    assert_eq!(ledger.balance_of(1, 1), 0);
    ledger.credit(0, 1, 6);
    ledger.credit(0, 2, 1);
    assert_eq!(ledger.balance_of(0, 1), 11);
    assert_eq!(ledger.balance_of(0, 2), 1);
}

#[test]
fn credit_stops_at_the_largest_balance() {
    let mut ledger = BalanceLedger::new();
    ledger.credit(3, 1, Balance::MAX - 1);
    ledger.credit(3, 1, 1);
    assert_eq!(ledger.balance_of(3, 1), Balance::MAX);
    ledger.credit(3, 1, 10);
    assert_eq!(ledger.balance_of(3, 1), Balance::MAX);
}

#[test]
fn debit_takes_what_is_asked_when_it_is_held() {
    let mut ledger = BalanceLedger::new();
    ledger.credit(0, 1, 50);
    assert_eq!(ledger.debit(0, 1, 20), 20);
    assert_eq!(ledger.balance_of(0, 1), 30);
    assert_eq!(ledger.debit(0, 1, 30), 30);
    assert_eq!(ledger.balance_of(0, 1), 0);
}

#[test]
fn debit_of_more_than_held_takes_the_balance() {
    let mut ledger = BalanceLedger::new();
    ledger.credit(0, 1, 50);
    ledger.credit(0, 2, 9);
    assert_eq!(ledger.debit(0, 1, 51), 50);
    assert_eq!(ledger.balance_of(0, 1), 0);
    assert_eq!(ledger.balance_of(0, 2), 9);
    assert_eq!(ledger.debit(0, 2, Balance::MAX), 9);
    assert_eq!(ledger.balance_of(0, 2), 0);
}

#[test]
fn debit_of_an_account_that_holds_nothing_takes_nothing() {
    let mut ledger = BalanceLedger::new();
    assert_eq!(ledger.debit(0, 1, 5), 0);
    assert_eq!(ledger.balance_of(0, 1), 0);
    ledger.credit(0, 2, 4);
    assert_eq!(ledger.debit(0, 1, 5), 0);
    assert_eq!(ledger.debit(1, 2, 5), 0);
    assert_eq!(ledger.balance_of(0, 2), 4);
}

#[test]
fn debit_of_nothing_takes_nothing() {
    let mut ledger = BalanceLedger::new();
    ledger.credit(0, 1, 50);
    assert_eq!(ledger.debit(0, 1, 0), 0);
    assert_eq!(ledger.balance_of(0, 1), 50);
}

#[test]
fn metadata_longer_than_its_bound_cannot_be_built() {
    let fits: Result<BoundedVec<u8, ConstU32<8>>, Vec<u8>> = BoundedVec::try_from(vec![1u8; 8]);
    assert!(fits.is_ok());
    let too_long: Result<BoundedVec<u8, ConstU32<8>>, Vec<u8>> = BoundedVec::try_from(vec![1u8; 9]);
    assert!(too_long.is_err());
}
