use std::collections::HashMap;

use kitties::errors::{DispatchError, Error, LedgerError};
use kitties::genome::{breed_genomes, Kitty};
use kitties::ledger::Ledger;
use kitties::pallet::{Event, Pallet};
use kitties::randomness::random_value;

const DEPOSIT: u128 = 100_000_000_000_000;
const START_BALANCE: u128 = 10_000_000_000_000_000;

fn seed() -> [u8; 32] {
    [7u8; 32]
}

fn new_test_ext() -> (Pallet, Ledger) {
    let mut ledger = Ledger::new();
    ledger.set_balance(1, START_BALANCE);
    ledger.set_balance(2, START_BALANCE);
    (Pallet::new(DEPOSIT), ledger)
}

/// A registry whose counter already sits at the id type's maximum, holding
/// entities 1 and 2 owned by account 1.
fn exhausted_registry() -> Pallet {
    let mut genomes: HashMap<u32, Kitty> = HashMap::new();
    genomes.insert(1, Kitty([0u8; 16]));
    genomes.insert(2, Kitty([9u8; 16]));
    let mut owners: HashMap<u32, u64> = HashMap::new();
    owners.insert(1, 1);
    owners.insert(2, 1);
    Pallet {
        deposit: DEPOSIT,
        count: Some(u32::MAX),
        genomes,
        owners,
        events: Vec::new(),
    }
}

#[test]
fn create_reserve_failed_leaves_count_unset() {
    let (mut p, mut l) = new_test_ext();
    l.set_balance(3, DEPOSIT - 1);
    let r = p.create(&mut l, 3, &seed(), Some(0));
    assert_eq!(r, Err(DispatchError::Module(Error::ReserveFailed)));
    assert_eq!(p.kitties_count(), None);
    assert!(p.last_event().is_none());
    assert_eq!(l.free_balance(3), DEPOSIT - 1);
    assert_eq!(l.reserved_balance(3), 0);
}

#[test]
fn breeding_is_deterministic() {
    let a = [0x3Cu8; 16];
    let b = [0xC3u8; 16];
    let s = [0x5Au8; 16];
    assert_eq!(breed_genomes(&a, &b, &s), breed_genomes(&a, &b, &s));
    assert_eq!(
        random_value(1, &seed(), Some(4)),
        random_value(1, &seed(), Some(4))
    );
}

#[test]
fn breeding_selects_bits_per_selector() {
    let a = [0xAAu8; 16];
    let b = [0x55u8; 16];
    let s = [0xF0u8; 16];
    // high nibble from a (0xA0), low nibble from b (0x05)
    assert_eq!(breed_genomes(&a, &b, &s), [0xA5u8; 16]);
    // all-ones selector copies parent a; all-zeros copies parent b
    assert_eq!(breed_genomes(&a, &b, &[0xFFu8; 16]), a);
    assert_eq!(breed_genomes(&a, &b, &[0x00u8; 16]), b);
}

#[test]
fn breeding_parent_order_matters() {
    let a = [0xFFu8; 16];
    let b = [0x00u8; 16];
    let s = [0xF0u8; 16];
    assert_eq!(breed_genomes(&a, &b, &s), [0xF0u8; 16]);
    assert_eq!(breed_genomes(&b, &a, &s), [0x0Fu8; 16]);
    assert_ne!(breed_genomes(&a, &b, &s), breed_genomes(&b, &a, &s));
}

#[test]
fn randomness_depends_on_each_input() {
    let zero_seed = [0u8; 32];
    let r = random_value(1, &zero_seed, None);
    // a real digest, not a prefix of the (all-zero) payload handed in
    assert_ne!(r, [0u8; 16]);
    assert_ne!(r, random_value(2, &zero_seed, None));
    assert_ne!(r, random_value(1, &seed(), None));
    assert_ne!(r, random_value(1, &zero_seed, Some(0)));
}

#[test]
fn create_overflow_changes_nothing() {
    let mut p = exhausted_registry();
    let mut l = Ledger::new();
    l.set_balance(1, START_BALANCE);
    let r = p.create(&mut l, 1, &seed(), Some(0));
    assert_eq!(r, Err(DispatchError::Module(Error::KittiesCountOverflow)));
    assert_eq!(p.kitties_count(), Some(u32::MAX));
    assert_eq!(p.owner(1), Some(1));
    assert_eq!(p.owner(2), Some(1));
    assert!(p.last_event().is_none());
    assert_eq!(l.free_balance(1), START_BALANCE);
    assert_eq!(l.reserved_balance(1), 0);
}

#[test]
fn breed_overflow_changes_nothing() {
    let mut p = exhausted_registry();
    let r = p.breed(1, 1, 2, &seed(), Some(0));
    assert_eq!(r, Err(DispatchError::Module(Error::KittiesCountOverflow)));
    assert_eq!(p.kitties_count(), Some(u32::MAX));
    assert!(p.kitties(1).is_some());
    assert!(p.kitties(2).is_some());
    assert!(p.last_event().is_none());
}

#[test]
fn breed_child_combines_parent_genomes() {
    let (mut p, mut l) = new_test_ext();
    assert!(p.create(&mut l, 1, &seed(), Some(0)).is_ok());
    assert!(p.create(&mut l, 1, &seed(), Some(1)).is_ok());
    assert!(p.breed(1, 1, 2, &seed(), Some(2)).is_ok());
    let parent1 = p.kitties(1).expect("entity 1").0;
    let parent2 = p.kitties(2).expect("entity 2").0;
    let selector = random_value(1, &seed(), Some(2));
    let child = p.kitties(3).expect("entity 3").0;
    assert_eq!(child, breed_genomes(&parent1, &parent2, &selector));
    assert_eq!(p.owner(3), Some(1));
}

#[test]
fn buy_insufficient_funds_changes_nothing() {
    let (mut p, mut l) = new_test_ext();
    assert!(p.create(&mut l, 1, &seed(), Some(0)).is_ok());
    l.set_balance(4, 10);
    let r = p.buy(&mut l, 4, 1, 100);
    assert_eq!(
        r,
        Err(DispatchError::Currency(LedgerError::InsufficientBalance))
    );
    assert_eq!(p.owner(1), Some(1));
    assert_eq!(l.free_balance(4), 10);
    assert_eq!(l.free_balance(1), START_BALANCE - DEPOSIT);
    assert_eq!(l.reserved_balance(1), DEPOSIT);
    assert_eq!(p.last_event().expect("event"), Event::KittiesCreate(1, 1));
}

#[test]
fn buy_seller_overflow_changes_nothing() {
    let (mut p, mut l) = new_test_ext();
    assert!(p.create(&mut l, 1, &seed(), Some(0)).is_ok());
    l.set_balance(1, u128::MAX);
    let r = p.buy(&mut l, 2, 1, 100);
    assert_eq!(r, Err(DispatchError::Currency(LedgerError::Overflow)));
    assert_eq!(p.owner(1), Some(1));
    assert_eq!(l.free_balance(1), u128::MAX);
    assert_eq!(l.free_balance(2), START_BALANCE);
}

#[test]
fn buy_releases_sellers_deposit() {
    let (mut p, mut l) = new_test_ext();
    assert!(p.create(&mut l, 1, &seed(), Some(0)).is_ok());
    assert!(p.buy(&mut l, 2, 1, 1_000).is_ok());
    assert_eq!(p.owner(1), Some(2));
    assert_eq!(l.free_balance(1), START_BALANCE + 1_000);
    assert_eq!(l.reserved_balance(1), 0);
    assert_eq!(l.free_balance(2), START_BALANCE - 1_000);
}

#[test]
fn buy_again_by_new_owner_fails() {
    let (mut p, mut l) = new_test_ext();
    assert!(p.create(&mut l, 1, &seed(), Some(0)).is_ok());
    assert!(p.buy(&mut l, 2, 1, 1_000).is_ok());
    assert_eq!(
        p.buy(&mut l, 2, 1, 1_000),
        Err(DispatchError::Module(Error::BuyerIsOwner))
    );
    assert_eq!(p.owner(1), Some(2));
}

#[test]
fn sell_to_self_releases_deposit_only() {
    let (mut p, mut l) = new_test_ext();
    assert!(p.create(&mut l, 1, &seed(), Some(0)).is_ok());
    assert!(p.sell(&mut l, 1, 1, 1, 1_000).is_ok());
    assert_eq!(p.owner(1), Some(1));
    assert_eq!(l.free_balance(1), START_BALANCE);
    assert_eq!(l.reserved_balance(1), 0);
    assert_eq!(p.last_event().expect("event"), Event::SellKitty(1, 1, 1_000, 1));
}

#[test]
fn transfer_chain_tracks_owner() {
    let (mut p, mut l) = new_test_ext();
    assert!(p.create(&mut l, 1, &seed(), Some(0)).is_ok());
    assert!(p.transfer(1, 2, 1).is_ok());
    assert_eq!(p.owner(1), Some(2));
    assert_eq!(
        p.transfer(1, 3, 1),
        Err(DispatchError::Module(Error::NotOwner))
    );
    assert_eq!(p.owner(1), Some(2));
    assert!(p.transfer(2, 3, 1).is_ok());
    assert_eq!(p.owner(1), Some(3));
}

#[test]
fn ledger_transfer_moves_funds() {
    let mut l = Ledger::new();
    l.set_balance(1, 500);
    l.set_balance(2, 100);
    assert!(l.transfer(1, 2, 400).is_ok());
    assert_eq!(l.free_balance(1), 100);
    assert_eq!(l.free_balance(2), 500);
    assert_eq!(
        l.transfer(1, 2, 400),
        Err(LedgerError::InsufficientBalance)
    );
    assert_eq!(l.free_balance(1), 100);
    assert_eq!(l.free_balance(2), 500);
}

#[test]
fn ledger_unreserve_releases_at_most_reserved() {
    let mut l = Ledger::new();
    l.set_balance(1, 500);
    assert!(l.reserve(1, 200).is_ok());
    assert_eq!(l.free_balance(1), 300);
    assert_eq!(l.reserved_balance(1), 200);
    l.unreserve(1, 1_000);
    assert_eq!(l.free_balance(1), 500);
    assert_eq!(l.reserved_balance(1), 0);
    assert_eq!(l.reserve(1, 501), Err(LedgerError::InsufficientBalance));
}
