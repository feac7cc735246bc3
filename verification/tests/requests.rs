use journal::address::Address;
use journal::error::JournalError;
use journal::id;
use journal::ledger::Ledger;
use journal::pda::{find_counter_address, find_entry_address};

fn alice() -> Address {
    Address::new([1u8; 32])
}

fn bob() -> Address {
    Address::new([2u8; 32])
}

fn started() -> Ledger {
    let mut ledger = Ledger::new(id());
    assert_eq!(ledger.initialize(&alice()), Ok(()));
    ledger
}

#[test]
fn scenario_create_update_delete() {
    let a = alice();
    let mut ledger = Ledger::new(id());

    assert_eq!(ledger.initialize(&a), Ok(()));
    assert_eq!(ledger.create(&a, "Day 1".to_string(), "Hello".to_string()), Ok(()));
    assert_eq!(ledger.count(), Some(1));
    let record0 = ledger.entry_of(&a, 0).unwrap();
    assert_eq!(record0.owner, a);
    assert_eq!(record0.title, "Day 1");
    assert_eq!(record0.message, "Hello");

    let address = find_entry_address(&id(), 0, &a).unwrap();
    assert_eq!(ledger.update(&a, 0, "Day 1 edit".to_string(), "Hello!".to_string()), Ok(()));
    let record0 = ledger.entry_of(&a, 0).unwrap();
    assert_eq!(record0.owner, a);
    assert_eq!(record0.title, "Day 1 edit");
    assert_eq!(record0.message, "Hello!");
    assert_eq!(ledger.entry(&address).unwrap().title, "Day 1 edit");
    assert_eq!(ledger.sequence_number(&address), Some(0));
    assert_eq!(ledger.count(), Some(1));

    assert_eq!(ledger.delete(&a, 0), Ok(()));
    assert!(ledger.entry_of(&a, 0).is_none());
    assert!(ledger.entry(&address).is_none());
    assert_eq!(ledger.count(), Some(1));
}

#[test]
fn initialize_puts_the_counter_at_its_derived_address() {
    let ledger = started();
    assert_eq!(ledger.count(), Some(0));
    assert_eq!(ledger.counter_account(), find_counter_address(&id()));
}

#[test]
fn initialize_is_not_idempotent() {
    let mut ledger = started();
    assert_eq!(ledger.initialize(&alice()), Err(JournalError::AlreadyInitialized));
    assert_eq!(ledger.initialize(&bob()), Err(JournalError::AlreadyInitialized));
    assert_eq!(ledger.count(), Some(0));
}

#[test]
fn create_before_initialize_is_not_found() {
    let mut ledger = Ledger::new(id());
    assert_eq!(
        ledger.create(&alice(), "t".to_string(), "m".to_string()),
        Err(JournalError::NotFound)
    );
    assert_eq!(ledger.count(), None);
    assert!(ledger.entry_of(&alice(), 0).is_none());
}

#[test]
fn create_takes_the_count_and_adds_one() {
    let mut ledger = started();
    for expected in 0u32..6 {
        let before = ledger.count().unwrap();
        assert_eq!(before, expected);
        let signer = if expected % 2 == 0 { alice() } else { bob() };
        assert_eq!(ledger.create(&signer, format!("t{expected}"), format!("m{expected}")), Ok(()));
        assert_eq!(ledger.count(), Some(before + 1));
        let address = find_entry_address(&id(), before, &signer).unwrap();
        assert_eq!(ledger.sequence_number(&address), Some(before));
        let entry = ledger.entry_of(&signer, before).unwrap();
        assert_eq!(entry.owner, signer);
        assert_eq!(entry.title, format!("t{expected}"));
        assert_eq!(entry.message, format!("m{expected}"));
    }
}

#[test]
fn two_creates_get_consecutive_numbers_and_distinct_addresses() {
    let mut ledger = started();
    assert_eq!(ledger.create(&bob(), "x".to_string(), "y".to_string()), Ok(()));
    let before = ledger.count().unwrap();
    assert_eq!(ledger.create(&alice(), "one".to_string(), "1".to_string()), Ok(()));
    assert_eq!(ledger.create(&alice(), "two".to_string(), "2".to_string()), Ok(()));
    let first = find_entry_address(&id(), before, &alice()).unwrap();
    let second = find_entry_address(&id(), before + 1, &alice()).unwrap();
    assert_ne!(first, second);
    assert_eq!(ledger.sequence_number(&first), Some(before));
    assert_eq!(ledger.sequence_number(&second), Some(before + 1));
    assert_eq!(ledger.entry(&first).unwrap().title, "one");
    assert_eq!(ledger.entry(&second).unwrap().title, "two");
    assert_eq!(ledger.count(), Some(before + 2));
}

#[test]
fn over_length_requests_fail_and_leave_the_state() {
    let mut ledger = started();
    assert_eq!(ledger.create(&alice(), "Day 1".to_string(), "Hello".to_string()), Ok(()));

    assert_eq!(
        ledger.create(&alice(), "t".repeat(51), "m".to_string()),
        Err(JournalError::LengthExceeded)
    );
    assert_eq!(
        ledger.create(&alice(), "t".to_string(), "m".repeat(101)),
        Err(JournalError::LengthExceeded)
    );
    assert_eq!(
        ledger.update(&alice(), 0, "t".repeat(51), "m".to_string()),
        Err(JournalError::LengthExceeded)
    );
    assert_eq!(
        ledger.update(&alice(), 0, "t".to_string(), "m".repeat(101)),
        Err(JournalError::LengthExceeded)
    );
    assert_eq!(
        ledger.update(&alice(), 9, "t".repeat(51), "m".to_string()),
        Err(JournalError::LengthExceeded)
    );

    assert_eq!(ledger.count(), Some(1));
    assert!(ledger.entry_of(&alice(), 1).is_none());
    let entry = ledger.entry_of(&alice(), 0).unwrap();
    assert_eq!(entry.title, "Day 1");
    assert_eq!(entry.message, "Hello");

    let mut fresh = Ledger::new(id());
    assert_eq!(
        fresh.create(&alice(), "t".repeat(51), "m".to_string()),
        Err(JournalError::LengthExceeded)
    );
    assert_eq!(fresh.count(), None);
}

#[test]
fn update_then_read_gives_the_new_texts() {
    let mut ledger = started();
    assert_eq!(ledger.create(&alice(), "a".to_string(), "b".to_string()), Ok(()));
    assert_eq!(ledger.create(&bob(), "c".to_string(), "d".to_string()), Ok(()));
    let address = find_entry_address(&id(), 1, &bob()).unwrap();
    assert_eq!(ledger.update(&bob(), 1, "t".repeat(50), "m".repeat(100)), Ok(()));
    let entry = ledger.entry_of(&bob(), 1).unwrap();
    assert_eq!(entry.owner, bob());
    assert_eq!(entry.title, "t".repeat(50));
    assert_eq!(entry.message, "m".repeat(100));
    assert_eq!(ledger.sequence_number(&address), Some(1));
    assert_eq!(ledger.entry_of(&alice(), 0).unwrap().title, "a");
    assert_eq!(ledger.count(), Some(2));
}

#[test]
fn requests_after_delete_are_not_found() {
    let mut ledger = started();
    assert_eq!(ledger.create(&alice(), "a".to_string(), "b".to_string()), Ok(()));
    assert_eq!(ledger.delete(&alice(), 0), Ok(()));
    assert_eq!(
        ledger.update(&alice(), 0, "t".to_string(), "m".to_string()),
        Err(JournalError::NotFound)
    );
    assert_eq!(ledger.delete(&alice(), 0), Err(JournalError::NotFound));
    assert_eq!(ledger.count(), Some(1));
}

#[test]
fn a_deleted_number_is_not_given_out_again() {
    let mut ledger = started();
    assert_eq!(ledger.create(&alice(), "a".to_string(), "b".to_string()), Ok(()));
    assert_eq!(ledger.delete(&alice(), 0), Ok(()));
    assert_eq!(ledger.create(&alice(), "c".to_string(), "d".to_string()), Ok(()));
    assert!(ledger.entry_of(&alice(), 0).is_none());
    assert_eq!(ledger.entry_of(&alice(), 1).unwrap().title, "c");
    assert_eq!(ledger.count(), Some(2));
}

#[test]
fn another_signer_cannot_reach_the_entry() {
    let mut ledger = started();
    assert_eq!(ledger.create(&alice(), "Day 1".to_string(), "Hello".to_string()), Ok(()));
    assert_eq!(
        ledger.update(&bob(), 0, "stolen".to_string(), "!".to_string()),
        Err(JournalError::NotFound)
    );
    assert_eq!(ledger.delete(&bob(), 0), Err(JournalError::NotFound));
    let entry = ledger.entry_of(&alice(), 0).unwrap();
    assert_eq!(entry.owner, alice());
    assert_eq!(entry.title, "Day 1");
    assert_eq!(entry.message, "Hello");
    assert!(ledger.entry_of(&bob(), 0).is_none());
    assert_eq!(ledger.count(), Some(1));
}

#[test]
fn requests_under_a_number_never_issued_are_not_found() {
    let mut ledger = started();
    assert_eq!(
        ledger.update(&alice(), 0, "t".to_string(), "m".to_string()),
        Err(JournalError::NotFound)
    );
    assert_eq!(ledger.delete(&alice(), 0), Err(JournalError::NotFound));
    assert_eq!(ledger.delete(&alice(), u32::MAX), Err(JournalError::NotFound));
    assert_eq!(ledger.count(), Some(0));
}

#[test]
fn ledgers_of_two_programs_use_different_addresses() {
    let other = Address::new([9u8; 32]);
    let mut ledger = Ledger::new(other);
    assert_eq!(ledger.program_id(), other);
    assert_eq!(ledger.initialize(&alice()), Ok(()));
    assert_eq!(ledger.create(&alice(), "a".to_string(), "b".to_string()), Ok(()));
    let here = find_entry_address(&other, 0, &alice()).unwrap();
    let there = find_entry_address(&id(), 0, &alice()).unwrap();
    assert_ne!(here, there);
    assert!(ledger.entry(&here).is_some());
    assert!(ledger.entry(&there).is_none());
    assert_ne!(ledger.counter_account(), find_counter_address(&id()));
}
