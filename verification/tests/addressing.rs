use std::str::FromStr;

use anchor_lang::prelude::Pubkey;
use journal::address::Address;
use journal::contexts::{CreateEntry, DeleteEntry, InitializeCounter, UpdateEntry};
use journal::id;
use journal::pda::{find_counter_address, find_entry_address, sequence_bytes};

fn alice() -> Address {
    Address::new([1u8; 32])
}

fn bob() -> Address {
    Address::new([2u8; 32])
}

#[test]
fn program_id_is_the_declared_one() {
    let declared = Pubkey::from_str("91be9qkpnxDk6vrFc1fpxz7pxB3Ec5aAhgVussaw1VSj").unwrap();
    assert_eq!(id().to_bytes(), declared.to_bytes());
}

#[test]
fn address_round_trips_its_bytes() {
    let mut bytes = [0u8; 32];
    for (i, b) in bytes.iter_mut().enumerate() {
        *b = i as u8;
    }
    let address = Address::new(bytes);
    assert_eq!(address.to_bytes(), bytes);
    assert_eq!(address.bytes, bytes);
}

#[test]
fn address_equals_compares_every_byte() {
    let a = Address::new([7u8; 32]);
    let mut last = [7u8; 32];
    last[31] = 8;
    let mut first = [7u8; 32];
    first[0] = 6;
    assert!(a.equals(&Address::new([7u8; 32])));
    assert!(!a.equals(&Address::new(last)));
    assert!(!a.equals(&Address::new(first)));
}

#[test]
fn sequence_bytes_are_little_endian() {
    assert_eq!(sequence_bytes(0), vec![0, 0, 0, 0]);
    assert_eq!(sequence_bytes(1), vec![1, 0, 0, 0]);
    assert_eq!(sequence_bytes(258), vec![2, 1, 0, 0]);
    assert_eq!(sequence_bytes(0x0102_0304), vec![4, 3, 2, 1]);
    assert_eq!(sequence_bytes(u32::MAX), vec![255, 255, 255, 255]);
    assert_eq!(sequence_bytes(0xdead_beef), 0xdead_beefu32.to_le_bytes().to_vec());
}

#[test]
fn counter_address_matches_the_host_derivation() {
    let program = Pubkey::new_from_array(id().to_bytes());
    let (expected, _) = Pubkey::find_program_address(&[b"journal-counter"], &program);
    let found = find_counter_address(&id()).unwrap();
    assert_eq!(found.to_bytes(), expected.to_bytes());
    assert_ne!(found.to_bytes(), id().to_bytes());
}

#[test]
fn counter_address_has_its_known_value() {
    let found = find_counter_address(&id()).unwrap();
    assert_eq!(
        found.to_bytes(),
        [
            179, 95, 150, 251, 151, 123, 175, 61, 214, 214, 134, 249, 50, 10, 92, 3, 232, 191, 82,
            70, 236, 228, 134, 48, 175, 252, 219, 9, 178, 237, 95, 178
        ]
    );
}

#[test]
fn entry_address_matches_the_host_derivation() {
    let program = Pubkey::new_from_array(id().to_bytes());
    for count in [0u32, 1, 2, 255, 256, 65_536, u32::MAX] {
        for owner in [alice(), bob()] {
            let (expected, _) = Pubkey::find_program_address(
                &[b"journal-entry", &count.to_le_bytes(), &owner.to_bytes()],
                &program,
            );
            let found = find_entry_address(&id(), count, &owner).unwrap();
            assert_eq!(found.to_bytes(), expected.to_bytes());
        }
    }
}

#[test]
fn entry_address_has_its_known_values() {
    assert_eq!(
        find_entry_address(&id(), 0, &alice()).unwrap().to_bytes(),
        [
            53, 35, 39, 236, 172, 145, 75, 5, 102, 16, 78, 108, 250, 209, 226, 140, 42, 112, 193,
            190, 60, 92, 138, 24, 83, 57, 26, 154, 218, 167, 137, 2
        ]
    );
    assert_eq!(
        find_entry_address(&id(), 1, &alice()).unwrap().to_bytes(),
        [
            53, 223, 26, 193, 33, 239, 21, 81, 141, 51, 107, 120, 197, 89, 177, 210, 214, 95, 71,
            102, 72, 170, 22, 14, 173, 248, 141, 123, 183, 60, 192, 5
        ]
    );
    assert_eq!(
        find_entry_address(&id(), 258, &alice()).unwrap().to_bytes(),
        [
            92, 253, 184, 234, 5, 177, 212, 54, 15, 227, 70, 81, 71, 48, 34, 88, 77, 163, 93, 94,
            6, 104, 120, 217, 127, 23, 145, 161, 96, 97, 251, 198
        ]
    );
}

#[test]
fn entry_address_depends_on_number_owner_and_program() {
    let base = find_entry_address(&id(), 0, &alice()).unwrap();
    assert_eq!(base, find_entry_address(&id(), 0, &alice()).unwrap());
    assert_ne!(base, find_entry_address(&id(), 1, &alice()).unwrap());
    assert_ne!(base, find_entry_address(&id(), 0, &bob()).unwrap());
    assert_ne!(base, find_entry_address(&Address::new([9u8; 32]), 0, &alice()).unwrap());
    assert_ne!(base, find_counter_address(&id()).unwrap());
    assert_ne!(base, alice());
}

#[test]
fn contexts_resolve_to_the_derived_addresses() {
    let counter = find_counter_address(&id()).unwrap();
    let entry = find_entry_address(&id(), 5, &alice()).unwrap();

    let init = InitializeCounter::resolve(&id(), alice()).unwrap();
    assert_eq!(init.signer, alice());
    assert_eq!(init.journal_entry_counter_account, counter);

    let create = CreateEntry::resolve(&id(), alice(), 5).unwrap();
    assert_eq!(create.signer, alice());
    assert_eq!(create.journal_entry_counter_account, counter);
    assert_eq!(create.journal_entry_account, entry);

    let update = UpdateEntry::resolve(&id(), alice(), 5).unwrap();
    assert_eq!(update.signer, alice());
    assert_eq!(update.journal_entry_account, entry);

    let delete = DeleteEntry::resolve(&id(), alice(), 5).unwrap();
    assert_eq!(delete.signer, alice());
    assert_eq!(delete.journal_entry_account, entry);
}
