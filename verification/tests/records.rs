use journal::blueprints::{
    byte_len, JournalEntryCounterState, JournalEntryState, DISCRIMINATOR_LEN, LENGTH_PREFIX_LEN,
    MESSAGE_MAX_LEN, TITLE_MAX_LEN,
};

#[test]
fn bounds_are_fifty_and_one_hundred() {
    assert_eq!(TITLE_MAX_LEN, 50);
    assert_eq!(MESSAGE_MAX_LEN, 100);
    assert_eq!(DISCRIMINATOR_LEN, 8);
    assert_eq!(LENGTH_PREFIX_LEN, 4);
}

#[test]
fn reserved_space_follows_the_layout() {
    assert_eq!(JournalEntryState::INIT_SPACE, 190);
    assert_eq!(JournalEntryState::INIT_SPACE, 32 + 4 + TITLE_MAX_LEN + 4 + MESSAGE_MAX_LEN);
    assert_eq!(JournalEntryState::space(), 198);
    assert_eq!(JournalEntryCounterState::INIT_SPACE, 4);
    assert_eq!(JournalEntryCounterState::space(), 12);
}

#[test]
fn text_is_measured_in_bytes() {
    assert_eq!(byte_len(&String::new()), 0);
    assert_eq!(byte_len(&"Day 1".to_string()), 5);
    assert_eq!(byte_len(&"é".to_string()), 2);
    assert_eq!(byte_len(&"日記".to_string()), 6);
}

#[test]
fn fits_accepts_texts_at_their_bounds() {
    assert!(JournalEntryState::fits(&String::new(), &String::new()));
    assert!(JournalEntryState::fits(&"a".repeat(50), &"b".repeat(100)));
    assert!(!JournalEntryState::fits(&"a".repeat(51), &"b".repeat(100)));
    assert!(!JournalEntryState::fits(&"a".repeat(50), &"b".repeat(101)));
    assert!(!JournalEntryState::fits(&"a".repeat(51), &String::new()));
    assert!(!JournalEntryState::fits(&String::new(), &"b".repeat(101)));
}

#[test]
fn fits_counts_bytes_not_characters() {
    // 25 two-byte characters fill a title; 26 do not.
    assert!(JournalEntryState::fits(&"é".repeat(25), &String::new()));
    assert!(!JournalEntryState::fits(&"é".repeat(26), &String::new()));
    assert!(JournalEntryState::fits(&String::new(), &"é".repeat(50)));
    assert!(!JournalEntryState::fits(&String::new(), &"é".repeat(51)));
}
