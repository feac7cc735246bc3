//! The two kinds of record and the room each one reserves.

use vstd::prelude::*;
use vstd::utf8::encode_utf8;
use crate::address::Address;

verus! {

/// Most bytes a title may take.
pub const TITLE_MAX_LEN: usize = 50;

/// Most bytes a message may take.
pub const MESSAGE_MAX_LEN: usize = 100;

/// Bytes at the head of every record that the host keeps for its own use.
pub const DISCRIMINATOR_LEN: usize = 8;

/// Bytes in front of each text that hold its length.
pub const LENGTH_PREFIX_LEN: usize = 4;

/// One journal entry.
#[derive(Clone, Debug, PartialEq, Eq)]
pub struct JournalEntryState {
    pub owner: Address,
    pub title: String,
    pub message: String,
}

/// The counter that numbers the entries.
#[derive(Clone, Copy, Debug, PartialEq, Eq, Structural)]
pub struct JournalEntryCounterState {
    pub count: u32,
}

/// What an entry holds, as plain values.
pub ghost struct JournalEntryView {
    pub owner: Seq<u8>,
    pub title: Seq<char>,
    pub message: Seq<char>,
}

/// The length of a text in the unit that storage is reserved in: the bytes
/// of its UTF-8 form.
pub open spec fn text_len(text: Seq<char>) -> nat {
    encode_utf8(text).len()
}

/// Both texts are within their bounds.
pub open spec fn within_bounds(title: Seq<char>, message: Seq<char>) -> bool {
    text_len(title) <= TITLE_MAX_LEN && text_len(message) <= MESSAGE_MAX_LEN
}

/// Measures a text in bytes.
pub fn byte_len(text: &String) -> (bytes: usize)
    ensures
        bytes == text_len(text@),
{
    text.as_str().as_bytes().len()
}

impl View for JournalEntryState {
    type V = JournalEntryView;

    open spec fn view(&self) -> JournalEntryView {
        JournalEntryView { owner: self.owner@, title: self.title@, message: self.message@ }
    }
}

impl JournalEntryView {
    /// The owner is an address and both texts are within their bounds.
    pub open spec fn valid(self) -> bool {
        self.owner.len() == 32 && within_bounds(self.title, self.message)
    }

    /// Bytes this entry fills when it is written out: the host's header, the
    /// owner, and each text behind its length prefix.
    pub open spec fn stored_len(self) -> nat {
        DISCRIMINATOR_LEN as nat + 32 + LENGTH_PREFIX_LEN as nat + text_len(self.title)
            + LENGTH_PREFIX_LEN as nat + text_len(self.message)
    }
}

impl JournalEntryState {
    /// Bytes an entry needs behind the host's header when both texts are as
    /// long as they may be.
    pub const INIT_SPACE: usize = 32 + (LENGTH_PREFIX_LEN + TITLE_MAX_LEN) + (LENGTH_PREFIX_LEN
        + MESSAGE_MAX_LEN);

    /// Bytes reserved for every entry, whatever its texts hold.
    pub fn space() -> (bytes: usize)
        ensures
            bytes == DISCRIMINATOR_LEN + JournalEntryState::INIT_SPACE,
            bytes == 198,
    {
        DISCRIMINATOR_LEN + JournalEntryState::INIT_SPACE
    }

    /// Whether a title and a message are within their bounds.
    pub fn fits(title: &String, message: &String) -> (ok: bool)
        ensures
            ok == within_bounds(title@, message@),
    {
        byte_len(title) <= TITLE_MAX_LEN && byte_len(message) <= MESSAGE_MAX_LEN
    }
}

impl JournalEntryCounterState {
    /// Bytes the counter needs behind the host's header.
    pub const INIT_SPACE: usize = 4;

    /// Bytes reserved for the counter.
    pub fn space() -> (bytes: usize)
        ensures
            bytes == DISCRIMINATOR_LEN + JournalEntryCounterState::INIT_SPACE,
            bytes == 12,
    {
        DISCRIMINATOR_LEN + JournalEntryCounterState::INIT_SPACE
    }
}

} // verus!
