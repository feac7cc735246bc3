//! The operations as a caller submits them: the caller names itself and the
//! operation's arguments, and the ledger derives the addresses involved.

use vstd::prelude::*;
use crate::address::Address;
use crate::blueprints::JournalEntryState;
use crate::contexts::{CreateEntry, DeleteEntry, InitializeCounter, UpdateEntry};
use crate::error::JournalError;
use crate::ledger::Ledger;
use crate::laws::law_requests_keep_addresses_derived;
use crate::model::went_as;
use crate::pda::find_entry_address;

verus! {

impl Ledger {
    /// Creates the counter, at zero, at its derived address. `signer` pays.
    ///
    /// Refused with `NotFound` where no address is derived for the counter,
    /// and with `AlreadyInitialized` where the ledger has a counter.
    pub fn initialize(&mut self, signer: &Address) -> (outcome: Result<(), JournalError>)
        ensures
            went_as(old(self)@, final(self)@, outcome, old(self)@.initialize()),
            final(self)@.valid(),
            old(self)@.canonical() ==> final(self)@.canonical(),
    {
        proof {
            use_type_invariant(&*self);
            self.lemma_valid();
            if self@.canonical() {
                law_requests_keep_addresses_derived(self@, signer@, Seq::empty(), Seq::empty(), 0);
            }
        }
        let program_id: Address = self.program_id();
        match InitializeCounter::resolve(&program_id, *signer) {
            Some(ctx) => crate::initialize_counter(self, &ctx),
            None => Err(JournalError::NotFound),
        }
    }

    /// Creates an entry of `signer` with the texts given, under the
    /// counter's value, at the address derived from that value and `signer`,
    /// and moves the counter on by one.
    ///
    /// Refused with `LengthExceeded` where the title is over 50 bytes or the
    /// message over 100, whatever else holds. Else refused with `NotFound`
    /// where there is no counter at the counter's derived address or an
    /// address is not derived, and with `AddressCollision` where the entry's
    /// address is taken.
    pub fn create(&mut self, signer: &Address, title: String, message: String) -> (outcome: Result<
        (),
        JournalError,
    >)
        requires
            old(self)@.count() matches Some(count) ==> count < u32::MAX,
        ensures
            went_as(
                old(self)@,
                final(self)@,
                outcome,
                old(self)@.create(signer@, title@, message@),
            ),
            final(self)@.valid(),
            old(self)@.canonical() ==> final(self)@.canonical(),
    {
        proof {
            use_type_invariant(&*self);
            self.lemma_valid();
            if self@.canonical() {
                law_requests_keep_addresses_derived(self@, signer@, title@, message@, 0);
            }
        }
        if !JournalEntryState::fits(&title, &message) {
            return Err(JournalError::LengthExceeded);
        }
        let count: u32 = match self.count() {
            Some(count) => count,
            None => {
                return Err(JournalError::NotFound);
            },
        };
        let program_id: Address = self.program_id();
        match CreateEntry::resolve(&program_id, *signer, count) {
            Some(ctx) => crate::create_journal_entry(self, &ctx, title, message),
            None => Err(JournalError::NotFound),
        }
    }

    /// Puts the texts given into the entry numbered `count` of `signer`,
    /// found at the address derived from the two.
    ///
    /// Refused with `LengthExceeded` where the title is over 50 bytes or the
    /// message over 100, whatever else holds. Else refused with `NotFound`
    /// where no address is derived or no entry is there, and with
    /// `Unauthorized` where the entry there has another owner or number.
    pub fn update(&mut self, signer: &Address, count: u32, title: String, message: String) -> (outcome:
        Result<(), JournalError>)
        ensures
            went_as(
                old(self)@,
                final(self)@,
                outcome,
                old(self)@.update(signer@, count as nat, title@, message@),
            ),
            final(self)@.valid(),
            old(self)@.canonical() ==> final(self)@.canonical(),
    {
        proof {
            use_type_invariant(&*self);
            self.lemma_valid();
            if self@.canonical() {
                law_requests_keep_addresses_derived(self@, signer@, title@, message@, count as nat);
            }
        }
        if !JournalEntryState::fits(&title, &message) {
            return Err(JournalError::LengthExceeded);
        }
        let program_id: Address = self.program_id();
        match UpdateEntry::resolve(&program_id, *signer, count) {
            Some(ctx) => crate::update_journal_entry(self, &ctx, title, message, count),
            None => Err(JournalError::NotFound),
        }
    }

    /// Takes the entry numbered `count` of `signer`, found at the address
    /// derived from the two, off the ledger.
    ///
    /// Refused with `NotFound` where no address is derived or no entry is
    /// there, and with `Unauthorized` where the entry there has another
    /// owner or number.
    pub fn delete(&mut self, signer: &Address, count: u32) -> (outcome: Result<(), JournalError>)
        ensures
            went_as(old(self)@, final(self)@, outcome, old(self)@.delete(signer@, count as nat)),
            final(self)@.valid(),
            old(self)@.canonical() ==> final(self)@.canonical(),
    {
        proof {
            use_type_invariant(&*self);
            self.lemma_valid();
            if self@.canonical() {
                law_requests_keep_addresses_derived(
                    self@,
                    signer@,
                    Seq::empty(),
                    Seq::empty(),
                    count as nat,
                );
            }
        }
        let program_id: Address = self.program_id();
        match DeleteEntry::resolve(&program_id, *signer, count) {
            Some(ctx) => crate::delete_journal_entry(self, &ctx, count),
            None => Err(JournalError::NotFound),
        }
    }

    /// Reads the entry numbered `count` of `owner` at its derived address.
    pub fn entry_of(&self, owner: &Address, count: u32) -> (found: Option<&JournalEntryState>)
        ensures
            match found {
                Some(entry) => self@.entry_of(owner@, count as nat) matches Some(record)
                    && record.state == entry@,
                None => self@.entry_of(owner@, count as nat) is None,
            },
    {
        let program_id: Address = self.program_id();
        match find_entry_address(&program_id, count, owner) {
            Some(address) => self.entry(&address),
            None => None,
        }
    }
}

} // verus!
