//! A journal kept on a key-addressed ledger.
//!
//! A signer creates, rewrites and deletes small text entries. Every entry is
//! numbered by a ledger-wide counter and stored at an address derived from
//! that number and the signer's identity.
//!
//! The four functions of this module apply one operation each to a
//! [`ledger::Ledger`], on the accounts that the operation names. An operation
//! either takes effect in full or is refused and changes nothing.

use vstd::prelude::*;

pub mod address;
pub mod blueprints;
pub mod contexts;
pub mod error;
pub mod laws;
pub mod ledger;
pub mod model;
pub mod pda;
pub mod requests;

use crate::address::Address;
use crate::blueprints::JournalEntryState;
use crate::contexts::{CreateEntry, DeleteEntry, InitializeCounter, UpdateEntry};
use crate::error::JournalError;
use crate::ledger::Ledger;
use crate::model::{
    create_journal_entry_step, delete_journal_entry_step, initialize_counter_step,
    update_journal_entry_step, went_as,
};

verus! {

/// The program that the journal is deployed as.
pub fn id() -> (program_id: Address)
    ensures
        program_id@ == seq![
            119u8, 4, 169, 226, 185, 144, 119, 149, 67, 104, 216, 214, 249, 58, 54, 176, 107, 216, 7,
            14, 213, 206, 212, 67, 119, 133, 57, 170, 88, 249, 158, 68,
        ],
{
    let program_id = Address::new(
        [
            119, 4, 169, 226, 185, 144, 119, 149, 67, 104, 216, 214, 249, 58, 54, 176, 107, 216, 7,
            14, 213, 206, 212, 67, 119, 133, 57, 170, 88, 249, 158, 68,
        ],
    );
    assert(program_id@ =~= seq![
        119u8, 4, 169, 226, 185, 144, 119, 149, 67, 104, 216, 214, 249, 58, 54, 176, 107, 216, 7,
        14, 213, 206, 212, 67, 119, 133, 57, 170, 88, 249, 158, 68,
    ]);
    program_id
}

/// Creates the counter, at zero, at the address that `ctx` names.
///
/// Refused with `AlreadyInitialized` where the ledger has a counter.
pub fn initialize_counter(ledger: &mut Ledger, ctx: &InitializeCounter) -> (outcome: Result<
    (),
    JournalError,
>)
    ensures
        went_as(
            old(ledger)@,
            final(ledger)@,
            outcome,
            initialize_counter_step(old(ledger)@, ctx.journal_entry_counter_account@),
        ),
        final(ledger)@.valid(),
{
    match ledger.count() {
        Some(_) => Err(JournalError::AlreadyInitialized),
        None => {
            ledger.open_counter(ctx.journal_entry_counter_account);
            Ok(())
        },
    }
}

/// Creates an entry for the signer of `ctx` with the texts given, numbers it
/// with the counter's value and moves the counter on by one.
///
/// Refused, in this order: with `LengthExceeded` where the title is over 50
/// bytes or the message over 100; with `NotFound` where the counter is not
/// at the address that `ctx` names for it; with `AddressCollision` where the
/// address that `ctx` names for the entry is taken.
pub fn create_journal_entry(
    ledger: &mut Ledger,
    ctx: &CreateEntry,
    title: String,
    message: String,
) -> (outcome: Result<(), JournalError>)
    requires
        old(ledger)@.count() matches Some(count) ==> count < u32::MAX,
    ensures
        went_as(
            old(ledger)@,
            final(ledger)@,
            outcome,
            create_journal_entry_step(
                old(ledger)@,
                ctx.signer@,
                ctx.journal_entry_counter_account@,
                ctx.journal_entry_account@,
                title@,
                message@,
            ),
        ),
        final(ledger)@.valid(),
{
    proof {
        use_type_invariant(&*ledger);
        ledger.lemma_valid();
    }
    if !JournalEntryState::fits(&title, &message) {
        return Err(JournalError::LengthExceeded);
    }
    match ledger.counter_account() {
        Some(address) => {
            if !address.equals(&ctx.journal_entry_counter_account) {
                return Err(JournalError::NotFound);
            }
        },
        None => {
            return Err(JournalError::NotFound);
        },
    }
    if ctx.journal_entry_account.equals(&ctx.journal_entry_counter_account) {
        return Err(JournalError::AddressCollision);
    }
    if ledger.find(&ctx.journal_entry_account).is_some() {
        return Err(JournalError::AddressCollision);
    }
    ledger.store_entry(ctx.journal_entry_account, ctx.signer, title, message);
    Ok(())
}

/// Puts the texts given into the entry that `ctx` names, which its signer
/// holds under the number `count`. Owner, number and address stay.
///
/// Refused, in this order: with `LengthExceeded` where the title is over 50
/// bytes or the message over 100; with `NotFound` where no entry is at the
/// address; with `Unauthorized` where the entry there has another owner or
/// another number.
pub fn update_journal_entry(
    ledger: &mut Ledger,
    ctx: &UpdateEntry,
    title: String,
    message: String,
    count: u32,
) -> (outcome: Result<(), JournalError>)
    ensures
        went_as(
            old(ledger)@,
            final(ledger)@,
            outcome,
            update_journal_entry_step(
                old(ledger)@,
                ctx.signer@,
                ctx.journal_entry_account@,
                title@,
                message@,
                count as nat,
            ),
        ),
        final(ledger)@.valid(),
{
    proof {
        use_type_invariant(&*ledger);
        ledger.lemma_valid();
    }
    if !JournalEntryState::fits(&title, &message) {
        return Err(JournalError::LengthExceeded);
    }
    let slot: usize = match ledger.find(&ctx.journal_entry_account) {
        Some(slot) => slot,
        None => {
            return Err(JournalError::NotFound);
        },
    };
    let (owner, sequence_number) = ledger.key_at(slot);
    if !owner.equals(&ctx.signer) || sequence_number != count {
        return Err(JournalError::Unauthorized);
    }
    ledger.rewrite(slot, title, message);
    Ok(())
}

/// Takes the entry that `ctx` names, which its signer holds under the number
/// `count`, off the ledger. The counter stays as it is.
///
/// Refused with `NotFound` where no entry is at the address, and with
/// `Unauthorized` where the entry there has another owner or another number.
pub fn delete_journal_entry(ledger: &mut Ledger, ctx: &DeleteEntry, count: u32) -> (outcome: Result<
    (),
    JournalError,
>)
    ensures
        went_as(
            old(ledger)@,
            final(ledger)@,
            outcome,
            delete_journal_entry_step(
                old(ledger)@,
                ctx.signer@,
                ctx.journal_entry_account@,
                count as nat,
            ),
        ),
        final(ledger)@.valid(),
{
    proof {
        use_type_invariant(&*ledger);
        ledger.lemma_valid();
    }
    let slot: usize = match ledger.find(&ctx.journal_entry_account) {
        Some(slot) => slot,
        None => {
            return Err(JournalError::NotFound);
        },
    };
    let (owner, sequence_number) = ledger.key_at(slot);
    if !owner.equals(&ctx.signer) || sequence_number != count {
        return Err(JournalError::Unauthorized);
    }
    ledger.release(slot);
    Ok(())
}

} // verus!
