//! The accounts each operation works on: who signs, and which addresses hold
//! the records involved.

use vstd::prelude::*;
use crate::address::Address;
use crate::pda::{counter_address, entry_address, find_counter_address, find_entry_address};

verus! {

/// The accounts of a request to delete an entry.
#[derive(Clone, Copy, Debug, PartialEq, Eq)]
pub struct DeleteEntry {
    pub signer: Address,
    pub journal_entry_account: Address,
}

/// The accounts of a request to rewrite an entry.
#[derive(Clone, Copy, Debug, PartialEq, Eq)]
pub struct UpdateEntry {
    pub signer: Address,
    pub journal_entry_account: Address,
}

/// The accounts of a request to create the counter.
#[derive(Clone, Copy, Debug, PartialEq, Eq)]
pub struct InitializeCounter {
    pub signer: Address,
    pub journal_entry_counter_account: Address,
}

/// The accounts of a request to create an entry.
#[derive(Clone, Copy, Debug, PartialEq, Eq)]
pub struct CreateEntry {
    pub signer: Address,
    pub journal_entry_counter_account: Address,
    pub journal_entry_account: Address,
}

impl DeleteEntry {
    /// The accounts for deleting the entry numbered `count` of `signer`:
    /// the entry's address is the one derived from that number and signer.
    /// `None` where no address is derived.
    pub fn resolve(program_id: &Address, signer: Address, count: u32) -> (found: Option<DeleteEntry>)
        ensures
            match found {
                Some(accounts) => {
                    &&& accounts.signer == signer
                    &&& entry_address(program_id@, count as nat, signer@) == Some(
                        accounts.journal_entry_account@,
                    )
                },
                None => entry_address(program_id@, count as nat, signer@) is None,
            },
    {
        match find_entry_address(program_id, count, &signer) {
            Some(journal_entry_account) => Some(DeleteEntry { signer, journal_entry_account }),
            None => None,
        }
    }
}

impl UpdateEntry {
    /// The accounts for rewriting the entry numbered `count` of `signer`:
    /// the entry's address is the one derived from that number and signer.
    /// `None` where no address is derived.
    pub fn resolve(program_id: &Address, signer: Address, count: u32) -> (found: Option<UpdateEntry>)
        ensures
            match found {
                Some(accounts) => {
                    &&& accounts.signer == signer
                    &&& entry_address(program_id@, count as nat, signer@) == Some(
                        accounts.journal_entry_account@,
                    )
                },
                None => entry_address(program_id@, count as nat, signer@) is None,
            },
    {
        match find_entry_address(program_id, count, &signer) {
            Some(journal_entry_account) => Some(UpdateEntry { signer, journal_entry_account }),
            None => None,
        }
    }
}

impl InitializeCounter {
    /// The accounts for creating the counter: its address is the one derived
    /// for the counter. `None` where no address is derived.
    pub fn resolve(program_id: &Address, signer: Address) -> (found: Option<InitializeCounter>)
        ensures
            match found {
                Some(accounts) => {
                    &&& accounts.signer == signer
                    &&& counter_address(program_id@) == Some(
                        accounts.journal_entry_counter_account@,
                    )
                },
                None => counter_address(program_id@) is None,
            },
    {
        match find_counter_address(program_id) {
            Some(journal_entry_counter_account) => Some(
                InitializeCounter { signer, journal_entry_counter_account },
            ),
            None => None,
        }
    }
}

impl CreateEntry {
    /// The accounts for creating the entry that `signer` gets while the
    /// counter stands at `count`: the derived address of the counter and the
    /// address derived from that number and signer. `None` where either
    /// address is not derived.
    pub fn resolve(program_id: &Address, signer: Address, count: u32) -> (found: Option<CreateEntry>)
        ensures
            match found {
                Some(accounts) => {
                    &&& accounts.signer == signer
                    &&& counter_address(program_id@) == Some(
                        accounts.journal_entry_counter_account@,
                    )
                    &&& entry_address(program_id@, count as nat, signer@) == Some(
                        accounts.journal_entry_account@,
                    )
                },
                None => counter_address(program_id@) is None || entry_address(
                    program_id@,
                    count as nat,
                    signer@,
                ) is None,
            },
    {
        let journal_entry_counter_account = match find_counter_address(program_id) {
            Some(address) => address,
            None => {
                return None;
            },
        };
        match find_entry_address(program_id, count, &signer) {
            Some(journal_entry_account) => Some(
                CreateEntry { signer, journal_entry_counter_account, journal_entry_account },
            ),
            None => None,
        }
    }
}

} // verus!
