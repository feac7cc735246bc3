//! The ledger as a mathematical state, and each operation as a function
//! from a state to the next state or to the reason for a refusal.

use vstd::prelude::*;
use crate::blueprints::{
    within_bounds, JournalEntryCounterState, JournalEntryState, JournalEntryView, DISCRIMINATOR_LEN,
};
use crate::error::JournalError;
use crate::pda::{counter_address, entry_address};

verus! {

/// The counter as the ledger holds it.
pub ghost struct CounterRecord {
    /// Where it is stored.
    pub address: Seq<u8>,
    /// The number that the next entry gets.
    pub count: nat,
}

/// An entry as the ledger holds it.
pub ghost struct EntryRecord {
    /// The number it was created under.
    pub sequence_number: nat,
    /// What it holds.
    pub state: JournalEntryView,
}

/// Everything one deployment of the journal has stored.
pub ghost struct LedgerState {
    /// The program that the addresses are derived for.
    pub program_id: Seq<u8>,
    /// The counter, once it is initialized.
    pub counter: Option<CounterRecord>,
    /// The entries, by storage address.
    pub entries: Map<Seq<u8>, EntryRecord>,
}

impl LedgerState {
    /// The state of a fresh deployment: no counter, no entry.
    pub open spec fn empty(program_id: Seq<u8>) -> LedgerState {
        LedgerState { program_id, counter: None, entries: Map::empty() }
    }

    /// What holds of every state that the operations reach:
    /// entries exist only beside a counter; every entry is within its bounds
    /// and carries a number below the counter that no other entry carries;
    /// no entry shares the counter's address.
    pub open spec fn valid(self) -> bool {
        &&& self.program_id.len() == 32
        &&& self.entries.dom().finite()
        &&& forall|a: Seq<u8>| #[trigger]
            self.entries.contains_key(a) ==> a.len() == 32 && self.entries[a].state.valid()
        &&& forall|a: Seq<u8>, b: Seq<u8>|
            #![trigger self.entries[a], self.entries[b]]
            self.entries.contains_key(a) && self.entries.contains_key(b) && a != b
                ==> self.entries[a].sequence_number != self.entries[b].sequence_number
        &&& match self.counter {
            None => self.entries.dom() =~= Set::empty(),
            Some(counter) => {
                &&& counter.address.len() == 32
                &&& counter.count <= u32::MAX
                &&& !self.entries.contains_key(counter.address)
                &&& forall|a: Seq<u8>| #[trigger]
                    self.entries.contains_key(a) ==> self.entries[a].sequence_number
                        < counter.count
            },
        }
    }

    /// The value of the counter, where there is one.
    pub open spec fn count(self) -> Option<nat> {
        match self.counter {
            Some(counter) => Some(counter.count),
            None => None,
        }
    }

    /// Bytes of storage that the records reserve: each record takes the room
    /// of its kind, whatever its texts hold.
    pub open spec fn reserved_bytes(self) -> nat {
        let counter = if self.counter is Some {
            DISCRIMINATOR_LEN + JournalEntryCounterState::INIT_SPACE
        } else {
            0
        };
        (counter + (DISCRIMINATOR_LEN + JournalEntryState::INIT_SPACE) * self.entries.dom().len()) as nat
    }

    /// Every record sits at the address derived for it: the counter at the
    /// counter's address, each entry at the address of its number and owner.
    pub open spec fn canonical(self) -> bool {
        &&& self.counter matches Some(counter) ==> counter_address(self.program_id) == Some(
            counter.address,
        )
        &&& forall|a: Seq<u8>| #[trigger]
            self.entries.contains_key(a) ==> entry_address(
                self.program_id,
                self.entries[a].sequence_number,
                self.entries[a].state.owner,
            ) == Some(a)
    }
}

/// Creating the counter at `counter_account`.
///
/// Refused with `AlreadyInitialized` where a counter exists. Otherwise the
/// counter starts at zero.
pub open spec fn initialize_counter_step(pre: LedgerState, counter_account: Seq<u8>) -> Result<
    LedgerState,
    JournalError,
> {
    if pre.counter is Some {
        Err(JournalError::AlreadyInitialized)
    } else {
        Ok(
            LedgerState {
                counter: Some(CounterRecord { address: counter_account, count: 0 }),
                ..pre
            },
        )
    }
}

/// Creating an entry for `signer` at `entry_account`, numbered by the counter
/// at `counter_account`.
///
/// Refused, in this order: with `LengthExceeded` where a text is over its
/// bound; with `NotFound` where no counter sits at `counter_account`; with
/// `AddressCollision` where `entry_account` is taken. Otherwise the entry is
/// stored under the counter's value and the counter goes up by one.
pub open spec fn create_journal_entry_step(
    pre: LedgerState,
    signer: Seq<u8>,
    counter_account: Seq<u8>,
    entry_account: Seq<u8>,
    title: Seq<char>,
    message: Seq<char>,
) -> Result<LedgerState, JournalError> {
    if !within_bounds(title, message) {
        Err(JournalError::LengthExceeded)
    } else if !(pre.counter matches Some(counter) && counter.address == counter_account) {
        Err(JournalError::NotFound)
    } else if entry_account == counter_account || pre.entries.contains_key(entry_account) {
        Err(JournalError::AddressCollision)
    } else {
        let count = pre.counter->0.count;
        Ok(
            LedgerState {
                counter: Some(CounterRecord { address: counter_account, count: count + 1 }),
                entries: pre.entries.insert(
                    entry_account,
                    EntryRecord {
                        sequence_number: count,
                        state: JournalEntryView { owner: signer, title, message },
                    },
                ),
                ..pre
            },
        )
    }
}

/// What stands between `signer` and the entry at `entry_account` that
/// `signer` claims under the number `count`, if anything does: `NotFound`
/// where no entry sits there, `Unauthorized` where the entry there has
/// another owner or another number.
pub open spec fn entry_access(
    pre: LedgerState,
    signer: Seq<u8>,
    entry_account: Seq<u8>,
    count: nat,
) -> Option<JournalError> {
    if !pre.entries.contains_key(entry_account) {
        Some(JournalError::NotFound)
    } else if pre.entries[entry_account].state.owner != signer
        || pre.entries[entry_account].sequence_number != count {
        Some(JournalError::Unauthorized)
    } else {
        None
    }
}

/// Rewriting the entry at `entry_account` that `signer` holds under the
/// number `count`.
///
/// Refused, in this order: with `LengthExceeded` where a text is over its
/// bound; then as `entry_access` says. Otherwise the entry keeps its owner,
/// its number and its address and holds the new texts.
pub open spec fn update_journal_entry_step(
    pre: LedgerState,
    signer: Seq<u8>,
    entry_account: Seq<u8>,
    title: Seq<char>,
    message: Seq<char>,
    count: nat,
) -> Result<LedgerState, JournalError> {
    if !within_bounds(title, message) {
        Err(JournalError::LengthExceeded)
    } else if let Some(refusal) = entry_access(pre, signer, entry_account, count) {
        Err(refusal)
    } else {
        let kept = pre.entries[entry_account];
        Ok(
            LedgerState {
                entries: pre.entries.insert(
                    entry_account,
                    EntryRecord {
                        sequence_number: kept.sequence_number,
                        state: JournalEntryView { owner: kept.state.owner, title, message },
                    },
                ),
                ..pre
            },
        )
    }
}

/// Deleting the entry at `entry_account` that `signer` holds under the
/// number `count`.
///
/// Refused as `entry_access` says. Otherwise the entry is gone; the counter
/// stays as it is.
pub open spec fn delete_journal_entry_step(
    pre: LedgerState,
    signer: Seq<u8>,
    entry_account: Seq<u8>,
    count: nat,
) -> Result<LedgerState, JournalError> {
    if let Some(refusal) = entry_access(pre, signer, entry_account, count) {
        Err(refusal)
    } else {
        Ok(LedgerState { entries: pre.entries.remove(entry_account), ..pre })
    }
}

impl LedgerState {
    /// A request to create the counter: `initialize_counter_step` at the
    /// counter's derived address. Refused with `NotFound` where no address
    /// is derived.
    pub open spec fn initialize(self) -> Result<LedgerState, JournalError> {
        match counter_address(self.program_id) {
            Some(counter_account) => initialize_counter_step(self, counter_account),
            None => Err(JournalError::NotFound),
        }
    }

    /// A request of `signer` to create an entry: `create_journal_entry_step`
    /// at the counter's derived address and at the address derived from the
    /// counter's value and `signer`. Refused with `LengthExceeded` where a
    /// text is over its bound, whatever else holds; else with `NotFound`
    /// where there is no counter or an address is not derived.
    pub open spec fn create(self, signer: Seq<u8>, title: Seq<char>, message: Seq<char>) -> Result<
        LedgerState,
        JournalError,
    > {
        if !within_bounds(title, message) {
            Err(JournalError::LengthExceeded)
        } else {
            match (self.counter, counter_address(self.program_id)) {
                (Some(counter), Some(counter_account)) => match entry_address(
                    self.program_id,
                    counter.count,
                    signer,
                ) {
                    Some(entry_account) => create_journal_entry_step(
                        self,
                        signer,
                        counter_account,
                        entry_account,
                        title,
                        message,
                    ),
                    None => Err(JournalError::NotFound),
                },
                _ => Err(JournalError::NotFound),
            }
        }
    }

    /// A request of `signer` to rewrite the entry numbered `count`:
    /// `update_journal_entry_step` at the address derived from `count` and
    /// `signer`. Refused with `LengthExceeded` where a text is over its
    /// bound, whatever else holds; else with `NotFound` where no address is
    /// derived.
    pub open spec fn update(
        self,
        signer: Seq<u8>,
        count: nat,
        title: Seq<char>,
        message: Seq<char>,
    ) -> Result<LedgerState, JournalError> {
        if !within_bounds(title, message) {
            Err(JournalError::LengthExceeded)
        } else {
            match entry_address(self.program_id, count, signer) {
                Some(entry_account) => update_journal_entry_step(
                    self,
                    signer,
                    entry_account,
                    title,
                    message,
                    count,
                ),
                None => Err(JournalError::NotFound),
            }
        }
    }

    /// A request of `signer` to delete the entry numbered `count`:
    /// `delete_journal_entry_step` at the address derived from `count` and
    /// `signer`. Refused with `NotFound` where no address is derived.
    pub open spec fn delete(self, signer: Seq<u8>, count: nat) -> Result<LedgerState, JournalError> {
        match entry_address(self.program_id, count, signer) {
            Some(entry_account) => delete_journal_entry_step(self, signer, entry_account, count),
            None => Err(JournalError::NotFound),
        }
    }

    /// The entry numbered `count` of `owner`, read at its derived address.
    pub open spec fn entry_of(self, owner: Seq<u8>, count: nat) -> Option<EntryRecord> {
        match entry_address(self.program_id, count, owner) {
            Some(entry_account) => if self.entries.contains_key(entry_account) {
                Some(self.entries[entry_account])
            } else {
                None
            },
            None => None,
        }
    }
}

/// How a call went: on success the state after it is `next`; on a refusal
/// the reason is handed back and the state is what it was.
pub open spec fn went_as(
    pre: LedgerState,
    post: LedgerState,
    outcome: Result<(), JournalError>,
    expected: Result<LedgerState, JournalError>,
) -> bool {
    match expected {
        Ok(next) => outcome is Ok && post == next,
        Err(refusal) => outcome == Err::<(), JournalError>(refusal) && post == pre,
    }
}

} // verus!
