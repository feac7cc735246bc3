//! The storage one deployment of the journal owns: a counter slot and the
//! entries, each at its address.

use vstd::prelude::*;
use crate::address::Address;
use crate::blueprints::{within_bounds, JournalEntryCounterState, JournalEntryState, JournalEntryView};
use crate::model::{CounterRecord, EntryRecord, LedgerState};

verus! {

/// The counter and where it is stored.
#[derive(Clone, Copy)]
struct CounterAccount {
    address: Address,
    state: JournalEntryCounterState,
}

/// An entry, where it is stored and the number it was created under.
struct EntryAccount {
    address: Address,
    sequence_number: u32,
    state: JournalEntryState,
}

impl EntryAccount {
    spec fn record(self) -> EntryRecord {
        EntryRecord { sequence_number: self.sequence_number as nat, state: self.state@ }
    }
}

/// The entries of `slots` by address.
spec fn entries_of(slots: Seq<EntryAccount>) -> Map<Seq<u8>, EntryRecord> {
    Map::new(
        |a: Seq<u8>| exists|i: int| 0 <= i < slots.len() && #[trigger] slots[i].address@ == a,
        |a: Seq<u8>|
            slots[choose|i: int| 0 <= i < slots.len() && #[trigger] slots[i].address@ == a].record(),
    )
}

/// No two of `slots` share an address.
spec fn distinct_addresses(slots: Seq<EntryAccount>) -> bool {
    forall|i: int, j: int|
        0 <= i < j < slots.len() ==> #[trigger] slots[i].address@ != #[trigger] slots[j].address@
}

/// With distinct addresses, each slot is what the map holds at its address.
proof fn lemma_entries_of(slots: Seq<EntryAccount>, i: int)
    requires
        distinct_addresses(slots),
        0 <= i < slots.len(),
    ensures
        entries_of(slots).contains_key(slots[i].address@),
        entries_of(slots)[slots[i].address@] == slots[i].record(),
{
    let a = slots[i].address@;
    let k = choose|k: int| 0 <= k < slots.len() && #[trigger] slots[k].address@ == a;
    assert(k == i);
}

/// An address that no slot has is not in the map.
proof fn lemma_entries_of_absent(slots: Seq<EntryAccount>, a: Seq<u8>)
    requires
        forall|i: int| 0 <= i < slots.len() ==> #[trigger] slots[i].address@ != a,
    ensures
        !entries_of(slots).contains_key(a),
{
}

/// Appending a slot at a fresh address inserts it into the map.
proof fn lemma_entries_of_push(slots: Seq<EntryAccount>, slot: EntryAccount)
    requires
        distinct_addresses(slots),
        !entries_of(slots).contains_key(slot.address@),
    ensures
        distinct_addresses(slots.push(slot)),
        entries_of(slots.push(slot)) =~= entries_of(slots).insert(slot.address@, slot.record()),
{
    let after = slots.push(slot);
    assert forall|i: int, j: int| 0 <= i < j < after.len() implies #[trigger] after[i].address@
        != #[trigger] after[j].address@ by {
        if j == slots.len() {
            assert(slots[i].address@ == after[i].address@);
            if after[i].address@ == slot.address@ {
                assert(entries_of(slots).contains_key(slot.address@));
            }
        } else {
            assert(slots[i].address@ != slots[j].address@);
        }
    }
    assert forall|a: Seq<u8>|
        entries_of(after).contains_key(a) <==> entries_of(slots).insert(
            slot.address@,
            slot.record(),
        ).contains_key(a) by {
        if entries_of(after).contains_key(a) {
            let i = choose|i: int| 0 <= i < after.len() && #[trigger] after[i].address@ == a;
            if i < slots.len() {
                assert(slots[i].address@ == a);
            }
        }
        if entries_of(slots).contains_key(a) {
            let i = choose|i: int| 0 <= i < slots.len() && #[trigger] slots[i].address@ == a;
            assert(after[i].address@ == a);
        }
        if a == slot.address@ {
            assert(after[slots.len() as int].address@ == a);
        }
    }
    assert forall|a: Seq<u8>| entries_of(after).contains_key(a) implies entries_of(after)[a]
        == entries_of(slots).insert(slot.address@, slot.record())[a] by {
        let i = choose|i: int| 0 <= i < after.len() && #[trigger] after[i].address@ == a;
        lemma_entries_of(after, i);
        if i < slots.len() {
            assert(slots[i] == after[i]);
            lemma_entries_of(slots, i);
        }
    }
}

/// Taking a slot out removes its address from the map.
proof fn lemma_entries_of_remove(slots: Seq<EntryAccount>, at: int)
    requires
        distinct_addresses(slots),
        0 <= at < slots.len(),
    ensures
        distinct_addresses(slots.remove(at)),
        entries_of(slots.remove(at)) =~= entries_of(slots).remove(slots[at].address@),
{
    let after = slots.remove(at);
    let gone = slots[at].address@;
    assert forall|i: int| 0 <= i < after.len() implies after[i] == slots[if i < at {
        i
    } else {
        i + 1
    }] by {}
    assert forall|i: int, j: int| 0 <= i < j < after.len() implies #[trigger] after[i].address@
        != #[trigger] after[j].address@ by {
        let si = if i < at { i } else { i + 1 };
        let sj = if j < at { j } else { j + 1 };
        assert(slots[si].address@ != slots[sj].address@);
    }
    assert forall|a: Seq<u8>|
        entries_of(after).contains_key(a) <==> entries_of(slots).remove(gone).contains_key(
            a,
        ) by {
        if entries_of(after).contains_key(a) {
            let i = choose|i: int| 0 <= i < after.len() && #[trigger] after[i].address@ == a;
            let si = if i < at { i } else { i + 1 };
            assert(slots[si].address@ == a);
            if si < at {
                assert(slots[si].address@ != slots[at].address@);
            } else {
                assert(slots[at].address@ != slots[si].address@);
            }
        }
        if entries_of(slots).remove(gone).contains_key(a) {
            let i = choose|i: int| 0 <= i < slots.len() && #[trigger] slots[i].address@ == a;
            assert(i != at);
            let ai = if i < at { i } else { i - 1 };
            assert(after[ai].address@ == a);
        }
    }
    assert forall|a: Seq<u8>| entries_of(after).contains_key(a) implies entries_of(after)[a]
        == entries_of(slots).remove(gone)[a] by {
        let i = choose|i: int| 0 <= i < after.len() && #[trigger] after[i].address@ == a;
        let si = if i < at { i } else { i + 1 };
        lemma_entries_of(after, i);
        lemma_entries_of(slots, si);
    }
}

/// Replacing a slot by one at the same address replaces its record in the map.
proof fn lemma_entries_of_update(slots: Seq<EntryAccount>, at: int, slot: EntryAccount)
    requires
        distinct_addresses(slots),
        0 <= at < slots.len(),
        slot.address@ == slots[at].address@,
    ensures
        distinct_addresses(slots.update(at, slot)),
        entries_of(slots.update(at, slot)) =~= entries_of(slots).insert(
            slot.address@,
            slot.record(),
        ),
{
    let after = slots.update(at, slot);
    assert forall|i: int, j: int| 0 <= i < j < after.len() implies #[trigger] after[i].address@
        != #[trigger] after[j].address@ by {
        assert(slots[i].address@ != slots[j].address@);
    }
    assert forall|a: Seq<u8>|
        entries_of(after).contains_key(a) <==> entries_of(slots).insert(
            slot.address@,
            slot.record(),
        ).contains_key(a) by {
        if entries_of(after).contains_key(a) {
            let i = choose|i: int| 0 <= i < after.len() && #[trigger] after[i].address@ == a;
            assert(slots[i].address@ == a);
        }
        if entries_of(slots).contains_key(a) {
            let i = choose|i: int| 0 <= i < slots.len() && #[trigger] slots[i].address@ == a;
            assert(after[i].address@ == a);
        }
        if a == slot.address@ {
            assert(after[at].address@ == a);
        }
    }
    assert forall|a: Seq<u8>| entries_of(after).contains_key(a) implies entries_of(after)[a]
        == entries_of(slots).insert(slot.address@, slot.record())[a] by {
        let i = choose|i: int| 0 <= i < after.len() && #[trigger] after[i].address@ == a;
        lemma_entries_of(after, i);
        if i != at {
            assert(slots[i].address@ != slots[at].address@);
            lemma_entries_of(slots, i);
        }
    }
}

/// With distinct addresses, the map holds as many entries as there are slots.
proof fn lemma_entries_of_len(slots: Seq<EntryAccount>)
    requires
        distinct_addresses(slots),
    ensures
        entries_of(slots).dom().finite(),
        entries_of(slots).dom().len() == slots.len(),
    decreases slots.len(),
{
    if slots.len() == 0 {
        assert(entries_of(slots).dom() =~= Set::empty());
    } else {
        let head = slots.drop_last();
        let last = slots.last();
        assert forall|i: int, j: int| 0 <= i < j < head.len() implies #[trigger] head[i].address@
            != #[trigger] head[j].address@ by {
            assert(slots[i].address@ != slots[j].address@);
        }
        lemma_entries_of_len(head);
        assert forall|i: int| 0 <= i < head.len() implies #[trigger] head[i].address@
            != last.address@ by {
            assert(slots[i].address@ != slots[slots.len() - 1].address@);
        }
        lemma_entries_of_absent(head, last.address@);
        lemma_entries_of_push(head, last);
        assert(head.push(last) =~= slots);
        assert(entries_of(slots).dom() =~= entries_of(head).dom().insert(last.address@));
    }
}

/// What one deployment of the journal has stored: the counter, once it is
/// initialized, and the entries, each at its own address with the number it
/// was created under.
///
/// A ledger is changed only by the operations of this crate, and each of
/// them leaves it in a state that is `valid`.
pub struct Ledger {
    program_id: Address,
    counter: Option<CounterAccount>,
    entries: Vec<EntryAccount>,
}

impl View for Ledger {
    type V = LedgerState;

    closed spec fn view(&self) -> LedgerState {
        LedgerState {
            program_id: self.program_id@,
            counter: match self.counter {
                Some(counter) => Some(
                    CounterRecord { address: counter.address@, count: counter.state.count as nat },
                ),
                None => None,
            },
            entries: entries_of(self.entries@),
        }
    }
}

impl Ledger {
    /// What the ledger keeps true of its slots at all times.
    #[verifier::type_invariant]
    pub(crate) closed spec fn well_formed(&self) -> bool {
        &&& distinct_addresses(self.entries@)
        &&& forall|i: int, j: int|
            0 <= i < j < self.entries.len() ==> #[trigger] self.entries[i].sequence_number
                != #[trigger] self.entries[j].sequence_number
        &&& forall|i: int|
            0 <= i < self.entries.len() ==> within_bounds(
                (#[trigger] self.entries[i]).state.title@,
                self.entries[i].state.message@,
            )
        &&& match self.counter {
            None => self.entries.len() == 0,
            Some(counter) => forall|i: int|
                0 <= i < self.entries.len() ==> {
                    &&& (#[trigger] self.entries[i]).sequence_number < counter.state.count
                    &&& self.entries[i].address@ != counter.address@
                },
        }
    }

    /// A well-formed ledger is in a valid state.
    pub(crate) proof fn lemma_valid(&self)
        requires
            self.well_formed(),
        ensures
            self@.valid(),
    {
        let slots = self.entries@;
        let state = self@;
        lemma_entries_of_len(slots);
        assert forall|a: Seq<u8>| #[trigger] state.entries.contains_key(a) implies a.len() == 32
            && state.entries[a].state.valid() by {
            let i = choose|i: int| 0 <= i < slots.len() && #[trigger] slots[i].address@ == a;
            lemma_entries_of(slots, i);
        }
        assert forall|a: Seq<u8>, b: Seq<u8>|
            state.entries.contains_key(a) && state.entries.contains_key(b) && a
                != b implies state.entries[a].sequence_number
            != state.entries[b].sequence_number by {
            let i = choose|i: int| 0 <= i < slots.len() && #[trigger] slots[i].address@ == a;
            let j = choose|j: int| 0 <= j < slots.len() && #[trigger] slots[j].address@ == b;
            lemma_entries_of(slots, i);
            lemma_entries_of(slots, j);
            if i < j {
                assert(slots[i].sequence_number != slots[j].sequence_number);
            } else {
                assert(slots[j].sequence_number != slots[i].sequence_number);
            }
        }
        match self.counter {
            None => {
                assert(state.entries.dom() =~= Set::empty());
            },
            Some(counter) => {
                assert forall|a: Seq<u8>| #[trigger]
                    state.entries.contains_key(a) implies state.entries[a].sequence_number
                    < counter.state.count && a != counter.address@ by {
                    let i = choose|i: int|
                        0 <= i < slots.len() && #[trigger] slots[i].address@ == a;
                    lemma_entries_of(slots, i);
                }
            },
        }
    }

    /// A ledger with nothing stored yet.
    pub fn new(program_id: Address) -> (ledger: Ledger)
        ensures
            ledger@ == LedgerState::empty(program_id@),
            ledger@.valid(),
            ledger@.canonical(),
    {
        let ledger = Ledger { program_id, counter: None, entries: Vec::new() };
        proof {
            assert(ledger@.entries =~= Map::empty());
            ledger.lemma_valid();
        }
        ledger
    }

    /// The program whose journal this is.
    pub fn program_id(&self) -> (id: Address)
        ensures
            id@ == self@.program_id,
    {
        self.program_id
    }

    /// The value of the counter, once it is initialized.
    pub fn count(&self) -> (count: Option<u32>)
        ensures
            self@.valid(),
            match count {
                Some(n) => self@.count() == Some(n as nat),
                None => self@.counter is None,
            },
    {
        proof {
            use_type_invariant(self);
            self.lemma_valid();
        }
        match &self.counter {
            Some(counter) => Some(counter.state.count),
            None => None,
        }
    }

    /// Where the counter is stored, once it is initialized.
    pub fn counter_account(&self) -> (address: Option<Address>)
        ensures
            match address {
                Some(a) => self@.counter matches Some(counter) && counter.address == a@,
                None => self@.counter is None,
            },
    {
        match &self.counter {
            Some(counter) => Some(counter.address),
            None => None,
        }
    }

    /// How many entries are stored.
    pub fn len(&self) -> (entries: usize)
        ensures
            entries == self@.entries.dom().len(),
    {
        proof {
            use_type_invariant(self);
            lemma_entries_of_len(self.entries@);
        }
        self.entries.len()
    }

    /// The entry stored at `address`, if there is one.
    pub fn entry(&self, address: &Address) -> (found: Option<&JournalEntryState>)
        ensures
            match found {
                Some(entry) => self@.entries.contains_key(address@) && self@.entries[address@].state
                    == entry@,
                None => !self@.entries.contains_key(address@),
            },
    {
        match self.find(address) {
            Some(slot) => {
                proof {
                    use_type_invariant(self);
                    lemma_entries_of(self.entries@, slot as int);
                }
                Some(&self.entries[slot].state)
            },
            None => None,
        }
    }

    /// The number under which the entry at `address` was created, if there
    /// is an entry.
    pub fn sequence_number(&self, address: &Address) -> (found: Option<u32>)
        ensures
            match found {
                Some(n) => self@.entries.contains_key(address@)
                    && self@.entries[address@].sequence_number == n,
                None => !self@.entries.contains_key(address@),
            },
    {
        match self.find(address) {
            Some(slot) => {
                proof {
                    use_type_invariant(self);
                    lemma_entries_of(self.entries@, slot as int);
                }
                Some(self.entries[slot].sequence_number)
            },
            None => None,
        }
    }

    /// How many slots hold an entry.
    pub(crate) closed spec fn slots(&self) -> nat {
        self.entries@.len()
    }

    /// The address of the entry in `slot`.
    pub(crate) closed spec fn slot_address(&self, slot: int) -> Seq<u8> {
        self.entries@[slot].address@
    }

    /// The slot that holds the entry at `address`, if one does.
    pub(crate) fn find(&self, address: &Address) -> (found: Option<usize>)
        ensures
            match found {
                Some(slot) => {
                    &&& slot < self.slots()
                    &&& self.slot_address(slot as int) == address@
                    &&& self@.entries.contains_key(address@)
                },
                None => !self@.entries.contains_key(address@),
            },
    {
        proof {
            use_type_invariant(self);
        }
        let mut slot: usize = 0;
        while slot < self.entries.len()
            invariant
                0 <= slot <= self.entries.len(),
                distinct_addresses(self.entries@),
                forall|i: int| 0 <= i < slot ==> #[trigger] self.entries@[i].address@ != address@,
            decreases self.entries.len() - slot,
        {
            if self.entries[slot].address.equals(address) {
                proof {
                    lemma_entries_of(self.entries@, slot as int);
                }
                return Some(slot);
            }
            slot += 1;
        }
        proof {
            lemma_entries_of_absent(self.entries@, address@);
        }
        None
    }

    /// The owner and the number of the entry in `slot`.
    pub(crate) fn key_at(&self, slot: usize) -> (key: (Address, u32))
        requires
            slot < self.slots(),
        ensures
            self@.entries.contains_key(self.slot_address(slot as int)),
            self@.entries[self.slot_address(slot as int)].state.owner == key.0@,
            self@.entries[self.slot_address(slot as int)].sequence_number == key.1,
    {
        proof {
            use_type_invariant(self);
            lemma_entries_of(self.entries@, slot as int);
        }
        (self.entries[slot].state.owner, self.entries[slot].sequence_number)
    }

    /// Stores the counter at `address`, starting at zero.
    pub(crate) fn open_counter(&mut self, address: Address)
        requires
            old(self)@.counter is None,
        ensures
            final(self)@ == (LedgerState {
                counter: Some(CounterRecord { address: address@, count: 0 }),
                ..old(self)@
            }),
            final(self)@.valid(),
    {
        proof {
            use_type_invariant(&*self);
        }
        self.counter = Some(CounterAccount { address, state: JournalEntryCounterState { count: 0 } });
        proof {
            self.lemma_valid();
        }
    }

    /// Stores a new entry at `address` under the counter's value and moves
    /// the counter on.
    pub(crate) fn store_entry(&mut self, address: Address, owner: Address, title: String, message: String)
        requires
            old(self)@.counter is Some,
            old(self)@.counter->0.count < u32::MAX,
            old(self)@.counter->0.address != address@,
            !old(self)@.entries.contains_key(address@),
            within_bounds(title@, message@),
        ensures
            final(self)@ == (LedgerState {
                counter: Some(
                    CounterRecord {
                        address: old(self)@.counter->0.address,
                        count: old(self)@.counter->0.count + 1,
                    },
                ),
                entries: old(self)@.entries.insert(
                    address@,
                    EntryRecord {
                        sequence_number: old(self)@.counter->0.count,
                        state: JournalEntryView { owner: owner@, title: title@, message: message@ },
                    },
                ),
                ..old(self)@
            }),
            final(self)@.valid(),
    {
        proof {
            use_type_invariant(&*self);
        }
        let counter: CounterAccount = self.counter.unwrap();
        let slot = EntryAccount {
            address,
            sequence_number: counter.state.count,
            state: JournalEntryState { owner, title, message },
        };
        proof {
            lemma_entries_of_push(self.entries@, slot);
        }
        self.counter = Some(
            CounterAccount {
                address: counter.address,
                state: JournalEntryCounterState { count: counter.state.count + 1 },
            },
        );
        let mut entries: Vec<EntryAccount> = Vec::new();
        core::mem::swap(&mut self.entries, &mut entries);
        entries.push(slot);
        core::mem::swap(&mut self.entries, &mut entries);
        proof {
            self.lemma_valid();
        }
    }

    /// Puts new texts into the entry in `slot`.
    pub(crate) fn rewrite(&mut self, slot: usize, title: String, message: String)
        requires
            slot < old(self).slots(),
            within_bounds(title@, message@),
        ensures
            final(self)@ == (LedgerState {
                entries: old(self)@.entries.insert(
                    old(self).slot_address(slot as int),
                    EntryRecord {
                        sequence_number: old(self)@.entries[old(self).slot_address(
                            slot as int,
                        )].sequence_number,
                        state: JournalEntryView {
                            owner: old(self)@.entries[old(self).slot_address(
                                slot as int,
                            )].state.owner,
                            title: title@,
                            message: message@,
                        },
                    },
                ),
                ..old(self)@
            }),
            final(self)@.valid(),
    {
        proof {
            use_type_invariant(&*self);
            lemma_entries_of(self.entries@, slot as int);
        }
        let replacement = EntryAccount {
            address: self.entries[slot].address,
            sequence_number: self.entries[slot].sequence_number,
            state: JournalEntryState { owner: self.entries[slot].state.owner, title, message },
        };
        proof {
            lemma_entries_of_update(self.entries@, slot as int, replacement);
        }
        let mut entries: Vec<EntryAccount> = Vec::new();
        core::mem::swap(&mut self.entries, &mut entries);
        entries[slot] = replacement;
        core::mem::swap(&mut self.entries, &mut entries);
        proof {
            self.lemma_valid();
        }
    }

    /// Takes the entry in `slot` off the ledger.
    pub(crate) fn release(&mut self, slot: usize)
        requires
            slot < old(self).slots(),
        ensures
            final(self)@ == (LedgerState {
                entries: old(self)@.entries.remove(old(self).slot_address(slot as int)),
                ..old(self)@
            }),
            final(self)@.valid(),
    {
        proof {
            use_type_invariant(&*self);
            lemma_entries_of_remove(self.entries@, slot as int);
        }
        let mut entries: Vec<EntryAccount> = Vec::new();
        core::mem::swap(&mut self.entries, &mut entries);
        entries.remove(slot);
        core::mem::swap(&mut self.entries, &mut entries);
        proof {
            self.lemma_valid();
        }
    }
}

} // verus!
