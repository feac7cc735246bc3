//! What holds of the operations on every state.

use vstd::prelude::*;
use crate::blueprints::{
    text_len, within_bounds, JournalEntryCounterState, JournalEntryState, JournalEntryView,
    DISCRIMINATOR_LEN, MESSAGE_MAX_LEN, TITLE_MAX_LEN,
};
use crate::error::JournalError;
use crate::model::{
    create_journal_entry_step, delete_journal_entry_step, initialize_counter_step,
    update_journal_entry_step, LedgerState,
};
use crate::pda::{counter_seeds, counter_tag, entry_address, entry_seeds, entry_tag, le_bytes};
use vstd::utf8::is_ascii_chars_encode_utf8;

verus! {

/// What the derivation is handed, byte for byte. The counter's seeds are
/// the ASCII text `journal-counter` alone. An entry's seeds are the ASCII
/// text `journal-entry`, then four bytes from which the number is read back
/// least significant byte first, then the owner's bytes, and nothing more.
pub proof fn law_seeds_are_exact(count: nat, owner: Seq<u8>)
    requires
        count <= u32::MAX,
    ensures
        counter_seeds() == seq![
            seq![106u8, 111, 117, 114, 110, 97, 108, 45, 99, 111, 117, 110, 116, 101, 114],
        ],
        entry_seeds(count, owner) == seq![
            seq![106u8, 111, 117, 114, 110, 97, 108, 45, 101, 110, 116, 114, 121],
            le_bytes(count),
            owner,
        ],
        le_bytes(count).len() == 4,
        le_bytes(count)[0] + 256 * le_bytes(count)[1] + 65536 * le_bytes(count)[2] + 16777216
            * le_bytes(count)[3] == count,
{
    reveal_strlit("journal-counter");
    reveal_strlit("journal-entry");
    is_ascii_chars_encode_utf8("journal-counter"@);
    is_ascii_chars_encode_utf8("journal-entry"@);
    assert(counter_tag() =~= seq![
        106u8, 111, 117, 114, 110, 97, 108, 45, 99, 111, 117, 110, 116, 101, 114,
    ]);
    assert(entry_tag() =~= seq![106u8, 111, 117, 114, 110, 97, 108, 45, 101, 110, 116, 114, 121]);
}

/// An entry within its bounds never outgrows the 198 bytes reserved for it,
/// and an entry with both texts at their bounds fills them to the last byte.
pub proof fn law_entry_fits_its_space(entry: JournalEntryView)
    requires
        entry.valid(),
    ensures
        entry.stored_len() <= DISCRIMINATOR_LEN + JournalEntryState::INIT_SPACE,
        DISCRIMINATOR_LEN + JournalEntryState::INIT_SPACE == 198,
        text_len(entry.title) == TITLE_MAX_LEN && text_len(entry.message) == MESSAGE_MAX_LEN
            ==> entry.stored_len() == 198,
{
}

/// Every step that succeeds on a valid state ends in a valid state; for
/// creating an entry, as long as the counter has room to go up.
pub proof fn law_steps_keep_states_valid(
    pre: LedgerState,
    signer: Seq<u8>,
    counter_account: Seq<u8>,
    entry_account: Seq<u8>,
    title: Seq<char>,
    message: Seq<char>,
    count: nat,
)
    requires
        pre.valid(),
        signer.len() == 32,
        counter_account.len() == 32,
        entry_account.len() == 32,
    ensures
        initialize_counter_step(pre, counter_account) matches Ok(post) ==> post.valid(),
        pre.count() != Some(u32::MAX as nat) ==> (create_journal_entry_step(
            pre,
            signer,
            counter_account,
            entry_account,
            title,
            message,
        ) matches Ok(post) ==> post.valid()),
        update_journal_entry_step(pre, signer, entry_account, title, message, count) matches Ok(
            post,
        ) ==> post.valid(),
        delete_journal_entry_step(pre, signer, entry_account, count) matches Ok(post)
            ==> post.valid(),
{
    if let Ok(post) = initialize_counter_step(pre, counter_account) {
        assert(post.valid());
    }
    if pre.count() != Some(u32::MAX as nat) {
        if let Ok(post) = create_journal_entry_step(
            pre,
            signer,
            counter_account,
            entry_account,
            title,
            message,
        ) {
            assert(post.valid());
        }
    }
    if let Ok(post) = update_journal_entry_step(pre, signer, entry_account, title, message, count) {
        assert(post.valid());
    }
    if let Ok(post) = delete_journal_entry_step(pre, signer, entry_account, count) {
        assert(post.valid());
    }
}

/// An entry that was created carries the value the counter had just before,
/// and the counter is one above that value afterwards.
pub proof fn law_create_takes_the_count(
    pre: LedgerState,
    signer: Seq<u8>,
    counter_account: Seq<u8>,
    entry_account: Seq<u8>,
    title: Seq<char>,
    message: Seq<char>,
)
    requires
        create_journal_entry_step(pre, signer, counter_account, entry_account, title, message)
            is Ok,
    ensures
        ({
            let post = create_journal_entry_step(
                pre,
                signer,
                counter_account,
                entry_account,
                title,
                message,
            )->Ok_0;
            &&& pre.count() is Some
            &&& post.entries.contains_key(entry_account)
            &&& post.entries[entry_account].sequence_number == pre.count()->0
            &&& post.entries[entry_account].state.owner == signer
            &&& post.entries[entry_account].state.title == title
            &&& post.entries[entry_account].state.message == message
            &&& post.count() == Some(pre.count()->0 + 1)
        }),
{
}

/// The same of a request: the entry that `signer` created sits at the
/// address derived from the counter's earlier value and `signer`, carries
/// that value, and the counter is one above it.
pub proof fn law_request_to_create_takes_the_count(
    pre: LedgerState,
    signer: Seq<u8>,
    title: Seq<char>,
    message: Seq<char>,
)
    requires
        pre.create(signer, title, message) is Ok,
    ensures
        ({
            let post = pre.create(signer, title, message)->Ok_0;
            &&& pre.count() is Some
            &&& post.count() == Some(pre.count()->0 + 1)
            &&& post.entry_of(signer, pre.count()->0) matches Some(record)
            &&& record.sequence_number == pre.count()->0
            &&& record.state.owner == signer
            &&& record.state.title == title
            &&& record.state.message == message
        }),
{
}

/// A title or a message over its bound has creating and rewriting refused
/// with `LengthExceeded`, on every state and whatever the other arguments
/// are. A refusal leaves the state as it was.
pub proof fn law_over_length_is_refused(
    pre: LedgerState,
    signer: Seq<u8>,
    counter_account: Seq<u8>,
    entry_account: Seq<u8>,
    title: Seq<char>,
    message: Seq<char>,
    count: nat,
)
    requires
        !within_bounds(title, message),
    ensures
        create_journal_entry_step(pre, signer, counter_account, entry_account, title, message)
            == Err::<LedgerState, JournalError>(JournalError::LengthExceeded),
        update_journal_entry_step(pre, signer, entry_account, title, message, count) == Err::<
            LedgerState,
            JournalError,
        >(JournalError::LengthExceeded),
        pre.create(signer, title, message) == Err::<LedgerState, JournalError>(
            JournalError::LengthExceeded,
        ),
        pre.update(signer, count, title, message) == Err::<LedgerState, JournalError>(
            JournalError::LengthExceeded,
        ),
{
}

/// After an entry was rewritten, a read at its address gives the owner and
/// the number it had and the new texts. Every other entry and the counter
/// are what they were.
pub proof fn law_update_is_read_back(
    pre: LedgerState,
    signer: Seq<u8>,
    entry_account: Seq<u8>,
    title: Seq<char>,
    message: Seq<char>,
    count: nat,
)
    requires
        update_journal_entry_step(pre, signer, entry_account, title, message, count) is Ok,
    ensures
        ({
            let post = update_journal_entry_step(
                pre,
                signer,
                entry_account,
                title,
                message,
                count,
            )->Ok_0;
            &&& pre.entries.contains_key(entry_account)
            &&& post.entries.contains_key(entry_account)
            &&& post.entries[entry_account].state.owner == pre.entries[entry_account].state.owner
            &&& post.entries[entry_account].state.owner == signer
            &&& post.entries[entry_account].sequence_number
                == pre.entries[entry_account].sequence_number
            &&& post.entries[entry_account].sequence_number == count
            &&& post.entries[entry_account].state.title == title
            &&& post.entries[entry_account].state.message == message
            &&& post.entries.dom() =~= pre.entries.dom()
            &&& forall|other: Seq<u8>|
                other != entry_account && pre.entries.contains_key(other)
                    ==> #[trigger] post.entries[other] == pre.entries[other]
            &&& post.counter == pre.counter
            &&& post.program_id == pre.program_id
        }),
{
}

/// The same of a request: after `signer` rewrote the entry numbered `count`,
/// reading that entry gives the new texts under the same owner and number,
/// and the counter is what it was.
pub proof fn law_request_to_update_is_read_back(
    pre: LedgerState,
    signer: Seq<u8>,
    count: nat,
    title: Seq<char>,
    message: Seq<char>,
)
    requires
        pre.update(signer, count, title, message) is Ok,
    ensures
        ({
            let post = pre.update(signer, count, title, message)->Ok_0;
            &&& pre.entry_of(signer, count) matches Some(before)
            &&& post.entry_of(signer, count) matches Some(after)
            &&& after.state.owner == before.state.owner
            &&& after.sequence_number == before.sequence_number
            &&& after.state.title == title
            &&& after.state.message == message
            &&& post.counter == pre.counter
        }),
{
}

/// Once an entry was deleted, rewriting it and deleting it again are refused
/// with `NotFound`, whoever asks and under whatever number. The texts of the
/// rewrite are within their bounds: over them, `LengthExceeded` comes first.
pub proof fn law_deleted_entry_is_not_found(
    pre: LedgerState,
    signer: Seq<u8>,
    entry_account: Seq<u8>,
    count: nat,
    later_signer: Seq<u8>,
    later_count: nat,
    title: Seq<char>,
    message: Seq<char>,
)
    requires
        delete_journal_entry_step(pre, signer, entry_account, count) is Ok,
        within_bounds(title, message),
    ensures
        ({
            let post = delete_journal_entry_step(pre, signer, entry_account, count)->Ok_0;
            &&& !post.entries.contains_key(entry_account)
            &&& post.counter == pre.counter
            &&& update_journal_entry_step(
                post,
                later_signer,
                entry_account,
                title,
                message,
                later_count,
            ) == Err::<LedgerState, JournalError>(JournalError::NotFound)
            &&& delete_journal_entry_step(post, later_signer, entry_account, later_count) == Err::<
                LedgerState,
                JournalError,
            >(JournalError::NotFound)
        }),
{
}

/// The same of a request: after `signer` deleted the entry numbered `count`,
/// a request of `signer` to rewrite or to delete that entry is refused with
/// `NotFound`, and the counter is what it was. The texts of the rewrite are
/// within their bounds.
pub proof fn law_request_after_delete_is_not_found(
    pre: LedgerState,
    signer: Seq<u8>,
    count: nat,
    title: Seq<char>,
    message: Seq<char>,
)
    requires
        pre.delete(signer, count) is Ok,
        within_bounds(title, message),
    ensures
        ({
            let post = pre.delete(signer, count)->Ok_0;
            &&& post.entry_of(signer, count) is None
            &&& post.counter == pre.counter
            &&& post.update(signer, count, title, message) == Err::<LedgerState, JournalError>(
                JournalError::NotFound,
            )
            &&& post.delete(signer, count) == Err::<LedgerState, JournalError>(
                JournalError::NotFound,
            )
        }),
{
}

/// Two entries that one signer creates one after the other carry consecutive
/// numbers and sit at two different addresses, and both are on the ledger
/// afterwards.
pub proof fn law_two_creates_in_a_row(
    pre: LedgerState,
    signer: Seq<u8>,
    first_title: Seq<char>,
    first_message: Seq<char>,
    second_title: Seq<char>,
    second_message: Seq<char>,
)
    requires
        pre.create(signer, first_title, first_message) is Ok,
        pre.create(signer, first_title, first_message)->Ok_0.create(
            signer,
            second_title,
            second_message,
        ) is Ok,
    ensures
        ({
            let between = pre.create(signer, first_title, first_message)->Ok_0;
            let post = between.create(signer, second_title, second_message)->Ok_0;
            let count = pre.count()->0;
            let first = entry_address(pre.program_id, count, signer);
            let second = entry_address(pre.program_id, count + 1, signer);
            &&& pre.count() is Some
            &&& first is Some
            &&& second is Some
            &&& first->0 != second->0
            &&& post.entries.contains_key(first->0)
            &&& post.entries.contains_key(second->0)
            &&& post.entries[first->0].sequence_number == count
            &&& post.entries[second->0].sequence_number == count + 1
            &&& post.entries[first->0].state.owner == signer
            &&& post.entries[second->0].state.owner == signer
            &&& post.count() == Some(count + 2)
        }),
{
}

/// Rewriting or deleting an entry that another identity owns is refused, at
/// whatever address and under whatever number the signer asks.
pub proof fn law_only_the_owner_changes_an_entry(
    pre: LedgerState,
    signer: Seq<u8>,
    entry_account: Seq<u8>,
    title: Seq<char>,
    message: Seq<char>,
    count: nat,
)
    requires
        pre.entries.contains_key(entry_account),
        pre.entries[entry_account].state.owner != signer,
    ensures
        update_journal_entry_step(pre, signer, entry_account, title, message, count) is Err,
        delete_journal_entry_step(pre, signer, entry_account, count) is Err,
{
}

/// No operation of a signer, refused or not, touches an entry that another
/// identity owns: such an entry is on the ledger afterwards as it was before.
pub proof fn law_entries_of_others_stay(
    pre: LedgerState,
    signer: Seq<u8>,
    counter_account: Seq<u8>,
    entry_account: Seq<u8>,
    title: Seq<char>,
    message: Seq<char>,
    count: nat,
    other: Seq<u8>,
)
    requires
        pre.entries.contains_key(other),
        pre.entries[other].state.owner != signer,
    ensures
        initialize_counter_step(pre, counter_account) matches Ok(post) ==> post.entries == pre.entries,
        create_journal_entry_step(
            pre,
            signer,
            counter_account,
            entry_account,
            title,
            message,
        ) matches Ok(post) ==> post.entries.contains_key(other) && post.entries[other]
            == pre.entries[other],
        update_journal_entry_step(pre, signer, entry_account, title, message, count) matches Ok(
            post,
        ) ==> post.entries.contains_key(other) && post.entries[other] == pre.entries[other],
        delete_journal_entry_step(pre, signer, entry_account, count) matches Ok(post)
            ==> post.entries.contains_key(other) && post.entries[other] == pre.entries[other],
{
}

/// Requests keep every record at its derived address: on a state where each
/// record sits where the derivation puts it, a request that succeeds ends in
/// such a state.
pub proof fn law_requests_keep_addresses_derived(
    pre: LedgerState,
    signer: Seq<u8>,
    title: Seq<char>,
    message: Seq<char>,
    count: nat,
)
    requires
        pre.canonical(),
    ensures
        pre.initialize() matches Ok(post) ==> post.canonical(),
        pre.create(signer, title, message) matches Ok(post) ==> post.canonical(),
        pre.update(signer, count, title, message) matches Ok(post) ==> post.canonical(),
        pre.delete(signer, count) matches Ok(post) ==> post.canonical(),
{
    if let Ok(post) = pre.initialize() {
        assert(post.canonical());
    }
    if let Ok(post) = pre.create(signer, title, message) {
        assert(post.canonical());
    }
    if let Ok(post) = pre.update(signer, count, title, message) {
        assert(post.canonical());
    }
    if let Ok(post) = pre.delete(signer, count) {
        assert(post.canonical());
    }
}

/// On a state where each record sits at its derived address, a request of
/// the owner to rewrite or to delete an entry under its number reaches that
/// entry: deleting succeeds and removes it, and rewriting succeeds with any
/// texts within their bounds.
pub proof fn law_request_finds_the_signers_entry(
    pre: LedgerState,
    signer: Seq<u8>,
    count: nat,
    entry_account: Seq<u8>,
)
    requires
        pre.canonical(),
        pre.entries.contains_key(entry_account),
        pre.entries[entry_account].state.owner == signer,
        pre.entries[entry_account].sequence_number == count,
    ensures
        pre.delete(signer, count) is Ok,
        pre.delete(signer, count)->Ok_0.entries =~= pre.entries.remove(entry_account),
        forall|title: Seq<char>, message: Seq<char>|
            within_bounds(title, message) ==> #[trigger] pre.update(signer, count, title, message)
                is Ok,
{
}

/// The counter never goes down: whatever a step does, the counter afterwards
/// is there if it was before and is at least what it was.
pub proof fn law_counter_never_goes_down(
    pre: LedgerState,
    signer: Seq<u8>,
    counter_account: Seq<u8>,
    entry_account: Seq<u8>,
    title: Seq<char>,
    message: Seq<char>,
    count: nat,
)
    ensures
        initialize_counter_step(pre, counter_account) matches Ok(post) ==> pre.count() is None
            && post.count() == Some(0nat),
        create_journal_entry_step(
            pre,
            signer,
            counter_account,
            entry_account,
            title,
            message,
        ) matches Ok(post) ==> pre.count() is Some && post.count() == Some(pre.count()->0 + 1),
        update_journal_entry_step(pre, signer, entry_account, title, message, count) matches Ok(
            post,
        ) ==> post.counter == pre.counter,
        delete_journal_entry_step(pre, signer, entry_account, count) matches Ok(post)
            ==> post.counter == pre.counter,
{
}

/// Storage follows the records and nothing else: creating the counter
/// reserves 12 bytes and creating an entry 198; rewriting an entry reserves
/// and frees nothing, however long the old and the new texts are; deleting
/// an entry frees its 198 bytes, and the signer they are freed for is the
/// entry's owner.
pub proof fn law_storage_follows_the_records(
    pre: LedgerState,
    signer: Seq<u8>,
    counter_account: Seq<u8>,
    entry_account: Seq<u8>,
    title: Seq<char>,
    message: Seq<char>,
    count: nat,
)
    requires
        pre.valid(),
    ensures
        initialize_counter_step(pre, counter_account) matches Ok(post) ==> post.reserved_bytes()
            == pre.reserved_bytes() + 12,
        create_journal_entry_step(
            pre,
            signer,
            counter_account,
            entry_account,
            title,
            message,
        ) matches Ok(post) ==> post.reserved_bytes() == pre.reserved_bytes() + 198,
        update_journal_entry_step(pre, signer, entry_account, title, message, count) matches Ok(
            post,
        ) ==> post.reserved_bytes() == pre.reserved_bytes(),
        delete_journal_entry_step(pre, signer, entry_account, count) matches Ok(post) ==> {
            &&& post.reserved_bytes() + 198 == pre.reserved_bytes()
            &&& pre.entries[entry_account].state.owner == signer
        },
{
    let held = pre.entries.dom().len();
    assert(DISCRIMINATOR_LEN + JournalEntryState::INIT_SPACE == 198);
    assert(DISCRIMINATOR_LEN + JournalEntryCounterState::INIT_SPACE == 12);
    if let Ok(post) = create_journal_entry_step(
        pre,
        signer,
        counter_account,
        entry_account,
        title,
        message,
    ) {
        assert(post.entries.dom() =~= pre.entries.dom().insert(entry_account));
        assert(post.entries.dom().len() == held + 1);
    }
    if let Ok(post) = update_journal_entry_step(pre, signer, entry_account, title, message, count) {
        assert(post.entries.dom() =~= pre.entries.dom());
    }
    if let Ok(post) = delete_journal_entry_step(pre, signer, entry_account, count) {
        assert(post.entries.dom() =~= pre.entries.dom().remove(entry_account));
        assert(post.entries.dom().len() + 1 == held);
    }
}

/// The same as `law_entries_of_others_stay`, of requests: whatever `signer`
/// asks for, an entry that another identity owns is on the ledger afterwards
/// as it was before.
pub proof fn law_requests_leave_entries_of_others(
    pre: LedgerState,
    signer: Seq<u8>,
    title: Seq<char>,
    message: Seq<char>,
    count: nat,
    other: Seq<u8>,
)
    requires
        pre.entries.contains_key(other),
        pre.entries[other].state.owner != signer,
    ensures
        pre.initialize() matches Ok(post) ==> post.entries == pre.entries,
        pre.create(signer, title, message) matches Ok(post) ==> post.entries.contains_key(other)
            && post.entries[other] == pre.entries[other],
        pre.update(signer, count, title, message) matches Ok(post) ==> post.entries.contains_key(
            other,
        ) && post.entries[other] == pre.entries[other],
        pre.delete(signer, count) matches Ok(post) ==> post.entries.contains_key(other)
            && post.entries[other] == pre.entries[other],
{
}

/// A number whose entry was deleted is out of everybody's reach: on a valid
/// state with every record at its derived address, once `signer` deleted the
/// entry numbered `count`, every later request to rewrite or to delete under
/// that number is refused, whoever signs it.
pub proof fn law_deleted_number_is_out_of_reach(
    pre: LedgerState,
    signer: Seq<u8>,
    count: nat,
    later_signer: Seq<u8>,
    title: Seq<char>,
    message: Seq<char>,
)
    requires
        pre.valid(),
        pre.canonical(),
        pre.delete(signer, count) is Ok,
    ensures
        pre.delete(signer, count)->Ok_0.update(later_signer, count, title, message) is Err,
        pre.delete(signer, count)->Ok_0.delete(later_signer, count) is Err,
{
    let gone = entry_address(pre.program_id, count, signer)->0;
    let post = pre.delete(signer, count)->Ok_0;
    if let Some(there) = entry_address(pre.program_id, count, later_signer) {
        if post.entries.contains_key(there) && post.entries[there].sequence_number == count {
            assert(pre.entries.contains_key(there) && pre.entries.contains_key(gone));
            assert(pre.entries[there].sequence_number == pre.entries[gone].sequence_number);
            assert(there != gone);
        }
    }
}

} // verus!
