//! Deterministic addressing: where on the ledger each record lives.
//!
//! The counter sits at the address derived from one literal tag. An entry
//! sits at the address derived from another tag, the little-endian bytes of
//! its sequence number and the bytes of its owner. The derivation itself is
//! the host's own function; this module fixes what is handed to it.

use vstd::prelude::*;
use vstd::string::StringSliceAdditionalSpecFns;
use crate::address::Address;

verus! {

/// The address that the host derives for `program_id` from `seeds`, or `None`
/// where it derives none. It stands for the first component of what
/// `Pubkey::try_find_program_address` returns.
pub uninterp spec fn program_address(seeds: Seq<Seq<u8>>, program_id: Seq<u8>) -> Option<Seq<u8>>;

/// The seeds as the derivation reads them: one byte string per seed.
pub open spec fn seeds_view(seeds: Seq<&[u8]>) -> Seq<Seq<u8>> {
    Seq::new(seeds.len(), |i: int| seeds[i]@)
}

/// Calls `anchor_lang::prelude::Pubkey::try_find_program_address`.
///
/// Trusted: the address handed back is the one the host derives from exactly
/// these seeds and this program, and `None` comes back exactly when the host
/// derives none. The bump seed found along the way is dropped.
#[verifier::external_body]
fn try_find_program_address(seeds: &[&[u8]], program_id: &Address) -> (found: Option<Address>)
    ensures
        match found {
            Some(address) => program_address(seeds_view(seeds@), program_id@) == Some(address@),
            None => program_address(seeds_view(seeds@), program_id@) is None,
        },
{
    let program = anchor_lang::prelude::Pubkey::new_from_array(program_id.bytes);
    match anchor_lang::prelude::Pubkey::try_find_program_address(seeds, &program) {
        Some((key, _)) => Some(Address { bytes: key.to_bytes() }),
        None => None,
    }
}

/// The tag that opens the counter's seeds.
pub open spec fn counter_tag() -> Seq<u8> {
    "journal-counter".spec_bytes()
}

/// The tag that opens an entry's seeds.
pub open spec fn entry_tag() -> Seq<u8> {
    "journal-entry".spec_bytes()
}

/// The four low bytes of `n`, least significant first.
pub open spec fn le_bytes(n: nat) -> Seq<u8> {
    seq![
        (n % 256) as u8,
        ((n / 256) % 256) as u8,
        ((n / 65536) % 256) as u8,
        ((n / 16777216) % 256) as u8,
    ]
}

/// The seeds of the counter: its tag and nothing else.
pub open spec fn counter_seeds() -> Seq<Seq<u8>> {
    seq![counter_tag()]
}

/// The seeds of the entry numbered `count` that `owner` holds: the tag, the
/// number's little-endian bytes, the owner's bytes, in this order.
pub open spec fn entry_seeds(count: nat, owner: Seq<u8>) -> Seq<Seq<u8>> {
    seq![entry_tag(), le_bytes(count), owner]
}

/// Where the counter of `program_id` lives.
pub open spec fn counter_address(program_id: Seq<u8>) -> Option<Seq<u8>> {
    program_address(counter_seeds(), program_id)
}

/// Where the entry numbered `count` of `owner` lives under `program_id`.
pub open spec fn entry_address(program_id: Seq<u8>, count: nat, owner: Seq<u8>) -> Option<Seq<u8>> {
    program_address(entry_seeds(count, owner), program_id)
}

/// Encodes a sequence number as a seed.
pub fn sequence_bytes(n: u32) -> (out: Vec<u8>)
    ensures
        out@ == le_bytes(n as nat),
{
    let mut out: Vec<u8> = Vec::new();
    out.push((n % 256) as u8);
    out.push(((n / 256) % 256) as u8);
    out.push(((n / 65536) % 256) as u8);
    out.push((n / 16777216) as u8);
    assert(out@ =~= le_bytes(n as nat));
    out
}

/// Derives the counter's address, if the host derives one.
pub fn find_counter_address(program_id: &Address) -> (found: Option<Address>)
    ensures
        match found {
            Some(address) => counter_address(program_id@) == Some(address@),
            None => counter_address(program_id@) is None,
        },
{
    let mut seeds: Vec<&[u8]> = Vec::new();
    seeds.push("journal-counter".as_bytes());
    assert(seeds_view(seeds@) =~= counter_seeds());
    try_find_program_address(seeds.as_slice(), program_id)
}

/// Derives the address of the entry numbered `count` of `owner`, if the host
/// derives one.
pub fn find_entry_address(program_id: &Address, count: u32, owner: &Address) -> (found: Option<Address>)
    ensures
        match found {
            Some(address) => entry_address(program_id@, count as nat, owner@) == Some(address@),
            None => entry_address(program_id@, count as nat, owner@) is None,
        },
{
    let number: Vec<u8> = sequence_bytes(count);
    let mut seeds: Vec<&[u8]> = Vec::new();
    seeds.push("journal-entry".as_bytes());
    seeds.push(number.as_slice());
    seeds.push(owner.bytes.as_slice());
    assert(seeds_view(seeds@) =~= entry_seeds(count as nat, owner@));
    try_find_program_address(seeds.as_slice(), program_id)
}

} // verus!
