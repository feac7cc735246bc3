//! Why an operation was refused.

use vstd::prelude::*;

verus! {

/// The reasons for which an operation fails. A failed operation changes
/// nothing on the ledger.
#[derive(Clone, Copy, Debug, PartialEq, Eq, Structural)]
pub enum JournalError {
    /// The counter exists already.
    AlreadyInitialized,
    /// A title or a message is longer than its record has room for.
    LengthExceeded,
    /// No record sits where the operation looks for one.
    NotFound,
    /// The address for a new record is taken.
    AddressCollision,
    /// The record found does not belong to the signer under the number given.
    Unauthorized,
}

} // verus!
