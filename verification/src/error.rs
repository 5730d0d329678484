//! The ways in which an instruction is rejected.

use vstd::prelude::*;

verus! {

/// Why an instruction was rejected. Every rejection is final for the call and
/// leaves the accounts as they were.
#[derive(Clone, Copy, Debug, PartialEq, Eq, Structural)]
pub enum LedgerError {
    /// The instruction buffer is empty.
    MissingInstructionData,
    /// The first byte of the instruction selects no handler.
    UnknownInstruction,
    /// Fewer accounts were supplied than the handler consumes.
    MissingAccount,
    /// The record-holding account is not owned by this program.
    WrongAccountOwner,
    /// The authorising account did not sign.
    MissingSigner,
    /// The supplied identity is not the campaign's admin.
    Unauthorized,
    /// A payload or a stored buffer is not the encoding of a record or of an
    /// amount.
    MalformedRecord,
    /// A record is longer than the buffer that is to hold it.
    RecordTooLarge,
    /// A balance is below the solvency floor, or too small for the amount.
    InsufficientFunds,
    /// An addition would exceed the range of a balance or a counter.
    Overflow,
    /// No solvency floor could be had for the record-holding account.
    FloorUnavailable,
}

} // verus!
