//! Failures that the pack program reports.

use vstd::prelude::*;

verus! {

/// Every failure a pack operation can end in. The first failure an operation
/// meets is the one it returns.
#[derive(Clone, Copy, Debug, PartialEq, Eq, Structural)]
pub enum PackError {
    /// An arithmetic result would exceed the integer's range.
    Overflow,
    /// An arithmetic result would be negative, or a division has no result.
    Underflow,
    /// Stored bytes have the wrong length or do not hold the expected record.
    InvalidAccountData,
    /// The target storage already holds a valid record.
    AlreadyInitialized,
    /// The required identity did not sign, or is not the registered authority.
    MissingRequiredSignature,
    /// A record's storage is not owned by this program.
    IllegalOwner,
    /// A key or an index does not match the expected one.
    InvalidArgument,
    /// A record's balance does not keep it persisted.
    NotRentExempt,
    /// Fewer accounts were supplied than the instruction consumes.
    NotEnoughAccountKeys,
    /// The pack set can no longer be edited.
    ImmutablePackSet,
    /// The pack set is not in the state the operation needs.
    WrongPackState,
    /// An edit would set a field to the value it already has.
    CantSetTheSameValue,
    /// An edit would set the number of packs below the number of cards.
    SmallTotalPacksAmount,
    /// The pack set is not active, so it cannot be deactivated.
    PackAlreadyDeactivated,
    /// Every card has reached its maximum supply.
    NoCardsLeft,
    /// The cards' weights together would exceed the probability pool.
    ProbabilityPoolExceeded,
    /// The vouchers proven so far do not allow the requested step.
    WrongProvingState,
}

} // verus!
