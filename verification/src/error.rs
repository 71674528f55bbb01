//! The ways in which an operation of either service can fail.

use vstd::prelude::*;

verus! {

/// Why an operation was refused. A refused operation changes nothing.
#[derive(Clone, Copy, Debug, PartialEq, Eq, Structural)]
pub enum ContractError {
    /// A rent that is not positive, or a negative deposit, at creation.
    InvalidAmount,
    /// Creation under an identifier that is already taken in its namespace.
    DuplicateId,
    /// No record is stored under the identifier.
    NotFound,
    /// The record is in a state from which the transition is not admitted.
    InvalidState,
    /// The caller does not hold the role that the transition asks for.
    Unauthorized,
    /// A time entry that does not end after it starts.
    InvalidTimeRange,
}

} // verus!
