//! The error taxonomy of the validator.

use vstd::prelude::*;

verus! {

/// An error reported by the script engine, carried verbatim by
/// [`TransactionError::ScriptFailure`].
#[derive(Clone, Copy, Debug, PartialEq, Eq)]
pub enum ScriptError {
    /// The scripts of the transaction would consume more than the cycle budget.
    ExceededMaximumCycles,
    /// A script rejected the transaction; the code identifies the script.
    ValidationFailure(u64),
}

/// Why a transaction was rejected. Every checker returns on its first
/// failure, and the orchestrators propagate the first error unchanged.
#[derive(Clone, Copy, Debug, PartialEq, Eq)]
pub enum TransactionError {
    /// The transaction version differs from the protocol constant.
    Version,
    /// The transaction has no inputs or no outputs.
    Empty,
    /// Two dep references of the transaction are equal.
    DuplicateDeps,
    /// A cellbase output is spent before its maturity window has passed.
    CellbaseImmaturity,
    /// The outputs hold more capacity than the committed inputs provide.
    OutputsSumOverflow,
    /// A capacity sum overflowed, or an output cannot hold the space its own
    /// serialized form requires.
    CapacityOverflow,
    /// A `since` lock has a reserved bit set or an invalid metric code.
    InvalidSince,
    /// A valid `since` lock has not yet matured.
    Immature,
    /// The script engine returned an error, carried verbatim.
    ScriptFailure(ScriptError),
}

/// Returned by [`crate::types::Capacity::safe_add`] when the sum does not fit.
#[derive(Clone, Copy, Debug, PartialEq, Eq)]
pub struct OverflowError;

} // verus!
