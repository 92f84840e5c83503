use vstd::prelude::*;

verus! {

/// Why an operation on the ledger was refused.
#[derive(Clone, Copy, Debug, PartialEq, Eq, Structural)]
pub enum LedgerError {
    /// A row was named while the ledger holds no expense at all.
    NoExpenses,
    /// The row number is zero or lies past the last row.
    OutOfRange,
    /// A value handed in from outside is malformed or missing.
    InvalidArgument,
}

} // verus!
