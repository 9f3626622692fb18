use vstd::prelude::*;

verus! {

/// The ways in which replaying a ledger fails. Each one ends the run.
#[derive(Clone, Debug, PartialEq, Eq)]
pub enum Error {
    /// A deposit or withdrawal record carries no amount.
    MissingAmount,
    /// The record names no known operation.
    UnknownOperation(String),
    /// A deposit or withdrawal reuses the id of an earlier entry.
    DuplicatedTransaction(u32),
    /// An entry that was already executed is executed again.
    AlreadyExecutedTransaction(u32),
    /// A dispute names an entry that is not executed.
    DisputeTransactionError(u32),
    /// A resolve names an entry that is not disputed.
    ResolveTransactionError(u32),
    /// A chargeback names an entry that is not disputed.
    ChargebackTransactionError(u32),
}

} // verus!
