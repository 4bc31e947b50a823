//! Why a record is rejected.

use vstd::prelude::*;

verus! {

/// The reasons for which a record is not applied.
#[derive(Debug, Clone, Copy, PartialEq, Eq, Structural)]
pub enum TransactionError {
    /// The client's account is locked.
    LockedAccount,
    /// A deposit or withdrawal carries a transaction id that is already in the ledger.
    DuplicateTransaction,
    /// A withdrawal asks for more than is available.
    InsufficientFunds,
    /// No transaction of this client has the given id.
    TransactionNotFound,
    /// The transaction has been charged back and cannot change any more.
    TransactionChargedback,
    /// The transaction is not under dispute.
    NotDisputed,
    /// The transaction is already under dispute.
    AlreadyDisputed,
}

/// The reasons for which a run stops before its last record.
#[derive(Debug, Clone, Copy, PartialEq, Eq, Structural)]
pub enum RunError {
    /// A record was refused for another reason than `TransactionNotFound`.
    Rejected(TransactionError),
    /// A record would have taken a balance out of the range in which sums and differences are
    /// exact.
    OutOfRange,
}

} // verus!
