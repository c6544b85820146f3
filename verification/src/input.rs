//! The records that the ledger is fed with.

use vstd::prelude::*;
use crate::client::ClientId;
use crate::transaction::TransactionId;

verus! {

/// One operation record, as it is read from the input.
#[derive(Debug)]
pub struct InputRecord {
    /// The kind of operation: `deposit`, `withdrawal`, `dispute`, `resolve` or
    /// `chargeback`.
    pub record_type: String,
    /// The client whose account the operation is on.
    pub client: ClientId,
    /// The transaction that the operation makes or refers to.
    pub transaction: TransactionId,
    /// The amount as text: needed for a deposit and a withdrawal, not allowed for the
    /// other operations.
    pub amount: Option<String>,
}

} // verus!
