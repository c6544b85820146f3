//! The ways in which one record can be refused.

use vstd::prelude::*;

verus! {

/// Why a record, an amount text or an account operation was refused.
///
/// Every error is local to the one record that caused it: the state it was
/// applied to is left as it was.
#[derive(Clone, Copy, Debug, PartialEq, Eq, Structural)]
pub enum LedgerError {
    /// The amount text is not a decimal number with at most four decimal digits.
    Parse,
    /// The amount is below zero.
    NegativeAmount,
    /// The account is locked.
    LockedAccount,
    /// The account's available funds are less than the amount to withdraw.
    InsufficientFunds,
    /// The transaction id is already in the store.
    DuplicateTransaction,
    /// No transaction with this id is in the store.
    TransactionNotFound,
    /// The transaction is a withdrawal, which cannot be disputed.
    WrongTransactionKind,
    /// The transaction belongs to another client.
    ClientMismatch,
    /// No account exists for this client.
    ClientNotFound,
    /// The deposit is not in the state that the operation starts from.
    InvalidState,
    /// An amount was given where none is allowed.
    UnexpectedAmount,
    /// No amount was given where one is needed.
    MissingAmount,
    /// The operation kind is not one of the five known ones.
    UnsupportedType,
}

impl LedgerError {
    /// The text that describes the error to a person.
    pub open spec fn spec_message(self) -> Seq<char> {
        match self {
            LedgerError::Parse => "Failed to parse amount"@,
            LedgerError::NegativeAmount => "Amount may not be negative"@,
            LedgerError::LockedAccount => "Account is locked"@,
            LedgerError::InsufficientFunds => "Insufficient available funds for withdrawal"@,
            LedgerError::DuplicateTransaction => "Transaction id already exists"@,
            LedgerError::TransactionNotFound => "Transaction not found"@,
            LedgerError::WrongTransactionKind => "Transaction is not a deposit"@,
            LedgerError::ClientMismatch => "Client ids do not match"@,
            LedgerError::ClientNotFound => "Client not found"@,
            LedgerError::InvalidState => "Deposit is not in a state that allows this operation"@,
            LedgerError::UnexpectedAmount => "Amount was expected to be empty, but it isn't"@,
            LedgerError::MissingAmount => "Amount missing"@,
            LedgerError::UnsupportedType => "Unsupported transaction type"@,
        }
    }

    /// Returns the text that describes the error to a person.
    pub fn message(&self) -> (text: &'static str)
        ensures
            text@ == self.spec_message(),
    {
        match self {
            LedgerError::Parse => "Failed to parse amount",
            LedgerError::NegativeAmount => "Amount may not be negative",
            LedgerError::LockedAccount => "Account is locked",
            LedgerError::InsufficientFunds => "Insufficient available funds for withdrawal",
            LedgerError::DuplicateTransaction => "Transaction id already exists",
            LedgerError::TransactionNotFound => "Transaction not found",
            LedgerError::WrongTransactionKind => "Transaction is not a deposit",
            LedgerError::ClientMismatch => "Client ids do not match",
            LedgerError::ClientNotFound => "Client not found",
            LedgerError::InvalidState => "Deposit is not in a state that allows this operation",
            LedgerError::UnexpectedAmount => "Amount was expected to be empty, but it isn't",
            LedgerError::MissingAmount => "Amount missing",
            LedgerError::UnsupportedType => "Unsupported transaction type",
        }
    }
}

/// What is reported of an operation with the given outcome: success, or the error
/// that refused it.
pub open spec fn reported<T>(outcome: Result<T, LedgerError>) -> Result<(), LedgerError> {
    match outcome {
        Ok(_) => Ok(()),
        Err(e) => Err(e),
    }
}

} // verus!
