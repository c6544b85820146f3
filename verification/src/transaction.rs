//! Transaction records: what the store keeps of each deposit and withdrawal, and the
//! dispute lifecycle of a deposit.

use std::collections::HashMap;
use vstd::prelude::*;
use crate::cents::Cents;
use crate::client::ClientId;
use crate::error::{reported, LedgerError};

verus! {

/// Identifies a transaction.
pub type TransactionId = u32;

/// Where a deposit stands in the dispute lifecycle.
#[derive(Clone, Copy, Debug, PartialEq, Eq, Structural)]
pub enum DepositState {
    /// Not disputed, or resolved again.
    Undisputed,
    /// Under dispute.
    Dispute,
    /// Charged back: the last state.
    Chargeback,
}

/// A deposit as mathematical data: the model that the contracts of [`DepositData`]
/// speak of.
pub struct Deposit {
    /// The client who made the deposit.
    pub client: ClientId,
    /// The amount that was deposited.
    pub amount: Cents,
    /// Where the deposit stands in the dispute lifecycle.
    pub state: DepositState,
}

impl Deposit {
    /// A dispute is legal only on an undisputed deposit, which it puts under dispute.
    pub open spec fn dispute(self) -> Result<Deposit, LedgerError> {
        if self.state == DepositState::Undisputed {
            Ok(Deposit { state: DepositState::Dispute, ..self })
        } else {
            Err(LedgerError::InvalidState)
        }
    }

    /// A resolve is legal only on a deposit under dispute, which it makes undisputed.
    pub open spec fn resolve(self) -> Result<Deposit, LedgerError> {
        if self.state == DepositState::Dispute {
            Ok(Deposit { state: DepositState::Undisputed, ..self })
        } else {
            Err(LedgerError::InvalidState)
        }
    }

    /// A chargeback is legal only on a deposit under dispute, which it charges back.
    pub open spec fn chargeback(self) -> Result<Deposit, LedgerError> {
        if self.state == DepositState::Dispute {
            Ok(Deposit { state: DepositState::Chargeback, ..self })
        } else {
            Err(LedgerError::InvalidState)
        }
    }
}

/// A withdrawal as mathematical data: the model that the contracts of
/// [`WithdrawalData`] speak of.
pub struct Withdrawal {
    /// The client who made the withdrawal.
    pub client: ClientId,
    /// The amount that was withdrawn.
    pub amount: Cents,
}

/// What the store keeps of one transaction: the model that the contracts of
/// [`TransactionData`] speak of.
pub enum Transaction {
    /// A deposit, which can be disputed.
    Deposit(Deposit),
    /// A withdrawal, which cannot.
    Withdrawal(Withdrawal),
}

/// What has to hold after a step of the dispute lifecycle with the given outcome: on
/// success the deposit is the new one, otherwise it is as before, and a refusal is
/// reported with its error.
pub open spec fn moved(
    outcome: Result<Deposit, LedgerError>,
    before: Deposit,
    after: Deposit,
    result: Result<(), LedgerError>,
) -> bool {
    &&& after == (match outcome {
        Ok(deposit) => deposit,
        Err(_) => before,
    })
    &&& result == reported(outcome)
}

/// A deposit as the store keeps it.
#[derive(Clone, Copy, Debug)]
pub struct DepositData {
    client: ClientId,
    amount: Cents,
    pub state: DepositState,
}

impl View for DepositData {
    type V = Deposit;

    closed spec fn view(&self) -> Deposit {
        Deposit { client: self.client, amount: self.amount, state: self.state }
    }
}

impl DepositData {
    /// Makes the record of a deposit that is not disputed.
    pub fn new(client: ClientId, amount: Cents) -> (deposit: Self)
        ensures
            deposit@ == (Deposit { client, amount, state: DepositState::Undisputed }),
    {
        Self { client, amount, state: DepositState::Undisputed }
    }

    /// The client who made the deposit.
    pub fn get_client(&self) -> (client: ClientId)
        ensures
            client == self@.client,
    {
        self.client
    }

    /// The amount that was deposited.
    pub fn get_amount(&self) -> (amount: Cents)
        ensures
            amount == self@.amount,
    {
        self.amount
    }

    /// Puts an undisputed deposit under dispute; any other is left as it is.
    pub fn dispute(&mut self) -> (result: Result<(), LedgerError>)
        ensures
            moved(old(self)@.dispute(), old(self)@, final(self)@, result),
    {
        match self.state {
            DepositState::Undisputed => {
                self.state = DepositState::Dispute;
                Ok(())
            },
            _ => Err(LedgerError::InvalidState),
        }
    }

    /// Makes a deposit under dispute undisputed again; any other is left as it is.
    pub fn resolve(&mut self) -> (result: Result<(), LedgerError>)
        ensures
            moved(old(self)@.resolve(), old(self)@, final(self)@, result),
    {
        match self.state {
            DepositState::Dispute => {
                self.state = DepositState::Undisputed;
                Ok(())
            },
            _ => Err(LedgerError::InvalidState),
        }
    }

    /// Charges back a deposit under dispute; any other is left as it is.
    pub fn chargeback(&mut self) -> (result: Result<(), LedgerError>)
        ensures
            moved(old(self)@.chargeback(), old(self)@, final(self)@, result),
    {
        match self.state {
            DepositState::Dispute => {
                self.state = DepositState::Chargeback;
                Ok(())
            },
            _ => Err(LedgerError::InvalidState),
        }
    }
}

/// A withdrawal as the store keeps it.
#[derive(Clone, Copy, Debug)]
pub struct WithdrawalData {
    _client: ClientId,
    _amount: Cents,
}

impl View for WithdrawalData {
    type V = Withdrawal;

    closed spec fn view(&self) -> Withdrawal {
        Withdrawal { client: self._client, amount: self._amount }
    }
}

impl WithdrawalData {
    /// Makes the record of a withdrawal.
    pub fn new(client: ClientId, amount: Cents) -> (withdrawal: Self)
        ensures
            withdrawal@ == (Withdrawal { client, amount }),
    {
        Self { _client: client, _amount: amount }
    }
}

/// A transaction as the store keeps it.
#[derive(Clone, Copy, Debug)]
pub enum TransactionData {
    Deposit(DepositData),
    Withdrawal(WithdrawalData),
}

impl View for TransactionData {
    type V = Transaction;

    open spec fn view(&self) -> Transaction {
        match self {
            TransactionData::Deposit(deposit) => Transaction::Deposit(deposit@),
            TransactionData::Withdrawal(withdrawal) => Transaction::Withdrawal(withdrawal@),
        }
    }
}

/// The transaction store, by transaction id.
pub type TransactionsMap = HashMap<TransactionId, TransactionData>;

/// The records that a transaction store holds.
pub open spec fn records_of(transactions: Map<TransactionId, TransactionData>) -> Map<
    TransactionId,
    Transaction,
> {
    transactions.map_values(|transaction: TransactionData| transaction@)
}

} // verus!
