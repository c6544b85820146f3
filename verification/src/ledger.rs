//! The ledger as mathematical data: the accounts and the transaction store, what a
//! record does to them, and what holds of every record.

use vstd::prelude::*;
use crate::cents::{parse_amount, Cents};
use crate::client::{accounts_of, Account, ClientData, ClientId};
use crate::error::LedgerError;
use crate::input::InputRecord;
use crate::transaction::{
    records_of, Deposit, DepositState, Transaction, TransactionData, TransactionId, Withdrawal,
};

verus! {

/// The five kinds of operation.
#[derive(Clone, Copy, Debug, PartialEq, Eq, Structural)]
pub enum Operation {
    Deposit,
    Withdrawal,
    Dispute,
    Resolve,
    Chargeback,
}

/// The operation that a record's kind names, if it names one. Case counts.
pub open spec fn spec_operation(kind: Seq<char>) -> Option<Operation> {
    if kind == "deposit"@ {
        Some(Operation::Deposit)
    } else if kind == "withdrawal"@ {
        Some(Operation::Withdrawal)
    } else if kind == "dispute"@ {
        Some(Operation::Dispute)
    } else if kind == "resolve"@ {
        Some(Operation::Resolve)
    } else if kind == "chargeback"@ {
        Some(Operation::Chargeback)
    } else {
        None
    }
}

/// The amount that a deposit or a withdrawal needs: the record's amount text, parsed.
pub open spec fn spec_amount(amount: Option<String>) -> Result<Cents, LedgerError> {
    match amount {
        None => Err(LedgerError::MissingAmount),
        Some(text) => match parse_amount(text@) {
            Some(cents) => Ok(cents),
            None => Err(LedgerError::Parse),
        },
    }
}

/// The accounts and the transaction store together, as mathematical data: the model
/// that the contract of [`process_record`] speaks of.
#[verifier::ext_equal]
pub struct Ledger {
    /// The account of each client that has one.
    pub accounts: Map<ClientId, Account>,
    /// The record of each transaction that was made.
    pub transactions: Map<TransactionId, Transaction>,
}

/// The ledger that a map of clients and a transaction store make.
pub open spec fn ledger_of(
    clients: Map<ClientId, ClientData>,
    transactions: Map<TransactionId, TransactionData>,
) -> Ledger {
    Ledger { accounts: accounts_of(clients), transactions: records_of(transactions) }
}

/// What an operation of the dispute lifecycle does to the deposit it is about; a
/// deposit or a withdrawal is about none.
pub open spec fn deposit_step(operation: Operation, deposit: Deposit) -> Result<
    Deposit,
    LedgerError,
> {
    match operation {
        Operation::Dispute => deposit.dispute(),
        Operation::Resolve => deposit.resolve(),
        Operation::Chargeback => deposit.chargeback(),
        _ => Ok(deposit),
    }
}

/// What an operation does to the account it is on.
pub open spec fn account_step(operation: Operation, account: Account, amount: int) -> Result<
    Account,
    LedgerError,
> {
    match operation {
        Operation::Deposit => account.deposit(amount),
        Operation::Withdrawal => account.withdrawal(amount),
        Operation::Dispute => account.dispute(amount),
        Operation::Resolve => account.resolve(amount),
        Operation::Chargeback => account.chargeback(amount),
    }
}

/// The deposit with the given id among the records, which the given client must have
/// made: not a missing record, not a withdrawal, not a deposit of another client.
pub open spec fn spec_deposit(
    records: Map<TransactionId, Transaction>,
    id: TransactionId,
    client: ClientId,
) -> Result<Deposit, LedgerError> {
    if !records.contains_key(id) {
        Err(LedgerError::TransactionNotFound)
    } else {
        match records[id] {
            Transaction::Withdrawal(_) => Err(LedgerError::WrongTransactionKind),
            Transaction::Deposit(deposit) => if deposit.client != client {
                Err(LedgerError::ClientMismatch)
            } else {
                Ok(deposit)
            },
        }
    }
}

impl Ledger {
    /// The deposit with the given id, which the given client must have made.
    pub open spec fn deposit_of(self, id: TransactionId, client: ClientId) -> Result<
        Deposit,
        LedgerError,
    > {
        spec_deposit(self.transactions, id, client)
    }

    /// The account of the given client.
    pub open spec fn account_of(self, client: ClientId) -> Result<Account, LedgerError> {
        if self.accounts.contains_key(client) {
            Ok(self.accounts[client])
        } else {
            Err(LedgerError::ClientNotFound)
        }
    }

    /// The ledger in which the client has the given account and the id the given record.
    pub open spec fn with(
        self,
        client: ClientId,
        account: Account,
        id: TransactionId,
        transaction: Transaction,
    ) -> Ledger {
        Ledger {
            accounts: self.accounts.insert(client, account),
            transactions: self.transactions.insert(id, transaction),
        }
    }

    /// A deposit needs a free id and an amount. It is made on the client's account,
    /// or on an empty one where the client has none yet, and is then recorded as
    /// undisputed.
    pub open spec fn deposit(self, record: InputRecord) -> Result<Ledger, LedgerError> {
        if self.transactions.contains_key(record.transaction) {
            Err(LedgerError::DuplicateTransaction)
        } else {
            match spec_amount(record.amount) {
                Err(e) => Err(e),
                Ok(amount) => {
                    let account = if self.accounts.contains_key(record.client) {
                        self.accounts[record.client]
                    } else {
                        Account::empty()
                    };
                    match account.deposit(amount as int) {
                        Err(e) => Err(e),
                        Ok(next) => Ok(
                            self.with(
                                record.client,
                                next,
                                record.transaction,
                                Transaction::Deposit(
                                    Deposit {
                                        client: record.client,
                                        amount,
                                        state: DepositState::Undisputed,
                                    },
                                ),
                            ),
                        ),
                    }
                },
            }
        }
    }

    /// A withdrawal needs a free id, an amount and an account of the client. It is
    /// made on that account and then recorded.
    pub open spec fn withdrawal(self, record: InputRecord) -> Result<Ledger, LedgerError> {
        if self.transactions.contains_key(record.transaction) {
            Err(LedgerError::DuplicateTransaction)
        } else {
            match spec_amount(record.amount) {
                Err(e) => Err(e),
                Ok(amount) => match self.account_of(record.client) {
                    Err(e) => Err(e),
                    Ok(account) => match account.withdrawal(amount as int) {
                        Err(e) => Err(e),
                        Ok(next) => Ok(
                            self.with(
                                record.client,
                                next,
                                record.transaction,
                                Transaction::Withdrawal(
                                    Withdrawal { client: record.client, amount },
                                ),
                            ),
                        ),
                    },
                },
            }
        }
    }

    /// A dispute, a resolve or a chargeback needs a deposit of the client with the
    /// given id, no amount, and an account of the client. The deposit's state must
    /// allow the step; then the operation is made on the account with the deposit's
    /// amount, and the deposit takes its new state.
    pub open spec fn settle(self, operation: Operation, record: InputRecord) -> Result<
        Ledger,
        LedgerError,
    > {
        match self.deposit_of(record.transaction, record.client) {
            Err(e) => Err(e),
            Ok(deposit) => if record.amount is Some {
                Err(LedgerError::UnexpectedAmount)
            } else {
                match self.account_of(record.client) {
                    Err(e) => Err(e),
                    Ok(account) => match deposit_step(operation, deposit) {
                        Err(e) => Err(e),
                        Ok(moved) => match account_step(
                            operation,
                            account,
                            deposit.amount as int,
                        ) {
                            Err(e) => Err(e),
                            Ok(next) => Ok(
                                self.with(
                                    record.client,
                                    next,
                                    record.transaction,
                                    Transaction::Deposit(moved),
                                ),
                            ),
                        },
                    },
                }
            },
        }
    }

    /// What a record does to the ledger: the ledger after it, or the error that
    /// refuses it.
    pub open spec fn apply(self, record: InputRecord) -> Result<Ledger, LedgerError> {
        match spec_operation(record.record_type@) {
            None => Err(LedgerError::UnsupportedType),
            Some(Operation::Deposit) => self.deposit(record),
            Some(Operation::Withdrawal) => self.withdrawal(record),
            Some(operation) => self.settle(operation, record),
        }
    }

    /// Whether the funds that a record leaves on its client's account can be stored;
    /// those of a record that is refused can.
    pub open spec fn fits(self, record: InputRecord) -> bool {
        self.apply(record) matches Ok(next) ==> next.accounts[record.client].representable()
    }
}

/// The ledger after a record with the given outcome: the new one on success, the one
/// before where the record is refused.
pub open spec fn ledger_after(outcome: Result<Ledger, LedgerError>, before: Ledger) -> Ledger {
    match outcome {
        Ok(next) => next,
        Err(_) => before,
    }
}

/// The moves that the dispute lifecycle allows a deposit's state to make in one step,
/// staying as it is among them.
pub open spec fn legal_move(from: DepositState, to: DepositState) -> bool {
    ||| to == from
    ||| from == DepositState::Undisputed && to == DepositState::Dispute
    ||| from == DepositState::Dispute && to == DepositState::Undisputed
    ||| from == DepositState::Dispute && to == DepositState::Chargeback
}

/// Whether the record `after` is what a step may make of the record `before`: the
/// same transaction, but for a deposit's state, which has made a legal move.
pub open spec fn legal_successor(before: Transaction, after: Transaction) -> bool {
    match before {
        Transaction::Withdrawal(_) => after == before,
        Transaction::Deposit(deposit) => {
            &&& after matches Transaction::Deposit(moved)
            &&& moved.client == deposit.client
            &&& moved.amount == deposit.amount
            &&& legal_move(deposit.state, moved.state)
        },
    }
}

/// A deposit or a withdrawal whose transaction id is in the store already is refused
/// as a duplicate, and the ledger stays as it is.
pub proof fn lemma_duplicate_id_refused(ledger: Ledger, record: InputRecord)
    requires
        ledger.transactions.contains_key(record.transaction),
        spec_operation(record.record_type@) == Some(Operation::Deposit) || spec_operation(
            record.record_type@,
        ) == Some(Operation::Withdrawal),
    ensures
        ledger.apply(record) == Err::<Ledger, LedgerError>(LedgerError::DuplicateTransaction),
        ledger_after(ledger.apply(record), ledger) == ledger,
{
}

/// A record that succeeds and is not a deposit or a withdrawal leaves the set of
/// transactions as it is; one that is makes exactly its own transaction, which was
/// not there before.
pub proof fn lemma_ids_inserted_once(ledger: Ledger, record: InputRecord)
    requires
        ledger.apply(record) is Ok,
    ensures
        ({
            let next = ledger.apply(record)->Ok_0;
            let makes = spec_operation(record.record_type@) == Some(Operation::Deposit)
                || spec_operation(record.record_type@) == Some(Operation::Withdrawal);
            &&& makes ==> !ledger.transactions.contains_key(record.transaction)
                && next.transactions.dom() == ledger.transactions.dom().insert(record.transaction)
            &&& !makes ==> next.transactions.dom() == ledger.transactions.dom()
        }),
{
}

/// Whatever the record, every transaction in the store stays there, as the same kind
/// of transaction of the same client and amount; the state of a deposit makes a
/// legal move or none.
pub proof fn lemma_transactions_kept(ledger: Ledger, record: InputRecord, id: TransactionId)
    requires
        ledger.transactions.contains_key(id),
    ensures
        ledger_after(ledger.apply(record), ledger).transactions.contains_key(id),
        legal_successor(
            ledger.transactions[id],
            ledger_after(ledger.apply(record), ledger).transactions[id],
        ),
{
}

/// A deposit followed by a withdrawal of the same amount on the same account, where
/// both succeed, leaves the available and the held funds of the account as they were
/// before the two, or at zero where the deposit made the account. The withdrawal
/// succeeds where the deposit did, the available funds were not negative before, and
/// the withdrawal's id is free.
pub proof fn lemma_deposit_then_withdrawal(
    ledger: Ledger,
    deposit: InputRecord,
    withdrawal: InputRecord,
)
    requires
        spec_operation(deposit.record_type@) == Some(Operation::Deposit),
        spec_operation(withdrawal.record_type@) == Some(Operation::Withdrawal),
        withdrawal.client == deposit.client,
        withdrawal.amount == deposit.amount,
        ledger.apply(deposit) is Ok,
    ensures
        ({
            let before = if ledger.accounts.contains_key(deposit.client) {
                ledger.accounts[deposit.client]
            } else {
                Account::empty()
            };
            let deposited = ledger.apply(deposit)->Ok_0;
            &&& deposited.accounts[deposit.client].held == before.held
            &&& before.available >= 0 && !deposited.transactions.contains_key(
                withdrawal.transaction,
            ) ==> deposited.apply(withdrawal) is Ok
            &&& deposited.apply(withdrawal) matches Ok(withdrawn) ==> {
                &&& withdrawn.accounts[deposit.client].available == before.available
                &&& withdrawn.accounts[deposit.client].held == before.held
            }
        }),
{
}

/// A dispute succeeds only on an undisputed deposit of the record's client, and puts
/// it under dispute.
pub proof fn lemma_dispute_needs_undisputed(ledger: Ledger, record: InputRecord)
    requires
        spec_operation(record.record_type@) == Some(Operation::Dispute),
        ledger.apply(record) is Ok,
    ensures
        ledger.deposit_of(record.transaction, record.client) matches Ok(deposit)
            && deposit.state == DepositState::Undisputed,
        ledger.apply(record)->Ok_0.deposit_of(record.transaction, record.client) matches Ok(
            deposit,
        ) && deposit.state == DepositState::Dispute,
{
}

/// After a dispute that succeeded, a second dispute of the same deposit is refused,
/// for its state where nothing else is wrong with the record, and the deposit stays
/// under dispute.
pub proof fn lemma_second_dispute_refused(ledger: Ledger, first: InputRecord, second: InputRecord)
    requires
        spec_operation(first.record_type@) == Some(Operation::Dispute),
        spec_operation(second.record_type@) == Some(Operation::Dispute),
        second.transaction == first.transaction,
        ledger.apply(first) is Ok,
    ensures
        ({
            let disputed = ledger.apply(first)->Ok_0;
            &&& disputed.apply(second) is Err
            &&& second.client == first.client && second.amount is None ==> disputed.apply(second)
                == Err::<Ledger, LedgerError>(LedgerError::InvalidState)
            &&& ledger_after(disputed.apply(second), disputed) == disputed
            &&& disputed.transactions[first.transaction] matches Transaction::Deposit(deposit)
                && deposit.state == DepositState::Dispute
        }),
{
}

/// A chargeback that succeeds locks the account of the record's client and charges
/// the deposit back.
pub proof fn lemma_chargeback_locks(ledger: Ledger, record: InputRecord)
    requires
        spec_operation(record.record_type@) == Some(Operation::Chargeback),
        ledger.apply(record) is Ok,
    ensures
        ({
            let next = ledger.apply(record)->Ok_0;
            &&& next.accounts.contains_key(record.client)
            &&& next.accounts[record.client].locked
            &&& next.transactions[record.transaction] matches Transaction::Deposit(deposit)
                && deposit.state == DepositState::Chargeback
        }),
{
}

/// Every record on a locked account is refused, whatever its kind, and the ledger
/// stays as it is.
pub proof fn lemma_locked_account_refuses(ledger: Ledger, record: InputRecord)
    requires
        ledger.accounts.contains_key(record.client),
        ledger.accounts[record.client].locked,
    ensures
        ledger.apply(record) is Err,
        ledger_after(ledger.apply(record), ledger) == ledger,
{
}

/// Whatever the record, an account stays in the ledger, and a locked account stays
/// locked with the funds it has.
pub proof fn lemma_lock_is_permanent(ledger: Ledger, record: InputRecord, client: ClientId)
    requires
        ledger.accounts.contains_key(client),
    ensures
        ledger_after(ledger.apply(record), ledger).accounts.contains_key(client),
        ledger.accounts[client].locked ==> ledger_after(ledger.apply(record), ledger).accounts[client]
            == ledger.accounts[client],
{
}

/// A charged-back deposit stays charged back, whatever the record.
pub proof fn lemma_chargeback_is_final(ledger: Ledger, record: InputRecord, id: TransactionId)
    requires
        ledger.transactions.contains_key(id),
        ledger.transactions[id] matches Transaction::Deposit(deposit) && deposit.state
            == DepositState::Chargeback,
    ensures
        ledger_after(ledger.apply(record), ledger).transactions[id] == ledger.transactions[id],
{
}

} // verus!
