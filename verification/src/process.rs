//! The record processor: applies one record at a time to the accounts and to the
//! transaction store.

use std::collections::hash_map::Entry;
use vstd::prelude::*;
use crate::cents::{string_to_cents, Cents};
use crate::client::{ClientData, ClientId, ClientsMap};
use crate::error::{reported, LedgerError};
use crate::input::InputRecord;
use crate::ledger::{ledger_after, ledger_of, spec_amount, spec_deposit, spec_operation, Operation};
use crate::transaction::{
    records_of, Deposit, DepositData, TransactionData, TransactionId, TransactionsMap,
    WithdrawalData,
};

verus! {

/// Whether two texts are the same.
fn same_text(a: &str, b: &str) -> (same: bool)
    ensures
        same == (a@ == b@),
{
    let len = a.unicode_len();
    if b.unicode_len() != len {
        return false;
    }
    let mut i: usize = 0;
    while i < len
        invariant
            i <= len,
            len == a@.len(),
            len == b@.len(),
            forall|j: int| 0 <= j < i ==> a@[j] == b@[j],
        decreases len - i,
    {
        if a.get_char(i) != b.get_char(i) {
            return false;
        }
        i += 1;
    }
    assert(a@ =~= b@);
    true
}

/// Reads the kind of a record.
pub fn operation_of(kind: &str) -> (operation: Option<Operation>)
    ensures
        operation == spec_operation(kind@),
{
    if same_text(kind, "deposit") {
        Some(Operation::Deposit)
    } else if same_text(kind, "withdrawal") {
        Some(Operation::Withdrawal)
    } else if same_text(kind, "dispute") {
        Some(Operation::Dispute)
    } else if same_text(kind, "resolve") {
        Some(Operation::Resolve)
    } else if same_text(kind, "chargeback") {
        Some(Operation::Chargeback)
    } else {
        None
    }
}

/// Applies one record to the accounts and to the transaction store: afterwards they
/// make the ledger after the record, and a refusal is reported with its error.
///
/// A record that is refused changes nothing. The funds that the record leaves on its
/// client's account must be representable: [`record_fits`] tells whether they are.
pub fn process_record(
    record: &InputRecord,
    clients: &mut ClientsMap,
    transactions: &mut TransactionsMap,
) -> (result: Result<(), LedgerError>)
    requires
        ledger_of(old(clients)@, old(transactions)@).fits(*record),
    ensures
        ledger_of(final(clients)@, final(transactions)@) == ledger_after(
            ledger_of(old(clients)@, old(transactions)@).apply(*record),
            ledger_of(old(clients)@, old(transactions)@),
        ),
        result == reported(ledger_of(old(clients)@, old(transactions)@).apply(*record)),
{
    match operation_of(record.record_type.as_str()) {
        Some(Operation::Deposit) => {
            check_transaction_id(record.transaction, transactions)?;
            let amount = get_amount(&record.amount)?;

            // find or create client, and apply deposit to client
            let client_id = record.client;
            if clients.contains_key(&client_id) {
                let client = get_client(client_id, clients)?;
                client.deposit(amount)?;
            } else {
                let mut client = ClientData::new();
                client.deposit(amount)?;
                clients.insert(client_id, client);
            }

            // insert deposit into transactions map
            let transaction_id = record.transaction;
            transactions.insert(
                transaction_id,
                TransactionData::Deposit(DepositData::new(client_id, amount)),
            );
            Ok(())
        },
        Some(Operation::Withdrawal) => {
            check_transaction_id(record.transaction, transactions)?;
            let amount = get_amount(&record.amount)?;

            let client_id = record.client;
            let client = get_client(client_id, clients)?;

            // apply withdrawal to client
            client.withdrawal(amount)?;

            // insert withdrawal into transactions map
            let transaction_id = record.transaction;
            transactions.insert(
                transaction_id,
                TransactionData::Withdrawal(WithdrawalData::new(client_id, amount)),
            );
            Ok(())
        },
        Some(Operation::Dispute) => {
            let deposit = get_deposit(record.transaction, record.client, transactions)?;
            check_amount_is_none(&record.amount)?;
            let client = get_client(record.client, clients)?;

            let mut disputed = *deposit;
            disputed.dispute()?;
            client.dispute(deposit.get_amount())?;
            *deposit = disputed;
            Ok(())
        },
        Some(Operation::Resolve) => {
            let deposit = get_deposit(record.transaction, record.client, transactions)?;
            check_amount_is_none(&record.amount)?;
            let client = get_client(record.client, clients)?;

            let mut resolved = *deposit;
            resolved.resolve()?;
            client.resolve(deposit.get_amount())?;
            *deposit = resolved;
            Ok(())
        },
        Some(Operation::Chargeback) => {
            let deposit = get_deposit(record.transaction, record.client, transactions)?;
            check_amount_is_none(&record.amount)?;
            let client = get_client(record.client, clients)?;

            let mut charged = *deposit;
            charged.chargeback()?;
            client.chargeback(deposit.get_amount())?;
            *deposit = charged;
            Ok(())
        },
        None => Err(LedgerError::UnsupportedType),
    }
}

/// Refuses the id of a new transaction where the store holds one with it already.
pub fn check_transaction_id(id: TransactionId, transactions: &TransactionsMap) -> (result: Result<
    (),
    LedgerError,
>)
    ensures
        result == (if transactions@.contains_key(id) {
            Err::<(), LedgerError>(LedgerError::DuplicateTransaction)
        } else {
            Ok(())
        }),
{
    if transactions.contains_key(&id) {
        Err(LedgerError::DuplicateTransaction)
    } else {
        Ok(())
    }
}

/// Finds the deposit with the given id, which the given client must have made, to be
/// read and changed in the store.
///
/// Fails where the store holds no transaction with the id, where that transaction
/// is a withdrawal, and where another client made the deposit. The store changes
/// only as far as the caller changes the deposit.
pub fn get_deposit<'a>(
    transaction_id: TransactionId,
    client_id: ClientId,
    transactions: &'a mut TransactionsMap,
) -> (result: Result<&'a mut DepositData, LedgerError>)
    ensures
        match result {
            Ok(deposit) => {
                &&& spec_deposit(records_of(old(transactions)@), transaction_id, client_id)
                    == Ok::<Deposit, LedgerError>(deposit@)
                &&& old(transactions)@[transaction_id] == TransactionData::Deposit(*deposit)
                &&& final(transactions)@ == old(transactions)@.insert(
                    transaction_id,
                    TransactionData::Deposit(*final(deposit)),
                )
            },
            Err(e) => {
                &&& spec_deposit(records_of(old(transactions)@), transaction_id, client_id)
                    == Err::<Deposit, LedgerError>(e)
                &&& final(transactions)@ == old(transactions)@
            },
        },
{
    match transactions.entry(transaction_id) {
        Entry::Occupied(entry) => match entry.into_mut() {
            TransactionData::Deposit(d) => {
                if d.get_client() == client_id {
                    Ok(d)
                } else {
                    Err(LedgerError::ClientMismatch)
                }
            },
            _ => Err(LedgerError::WrongTransactionKind),
        },
        Entry::Vacant(_) => Err(LedgerError::TransactionNotFound),
    }
}

/// Refuses an amount where none is allowed.
pub fn check_amount_is_none(amount: &Option<String>) -> (result: Result<(), LedgerError>)
    ensures
        result == (if amount is None {
            Ok::<(), LedgerError>(())
        } else {
            Err(LedgerError::UnexpectedAmount)
        }),
{
    if amount.is_none() {
        Ok(())
    } else {
        Err(LedgerError::UnexpectedAmount)
    }
}

/// Parses the amount of a record that needs one.
pub fn get_amount(amount: &Option<String>) -> (result: Result<Cents, LedgerError>)
    ensures
        result == spec_amount(*amount),
{
    match amount {
        Some(amount) => string_to_cents(amount.as_str()),
        None => Err(LedgerError::MissingAmount),
    }
}

/// Finds the account of the given client, to be read and changed among the accounts;
/// fails where the client has none. The accounts change only as far as the caller
/// changes the account.
pub fn get_client<'a>(id: ClientId, clients: &'a mut ClientsMap) -> (result: Result<
    &'a mut ClientData,
    LedgerError,
>)
    ensures
        match result {
            Ok(client) => {
                &&& old(clients)@.contains_key(id)
                &&& *client == old(clients)@[id]
                &&& final(clients)@ == old(clients)@.insert(id, *final(client))
            },
            Err(e) => {
                &&& !old(clients)@.contains_key(id)
                &&& e == LedgerError::ClientNotFound
                &&& final(clients)@ == old(clients)@
            },
        },
{
    match clients.entry(id) {
        Entry::Occupied(entry) => Ok(entry.into_mut()),
        Entry::Vacant(_) => Err(LedgerError::ClientNotFound),
    }
}

/// Tells whether the funds that a record leaves on its client's account are
/// representable, which [`process_record`] needs. Those of a record that is refused
/// are.
pub fn record_fits(record: &InputRecord, clients: &ClientsMap, transactions: &TransactionsMap) -> (fits:
    bool)
    ensures
        fits == ledger_of(clients@, transactions@).fits(*record),
{
    match operation_of(record.record_type.as_str()) {
        None => true,
        Some(Operation::Deposit) => {
            if check_transaction_id(record.transaction, transactions).is_err() {
                return true;
            }
            match get_amount(&record.amount) {
                Err(_) => true,
                Ok(amount) => match clients.get(&record.client) {
                    Some(client) => client.deposit_fits(amount),
                    None => ClientData::new().deposit_fits(amount),
                },
            }
        },
        Some(Operation::Withdrawal) => {
            if check_transaction_id(record.transaction, transactions).is_err() {
                return true;
            }
            match get_amount(&record.amount) {
                Err(_) => true,
                Ok(amount) => match clients.get(&record.client) {
                    Some(client) => client.withdrawal_fits(amount),
                    None => true,
                },
            }
        },
        Some(operation) => {
            let mut deposit = match transactions.get(&record.transaction) {
                Some(TransactionData::Deposit(deposit)) => *deposit,
                _ => {
                    return true;
                },
            };
            if deposit.get_client() != record.client || record.amount.is_some() {
                return true;
            }
            let client = match clients.get(&record.client) {
                Some(client) => client,
                None => {
                    return true;
                },
            };
            let amount = deposit.get_amount();
            match operation {
                Operation::Dispute => deposit.dispute().is_err() || client.dispute_fits(amount),
                Operation::Resolve => deposit.resolve().is_err() || client.resolve_fits(amount),
                _ => deposit.chargeback().is_err() || client.chargeback_fits(amount),
            }
        },
    }
}

} // verus!
