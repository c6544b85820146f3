use tx_ledger::error::LedgerError;
use tx_ledger::transaction::{DepositData, DepositState, TransactionData, WithdrawalData};

#[test]
fn depost_data() {
    let client = 1;
    let amount = 2;
    let depost = DepositData::new(client, amount);

    assert_eq!(depost.get_client(), client);
    assert_eq!(depost.get_amount(), amount);
    assert_eq!(depost.state, DepositState::Undisputed);
}

#[test]
fn dispute_lifecycle() {
    let mut deposit = DepositData::new(7, 15_000);
    assert_eq!(deposit.resolve(), Err(LedgerError::InvalidState));
    assert_eq!(deposit.chargeback(), Err(LedgerError::InvalidState));
    assert_eq!(deposit.state, DepositState::Undisputed);

    assert_eq!(deposit.dispute(), Ok(()));
    assert_eq!(deposit.state, DepositState::Dispute);
    assert_eq!(deposit.dispute(), Err(LedgerError::InvalidState));
    assert_eq!(deposit.state, DepositState::Dispute);

    assert_eq!(deposit.resolve(), Ok(()));
    assert_eq!(deposit.state, DepositState::Undisputed);

    assert_eq!(deposit.dispute(), Ok(()));
    assert_eq!(deposit.chargeback(), Ok(()));
    assert_eq!(deposit.state, DepositState::Chargeback);

    assert_eq!(deposit.dispute(), Err(LedgerError::InvalidState));
    assert_eq!(deposit.resolve(), Err(LedgerError::InvalidState));
    assert_eq!(deposit.chargeback(), Err(LedgerError::InvalidState));
    assert_eq!(deposit.state, DepositState::Chargeback);

    assert_eq!(deposit.get_client(), 7);
    assert_eq!(deposit.get_amount(), 15_000);
}

#[test]
fn transaction_kinds() {
    let deposit = TransactionData::Deposit(DepositData::new(1, 2));
    let withdrawal = TransactionData::Withdrawal(WithdrawalData::new(1, 2));
    assert!(matches!(deposit, TransactionData::Deposit(_)));
    assert!(matches!(withdrawal, TransactionData::Withdrawal(_)));
}
