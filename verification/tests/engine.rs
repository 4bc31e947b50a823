use payment_engine::{
    Amount, PaymentEngine, Transaction, TransactionError, TransactionVariant,
};

#[test]
fn simple_deposit() {
    let mut engine = PaymentEngine::default();

    let amount = Amount::new(22, 1).unwrap();
    let client = 1;
    let deposit = Transaction {
        tx: 1,
        amount: Some(amount),
        client,
        disputed: false,
        chargeback: false,
        variant: TransactionVariant::Deposit,
    };
    assert!(engine.insert(deposit).is_ok());
    assert_eq!(engine.accounts().len(), 1);
    assert_eq!(engine.transactions().len(), 1);
    // Check account
    let account = engine.accounts().get(&client).unwrap();
    assert_eq!(account.available(), amount);
    assert_eq!(account.total(), amount);
    assert_eq!(account.held(), Amount::zero());
    // Check transaction
    let tx = engine.transactions().get(&1).unwrap();
    assert_eq!(tx.amount, Some(amount));
    assert_eq!(tx.client, client);
}

#[test]
fn simple_withdrawal() {
    let mut engine = PaymentEngine::default();

    let amount = Amount::new(22, 1).unwrap();
    let client = 1;
    let deposit = Transaction {
        tx: 1,
        amount: Some(amount),
        client,
        disputed: false,
        chargeback: false,
        variant: TransactionVariant::Deposit,
    };
    assert!(engine.insert(deposit).is_ok());

    let withdrawal = Transaction {
        tx: 2,
        amount: Some(amount),
        client,
        disputed: false,
        chargeback: false,
        variant: TransactionVariant::Withdrawal,
    };
    assert!(engine.insert(withdrawal).is_ok());

    assert_eq!(engine.accounts().len(), 1);
    assert_eq!(engine.transactions().len(), 2);
    // Check account
    let account = engine.accounts().get(&client).unwrap();
    assert_eq!(account.available(), Amount::zero());
    assert_eq!(account.total(), Amount::zero());
    assert_eq!(account.held(), Amount::zero());
}

#[test]
fn reject_too_large_withdrawal() {
    let mut engine = PaymentEngine::default();

    let mut amount = Amount::new(22, 1).unwrap();
    let client = 1;
    let deposit = Transaction {
        tx: 1,
        amount: Some(amount),
        client,
        disputed: false,
        chargeback: false,
        variant: TransactionVariant::Deposit,
    };
    assert!(engine.insert(deposit).is_ok());

    amount.add_assign(Amount::new(1, 1).unwrap());

    let withdrawal = Transaction {
        tx: 2,
        // Trying to withdraw an amount larger than the amount deposited
        amount: Some(amount),
        client,
        disputed: false,
        chargeback: false,
        variant: TransactionVariant::Withdrawal,
    };
    assert_eq!(
        engine.insert(withdrawal).unwrap_err(),
        TransactionError::InsufficientFunds
    );
}

#[test]
fn reject_transaction_overwrite() {
    let mut engine = PaymentEngine::default();

    let tx = 1;
    let client = 1;
    let deposit = Transaction {
        tx,
        amount: Some(Amount::zero()),
        client,
        disputed: false,
        chargeback: false,
        variant: TransactionVariant::Deposit,
    };
    assert!(engine.insert(deposit).is_ok());
    let deposit = Transaction {
        // Trying to use the same `tx` as in the previous transaction
        tx,
        amount: Some(Amount::zero()),
        client,
        disputed: false,
        chargeback: false,
        variant: TransactionVariant::Deposit,
    };
    assert_eq!(
        engine.insert(deposit).unwrap_err(),
        TransactionError::DuplicateTransaction
    );
}

#[test]
fn chargeback() {
    let mut engine = PaymentEngine::default();

    let client = 1;

    // Deposit
    let deposit = Transaction {
        tx: 1,
        amount: Some(Amount::new(10, 0).unwrap()),
        client,
        disputed: false,
        chargeback: false,
        variant: TransactionVariant::Deposit,
    };
    assert!(engine.insert(deposit).is_ok());

    let dispute = Transaction {
        tx: 1,
        amount: None,
        client,
        disputed: false,
        chargeback: false,
        variant: TransactionVariant::Dispute,
    };
    assert!(engine.insert(dispute).is_ok());
    let chargeback = Transaction {
        tx: 1,
        amount: None,
        client,
        disputed: false,
        chargeback: false,
        variant: TransactionVariant::Chargeback,
    };
    assert!(engine.insert(chargeback).is_ok());
    let account_after_chargeback = engine.accounts().get(&client).unwrap();

    // Check that deposit has been reversed and that everything is back to zero
    assert_eq!(account_after_chargeback.available(), Amount::zero());
    assert_eq!(account_after_chargeback.total(), Amount::zero());
    assert_eq!(account_after_chargeback.held(), Amount::zero());
    // Chargeback should lock account
    assert!(account_after_chargeback.locked());
}

#[test]
fn resolved_dispute() {
    let mut engine = PaymentEngine::default();

    let client = 1;

    // Deposit
    let deposit = Transaction {
        tx: 1,
        amount: Some(Amount::new(10, 0).unwrap()),
        client,
        disputed: false,
        chargeback: false,
        variant: TransactionVariant::Deposit,
    };
    assert!(engine.insert(deposit).is_ok());

    // Backup state of account at this point to compare after dispute is resolved
    let accounts = engine.accounts().clone();
    let account_before_dispute = accounts.get(&client).unwrap();

    let dispute = Transaction {
        tx: 1,
        amount: None,
        client,
        disputed: false,
        chargeback: false,
        variant: TransactionVariant::Dispute,
    };
    assert!(engine.insert(dispute).is_ok());
    let chargeback = Transaction {
        tx: 1,
        amount: None,
        client,
        disputed: false,
        chargeback: false,
        variant: TransactionVariant::Resolve,
    };
    assert!(engine.insert(chargeback).is_ok());
    let account_after_resolve = engine.accounts().get(&client).unwrap();

    // Check that deposit has been reversed and that everything is back to zero
    assert_eq!(
        account_after_resolve.available(),
        account_before_dispute.available()
    );
    assert_eq!(
        account_after_resolve.total(),
        account_before_dispute.total()
    );
    assert_eq!(account_after_resolve.held(), account_before_dispute.held());
    // Resolve should NOT lock account
    assert!(!account_after_resolve.locked());
}

#[test]
fn reject_double_dispute() {
    let mut engine = PaymentEngine::default();

    let client = 1;

    // Deposit
    let deposit = Transaction {
        tx: 1,
        amount: Some(Amount::new(10, 0).unwrap()),
        client,
        disputed: false,
        chargeback: false,
        variant: TransactionVariant::Deposit,
    };
    assert!(engine.insert(deposit).is_ok());

    let dispute = Transaction {
        tx: 1,
        amount: None,
        client,
        disputed: false,
        chargeback: false,
        variant: TransactionVariant::Dispute,
    };
    assert!(engine.insert(dispute).is_ok());

    // Trying to dispute again which should fail
    let dispute = Transaction {
        tx: 1,
        amount: None,
        client,
        disputed: false,
        chargeback: false,
        variant: TransactionVariant::Dispute,
    };
    assert!(engine.insert(dispute).is_err());
}

#[test]
fn reject_unauthenticated_dispute() {
    let mut engine = PaymentEngine::default();

    let client = 1;
    let mallicous_client = 2;

    // Deposit
    let deposit = Transaction {
        tx: 1,
        amount: Some(Amount::new(10, 0).unwrap()),
        client,
        disputed: false,
        chargeback: false,
        variant: TransactionVariant::Deposit,
    };
    assert!(engine.insert(deposit).is_ok());

    // mallicous_client tries to dispute transaction done by another client
    let dispute = Transaction {
        tx: 1,
        amount: None,
        client: mallicous_client,
        disputed: false,
        chargeback: false,
        variant: TransactionVariant::Dispute,
    };
    assert!(engine.insert(dispute).is_err());
}
