use octopi::engine::Engine;
use octopi::error::EngineError;
use octopi::money::Money;
use octopi::transaction::Transaction;

#[test]
fn test_apply_deposit_transaction() {
    let mut engine = Engine::new();
    let tx = Transaction::new_deposit(1, 1, Money::from_units(100));

    assert!(engine.apply_transaction(tx).is_ok());

    let account = engine.get_account(1).unwrap();
    assert_eq!(account.available, Money::from_units(100));
    assert_eq!(account.total, Money::from_units(100));
    assert_eq!(account.held, Money::zero());
    assert!(!account.locked);

    // Verify transaction was stored
    assert!(engine.contains_transaction(1));
}

#[test]
fn test_apply_withdrawal_transaction() {
    let mut engine = Engine::new();

    // First deposit some money
    let deposit_tx = Transaction::new_deposit(1, 1, Money::from_units(100));
    assert!(engine.apply_transaction(deposit_tx).is_ok());

    // Then withdraw
    let withdraw_tx = Transaction::new_withdrawal(1, 2, Money::from_units(50));

    assert!(engine.apply_transaction(withdraw_tx).is_ok());

    let account = engine.get_account(1).unwrap();
    assert_eq!(account.available, Money::from_units(50));
    assert_eq!(account.total, Money::from_units(50));
    assert_eq!(account.held, Money::zero());
}

#[test]
fn test_apply_withdrawal_insufficient_funds() {
    let mut engine = Engine::new();

    // Deposit some money
    let deposit_tx = Transaction::new_deposit(1, 1, Money::from_units(50));
    assert!(engine.apply_transaction(deposit_tx).is_ok());

    // Try to withdraw more than available
    let withdraw_tx = Transaction::new_withdrawal(1, 2, Money::from_units(100));

    let result = engine.apply_transaction(withdraw_tx);
    assert!(result.is_err());

    // Account should remain unchanged
    let account = engine.get_account(1).unwrap();
    assert_eq!(account.available, Money::from_units(50));
    assert_eq!(account.total, Money::from_units(50));
}

#[test]
fn test_apply_dispute_transaction() {
    let mut engine = Engine::new();

    // First deposit some money
    let deposit_tx = Transaction::new_deposit(1, 1, Money::from_units(100));
    assert!(engine.apply_transaction(deposit_tx).is_ok());

    // Then dispute the transaction
    let dispute_tx = Transaction::new_dispute(1, 1); // Dispute the first transaction

    assert!(engine.apply_transaction(dispute_tx).is_ok());

    let account = engine.get_account(1).unwrap();
    assert_eq!(account.available, Money::zero());
    assert_eq!(account.held, Money::from_units(100));
    assert_eq!(account.total, Money::from_units(100));
}

#[test]
fn test_apply_resolve_transaction() {
    let mut engine = Engine::new();

    // First deposit some money
    let deposit_tx = Transaction::new_deposit(1, 1, Money::from_units(100));
    assert!(engine.apply_transaction(deposit_tx).is_ok());

    // Then dispute the transaction
    let dispute_tx = Transaction::new_dispute(1, 1);
    assert!(engine.apply_transaction(dispute_tx).is_ok());

    // Then resolve the dispute
    let resolve_tx = Transaction::new_resolve(1, 1);

    assert!(engine.apply_transaction(resolve_tx).is_ok());

    let account = engine.get_account(1).unwrap();
    assert_eq!(account.available, Money::from_units(100));
    assert_eq!(account.held, Money::zero());
    assert_eq!(account.total, Money::from_units(100));
}

#[test]
fn test_apply_chargeback_transaction() {
    let mut engine = Engine::new();

    // First deposit some money
    let deposit_tx = Transaction::new_deposit(1, 1, Money::from_units(100));
    assert!(engine.apply_transaction(deposit_tx).is_ok());

    // Then dispute the transaction
    let dispute_tx = Transaction::new_dispute(1, 1);
    assert!(engine.apply_transaction(dispute_tx).is_ok());

    // Then chargeback
    let chargeback_tx = Transaction::new_chargeback(1, 1);

    assert!(engine.apply_transaction(chargeback_tx).is_ok());

    let account = engine.get_account(1).unwrap();
    assert_eq!(account.available, Money::zero());
    assert_eq!(account.held, Money::zero());
    assert_eq!(account.total, Money::zero());
    assert!(account.locked);
}

#[test]
fn test_duplicate_transaction_id() {
    let mut engine = Engine::new();

    let tx1 = Transaction::new_deposit(1, 1, Money::from_units(100));
    assert!(engine.apply_transaction(tx1).is_ok());

    let tx2 = Transaction::new_deposit(1, 1, Money::from_units(200)); // Same tx_id

    let result = engine.apply_transaction(tx2);
    assert!(result.is_err());

    // Account should only reflect the first transaction
    let account = engine.get_account(1).unwrap();
    assert_eq!(account.available, Money::from_units(100));
    assert_eq!(account.total, Money::from_units(100));
}

#[test]
fn test_account_locked() {
    let mut engine = Engine::new();

    // First deposit and chargeback to lock the account
    let deposit_tx = Transaction::new_deposit(1, 1, Money::from_units(100));
    assert!(engine.apply_transaction(deposit_tx).is_ok());

    let dispute_tx = Transaction::new_dispute(1, 1);
    assert!(engine.apply_transaction(dispute_tx).is_ok());

    let chargeback_tx = Transaction::new_chargeback(1, 1);
    assert!(engine.apply_transaction(chargeback_tx).is_ok());

    // Try to apply another transaction to locked account
    let new_tx = Transaction::new_deposit(1, 4, Money::from_units(50));

    let result = engine.apply_transaction(new_tx);
    assert!(result.is_err());
    match result {
        Err(EngineError::AccountLocked(client)) => {
            assert_eq!(client, 1);
        }
        _ => panic!("Expected AccountLocked error"),
    }
}

#[test]
fn test_dispute_nonexistent_transaction() {
    let mut engine = Engine::new();

    let dispute_tx = Transaction::new_dispute(1, 999); // Non-existent transaction

    let result = engine.apply_transaction(dispute_tx);
    assert!(result.is_err());
    match result {
        Err(EngineError::NonExistentTransaction(id)) => {
            assert_eq!(id, 999);
        }
        _ => panic!("Expected NonExistentTransaction error"),
    }
}

#[test]
fn test_resolve_nonexistent_transaction() {
    let mut engine = Engine::new();

    let resolve_tx = Transaction::new_resolve(1, 999); // Non-existent transaction

    let result = engine.apply_transaction(resolve_tx);
    assert!(result.is_err());
    match result {
        Err(EngineError::NonExistentTransaction(id)) => {
            assert_eq!(id, 999);
        }
        _ => panic!("Expected NonExistentTransaction error"),
    }
}

#[test]
fn test_chargeback_nonexistent_transaction() {
    let mut engine = Engine::new();

    let chargeback_tx = Transaction::new_chargeback(1, 999); // Non-existent transaction

    let result = engine.apply_transaction(chargeback_tx);
    assert!(result.is_err());
    match result {
        Err(EngineError::NonExistentTransaction(id)) => {
            assert_eq!(id, 999);
        }
        _ => panic!("Expected NonExistentTransaction error"),
    }
}

#[test]
fn test_multiple_clients() {
    let mut engine = Engine::new();

    // Client 1 deposit
    let tx1 = Transaction::new_deposit(1, 1, Money::from_units(100));
    assert!(engine.apply_transaction(tx1).is_ok());

    // Client 2 deposit
    let tx2 = Transaction::new_deposit(2, 2, Money::from_units(200));
    assert!(engine.apply_transaction(tx2).is_ok());

    // Verify both accounts exist and are separate
    let account1 = engine.get_account(1).unwrap();
    assert_eq!(account1.available, Money::from_units(100));
    assert_eq!(account1.total, Money::from_units(100));

    let account2 = engine.get_account(2).unwrap();
    assert_eq!(account2.available, Money::from_units(200));
    assert_eq!(account2.total, Money::from_units(200));
}

#[test]
fn test_transaction_storage() {
    let mut engine = Engine::new();

    let tx = Transaction::new_deposit(1, 42, Money::from_units(100));

    assert!(engine.apply_transaction(tx).is_ok());

    // Verify transaction was stored
    assert!(engine.contains_transaction(42));
    let stored_tx = engine.get_transaction(42).unwrap();
    assert_eq!(stored_tx.client, 1);
    assert_eq!(stored_tx.tx_id, 42);
}

#[test]
fn test_complex_workflow() {
    let mut engine = Engine::new();

    // 1. Deposit money
    let deposit_tx = Transaction::new_deposit(1, 1, Money::from_units(1500));
    assert!(engine.apply_transaction(deposit_tx).is_ok());

    // 2. Withdraw some money
    let withdraw_tx = Transaction::new_withdrawal(1, 2, Money::from_units(300));
    assert!(engine.apply_transaction(withdraw_tx).is_ok());

    // 3. Deposit money
    let deposit_tx = Transaction::new_deposit(1, 3, Money::from_units(500));
    assert!(engine.apply_transaction(deposit_tx).is_ok());

    // 4. Dispute the first deposit
    let dispute_tx = Transaction::new_dispute(1, 1);
    assert!(engine.apply_transaction(dispute_tx).is_ok());

    // Verify dispute state
    let account = engine.get_account(1).unwrap();
    assert_eq!(account.available, Money::from_units(200));
    assert_eq!(account.held, Money::from_units(1500));
    assert_eq!(account.total, Money::from_units(1700));
    assert!(!account.locked);

    // 5. Resolve the dispute
    let resolve_tx = Transaction::new_resolve(1, 1);
    assert!(engine.apply_transaction(resolve_tx).is_ok());

    // Verify final state
    let account = engine.get_account(1).unwrap();
    assert_eq!(account.available, Money::from_units(1700));
    assert_eq!(account.held, Money::zero());
    assert_eq!(account.total, Money::from_units(1700));
    assert!(!account.locked);

    // Verify all transactions were stored
    assert_eq!(engine.transaction_count(), 3);
    assert!(engine.contains_transaction(1));
    assert!(engine.contains_transaction(2));
    assert!(engine.contains_transaction(3));
}

#[test]
fn test_dispute_withdrawal() {
    let mut engine = Engine::new();

    // 1. Deposit money
    let deposit_tx = Transaction::new_deposit(1, 1, Money::from_units(1500));
    assert!(engine.apply_transaction(deposit_tx).is_ok());

    // 2. Withdraw some money
    let withdraw_tx = Transaction::new_withdrawal(1, 2, Money::from_units(300));
    assert!(engine.apply_transaction(withdraw_tx).is_ok());

    // 3. Dispute the withdrawal
    let dispute_tx = Transaction::new_dispute(1, 2);
    assert!(engine.apply_transaction(dispute_tx).is_err());

    // Verify final state
    let account = engine.get_account(1).unwrap();
    assert_eq!(account.available, Money::from_units(1200));
    assert_eq!(account.held, Money::zero());
    assert_eq!(account.total, Money::from_units(1200));
    assert!(!account.locked);

    // Verify all transactions were stored
    assert_eq!(engine.transaction_count(), 2);
    assert!(engine.contains_transaction(1));
    assert!(engine.contains_transaction(2));
}

#[test]
fn test_resolve_dispute_post_withdrawal() {
    let mut engine = Engine::new();

    // 1. Deposit money
    let deposit_tx = Transaction::new_deposit(1, 1, Money::from_units(500));
    assert!(engine.apply_transaction(deposit_tx).is_ok());

    // 2. Withdraw some money
    let withdraw_tx = Transaction::new_withdrawal(1, 2, Money::from_units(250));
    assert!(engine.apply_transaction(withdraw_tx).is_ok());

    // 3. Dispute the deposit
    let dispute_tx = Transaction::new_dispute(1, 1);
    assert!(engine.apply_transaction(dispute_tx).is_ok());

    // Verify dispute state
    let account = engine.get_account(1).unwrap();
    assert_eq!(account.available, Money::zero());
    assert_eq!(account.held, Money::from_units(250));
    assert_eq!(account.total, Money::from_units(250));
    assert!(!account.locked);

    // 4. Resolve the dispute
    let resolve_tx = Transaction::new_resolve(1, 1);
    assert!(engine.apply_transaction(resolve_tx).is_ok());

    // Verify final state
    let account = engine.get_account(1).unwrap();
    assert_eq!(account.available, Money::from_units(250));
    assert_eq!(account.held, Money::zero());
    assert_eq!(account.total, Money::from_units(250));
    assert!(!account.locked);

    // Verify all transactions were stored
    assert_eq!(engine.transaction_count(), 2);
    assert!(engine.contains_transaction(1));
    assert!(engine.contains_transaction(2));
}

#[test]
fn test_chargeback_dispute_post_withdrawal() {
    let mut engine = Engine::new();

    // 1. Deposit money
    let deposit_tx = Transaction::new_deposit(1, 1, Money::from_units(500));
    assert!(engine.apply_transaction(deposit_tx).is_ok());

    // 2. Withdraw some money
    let withdraw_tx = Transaction::new_withdrawal(1, 2, Money::from_units(250));
    assert!(engine.apply_transaction(withdraw_tx).is_ok());

    // 3. Dispute the deposit
    let dispute_tx = Transaction::new_dispute(1, 1);
    assert!(engine.apply_transaction(dispute_tx).is_ok());

    // Verify dispute state
    let account = engine.get_account(1).unwrap();
    assert_eq!(account.available, Money::zero());
    assert_eq!(account.held, Money::from_units(250));
    assert_eq!(account.total, Money::from_units(250));
    assert!(!account.locked);

    // 4. Chargeback the dispute
    let chargeback_tx = Transaction::new_chargeback(1, 1);
    assert!(engine.apply_transaction(chargeback_tx).is_ok());

    // Verify final state
    let account = engine.get_account(1).unwrap();
    assert_eq!(account.available, Money::zero());
    assert_eq!(account.held, Money::zero());
    assert_eq!(account.total, Money::zero());
    assert!(account.locked);

    // Verify all transactions were stored
    assert_eq!(engine.transaction_count(), 2);
    assert!(engine.contains_transaction(1));
    assert!(engine.contains_transaction(2));
}

#[test]
fn test_dump_accounts_output() {
    let mut engine = Engine::new();
    let tx1 = Transaction::new_deposit(1, 1, Money::from_units(100));
    let tx2 = Transaction::new_deposit(2, 2, Money::from_units(200));
    engine.apply_transaction(tx1).unwrap();
    engine.apply_transaction(tx2).unwrap();

    let output = engine.dump_accounts();

    // Check CSV header
    assert!(output.contains("client,available,held,total,locked"));
    // Check CSV data
    assert!(output.contains("1,100,0,100,false"));
    assert!(output.contains("2,200,0,200,false"));
}

#[test]
fn test_dump_accounts_short() {
    let mut engine = Engine::new();
    let tx = Transaction::new_deposit(1, 1, Money::from_minor(420_001));
    engine.apply_transaction(tx).unwrap();

    let output = engine.dump_accounts();

    // Check CSV header
    assert!(output.contains("client,available,held,total,locked"));
    // Check CSV data
    assert!(output.contains("1,42.0001,0,42.0001,false"));
}

#[test]
fn test_dump_accounts_long() {
    let mut engine = Engine::new();
    for i in 1..=20u16 {
        let tx = Transaction::new_deposit(i, i as u32, Money::from_units(i as i64 * 10));
        engine.apply_transaction(tx).unwrap();
    }

    let output = engine.dump_accounts();

    // Check CSV header
    assert!(output.contains("client,available,held,total,locked"));

    // Check CSV data for each account
    for i in 1..=20u64 {
        let expected = format!("{},{},0,{},false", i, i * 10, i * 10);
        assert!(output.contains(&expected), "Missing: {}", expected);
    }
}
