use payments_engine::{
    handle_transaction, Client, Database, Rejection, Transaction, TransactionType,
};

fn deposit(client_id: u16, txn_id: u32, amount: u64) -> Transaction {
    Transaction { transaction_type: TransactionType::Deposit, client_id, txn_id, amount: Some(amount) }
}

fn withdrawal(client_id: u16, txn_id: u32, amount: u64) -> Transaction {
    Transaction {
        transaction_type: TransactionType::Withdrawal,
        client_id,
        txn_id,
        amount: Some(amount),
    }
}

fn referring(transaction_type: TransactionType, client_id: u16, txn_id: u32) -> Transaction {
    Transaction { transaction_type, client_id, txn_id, amount: None }
}

fn dispute(client_id: u16, txn_id: u32) -> Transaction {
    referring(TransactionType::Dispute, client_id, txn_id)
}

fn resolve(client_id: u16, txn_id: u32) -> Transaction {
    referring(TransactionType::Resolve, client_id, txn_id)
}

fn chargeback(client_id: u16, txn_id: u32) -> Transaction {
    referring(TransactionType::ChargeBack, client_id, txn_id)
}

/// A ledger in which client 1 has deposited 1.0 as transaction 1 and 2.0 as
/// transaction 2.
fn two_deposits() -> Database {
    let mut db = Database::default();
    assert_eq!(handle_transaction(&mut db, deposit(1, 1, 10_000)), Ok(()));
    assert_eq!(handle_transaction(&mut db, deposit(1, 2, 20_000)), Ok(()));
    db
}

/// The ledger of `two_deposits` with transaction 1 in dispute.
fn in_dispute() -> Database {
    let mut db = two_deposits();
    assert_eq!(handle_transaction(&mut db, dispute(1, 1)), Ok(()));
    db
}

#[test]
fn deposit_raises_available() {
    let db = two_deposits();
    assert_eq!(db.clients[&1].available, 30_000);
    assert_eq!(db.clients[&1].held, 0);
    assert!(!db.clients[&1].locked);
    assert!(db.clients[&1].disputed.is_empty());
    assert_eq!(db.transactions[&1], deposit(1, 1, 10_000));
    assert_eq!(db.transactions[&2], deposit(1, 2, 20_000));
}

#[test]
fn withdrawal_lowers_available() {
    let mut db = two_deposits();
    assert_eq!(handle_transaction(&mut db, withdrawal(1, 3, 12_500)), Ok(()));
    assert_eq!(db.clients[&1].available, 17_500);
    assert_eq!(db.transactions[&3], withdrawal(1, 3, 12_500));
}

#[test]
fn withdrawal_of_all_that_is_available() {
    let mut db = two_deposits();
    assert_eq!(handle_transaction(&mut db, withdrawal(1, 3, 30_000)), Ok(()));
    assert_eq!(db.clients[&1].available, 0);
}

#[test]
fn dispute_holds_the_amount() {
    let db = in_dispute();
    assert_eq!(db.clients[&1].available, 20_000);
    assert_eq!(db.clients[&1].held, 10_000);
    assert!(db.clients[&1].disputed.contains(&1));
    assert_eq!(db.clients[&1].disputed.len(), 1);
    assert_eq!(db.transactions.len(), 2);
}

#[test]
fn resolve_releases_the_amount() {
    let mut db = in_dispute();
    assert_eq!(handle_transaction(&mut db, resolve(1, 1)), Ok(()));
    assert_eq!(db.clients[&1].available, 30_000);
    assert_eq!(db.clients[&1].held, 0);
    assert!(db.clients[&1].disputed.is_empty());
    assert!(!db.clients[&1].locked);
}

#[test]
fn resolved_transaction_is_no_longer_in_dispute() {
    let mut db = in_dispute();
    assert_eq!(handle_transaction(&mut db, resolve(1, 1)), Ok(()));
    assert_eq!(handle_transaction(&mut db, resolve(1, 1)), Err(Rejection::NotDisputed));
    assert_eq!(handle_transaction(&mut db, chargeback(1, 1)), Err(Rejection::NotDisputed));
    assert_eq!(db.clients[&1].available, 30_000);
    assert_eq!(db.clients[&1].held, 0);
}

#[test]
fn chargeback_takes_the_amount_and_locks() {
    let mut db = in_dispute();
    assert_eq!(handle_transaction(&mut db, chargeback(1, 1)), Ok(()));
    assert_eq!(db.clients[&1].available, 20_000);
    assert_eq!(db.clients[&1].held, 0);
    assert!(db.clients[&1].locked);
    assert!(db.clients[&1].disputed.contains(&1));
    let frozen = handle_transaction(&mut db, deposit(1, 3, 50_000));
    assert_eq!(frozen, Err(Rejection::AccountLocked));
    assert_eq!(db.clients[&1].available, 20_000);
    assert_eq!(db.clients[&1].held, 0);
    assert_eq!(db.transactions.len(), 2);
}

#[test]
fn withdrawal_beyond_available_is_rejected() {
    let mut db = two_deposits();
    let outcome = handle_transaction(&mut db, withdrawal(1, 3, 1_000_000));
    assert_eq!(outcome, Err(Rejection::InsufficientFunds));
    assert_eq!(db.clients[&1].available, 30_000);
    assert_eq!(db.clients[&1].held, 0);
    assert!(!db.clients[&1].locked);
}

#[test]
fn rejected_withdrawal_goes_on_record() {
    let mut db = two_deposits();
    let outcome = handle_transaction(&mut db, withdrawal(1, 3, 1_000_000));
    assert_eq!(outcome, Err(Rejection::InsufficientFunds));
    assert_eq!(db.transactions.len(), 3);
    assert_eq!(db.transactions[&3], withdrawal(1, 3, 1_000_000));
}

#[test]
fn dispute_by_another_client_is_rejected() {
    let mut db = Database::default();
    assert_eq!(handle_transaction(&mut db, deposit(1, 1, 10_000)), Ok(()));
    assert_eq!(handle_transaction(&mut db, deposit(2, 2, 20_000)), Ok(()));
    let before = (db.clients[&1].available, db.clients[&2].available);
    assert_eq!(handle_transaction(&mut db, dispute(2, 1)), Err(Rejection::ClientMismatch));
    assert_eq!((db.clients[&1].available, db.clients[&2].available), before);
    assert_eq!(db.clients[&1].held, 0);
    assert_eq!(db.clients[&2].held, 0);
    assert!(db.clients[&1].disputed.is_empty());
    assert!(db.clients[&2].disputed.is_empty());
    assert_eq!(db.transactions.len(), 2);
}

#[test]
fn dispute_of_what_is_not_on_record_is_rejected() {
    let mut db = two_deposits();
    assert_eq!(handle_transaction(&mut db, dispute(1, 3)), Err(Rejection::UnknownTransaction));
    assert_eq!(handle_transaction(&mut db, resolve(1, 3)), Err(Rejection::UnknownTransaction));
    assert_eq!(handle_transaction(&mut db, chargeback(1, 3)), Err(Rejection::UnknownTransaction));
    assert_eq!(db.clients[&1].available, 30_000);
    assert_eq!(db.clients[&1].held, 0);
}

#[test]
fn dispute_before_its_deposit_is_rejected() {
    let mut db = Database::default();
    assert_eq!(handle_transaction(&mut db, dispute(1, 1)), Err(Rejection::UnknownTransaction));
    assert_eq!(handle_transaction(&mut db, deposit(1, 1, 10_000)), Ok(()));
    assert_eq!(db.clients[&1].available, 10_000);
    assert_eq!(db.clients[&1].held, 0);
    assert!(db.clients[&1].disputed.is_empty());
}

#[test]
fn reference_to_a_record_without_amount_is_rejected() {
    let mut db = Database::default();
    db.clients.insert(1, Client::default());
    db.transactions.insert(
        1,
        Transaction {
            transaction_type: TransactionType::Deposit,
            client_id: 1,
            txn_id: 1,
            amount: None,
        },
    );
    assert_eq!(handle_transaction(&mut db, dispute(1, 1)), Err(Rejection::UnknownTransaction));
}

#[test]
fn resolve_without_dispute_is_rejected() {
    let mut db = two_deposits();
    assert_eq!(handle_transaction(&mut db, resolve(1, 1)), Err(Rejection::NotDisputed));
    assert_eq!(handle_transaction(&mut db, chargeback(1, 1)), Err(Rejection::NotDisputed));
    assert_eq!(db.clients[&1].available, 30_000);
    assert_eq!(db.clients[&1].held, 0);
    assert!(!db.clients[&1].locked);
}

#[test]
fn resolve_by_another_client_is_rejected() {
    let mut db = in_dispute();
    assert_eq!(handle_transaction(&mut db, resolve(2, 1)), Err(Rejection::ClientMismatch));
    assert_eq!(handle_transaction(&mut db, chargeback(2, 1)), Err(Rejection::ClientMismatch));
    assert_eq!(db.clients[&1].held, 10_000);
    assert_eq!(db.clients[&2], Client::default());
}

#[test]
fn deposit_without_amount_is_rejected() {
    let mut db = Database::default();
    let outcome = handle_transaction(&mut db, referring(TransactionType::Deposit, 1, 1));
    assert_eq!(outcome, Err(Rejection::MissingAmount));
    let outcome = handle_transaction(&mut db, referring(TransactionType::Withdrawal, 1, 2));
    assert_eq!(outcome, Err(Rejection::MissingAmount));
    assert_eq!(db.clients[&1], Client::default());
    assert!(db.transactions.is_empty());
}

#[test]
fn deposit_beyond_the_range_is_rejected() {
    let mut db = Database::default();
    assert_eq!(handle_transaction(&mut db, deposit(1, 1, i64::MAX as u64)), Ok(()));
    assert_eq!(handle_transaction(&mut db, deposit(1, 2, 1)), Err(Rejection::BalanceOverflow));
    assert_eq!(handle_transaction(&mut db, deposit(1, 3, u64::MAX)), Err(Rejection::BalanceOverflow));
    assert_eq!(db.clients[&1].available, i64::MAX);
    assert_eq!(db.transactions.len(), 1);
}

#[test]
fn dispute_beyond_the_range_is_rejected() {
    let mut db = Database::default();
    assert_eq!(handle_transaction(&mut db, deposit(1, 1, i64::MAX as u64)), Ok(()));
    assert_eq!(handle_transaction(&mut db, dispute(1, 1)), Ok(()));
    assert_eq!(db.clients[&1].available, 0);
    assert_eq!(db.clients[&1].held, i64::MAX);
    assert_eq!(handle_transaction(&mut db, deposit(1, 2, 1)), Ok(()));
    assert_eq!(handle_transaction(&mut db, dispute(1, 2)), Err(Rejection::BalanceOverflow));
    assert_eq!(db.clients[&1].available, 1);
    assert_eq!(db.clients[&1].held, i64::MAX);
    assert!(!db.clients[&1].disputed.contains(&2));
}

#[test]
fn disputed_withdrawal_moves_its_amount_on_hold() {
    let mut db = Database::default();
    assert_eq!(handle_transaction(&mut db, deposit(1, 1, 40_000)), Ok(()));
    assert_eq!(handle_transaction(&mut db, withdrawal(1, 2, 15_000)), Ok(()));
    assert_eq!(handle_transaction(&mut db, dispute(1, 2)), Ok(()));
    assert_eq!(db.clients[&1].available, 10_000);
    assert_eq!(db.clients[&1].held, 15_000);
}

#[test]
fn dispute_can_take_available_below_zero() {
    let mut db = Database::default();
    assert_eq!(handle_transaction(&mut db, deposit(1, 1, 10_000)), Ok(()));
    assert_eq!(handle_transaction(&mut db, withdrawal(1, 2, 10_000)), Ok(()));
    assert_eq!(handle_transaction(&mut db, dispute(1, 1)), Ok(()));
    assert_eq!(db.clients[&1].available, -10_000);
    assert_eq!(db.clients[&1].held, 10_000);
    assert_eq!(handle_transaction(&mut db, withdrawal(1, 3, 1)), Err(Rejection::InsufficientFunds));
    assert_eq!(handle_transaction(&mut db, withdrawal(1, 4, 0)), Err(Rejection::InsufficientFunds));
}

#[test]
fn second_deposit_under_an_id_replaces_the_first_on_record() {
    let mut db = Database::default();
    assert_eq!(handle_transaction(&mut db, deposit(1, 1, 10_000)), Ok(()));
    assert_eq!(handle_transaction(&mut db, deposit(1, 1, 5_000)), Ok(()));
    assert_eq!(db.clients[&1].available, 15_000);
    assert_eq!(db.transactions.len(), 1);
    assert_eq!(db.transactions[&1], deposit(1, 1, 5_000));
}

#[test]
fn rejected_transaction_of_a_new_client_opens_an_account() {
    let mut db = Database::default();
    assert_eq!(handle_transaction(&mut db, dispute(7, 1)), Err(Rejection::UnknownTransaction));
    assert_eq!(db.clients.len(), 1);
    assert_eq!(db.clients[&7], Client::default());
}

#[test]
fn amount_of_a_dispute_is_not_looked_at() {
    let mut db = two_deposits();
    let txn = Transaction {
        transaction_type: TransactionType::Dispute,
        client_id: 1,
        txn_id: 2,
        amount: Some(1),
    };
    assert_eq!(handle_transaction(&mut db, txn), Ok(()));
    assert_eq!(db.clients[&1].available, 10_000);
    assert_eq!(db.clients[&1].held, 20_000);
}

#[test]
fn ledger_methods_file_and_find() {
    let mut db = Database::default();
    assert_eq!(db.lookup_transaction(1), None);
    db.record_transaction(deposit(3, 1, 10));
    assert_eq!(db.lookup_transaction(1), Some(&deposit(3, 1, 10)));
    db.record_transaction(withdrawal(4, 1, 20));
    assert_eq!(db.lookup_transaction(1), Some(&withdrawal(4, 1, 20)));
    assert_eq!(db.transactions.len(), 1);
    assert!(db.clients.is_empty());
    db.get_or_create_client(9).available = 5;
    assert_eq!(db.get_or_create_client(9).available, 5);
    assert_eq!(*db.get_or_create_client(8), Client::default());
    assert_eq!(db.clients.len(), 2);
}

#[test]
fn settle_leaves_a_rejected_account_alone() {
    let mut client = Client::default();
    assert_eq!(client.settle(None, &deposit(1, 1, 10)), Ok(()));
    assert_eq!(client.settle(None, &dispute(1, 1)), Err(Rejection::UnknownTransaction));
    assert_eq!(client.settle(Some(deposit(1, 1, 10)), &dispute(1, 1)), Ok(()));
    assert_eq!(client.available, 0);
    assert_eq!(client.held, 10);
    assert_eq!(client.total(), 10);
    assert_eq!(client.settle(Some(deposit(1, 1, 10)), &chargeback(1, 1)), Ok(()));
    assert_eq!(client.total(), 0);
    assert!(client.locked);
}
