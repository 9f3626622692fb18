use csv_payment_engine::client::{ClientStatus, Wallet};
use csv_payment_engine::transaction::{Operation, Transaction, TransactionStatus, TransactionType};
use csv_payment_engine::{Client, Error};

fn client(available: u64, held: u64) -> Client {
    Client { id: 1, wallet: Wallet { available, held }, status: ClientStatus::Active }
}

#[test]
fn new_client_is_empty_and_active() {
    let c = Client::new(7);
    assert_eq!(c, Client { id: 7, wallet: Wallet { available: 0, held: 0 }, status: ClientStatus::Active });
    assert!(!c.is_locked());
}

#[test]
fn client_moves_funds_between_pools() {
    let mut c = client(10, 0);
    assert!(c.deposit_funds(5));
    assert_eq!(c.wallet, Wallet { available: 15, held: 0 });
    assert!(!c.withdraw_funds(16));
    assert!(c.withdraw_funds(15));
    assert!(c.deposit_funds(8));
    assert!(c.block_funds(6));
    assert_eq!(c.wallet, Wallet { available: 2, held: 6 });
    assert!(!c.block_funds(3));
    assert!(!c.release_funds(7));
    assert!(c.release_funds(4));
    assert_eq!(c.wallet, Wallet { available: 6, held: 2 });
    assert!(!c.chargeback_funds(3));
    assert!(c.chargeback_funds(2));
    assert_eq!(c.wallet, Wallet { available: 6, held: 0 });
    assert!(c.is_locked());
}

#[test]
fn locked_client_refuses_all() {
    let mut c = client(10, 10);
    c.status = ClientStatus::Frozen;
    assert!(!c.deposit_funds(1));
    assert!(!c.withdraw_funds(1));
    assert!(!c.block_funds(1));
    assert!(!c.release_funds(1));
    assert!(!c.chargeback_funds(1));
    assert_eq!(c.wallet, Wallet { available: 10, held: 10 });
}

#[test]
fn classify_reads_names_exactly() {
    let s = |x: &str| x.to_string();
    assert_eq!(Operation::classify(&s("deposit"), Some(3)), Ok(Operation::Deposit(3)));
    assert_eq!(Operation::classify(&s("withdraw"), Some(4)), Ok(Operation::Withdraw(4)));
    assert_eq!(Operation::classify(&s("withdrawal"), Some(5)), Ok(Operation::Withdraw(5)));
    assert_eq!(Operation::classify(&s("dispute"), Some(9)), Ok(Operation::Dispute));
    assert_eq!(Operation::classify(&s("resolve"), None), Ok(Operation::Resolve));
    assert_eq!(Operation::classify(&s("chargeback"), None), Ok(Operation::Chargeback));
    assert_eq!(Operation::classify(&s("deposit"), None), Err(Error::MissingAmount));
    assert_eq!(Operation::classify(&s("withdraws"), Some(1)), Err(Error::UnknownOperation(s("withdraws"))));
    assert_eq!(Operation::classify(&s(""), None), Err(Error::UnknownOperation(s(""))));
}

#[test]
fn transaction_lifecycle() {
    let mut c = client(0, 0);
    let mut t = Transaction::new_input(4, 9);
    assert_eq!(t.get_amount(), 9);
    assert_eq!(t.dispute(&mut c), Err(Error::DisputeTransactionError(4)));
    assert_eq!(t.execute(&mut c), Ok(()));
    assert_eq!(t.status, TransactionStatus::Executed);
    assert_eq!(t.execute(&mut c), Err(Error::AlreadyExecutedTransaction(4)));
    assert_eq!(t.resolve(&mut c), Err(Error::ResolveTransactionError(4)));
    assert_eq!(t.dispute(&mut c), Ok(()));
    assert_eq!(t.status, TransactionStatus::Disputed);
    assert_eq!(c.wallet, Wallet { available: 0, held: 9 });
    assert_eq!(t.chargeback(&mut c), Ok(()));
    assert_eq!(t.status, TransactionStatus::Executed);
    assert!(c.is_locked());
    assert_eq!(c.wallet, Wallet { available: 0, held: 0 });
}

#[test]
fn refused_withdrawal_stays_not_executed() {
    let mut c = client(3, 0);
    let mut t = Transaction::new_output(2, 4);
    assert_eq!(t.kind, TransactionType::Output(4));
    assert_eq!(t.execute(&mut c), Ok(()));
    assert_eq!(t.status, TransactionStatus::NonExecuted);
    assert_eq!(c.wallet, Wallet { available: 3, held: 0 });
}
