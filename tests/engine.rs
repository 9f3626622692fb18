use csv_payment_engine::engine::ClientView;
use csv_payment_engine::transaction::TransactionView;
use csv_payment_engine::{Error, PaymentEngine};

fn record(op: &str, tx: u32, client: u16, amount: Option<u64>) -> TransactionView {
    TransactionView {
        operation_type: op.to_string(),
        transaction_id: tx,
        client_id: client,
        amount,
    }
}

fn view(client: u16, available: u64, held: u64, locked: bool) -> ClientView {
    ClientView { client, available, held, total: available + held, locked }
}

fn run(records: Vec<TransactionView>) -> Result<Vec<ClientView>, Error> {
    let mut engine = PaymentEngine::new();
    engine.compute(&records)?;
    let mut out = engine.dump();
    out.sort_by_key(|v| v.client);
    Ok(out)
}

#[test]
fn deposit_then_withdraw() {
    let out = run(vec![
        record("deposit", 1, 1, Some(50000)),
        record("withdraw", 2, 1, Some(30000)),
    ]);
    assert_eq!(out, Ok(vec![view(1, 20000, 0, false)]));
}

#[test]
fn dispute_then_chargeback_freezes() {
    let out = run(vec![
        record("deposit", 1, 1, Some(50000)),
        record("dispute", 1, 1, None),
        record("chargeback", 1, 1, None),
    ]);
    assert_eq!(out, Ok(vec![view(1, 0, 0, true)]));
}

#[test]
fn withdraw_on_empty_account_is_refused() {
    let out = run(vec![record("withdraw", 1, 1, Some(100000))]);
    assert_eq!(out, Ok(vec![view(1, 0, 0, false)]));
}

#[test]
fn deposits_only_accumulate() {
    let out = run(vec![
        record("deposit", 1, 1, Some(10000)),
        record("deposit", 2, 2, Some(5000)),
        record("deposit", 3, 1, Some(2500)),
        record("deposit", 4, 1, Some(1)),
    ]);
    assert_eq!(out, Ok(vec![view(1, 12501, 0, false), view(2, 5000, 0, false)]));
}

#[test]
fn overdraft_keeps_entry_not_executed() {
    // The refused withdrawal stays on file: disputing it is an error.
    let mut engine = PaymentEngine::new();
    assert_eq!(engine.process(&record("deposit", 1, 1, Some(100))), Ok(()));
    assert_eq!(engine.process(&record("withdrawal", 2, 1, Some(101))), Ok(()));
    assert_eq!(engine.dump(), vec![view(1, 100, 0, false)]);
    assert_eq!(
        engine.process(&record("dispute", 2, 1, None)),
        Err(Error::DisputeTransactionError(2))
    );
}

#[test]
fn dispute_moves_funds_to_held() {
    let out = run(vec![
        record("deposit", 1, 1, Some(300)),
        record("deposit", 2, 1, Some(200)),
        record("dispute", 1, 1, None),
    ]);
    assert_eq!(out, Ok(vec![view(1, 200, 300, false)]));
}

#[test]
fn dispute_without_enough_available_is_ignored() {
    let out = run(vec![
        record("deposit", 1, 1, Some(300)),
        record("withdraw", 2, 1, Some(200)),
        record("dispute", 1, 1, None),
        record("resolve", 1, 1, None),
    ]);
    assert_eq!(out, Err(Error::ResolveTransactionError(1)));
}

#[test]
fn resolve_releases_and_cannot_repeat() {
    let mut engine = PaymentEngine::new();
    assert_eq!(engine.process(&record("deposit", 1, 1, Some(700))), Ok(()));
    assert_eq!(engine.process(&record("dispute", 1, 1, None)), Ok(()));
    assert_eq!(engine.dump(), vec![view(1, 0, 700, false)]);
    assert_eq!(engine.process(&record("resolve", 1, 1, None)), Ok(()));
    assert_eq!(engine.dump(), vec![view(1, 700, 0, false)]);
    assert_eq!(
        engine.process(&record("resolve", 1, 1, None)),
        Err(Error::ResolveTransactionError(1))
    );
}

#[test]
fn frozen_account_ignores_everything() {
    let mut engine = PaymentEngine::new();
    for r in [
        record("deposit", 1, 1, Some(500)),
        record("deposit", 2, 1, Some(400)),
        record("deposit", 3, 1, Some(300)),
        record("dispute", 1, 1, None),
        record("dispute", 3, 1, None),
        record("chargeback", 1, 1, None),
    ] {
        assert_eq!(engine.process(&r), Ok(()));
    }
    let frozen = vec![view(1, 400, 300, true)];
    assert_eq!(engine.dump(), frozen);
    for r in [
        record("deposit", 4, 1, Some(10)),
        record("withdraw", 5, 1, Some(10)),
        record("dispute", 2, 1, None),
        record("resolve", 3, 1, None),
        record("chargeback", 3, 1, None),
    ] {
        assert_eq!(engine.process(&r), Ok(()));
        assert_eq!(engine.dump(), frozen);
    }
}

#[test]
fn chargeback_of_undisputed_entry_fails() {
    let out = run(vec![
        record("deposit", 1, 1, Some(500)),
        record("chargeback", 1, 1, None),
    ]);
    assert_eq!(out, Err(Error::ChargebackTransactionError(1)));
}

#[test]
fn settlement_of_unknown_entry_is_ignored() {
    let out = run(vec![
        record("deposit", 1, 1, Some(500)),
        record("dispute", 9, 1, None),
        record("resolve", 9, 1, None),
        record("chargeback", 9, 2, None),
    ]);
    assert_eq!(out, Ok(vec![view(1, 500, 0, false), view(2, 0, 0, false)]));
}

#[test]
fn duplicate_entry_id_fails() {
    let out = run(vec![
        record("deposit", 1, 1, Some(500)),
        record("withdraw", 1, 1, Some(100)),
    ]);
    assert_eq!(out, Err(Error::DuplicatedTransaction(1)));
    // Also when the first entry was never executed.
    let out = run(vec![
        record("withdraw", 1, 1, Some(100)),
        record("deposit", 1, 1, Some(500)),
    ]);
    assert_eq!(out, Err(Error::DuplicatedTransaction(1)));
}

#[test]
fn missing_amount_fails() {
    let out = run(vec![record("deposit", 1, 1, None)]);
    assert_eq!(out, Err(Error::MissingAmount));
    let out = run(vec![record("withdrawal", 1, 1, None)]);
    assert_eq!(out, Err(Error::MissingAmount));
}

#[test]
fn unknown_operation_fails() {
    let out = run(vec![record("Deposit", 1, 1, Some(5))]);
    assert_eq!(out, Err(Error::UnknownOperation("Deposit".to_string())));
}

#[test]
fn first_error_stops_the_run() {
    let records = vec![
        record("deposit", 1, 1, Some(5)),
        record("refund", 2, 1, Some(5)),
        record("deposit", 3, 1, Some(5)),
    ];
    let mut engine = PaymentEngine::new();
    assert_eq!(engine.compute(&records), Err(Error::UnknownOperation("refund".to_string())));
    assert_eq!(engine.dump(), vec![view(1, 5, 0, false)]);
}

#[test]
fn deposit_that_would_overflow_is_refused() {
    let out = run(vec![
        record("deposit", 1, 1, Some(u64::MAX - 1)),
        record("deposit", 2, 1, Some(2)),
        record("deposit", 3, 1, Some(1)),
    ]);
    assert_eq!(out, Ok(vec![view(1, u64::MAX, 0, false)]));
}

#[test]
fn dump_lists_each_account_once() {
    let out = run(vec![
        record("deposit", 1, 3, Some(1)),
        record("deposit", 2, 1, Some(2)),
        record("deposit", 3, 3, Some(3)),
        record("dispute", 7, 2, None),
    ])
    .unwrap();
    assert_eq!(
        out,
        vec![view(1, 2, 0, false), view(2, 0, 0, false), view(3, 4, 0, false)]
    );
}
