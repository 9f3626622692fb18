//! Properties of whole replays, proved over the ledger model.
use vstd::prelude::*;

use crate::engine::Ledger;
use crate::error::Error;
use crate::transaction::{classified, Operation, Transaction, TransactionStatus, TransactionType, TransactionView};

verus! {

/// A deposit record that carries its amount.
pub open spec fn is_deposit(r: TransactionView) -> bool {
    r.operation_type@ == "deposit"@ && r.amount is Some
}

/// A withdrawal record, under either of its names.
pub open spec fn is_withdrawal(r: TransactionView) -> bool {
    r.operation_type@ == "withdraw"@ || r.operation_type@ == "withdrawal"@
}

/// A dispute, resolve or chargeback record.
pub open spec fn is_settlement(r: TransactionView) -> bool {
    r.operation_type@ == "dispute"@ || r.operation_type@ == "resolve"@
        || r.operation_type@ == "chargeback"@
}

/// The amount of a record, zero where it has none.
pub open spec fn amount_of(r: TransactionView) -> int {
    match r.amount {
        Some(a) => a as int,
        None => 0,
    }
}

/// The sum of the amounts of the records addressed to account `c`.
pub open spec fn deposited_to(rs: Seq<TransactionView>, c: u16) -> int
    decreases rs.len(),
{
    if rs.len() == 0 {
        0
    } else {
        deposited_to(rs.drop_last(), c) + if rs.last().client_id == c {
            amount_of(rs.last())
        } else {
            0
        }
    }
}

/// No two records carry the same entry id.
pub open spec fn distinct_ids(rs: Seq<TransactionView>) -> bool {
    forall|i: int, j: int|
        0 <= i < j < rs.len() ==> #[trigger] rs[i].transaction_id != #[trigger] rs[j].transaction_id
}

proof fn lemma_deposits(rs: Seq<TransactionView>)
    requires
        forall|i: int| 0 <= i < rs.len() ==> is_deposit(#[trigger] rs[i]),
        distinct_ids(rs),
        forall|c: u16| deposited_to(rs, c) <= u64::MAX,
    ensures
        Ledger::empty().run(rs) is Ok,
        ({
            let l = Ledger::empty().run(rs)->Ok_0;
            &&& l.wf()
            &&& forall|c: u16| #[trigger] l.client(c).available() == deposited_to(rs, c)
            &&& forall|c: u16| #[trigger] l.client(c).held() == 0
            &&& forall|c: u16| !(#[trigger] l.client(c).locked())
            &&& forall|k: u32| #[trigger] l.transactions.contains_key(k)
                <==> exists|i: int| 0 <= i < rs.len() && rs[i].transaction_id == k
        }),
    decreases rs.len(),
{
    if rs.len() > 0 {
        let p = rs.drop_last();
        assert forall|c: u16| deposited_to(p, c) <= u64::MAX by {
            assert(deposited_to(rs, c) <= u64::MAX);
        }
        assert forall|i: int| 0 <= i < p.len() implies is_deposit(#[trigger] p[i]) by {
            assert(rs[i] == p[i]);
        }
        lemma_deposits(p);
        let l = Ledger::empty().run(p)->Ok_0;
        let r = rs.last();
        assert(is_deposit(rs[rs.len() - 1]));
        assert(!l.transactions.contains_key(r.transaction_id)) by {
            if l.transactions.contains_key(r.transaction_id) {
                let i = choose|i: int| 0 <= i < p.len() && p[i].transaction_id == r.transaction_id;
                assert(rs[i].transaction_id == rs[rs.len() - 1].transaction_id);
            }
        }
        assert(deposited_to(rs, r.client_id) <= u64::MAX);
        let a = r.amount->Some_0;
        assert(classified(r.operation_type, r.amount) == Ok::<Operation, Error>(Operation::Deposit(a)));
        let c0 = l.client(r.client_id);
        assert(c0.can_deposit(a));
        assert(Ledger::empty().run(rs) == l.step(r));
        let l2 = Ledger::empty().run(rs)->Ok_0;
        assert(l2.clients == l.clients.insert(r.client_id, c0.after_deposit(a)));
        assert forall|c: u16| #[trigger] l2.client(c).available() == deposited_to(rs, c) by {
            assert(deposited_to(rs, c) <= u64::MAX);
            if c != r.client_id {
                assert(l2.client(c) == l.client(c));
            }
        }
        assert forall|c: u16| #[trigger] l2.client(c).held() == 0 && !l2.client(c).locked() by {
            if c != r.client_id {
                assert(l2.client(c) == l.client(c));
            }
        }
        assert forall|k: u32| #[trigger] l2.transactions.contains_key(k)
            implies exists|i: int| 0 <= i < rs.len() && rs[i].transaction_id == k by {
            if k != r.transaction_id {
                let i = choose|i: int| 0 <= i < p.len() && p[i].transaction_id == k;
                assert(rs[i].transaction_id == k);
            } else {
                assert(rs[rs.len() - 1].transaction_id == k);
            }
        }
        assert forall|k: u32| (exists|i: int| 0 <= i < rs.len() && rs[i].transaction_id == k)
            implies #[trigger] l2.transactions.contains_key(k) by {
            let i = choose|i: int| 0 <= i < rs.len() && rs[i].transaction_id == k;
            if i < p.len() {
                assert(p[i].transaction_id == k);
            }
        }
    }
}

/// Replaying only deposits, each with its own entry id, on a fresh ledger
/// leaves each account with the sum of its deposits available and nothing
/// held, as long as no account's sum exceeds what a `u64` counts.
pub proof fn law_deposits_accumulate(rs: Seq<TransactionView>)
    requires
        forall|i: int| 0 <= i < rs.len() ==> is_deposit(#[trigger] rs[i]),
        distinct_ids(rs),
        forall|c: u16| deposited_to(rs, c) <= u64::MAX,
    ensures
        Ledger::empty().run(rs) is Ok,
        forall|c: u16| #[trigger] Ledger::empty().run(rs)->Ok_0.client(c).available()
            == deposited_to(rs, c),
        forall|c: u16| #[trigger] Ledger::empty().run(rs)->Ok_0.client(c).held() == 0,
{
    lemma_deposits(rs);
}

/// The operation names are told apart.
proof fn lemma_names_differ()
    ensures
        "withdraw"@ != "deposit"@,
        "withdrawal"@ != "deposit"@,
        "withdrawal"@ != "withdraw"@,
        "dispute"@ != "deposit"@,
        "dispute"@ != "withdraw"@,
        "dispute"@ != "withdrawal"@,
        "resolve"@ != "deposit"@,
        "resolve"@ != "withdraw"@,
        "resolve"@ != "withdrawal"@,
        "resolve"@ != "dispute"@,
        "chargeback"@ != "deposit"@,
        "chargeback"@ != "withdraw"@,
        "chargeback"@ != "withdrawal"@,
        "chargeback"@ != "dispute"@,
        "chargeback"@ != "resolve"@,
{
    reveal_strlit("deposit");
    reveal_strlit("withdraw");
    reveal_strlit("withdrawal");
    reveal_strlit("dispute");
    reveal_strlit("resolve");
    reveal_strlit("chargeback");
    assert("withdraw"@.len() != "deposit"@.len());
    assert("withdrawal"@.len() != "deposit"@.len());
    assert("withdrawal"@.len() != "withdraw"@.len());
    assert("dispute"@[1] != "deposit"@[1]);
    assert("dispute"@.len() != "withdraw"@.len());
    assert("dispute"@.len() != "withdrawal"@.len());
    assert("resolve"@[0] != "deposit"@[0]);
    assert("resolve"@.len() != "withdraw"@.len());
    assert("resolve"@.len() != "withdrawal"@.len());
    assert("resolve"@[0] != "dispute"@[0]);
    assert("chargeback"@.len() != "deposit"@.len());
    assert("chargeback"@.len() != "withdraw"@.len());
    assert("chargeback"@[0] != "withdrawal"@[0]);
    assert("chargeback"@.len() != "dispute"@.len());
    assert("chargeback"@.len() != "resolve"@.len());
}

/// A withdrawal of more than is available is refused without an error: the
/// account keeps its balances and the new entry stays not executed.
pub proof fn law_overdraft_is_refused(l: Ledger, r: TransactionView)
    requires
        l.wf(),
        is_withdrawal(r),
        r.amount is Some,
        !l.transactions.contains_key(r.transaction_id),
        r.amount->Some_0 > l.client(r.client_id).available(),
    ensures
        l.step(r) == Ok::<Ledger, Error>(
            Ledger {
                clients: l.clients.insert(r.client_id, l.client(r.client_id)),
                transactions: l.transactions.insert(
                    r.transaction_id,
                    Transaction {
                        id: r.transaction_id,
                        kind: TransactionType::Output(r.amount->Some_0),
                        status: TransactionStatus::NonExecuted,
                    },
                ),
            },
        ),
{
    lemma_names_differ();
}

/// Disputing an executed entry whose amount is available moves that amount
/// from available to held and marks the entry disputed.
pub proof fn law_dispute_holds_funds(l: Ledger, r: TransactionView)
    requires
        l.wf(),
        r.operation_type@ == "dispute"@,
        l.transactions.contains_key(r.transaction_id),
        l.transactions[r.transaction_id].status == TransactionStatus::Executed,
        l.client(r.client_id).can_block(l.transactions[r.transaction_id].spec_amount()),
    ensures
        l.step(r) is Ok,
        ({
            let (c, c2) = (l.client(r.client_id), l.step(r)->Ok_0.client(r.client_id));
            let a = l.transactions[r.transaction_id].spec_amount();
            &&& c2.available() == c.available() - a
            &&& c2.held() == c.held() + a
            &&& c2.total() == c.total()
            &&& l.step(r)->Ok_0.transactions[r.transaction_id].status == TransactionStatus::Disputed
        }),
{
    lemma_names_differ();
}

/// A dispute that goes through changes the total of no account.
pub proof fn law_dispute_keeps_totals(l: Ledger, r: TransactionView)
    requires
        l.wf(),
        r.operation_type@ == "dispute"@,
        l.step(r) is Ok,
    ensures
        forall|k: u16| #[trigger] l.step(r)->Ok_0.client(k).total() == l.client(k).total(),
{
    lemma_names_differ();
    let l2 = l.step(r)->Ok_0;
    assert forall|k: u16| #[trigger] l2.client(k).total() == l.client(k).total() by {
        if k != r.client_id {
            assert(l2.client(k) == l.client(k));
        }
    }
}

/// Resolving a disputed entry whose amount is held moves it back to
/// available; resolving the same entry again then fails.
pub proof fn law_resolve_releases_funds(l: Ledger, r: TransactionView)
    requires
        l.wf(),
        r.operation_type@ == "resolve"@,
        l.transactions.contains_key(r.transaction_id),
        l.transactions[r.transaction_id].status == TransactionStatus::Disputed,
        l.client(r.client_id).can_release(l.transactions[r.transaction_id].spec_amount()),
    ensures
        l.step(r) is Ok,
        ({
            let l2 = l.step(r)->Ok_0;
            let (c, c2) = (l.client(r.client_id), l2.client(r.client_id));
            let a = l.transactions[r.transaction_id].spec_amount();
            &&& c2.available() == c.available() + a
            &&& c2.held() == c.held() - a
            &&& l2.step(r) == Err::<Ledger, Error>(Error::ResolveTransactionError(r.transaction_id))
        }),
{
    lemma_names_differ();
}

/// Charging back a disputed entry whose amount is held removes that amount
/// from held and freezes the account.
pub proof fn law_chargeback_freezes(l: Ledger, r: TransactionView)
    requires
        l.wf(),
        r.operation_type@ == "chargeback"@,
        l.transactions.contains_key(r.transaction_id),
        l.transactions[r.transaction_id].status == TransactionStatus::Disputed,
        l.client(r.client_id).can_chargeback(l.transactions[r.transaction_id].spec_amount()),
    ensures
        l.step(r) is Ok,
        ({
            let (c, c2) = (l.client(r.client_id), l.step(r)->Ok_0.client(r.client_id));
            let a = l.transactions[r.transaction_id].spec_amount();
            &&& c2.available() == c.available()
            &&& c2.held() == c.held() - a
            &&& c2.locked()
        }),
{
    lemma_names_differ();
}

/// On a frozen account every record that goes through leaves the account as
/// it was and every existing entry as it was; a new entry stays not executed.
pub proof fn law_frozen_account_is_inert(l: Ledger, r: TransactionView)
    requires
        l.wf(),
        l.client(r.client_id).locked(),
        l.step(r) is Ok,
    ensures
        l.step(r)->Ok_0.client(r.client_id) == l.client(r.client_id),
        forall|k: u32| #[trigger] l.transactions.contains_key(k)
            ==> l.step(r)->Ok_0.transactions[k] == l.transactions[k],
        forall|k: u32| #[trigger] l.step(r)->Ok_0.transactions.contains_key(k)
            && !l.transactions.contains_key(k)
            ==> l.step(r)->Ok_0.transactions[k].status == TransactionStatus::NonExecuted,
{
}

/// A frozen account raises no error of its own: a new deposit or
/// withdrawal, and a dispute, resolve or chargeback whose entry is unknown or
/// in the state that the operation asks for, all go through.
pub proof fn law_frozen_account_raises_nothing(l: Ledger, r: TransactionView)
    requires
        l.wf(),
        l.client(r.client_id).locked(),
        ({
            let tx = r.transaction_id;
            let known = l.transactions.contains_key(tx);
            ||| (is_deposit(r) || (is_withdrawal(r) && r.amount is Some)) && !known
            ||| is_settlement(r) && !known
            ||| r.operation_type@ == "dispute"@ && known
                && l.transactions[tx].status == TransactionStatus::Executed
            ||| (r.operation_type@ == "resolve"@ || r.operation_type@ == "chargeback"@) && known
                && l.transactions[tx].status == TransactionStatus::Disputed
        }),
    ensures
        l.step(r) is Ok,
{
    lemma_names_differ();
}

/// A dispute, resolve or chargeback that names an entry never seen changes
/// no balance and no entry, and raises no error.
pub proof fn law_unknown_entry_is_ignored(l: Ledger, r: TransactionView)
    requires
        l.wf(),
        is_settlement(r),
        !l.transactions.contains_key(r.transaction_id),
    ensures
        l.step(r) is Ok,
        forall|k: u16| #[trigger] l.step(r)->Ok_0.client(k) == l.client(k),
        l.step(r)->Ok_0.transactions == l.transactions,
{
    lemma_names_differ();
    let l2 = l.step(r)->Ok_0;
    assert forall|k: u16| #[trigger] l2.client(k) == l.client(k) by {
        if k != r.client_id {
            assert(l2.client(k) == l.client(k));
        }
    }
}

/// A deposit or withdrawal that reuses the id of an existing entry fails,
/// whatever that entry's status.
pub proof fn law_duplicate_id_fails(l: Ledger, r: TransactionView)
    requires
        l.wf(),
        is_deposit(r) || (is_withdrawal(r) && r.amount is Some),
        l.transactions.contains_key(r.transaction_id),
    ensures
        l.step(r) == Err::<Ledger, Error>(Error::DuplicatedTransaction(r.transaction_id)),
{
    lemma_names_differ();
}

} // verus!
