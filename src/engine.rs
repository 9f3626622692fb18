use std::collections::HashMap;

use vstd::prelude::*;

use crate::client::Client;
use crate::error::Error;
use crate::transaction::{classified, Operation, Transaction, TransactionView};

verus! {

broadcast use vstd::std_specs::hash::group_hash_axioms;

/// The state of a ledger replay: every account seen so far and every entry.
pub struct Ledger {
    pub clients: Map<u16, Client>,
    pub transactions: Map<u32, Transaction>,
}

/// What a dispute, a resolve or a chargeback does to an existing entry and
/// to the record's account.
pub open spec fn settled(op: Operation, t: Transaction, c: Client) -> Result<(Transaction, Client), Error> {
    match op {
        Operation::Dispute => t.disputed(c),
        Operation::Resolve => t.resolved(c),
        _ => t.charged_back(c),
    }
}

impl Ledger {
    /// Nothing seen yet.
    pub open spec fn empty() -> Ledger {
        Ledger { clients: Map::empty(), transactions: Map::empty() }
    }

    /// Each account is filed under its own id and can report its total;
    /// each entry is filed under its own id.
    pub open spec fn wf(self) -> bool {
        &&& forall|k: u16| #[trigger] self.clients.contains_key(k)
            ==> self.clients[k].id == k && self.clients[k].wf()
        &&& forall|k: u32| #[trigger] self.transactions.contains_key(k)
            ==> self.transactions[k].id == k
    }

    /// The account with this id, or a fresh one where none was seen yet.
    pub open spec fn client(self, id: u16) -> Client {
        if self.clients.contains_key(id) {
            self.clients[id]
        } else {
            Client::fresh(id)
        }
    }

    /// The ledger after one record, or the error that ends the run.
    pub open spec fn step(self, r: TransactionView) -> Result<Ledger, Error> {
        let cid = r.client_id;
        let tx = r.transaction_id;
        let client = self.client(cid);
        match classified(r.operation_type, r.amount) {
            Err(e) => Err(e),
            Ok(op) => match op {
                Operation::Deposit(a) | Operation::Withdraw(a) => {
                    if self.transactions.contains_key(tx) {
                        Err(Error::DuplicatedTransaction(tx))
                    } else {
                        let t = Transaction {
                            id: tx,
                            kind: if op is Deposit {
                                crate::transaction::TransactionType::Input(a)
                            } else {
                                crate::transaction::TransactionType::Output(a)
                            },
                            status: crate::transaction::TransactionStatus::NonExecuted,
                        };
                        match t.executed(client) {
                            Ok((t2, c2)) => Ok(
                                Ledger {
                                    clients: self.clients.insert(cid, c2),
                                    transactions: self.transactions.insert(tx, t2),
                                },
                            ),
                            Err(e) => Err(e),
                        }
                    }
                },
                _ => {
                    if !self.transactions.contains_key(tx) {
                        Ok(Ledger { clients: self.clients.insert(cid, client), ..self })
                    } else {
                        match settled(op, self.transactions[tx], client) {
                            Ok((t2, c2)) => Ok(
                                Ledger {
                                    clients: self.clients.insert(cid, c2),
                                    transactions: self.transactions.insert(tx, t2),
                                },
                            ),
                            Err(e) => Err(e),
                        }
                    }
                },
            },
        }
    }

    /// The ledger after the records in order, or the first error.
    pub open spec fn run(self, rs: Seq<TransactionView>) -> Result<Ledger, Error>
        decreases rs.len(),
    {
        if rs.len() == 0 {
            Ok(self)
        } else {
            match self.run(rs.drop_last()) {
                Ok(l) => l.step(rs.last()),
                Err(e) => Err(e),
            }
        }
    }
}

/// The balances of one account as they are reported.
#[derive(Clone, Copy, PartialEq, Eq, Structural, Debug)]
pub struct ClientView {
    pub client: u16,
    pub available: u64,
    pub held: u64,
    pub total: u64,
    pub locked: bool,
}

/// The report of an account.
pub open spec fn snapshot(c: Client) -> ClientView {
    ClientView {
        client: c.id,
        available: c.wallet.available,
        held: c.wallet.held,
        total: c.total() as u64,
        locked: c.locked(),
    }
}

impl ClientView {
    /// The report of an account that can report its total.
    pub fn from_client(client: Client) -> (r: ClientView)
        requires
            client.wf(),
        ensures
            r == snapshot(client),
    {
        ClientView {
            client: client.id,
            available: client.wallet.available,
            held: client.wallet.held,
            total: client.wallet.available + client.wallet.held,
            locked: client.is_locked(),
        }
    }
}

/// Replays ledger records against the accounts and entries it owns.
pub struct PaymentEngine {
    clients: HashMap<u16, Client>,
    transactions: HashMap<u32, Transaction>,
    /// The account ids in the order in which they were first seen.
    client_ids: Vec<u16>,
}

impl View for PaymentEngine {
    type V = Ledger;

    closed spec fn view(&self) -> Ledger {
        Ledger { clients: self.clients@, transactions: self.transactions@ }
    }
}

impl PaymentEngine {
    pub closed spec fn wf(&self) -> bool {
        &&& self@.wf()
        &&& self.client_ids@.no_duplicates()
        &&& forall|i: int| 0 <= i < self.client_ids@.len()
            ==> #[trigger] self.clients@.contains_key(self.client_ids@[i])
        &&& forall|k: u16| #[trigger] self.clients@.contains_key(k)
            ==> self.client_ids@.contains(k)
    }

    /// An engine that has seen nothing.
    pub fn new() -> (r: PaymentEngine)
        ensures
            r.wf(),
            r@ == Ledger::empty(),
    {
        let r = PaymentEngine { clients: HashMap::new(), transactions: HashMap::new(), client_ids: Vec::new() };
        proof {
            assert(r.clients@ =~= Map::empty());
            assert(r.transactions@ =~= Map::empty());
        }
        r
    }

    /// Applies one record: creates its account where it is new, then
    /// deposits, withdraws, disputes, resolves or charges back.
    pub fn process(&mut self, record: &TransactionView) -> (r: Result<(), Error>)
        requires
            old(self).wf(),
        ensures
            final(self).wf(),
            match old(self)@.step(*record) {
                Ok(l) => r is Ok && final(self)@ == l,
                Err(e) => r == Err::<(), Error>(e),
            },
    {
        let cid = record.client_id;
        let tx = record.transaction_id;
        let mut client = match self.clients.get(&cid) {
            Some(c) => *c,
            None => {
                let c = Client::new(cid);
                self.clients.insert(cid, c);
                self.client_ids.push(cid);
                proof {
                    assert forall|k: u16| #[trigger] self.clients@.contains_key(k)
                        implies self.client_ids@.contains(k) by {
                        if k != cid {
                            assert(old(self).client_ids@.contains(k));
                            let j = choose|j: int| 0 <= j < old(self).client_ids@.len() && old(self).client_ids@[j] == k;
                            assert(self.client_ids@[j] == k);
                        } else {
                            assert(self.client_ids@[self.client_ids@.len() - 1] == k);
                        }
                    }
                    assert(self.client_ids@.no_duplicates()) by {
                        assert(!old(self).client_ids@.contains(cid));
                    }
                }
                c
            },
        };
        assert(client == old(self)@.client(cid));
        let op = match Operation::classify(&record.operation_type, record.amount) {
            Ok(op) => op,
            Err(e) => {
                return Err(e);
            },
        };
        let existing: Option<Transaction> = match self.transactions.get(&tx) {
            Some(t) => Some(*t),
            None => None,
        };
        match op {
            Operation::Deposit(amount) => {
                if existing.is_some() {
                    return Err(Error::DuplicatedTransaction(tx));
                }
                let mut t = Transaction::new_input(tx, amount);
                match t.execute(&mut client) {
                    Ok(()) => {},
                    Err(e) => {
                        return Err(e);
                    },
                }
                self.transactions.insert(tx, t);
                self.clients.insert(cid, client);
            },
            Operation::Withdraw(amount) => {
                if existing.is_some() {
                    return Err(Error::DuplicatedTransaction(tx));
                }
                let mut t = Transaction::new_output(tx, amount);
                match t.execute(&mut client) {
                    Ok(()) => {},
                    Err(e) => {
                        return Err(e);
                    },
                }
                self.transactions.insert(tx, t);
                self.clients.insert(cid, client);
            },
            _ => {
                let mut t = match existing {
                    Some(t) => t,
                    None => {
                        proof {
                            assert(self.clients@ =~= old(self).clients@.insert(cid, client));
                        }
                        return Ok(());
                    },
                };
                let res = match op {
                    Operation::Dispute => t.dispute(&mut client),
                    Operation::Resolve => t.resolve(&mut client),
                    _ => t.chargeback(&mut client),
                };
                match res {
                    Ok(()) => {},
                    Err(e) => {
                        return Err(e);
                    },
                }
                self.transactions.insert(tx, t);
                self.clients.insert(cid, client);
            },
        }
        proof {
            assert(self.clients@ =~= old(self).clients@.insert(cid, client));
        }
        Ok(())
    }

    /// Applies the records in order and stops at the first error, which it
    /// returns.
    pub fn compute(&mut self, records: &Vec<TransactionView>) -> (r: Result<(), Error>)
        requires
            old(self).wf(),
        ensures
            final(self).wf(),
            match old(self)@.run(records@) {
                Ok(l) => r is Ok && final(self)@ == l,
                Err(e) => r == Err::<(), Error>(e),
            },
    {
        let mut i: usize = 0;
        while i < records.len()
            invariant
                self.wf(),
                i <= records@.len(),
                old(self)@.run(records@.take(i as int)) == Ok::<Ledger, Error>(self@),
            decreases records@.len() - i,
        {
            proof {
                assert(records@.take(i as int + 1).drop_last() =~= records@.take(i as int));
            }
            match self.process(&records[i]) {
                Ok(()) => {},
                Err(e) => {
                    proof {
                        lemma_run_stops(old(self)@, records@, i as int + 1);
                    }
                    return Err(e);
                },
            }
            i = i + 1;
        }
        proof {
            assert(records@.take(i as int) =~= records@);
        }
        Ok(())
    }

    /// One report per known account, each account once, in no particular
    /// order.
    pub fn dump(&self) -> (r: Vec<ClientView>)
        requires
            self.wf(),
        ensures
            forall|i: int| 0 <= i < r@.len() ==> {
                &&& self@.clients.contains_key(#[trigger] r@[i].client)
                &&& r@[i] == snapshot(self@.clients[r@[i].client])
            },
            forall|i: int, j: int| 0 <= i < j < r@.len() ==> r@[i].client != r@[j].client,
            forall|k: u16| #[trigger] self@.clients.contains_key(k)
                ==> exists|i: int| 0 <= i < r@.len() && r@[i].client == k,
    {
        let mut r: Vec<ClientView> = Vec::new();
        let mut i: usize = 0;
        while i < self.client_ids.len()
            invariant
                self.wf(),
                i <= self.client_ids@.len(),
                r@.len() == i,
                forall|j: int| 0 <= j < i ==> r@[j].client == self.client_ids@[j],
                forall|j: int| 0 <= j < i ==> {
                    &&& self@.clients.contains_key(#[trigger] r@[j].client)
                    &&& r@[j] == snapshot(self@.clients[r@[j].client])
                },
            decreases self.client_ids@.len() - i,
        {
            let id = self.client_ids[i];
            assert(self.clients@.contains_key(self.client_ids@[i as int]));
            let c = match self.clients.get(&id) {
                Some(c) => *c,
                None => {
                    proof {
                        assert(false);
                    }
                    Client::new(id)
                },
            };
            r.push(ClientView::from_client(c));
            i = i + 1;
        }
        proof {
            assert forall|k: u16| #[trigger] self@.clients.contains_key(k)
                implies exists|i: int| 0 <= i < r@.len() && r@[i].client == k by {
                assert(self.client_ids@.contains(k));
                let j = choose|j: int| 0 <= j < self.client_ids@.len() && self.client_ids@[j] == k;
                assert(r@[j].client == k);
            }
            assert forall|a: int, b: int| 0 <= a < b < r@.len() implies r@[a].client != r@[b].client by {
                assert(r@[a].client == self.client_ids@[a]);
                assert(r@[b].client == self.client_ids@[b]);
            }
        }
        r
    }
}

impl Default for PaymentEngine {
    fn default() -> (r: PaymentEngine)
        ensures
            r.wf(),
            r@ == Ledger::empty(),
    {
        PaymentEngine::new()
    }
}

/// Once a record fails, the run fails whatever follows.
proof fn lemma_run_stops(l: Ledger, rs: Seq<TransactionView>, n: int)
    requires
        0 < n <= rs.len(),
        l.run(rs.take(n)) is Err,
    ensures
        l.run(rs) == l.run(rs.take(n)),
    decreases rs.len() - n,
{
    if n < rs.len() {
        assert(rs.take(n + 1).drop_last() =~= rs.take(n));
        lemma_run_stops(l, rs, n + 1);
    } else {
        assert(rs.take(n) =~= rs);
    }
}

} // verus!
