use vstd::prelude::*;

use crate::client::Client;
use crate::error::Error;

verus! {

/// One record of the ledger as it is read: the operation's name, the entry
/// id, the account id and, for deposits and withdrawals, the amount.
#[derive(Clone, Debug, PartialEq, Eq)]
pub struct TransactionView {
    pub operation_type: String,
    pub transaction_id: u32,
    pub client_id: u16,
    pub amount: Option<u64>,
}

/// What a record asks for.
#[derive(Clone, Copy, PartialEq, Eq, Structural, Debug)]
pub enum Operation {
    /// A credit to the client's account.
    Deposit(u64),
    /// A debit to the client's account.
    Withdraw(u64),
    /// A claim that an entry was erroneous and should be reversed.
    Dispute,
    /// The end of a dispute that releases the held funds.
    Resolve,
    /// The end of a dispute that reverses the entry.
    Chargeback,
}

/// The operation that a record with this name and amount asks for.
pub open spec fn classified(name: String, amount: Option<u64>) -> Result<Operation, Error> {
    if name@ == "deposit"@ {
        match amount {
            Some(a) => Ok(Operation::Deposit(a)),
            None => Err(Error::MissingAmount),
        }
    } else if name@ == "withdraw"@ || name@ == "withdrawal"@ {
        match amount {
            Some(a) => Ok(Operation::Withdraw(a)),
            None => Err(Error::MissingAmount),
        }
    } else if name@ == "dispute"@ {
        Ok(Operation::Dispute)
    } else if name@ == "resolve"@ {
        Ok(Operation::Resolve)
    } else if name@ == "chargeback"@ {
        Ok(Operation::Chargeback)
    } else {
        Err(Error::UnknownOperation(name))
    }
}

/// Whether `s` is exactly `name`.
fn is_named(s: &String, name: &str) -> (r: bool)
    ensures
        r == (s@ == name@),
{
    let n: String = name.to_owned();
    *s == n
}

impl Operation {
    /// Classifies a record by its operation name (matched exactly) and its
    /// amount, which only deposits and withdrawals read and need.
    pub fn classify(operation_type: &String, amount: Option<u64>) -> (r: Result<Operation, Error>)
        ensures
            r == classified(*operation_type, amount),
    {
        if is_named(operation_type, "deposit") {
            match amount {
                Some(a) => Ok(Operation::Deposit(a)),
                None => Err(Error::MissingAmount),
            }
        } else if is_named(operation_type, "withdraw") || is_named(operation_type, "withdrawal") {
            match amount {
                Some(a) => Ok(Operation::Withdraw(a)),
                None => Err(Error::MissingAmount),
            }
        } else if is_named(operation_type, "dispute") {
            Ok(Operation::Dispute)
        } else if is_named(operation_type, "resolve") {
            Ok(Operation::Resolve)
        } else if is_named(operation_type, "chargeback") {
            Ok(Operation::Chargeback)
        } else {
            Err(Error::UnknownOperation(operation_type.clone()))
        }
    }
}

/// A deposit puts funds in (`Input`), a withdrawal takes them out (`Output`).
#[derive(Clone, Copy, PartialEq, Eq, Structural, Debug)]
pub enum TransactionType {
    Input(u64),
    Output(u64),
}

/// Where an entry stands in its dispute lifecycle.
#[derive(Clone, Copy, PartialEq, Eq, Structural, Debug)]
pub enum TransactionStatus {
    NonExecuted,
    Disputed,
    Executed,
}

/// One deposit or withdrawal of the ledger and its dispute state.
#[derive(Clone, Copy, PartialEq, Eq, Structural, Debug)]
pub struct Transaction {
    pub id: u32,
    pub kind: TransactionType,
    pub status: TransactionStatus,
}

impl Transaction {
    pub open spec fn spec_amount(self) -> u64 {
        match self.kind {
            TransactionType::Input(a) => a,
            TransactionType::Output(a) => a,
        }
    }

    pub open spec fn with_status(self, status: TransactionStatus) -> Transaction {
        Transaction { status, ..self }
    }

    /// Executing a fresh entry applies it to the account; the entry counts as
    /// executed only where the account took it.
    pub open spec fn executed(self, c: Client) -> Result<(Transaction, Client), Error> {
        match self.status {
            TransactionStatus::NonExecuted => {
                let (done, after) = match self.kind {
                    TransactionType::Input(a) => (c.can_deposit(a), c.after_deposit(a)),
                    TransactionType::Output(a) => (c.can_withdraw(a), c.after_withdraw(a)),
                };
                Ok((if done { self.with_status(TransactionStatus::Executed) } else { self }, after))
            },
            _ => Err(Error::AlreadyExecutedTransaction(self.id)),
        }
    }

    /// Disputing an executed entry holds its amount back.
    pub open spec fn disputed(self, c: Client) -> Result<(Transaction, Client), Error> {
        match self.status {
            TransactionStatus::Executed => {
                let a = self.spec_amount();
                Ok((
                    if c.can_block(a) { self.with_status(TransactionStatus::Disputed) } else { self },
                    c.after_block(a),
                ))
            },
            _ => Err(Error::DisputeTransactionError(self.id)),
        }
    }

    /// Resolving a disputed entry releases its amount.
    pub open spec fn resolved(self, c: Client) -> Result<(Transaction, Client), Error> {
        match self.status {
            TransactionStatus::Disputed => {
                let a = self.spec_amount();
                Ok((
                    if c.can_release(a) { self.with_status(TransactionStatus::Executed) } else { self },
                    c.after_release(a),
                ))
            },
            _ => Err(Error::ResolveTransactionError(self.id)),
        }
    }

    /// Charging back a disputed entry removes its amount and freezes the
    /// account.
    pub open spec fn charged_back(self, c: Client) -> Result<(Transaction, Client), Error> {
        match self.status {
            TransactionStatus::Disputed => {
                let a = self.spec_amount();
                Ok((
                    if c.can_chargeback(a) { self.with_status(TransactionStatus::Executed) } else { self },
                    c.after_chargeback(a),
                ))
            },
            _ => Err(Error::ChargebackTransactionError(self.id)),
        }
    }

    /// Creates a deposit entry, not executed yet.
    pub fn new_input(id: u32, amount: u64) -> (r: Transaction)
        ensures
            r == (Transaction { id, kind: TransactionType::Input(amount), status: TransactionStatus::NonExecuted }),
    {
        Transaction { id, kind: TransactionType::Input(amount), status: TransactionStatus::NonExecuted }
    }

    /// Creates a withdrawal entry, not executed yet.
    pub fn new_output(id: u32, amount: u64) -> (r: Transaction)
        ensures
            r == (Transaction { id, kind: TransactionType::Output(amount), status: TransactionStatus::NonExecuted }),
    {
        Transaction { id, kind: TransactionType::Output(amount), status: TransactionStatus::NonExecuted }
    }

    /// The amount of the deposit or withdrawal.
    pub fn get_amount(&self) -> (r: u64)
        ensures
            r == self.spec_amount(),
    {
        match self.kind {
            TransactionType::Input(amount) => amount,
            TransactionType::Output(amount) => amount,
        }
    }

    /// Deposits or withdraws for `client`; the entry becomes executed when the
    /// account accepted it. Fails when the entry was executed before.
    pub fn execute(&mut self, client: &mut Client) -> (r: Result<(), Error>)
        requires
            old(client).wf(),
        ensures
            final(client).wf(),
            match old(self).executed(*old(client)) {
                Ok((t, c)) => r is Ok && *final(self) == t && *final(client) == c,
                Err(e) => r == Err::<(), Error>(e) && *final(self) == *old(self) && *final(client) == *old(client),
            },
    {
        match self.status {
            TransactionStatus::NonExecuted => {
                let done = match self.kind {
                    TransactionType::Input(amount) => client.deposit_funds(amount),
                    TransactionType::Output(amount) => client.withdraw_funds(amount),
                };
                if done {
                    self.status = TransactionStatus::Executed;
                }
                Ok(())
            },
            _ => Err(Error::AlreadyExecutedTransaction(self.id)),
        }
    }

    /// Holds the entry's amount on `client`; the entry becomes disputed when
    /// the account could hold it. Fails unless the entry is executed.
    pub fn dispute(&mut self, client: &mut Client) -> (r: Result<(), Error>)
        requires
            old(client).wf(),
        ensures
            final(client).wf(),
            match old(self).disputed(*old(client)) {
                Ok((t, c)) => r is Ok && *final(self) == t && *final(client) == c,
                Err(e) => r == Err::<(), Error>(e) && *final(self) == *old(self) && *final(client) == *old(client),
            },
    {
        match self.status {
            TransactionStatus::Executed => {
                if client.block_funds(self.get_amount()) {
                    self.status = TransactionStatus::Disputed;
                }
                Ok(())
            },
            _ => Err(Error::DisputeTransactionError(self.id)),
        }
    }

    /// Releases the entry's held amount on `client`; the entry is executed
    /// again when the account could release it. Fails unless it is disputed.
    pub fn resolve(&mut self, client: &mut Client) -> (r: Result<(), Error>)
        requires
            old(client).wf(),
        ensures
            final(client).wf(),
            match old(self).resolved(*old(client)) {
                Ok((t, c)) => r is Ok && *final(self) == t && *final(client) == c,
                Err(e) => r == Err::<(), Error>(e) && *final(self) == *old(self) && *final(client) == *old(client),
            },
    {
        match self.status {
            TransactionStatus::Disputed => {
                if client.release_funds(self.get_amount()) {
                    self.status = TransactionStatus::Executed;
                }
                Ok(())
            },
            _ => Err(Error::ResolveTransactionError(self.id)),
        }
    }

    /// Charges the entry's held amount back on `client`, which freezes it.
    /// Fails unless the entry is disputed.
    pub fn chargeback(&mut self, client: &mut Client) -> (r: Result<(), Error>)
        requires
            old(client).wf(),
        ensures
            final(client).wf(),
            match old(self).charged_back(*old(client)) {
                Ok((t, c)) => r is Ok && *final(self) == t && *final(client) == c,
                Err(e) => r == Err::<(), Error>(e) && *final(self) == *old(self) && *final(client) == *old(client),
            },
    {
        match self.status {
            TransactionStatus::Disputed => {
                if client.chargeback_funds(self.get_amount()) {
                    self.status = TransactionStatus::Executed;
                }
                Ok(())
            },
            _ => Err(Error::ChargebackTransactionError(self.id)),
        }
    }
}

} // verus!
