use vstd::prelude::*;

verus! {

/// Whether an account still accepts balance-changing operations.
#[derive(Clone, Copy, PartialEq, Eq, Structural, Debug)]
pub enum ClientStatus {
    Active,
    Frozen,
}

/// The two pools of funds of an account, in fixed-point units.
#[derive(Clone, Copy, PartialEq, Eq, Structural, Debug)]
pub struct Wallet {
    pub available: u64,
    pub held: u64,
}

/// A client account: its funds and whether it is frozen.
#[derive(Clone, Copy, PartialEq, Eq, Structural, Debug)]
pub struct Client {
    pub id: u16,
    pub wallet: Wallet,
    pub status: ClientStatus,
}

impl Client {
    /// Funds that may be withdrawn.
    pub open spec fn available(self) -> int {
        self.wallet.available as int
    }

    /// Funds held back by open disputes.
    pub open spec fn held(self) -> int {
        self.wallet.held as int
    }

    /// All funds of the account.
    pub open spec fn total(self) -> int {
        self.available() + self.held()
    }

    pub open spec fn locked(self) -> bool {
        self.status == ClientStatus::Frozen
    }

    /// The two pools never hold more together than a `u64` can count, so
    /// that the total can always be reported.
    pub open spec fn wf(self) -> bool {
        self.total() <= u64::MAX
    }

    /// A fresh account: nothing in it, not frozen.
    pub open spec fn fresh(id: u16) -> Client {
        Client { id, wallet: Wallet { available: 0, held: 0 }, status: ClientStatus::Active }
    }

    /// A copy of this account with other balances.
    pub open spec fn with_funds(self, available: int, held: int) -> Client {
        Client {
            wallet: Wallet { available: available as u64, held: held as u64 },
            ..self
        }
    }

    /// A deposit succeeds on an active account whose total can take it.
    pub open spec fn can_deposit(self, amount: u64) -> bool {
        !self.locked() && self.total() + amount <= u64::MAX
    }

    pub open spec fn can_withdraw(self, amount: u64) -> bool {
        !self.locked() && amount <= self.available()
    }

    pub open spec fn can_block(self, amount: u64) -> bool {
        !self.locked() && amount <= self.available()
    }

    pub open spec fn can_release(self, amount: u64) -> bool {
        !self.locked() && amount <= self.held()
    }

    pub open spec fn can_chargeback(self, amount: u64) -> bool {
        !self.locked() && amount <= self.held()
    }

    pub open spec fn after_deposit(self, amount: u64) -> Client {
        if self.can_deposit(amount) {
            self.with_funds(self.available() + amount, self.held())
        } else {
            self
        }
    }

    pub open spec fn after_withdraw(self, amount: u64) -> Client {
        if self.can_withdraw(amount) {
            self.with_funds((self.available() - amount), self.held())
        } else {
            self
        }
    }

    pub open spec fn after_block(self, amount: u64) -> Client {
        if self.can_block(amount) {
            self.with_funds(self.available() - amount, self.held() + amount)
        } else {
            self
        }
    }

    pub open spec fn after_release(self, amount: u64) -> Client {
        if self.can_release(amount) {
            self.with_funds(self.available() + amount, self.held() - amount)
        } else {
            self
        }
    }

    pub open spec fn after_chargeback(self, amount: u64) -> Client {
        if self.can_chargeback(amount) {
            Client { status: ClientStatus::Frozen, ..self.with_funds(self.available(), self.held() - amount) }
        } else {
            self
        }
    }

    /// Constructs a client with an empty, active wallet.
    pub fn new(id: u16) -> (r: Client)
        ensures
            r == Client::fresh(id),
            r.wf(),
    {
        Client { id, wallet: Wallet { available: 0, held: 0 }, status: ClientStatus::Active }
    }

    /// Credits the account with `amount`; refused on a frozen account, and on
    /// one whose total could not count the sum.
    pub fn deposit_funds(&mut self, amount: u64) -> (r: bool)
        requires
            old(self).wf(),
        ensures
            r == old(self).can_deposit(amount),
            *final(self) == old(self).after_deposit(amount),
            final(self).wf(),
    {
        if self.is_locked() || amount > u64::MAX - self.wallet.available - self.wallet.held {
            return false;
        }
        self.wallet.available = self.wallet.available + amount;
        true
    }

    /// Debits the account with `amount`; refused on a frozen account and when
    /// less than `amount` is available.
    pub fn withdraw_funds(&mut self, amount: u64) -> (r: bool)
        requires
            old(self).wf(),
        ensures
            r == old(self).can_withdraw(amount),
            *final(self) == old(self).after_withdraw(amount),
            final(self).wf(),
    {
        if self.is_locked() || !self.has_enough_available_funds(amount) {
            return false;
        }
        self.wallet.available = self.wallet.available - amount;
        true
    }

    /// Moves `amount` from available to held, as a dispute asks.
    pub fn block_funds(&mut self, amount: u64) -> (r: bool)
        requires
            old(self).wf(),
        ensures
            r == old(self).can_block(amount),
            *final(self) == old(self).after_block(amount),
            final(self).wf(),
            final(self).total() == old(self).total(),
    {
        if self.is_locked() || !self.has_enough_available_funds(amount) {
            return false;
        }
        self.wallet.available = self.wallet.available - amount;
        self.wallet.held = self.wallet.held + amount;
        true
    }

    /// Moves `amount` from held back to available, as a resolve asks.
    pub fn release_funds(&mut self, amount: u64) -> (r: bool)
        requires
            old(self).wf(),
        ensures
            r == old(self).can_release(amount),
            *final(self) == old(self).after_release(amount),
            final(self).wf(),
            final(self).total() == old(self).total(),
    {
        if self.is_locked() || !self.has_enough_held_funds(amount) {
            return false;
        }
        self.wallet.available = self.wallet.available + amount;
        self.wallet.held = self.wallet.held - amount;
        true
    }

    /// Removes `amount` from held and freezes the account for good.
    pub fn chargeback_funds(&mut self, amount: u64) -> (r: bool)
        requires
            old(self).wf(),
        ensures
            r == old(self).can_chargeback(amount),
            *final(self) == old(self).after_chargeback(amount),
            final(self).wf(),
    {
        if self.is_locked() || !self.has_enough_held_funds(amount) {
            return false;
        }
        self.wallet.held = self.wallet.held - amount;
        self.status = ClientStatus::Frozen;
        true
    }

    fn has_enough_available_funds(&self, amount: u64) -> (r: bool)
        ensures
            r == (amount <= self.available()),
    {
        amount <= self.wallet.available
    }

    fn has_enough_held_funds(&self, amount: u64) -> (r: bool)
        ensures
            r == (amount <= self.held()),
    {
        amount <= self.wallet.held
    }

    /// Whether the account is frozen.
    pub fn is_locked(&self) -> (r: bool)
        ensures
            r == self.locked(),
    {
        matches!(self.status, ClientStatus::Frozen)
    }
}

} // verus!
