//! One client's balances and the five operations that change them.

use vstd::prelude::*;

use crate::amount::{effective, effective_amount, representable};
use crate::transaction::Transaction;

verus! {

/// The state of an account over the mathematical integers.
///
/// This is what the contracts of [`Account`] speak of. Its balances are
/// unbounded; [`AccountState::in_range`] says when an [`Account`] can hold
/// them.
pub struct AccountState {
    pub client: u16,
    /// Funds free to withdraw.
    pub available: int,
    /// Funds frozen by open disputes.
    pub held: int,
    /// All funds of the client, free or frozen.
    pub total: int,
    /// Set by a chargeback; a locked account accepts no operation.
    pub locked: bool,
}

impl AccountState {
    /// The account of a client that has not been seen before.
    pub open spec fn fresh(client: u16) -> AccountState {
        AccountState { client, available: 0, held: 0, total: 0, locked: false }
    }

    /// The total is the sum of the free and the frozen funds.
    pub open spec fn balanced(self) -> bool {
        self.total == self.available + self.held
    }

    /// Every balance can be stored.
    pub open spec fn in_range(self) -> bool {
        &&& representable(self.available)
        &&& representable(self.held)
        &&& representable(self.total)
    }

    /// `amount` more in the free funds and in the total.
    pub open spec fn credited(self, amount: int) -> AccountState {
        AccountState {
            available: self.available + amount,
            total: self.total + amount,
            ..self
        }
    }

    /// `amount` less in the free funds and in the total.
    pub open spec fn debited(self, amount: int) -> AccountState {
        AccountState {
            available: self.available - amount,
            total: self.total - amount,
            ..self
        }
    }

    /// `amount` moved from the free funds to the frozen ones.
    pub open spec fn frozen(self, amount: int) -> AccountState {
        AccountState { available: self.available - amount, held: self.held + amount, ..self }
    }

    /// `amount` moved from the frozen funds back to the free ones.
    pub open spec fn released(self, amount: int) -> AccountState {
        AccountState { available: self.available + amount, held: self.held - amount, ..self }
    }

    /// `amount` taken out of the frozen funds and the total, and the account
    /// locked.
    pub open spec fn charged_back(self, amount: int) -> AccountState {
        AccountState {
            held: self.held - amount,
            total: self.total - amount,
            locked: true,
            ..self
        }
    }

    /// A deposit goes through on an unlocked account, as long as the new
    /// balances can be stored.
    pub open spec fn accepts_deposit(self, amount: int) -> bool {
        !self.locked && self.credited(amount).in_range()
    }

    /// A withdrawal goes through on an unlocked account if it leaves the free
    /// funds strictly above zero, as long as the new balances can be stored.
    /// Withdrawing the whole of the free funds is refused. The amount is not
    /// checked for its sign: a negative one adds to the balances.
    pub open spec fn accepts_withdrawal(self, amount: int) -> bool {
        !self.locked && self.available - amount > 0 && self.debited(amount).in_range()
    }

    /// A dispute goes through on an unlocked account, as long as the new
    /// balances can be stored. The free funds may become negative.
    pub open spec fn accepts_dispute(self, amount: int) -> bool {
        !self.locked && self.frozen(amount).in_range()
    }

    /// A resolve goes through on an unlocked account, as long as the new
    /// balances can be stored.
    pub open spec fn accepts_resolve(self, amount: int) -> bool {
        !self.locked && self.released(amount).in_range()
    }

    /// A chargeback goes through on an unlocked account, as long as the new
    /// balances can be stored.
    pub open spec fn accepts_chargeback(self, amount: int) -> bool {
        !self.locked && self.charged_back(amount).in_range()
    }

    /// The account after an attempt to deposit `amount`.
    pub open spec fn deposit(self, amount: int) -> AccountState {
        if self.accepts_deposit(amount) {
            self.credited(amount)
        } else {
            self
        }
    }

    /// The account after an attempt to withdraw `amount`.
    pub open spec fn withdraw(self, amount: int) -> AccountState {
        if self.accepts_withdrawal(amount) {
            self.debited(amount)
        } else {
            self
        }
    }

    /// The account after an attempt to dispute a record of `amount`.
    pub open spec fn dispute(self, amount: int) -> AccountState {
        if self.accepts_dispute(amount) {
            self.frozen(amount)
        } else {
            self
        }
    }

    /// The account after an attempt to resolve a dispute over `amount`.
    pub open spec fn resolve(self, amount: int) -> AccountState {
        if self.accepts_resolve(amount) {
            self.released(amount)
        } else {
            self
        }
    }

    /// The account after an attempt to charge back `amount`.
    pub open spec fn chargeback(self, amount: int) -> AccountState {
        if self.accepts_chargeback(amount) {
            self.charged_back(amount)
        } else {
            self
        }
    }
}

/// One client's balances, in ten-thousandths of a currency unit.
///
/// Every operation reports whether it went through. One that did not leaves
/// the account as it was. Because the balances are whole numbers of
/// ten-thousandths, each result is exact to four decimal places with no
/// rounding step.
#[derive(Clone, Copy, Debug, PartialEq, Eq)]
pub struct Account {
    client: u16,
    available: i64,
    held: i64,
    total: i64,
    locked: bool,
}

impl View for Account {
    type V = AccountState;

    closed spec fn view(&self) -> AccountState {
        AccountState {
            client: self.client,
            available: self.available as int,
            held: self.held as int,
            total: self.total as int,
            locked: self.locked,
        }
    }
}

impl Account {
    /// An unlocked account with all balances at zero.
    pub fn new(client_id: &u16) -> (account: Account)
        ensures
            account@ == AccountState::fresh(*client_id),
    {
        Account { client: *client_id, available: 0, held: 0, total: 0, locked: false }
    }

    pub fn client(&self) -> (client: u16)
        ensures
            client == self@.client,
    {
        self.client
    }

    pub fn available(&self) -> (available: i64)
        ensures
            available == self@.available,
    {
        self.available
    }

    pub fn held(&self) -> (held: i64)
        ensures
            held == self@.held,
    {
        self.held
    }

    pub fn total(&self) -> (total: i64)
        ensures
            total == self@.total,
    {
        self.total
    }

    pub fn locked(&self) -> (locked: bool)
        ensures
            locked == self@.locked,
    {
        self.locked
    }

    /// The balances of an account can always be stored.
    pub proof fn lemma_in_range(self)
        ensures
            self@.in_range(),
    {
    }

    /// Adds `amount` to the free funds and to the total. A negative amount
    /// counts as zero.
    ///
    /// Refused on a locked account, and where a new balance would not fit.
    pub fn deposit(&mut self, amount: i64) -> (ok: bool)
        ensures
            ok == old(self)@.accepts_deposit(effective(amount)),
            final(self)@ == old(self)@.deposit(effective(amount)),
            old(self)@.balanced() ==> final(self)@.balanced(),
    {
        if self.locked {
            return false;
        }
        let moved = effective_amount(amount);
        match (self.available.checked_add(moved), self.total.checked_add(moved)) {
            (Some(available), Some(total)) => {
                self.available = available;
                self.total = total;
                true
            },
            _ => false,
        }
    }

    /// Takes `amount` out of the free funds and the total.
    ///
    /// Refused on a locked account, where the free funds would not stay
    /// strictly above zero, and where a new balance would not fit.
    pub fn withdraw(&mut self, amount: i64) -> (ok: bool)
        ensures
            ok == old(self)@.accepts_withdrawal(amount as int),
            final(self)@ == old(self)@.withdraw(amount as int),
            old(self)@.balanced() ==> final(self)@.balanced(),
    {
        if self.locked {
            return false;
        }
        match (self.available.checked_sub(amount), self.total.checked_sub(amount)) {
            (Some(available), Some(total)) => {
                if available > 0 {
                    self.available = available;
                    self.total = total;
                    true
                } else {
                    false
                }
            },
            _ => false,
        }
    }

    /// Freezes the amount of `tx`: moves it from the free funds to the held
    /// funds. The total stays as it is, and the free funds may go below zero.
    ///
    /// Refused on a locked account, and where a new balance would not fit.
    pub fn dispute(&mut self, tx: &Transaction) -> (ok: bool)
        ensures
            ok == old(self)@.accepts_dispute(tx.amount_or_zero() as int),
            final(self)@ == old(self)@.dispute(tx.amount_or_zero() as int),
            old(self)@.balanced() ==> final(self)@.balanced(),
    {
        if self.locked {
            return false;
        }
        let moved = tx.get_amount();
        match (self.held.checked_add(moved), self.available.checked_sub(moved)) {
            (Some(held), Some(available)) => {
                self.held = held;
                self.available = available;
                true
            },
            _ => false,
        }
    }

    /// Releases the amount of `tx`: moves it from the held funds back to the
    /// free funds. The total stays as it is.
    ///
    /// Refused on a locked account, and where a new balance would not fit.
    pub fn resolve(&mut self, tx: &Transaction) -> (ok: bool)
        ensures
            ok == old(self)@.accepts_resolve(tx.amount_or_zero() as int),
            final(self)@ == old(self)@.resolve(tx.amount_or_zero() as int),
            old(self)@.balanced() ==> final(self)@.balanced(),
    {
        if self.locked {
            return false;
        }
        let moved = tx.get_amount();
        match (self.held.checked_sub(moved), self.available.checked_add(moved)) {
            (Some(held), Some(available)) => {
                self.held = held;
                self.available = available;
                true
            },
            _ => false,
        }
    }

    /// Takes the amount of `tx` out of the held funds and the total, and
    /// locks the account. The free funds stay as they are.
    ///
    /// Refused on a locked account, and where a new balance would not fit.
    pub fn chargeback(&mut self, tx: &Transaction) -> (ok: bool)
        ensures
            ok == old(self)@.accepts_chargeback(tx.amount_or_zero() as int),
            final(self)@ == old(self)@.chargeback(tx.amount_or_zero() as int),
            old(self)@.balanced() ==> final(self)@.balanced(),
            ok ==> final(self)@.locked,
    {
        if self.locked {
            return false;
        }
        let moved = tx.get_amount();
        match (self.held.checked_sub(moved), self.total.checked_sub(moved)) {
            (Some(held), Some(total)) => {
                self.held = held;
                self.total = total;
                self.locked = true;
                true
            },
            _ => false,
        }
    }
}

} // verus!
