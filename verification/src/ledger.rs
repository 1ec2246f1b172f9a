//! The executable ledger.

use std::collections::HashMap;
use vstd::prelude::*;
use vstd::std_specs::hash::*;

use crate::account::{Account, AccountState};
use crate::model::{LedgerState, Outcome};
use crate::transaction::{Transaction, TransactionKind};

verus! {

/// All accounts, and the deposits and withdrawals that a later record may
/// dispute. Records are applied one at a time, in the order they are handed
/// in.
pub struct Ledger {
    accounts: HashMap<u16, Account>,
    transactions: HashMap<u32, Transaction>,
}

impl View for Ledger {
    type V = LedgerState;

    closed spec fn view(&self) -> LedgerState {
        LedgerState {
            accounts: self.accounts@.map_values(|account: Account| account@),
            transactions: self.transactions@,
        }
    }
}

impl Ledger {
    #[verifier::type_invariant]
    spec fn inv(self) -> bool {
        self@.wf()
    }

    /// A ledger with no account and no stored transaction.
    pub fn new() -> (ledger: Ledger)
        ensures
            ledger@ == LedgerState::empty(),
    {
        let ledger = Ledger { accounts: HashMap::new(), transactions: HashMap::new() };
        assert(ledger@.accounts =~= Map::empty());
        ledger
    }

    /// The account of `client`, if a record has named that client.
    pub fn account(&self, client: u16) -> (found: Option<Account>)
        ensures
            self@.wf(),
            match found {
                Some(account) => self@.accounts.contains_key(client) && account@
                    == self@.accounts[client],
                None => !self@.accounts.contains_key(client),
            },
    {
        broadcast use group_hash_axioms;

        proof {
            use_type_invariant(self);
        }
        match self.accounts.get(&client) {
            Some(account) => Some(*account),
            None => None,
        }
    }

    /// The stored deposit or withdrawal with id `tx`, with its dispute flag as
    /// it stands.
    pub fn transaction(&self, tx: u32) -> (found: Option<Transaction>)
        ensures
            self@.wf(),
            match found {
                Some(stored) => self@.transactions.contains_key(tx) && stored
                    == self@.transactions[tx],
                None => !self@.transactions.contains_key(tx),
            },
    {
        broadcast use group_hash_axioms;

        proof {
            use_type_invariant(self);
        }
        match self.transactions.get(&tx) {
            Some(stored) => Some(*stored),
            None => None,
        }
    }

    /// Applies one record and says what became of it.
    ///
    /// No record is fatal: one that cannot be applied leaves every balance and
    /// every stored transaction as it was.
    pub fn apply(&mut self, record: Transaction) -> (outcome: Outcome)
        ensures
            outcome == old(self)@.outcome(record),
            final(self)@ == old(self)@.apply(record),
            final(self)@.wf(),
    {
        broadcast use group_hash_axioms;

        proof {
            use_type_invariant(&*self);
        }
        // The maps leave `self` while they change and come back when the
        // record is done, so that `self` is well formed at every point.
        let mut accounts = HashMap::new();
        let mut transactions = HashMap::new();
        std::mem::swap(&mut accounts, &mut self.accounts);
        std::mem::swap(&mut transactions, &mut self.transactions);
        let ghost before = LedgerState {
            accounts: accounts@.map_values(|account: Account| account@),
            transactions: transactions@,
        };
        assert(before == old(self)@);

        let mut account = match accounts.get(&record.client) {
            Some(account) => *account,
            None => Account::new(&record.client),
        };
        assert(account@ == before.account(record.client));
        let outcome = match record.kind {
            TransactionKind::Deposit => {
                if account.deposit(record.get_amount()) {
                    transactions.insert(record.tx, Transaction { disputed: false, ..record });
                    Outcome::Applied
                } else if account.locked() {
                    Outcome::AccountLocked
                } else {
                    Outcome::OutOfRange
                }
            },
            TransactionKind::Withdrawal => {
                let amount = record.get_amount();
                if account.withdraw(amount) {
                    transactions.insert(record.tx, Transaction { disputed: false, ..record });
                    Outcome::Applied
                } else if account.locked() {
                    Outcome::AccountLocked
                } else if account.available() <= amount {
                    Outcome::InsufficientFunds
                } else {
                    Outcome::OutOfRange
                }
            },
            TransactionKind::Dispute => {
                match transactions.get(&record.tx) {
                    None => Outcome::UnknownTransaction,
                    Some(stored) => {
                        let stored = *stored;
                        if stored.disputed {
                            Outcome::AlreadyDisputed
                        } else if account.dispute(&stored) {
                            transactions.insert(
                                record.tx,
                                Transaction { disputed: true, ..stored },
                            );
                            Outcome::Applied
                        } else if account.locked() {
                            Outcome::AccountLocked
                        } else {
                            Outcome::OutOfRange
                        }
                    },
                }
            },
            TransactionKind::Resolve => {
                match transactions.get(&record.tx) {
                    None => Outcome::UnknownTransaction,
                    Some(stored) => {
                        let stored = *stored;
                        if !stored.disputed {
                            Outcome::NotDisputed
                        } else if account.resolve(&stored) {
                            transactions.insert(
                                record.tx,
                                Transaction { disputed: false, ..stored },
                            );
                            Outcome::Applied
                        } else if account.locked() {
                            Outcome::AccountLocked
                        } else {
                            Outcome::OutOfRange
                        }
                    },
                }
            },
            TransactionKind::Chargeback => {
                match transactions.get(&record.tx) {
                    None => Outcome::UnknownTransaction,
                    Some(stored) => {
                        let stored = *stored;
                        if !stored.disputed {
                            Outcome::NotDisputed
                        } else if account.chargeback(&stored) {
                            transactions.insert(
                                record.tx,
                                Transaction { disputed: false, ..stored },
                            );
                            Outcome::Applied
                        } else if account.locked() {
                            Outcome::AccountLocked
                        } else {
                            Outcome::OutOfRange
                        }
                    },
                }
            },
            TransactionKind::Unknown => Outcome::UnknownKind,
        };
        accounts.insert(record.client, account);
        let ghost after = LedgerState {
            accounts: accounts@.map_values(|account: Account| account@),
            transactions: transactions@,
        };
        proof {
            assert(outcome == before.outcome(record));
            assert(after.accounts =~= before.apply(record).accounts);
            assert(after.transactions =~= before.apply(record).transactions);
            crate::laws::lemma_apply_keeps_wf(before, record);
        }
        self.accounts = accounts;
        self.transactions = transactions;
        outcome
    }

    /// Applies `records` in order and says what became of each.
    pub fn apply_all(&mut self, records: &Vec<Transaction>) -> (outcomes: Vec<Outcome>)
        ensures
            final(self)@ == old(self)@.apply_all(records@),
            final(self)@.wf(),
            outcomes.len() == records.len(),
            forall|i: int|
                0 <= i < records.len() ==> #[trigger] outcomes[i] == old(self)@.apply_all(
                    records@.take(i),
                ).outcome(records[i]),
    {
        proof {
            use_type_invariant(&*self);
        }
        let mut outcomes: Vec<Outcome> = Vec::new();
        let mut done: usize = 0;
        assert(records@.take(0) =~= Seq::empty());
        while done < records.len()
            invariant
                done <= records.len(),
                self@ == old(self)@.apply_all(records@.take(done as int)),
                self@.wf(),
                outcomes.len() == done,
                forall|i: int|
                    0 <= i < done ==> #[trigger] outcomes[i] == old(self)@.apply_all(
                        records@.take(i),
                    ).outcome(records[i]),
            decreases records.len() - done,
        {
            assert(records@.take(done + 1).drop_last() =~= records@.take(done as int));
            let outcome = self.apply(records[done]);
            outcomes.push(outcome);
            done += 1;
        }
        assert(records@.take(done as int) =~= records@);
        outcomes
    }

    /// Every account, each once, in ascending order of client.
    pub fn accounts(&self) -> (all: Vec<Account>)
        ensures
            self@.wf(),
            forall|i: int|
                #![trigger all[i]]
                0 <= i < all.len() ==> self@.accounts.contains_key(all[i]@.client)
                    && self@.accounts[all[i]@.client] == all[i]@,
            forall|i: int, j: int|
                #![trigger all[i], all[j]]
                0 <= i < j < all.len() ==> all[i]@.client < all[j]@.client,
            forall|client: u16| #[trigger]
                self@.accounts.contains_key(client) ==> exists|i: int|
                    #![trigger all[i]]
                    0 <= i < all.len() && all[i]@.client == client,
    {
        broadcast use group_hash_axioms;

        proof {
            use_type_invariant(self);
        }
        let mut all: Vec<Account> = Vec::new();
        let mut next: u32 = 0;
        while next <= 0xffff
            invariant
                next <= 0x1_0000,
                self@.wf(),
                forall|i: int|
                    #![trigger all[i]]
                    0 <= i < all.len() ==> all[i]@.client < next && self@.accounts.contains_key(
                        all[i]@.client,
                    ) && self@.accounts[all[i]@.client] == all[i]@,
                forall|i: int, j: int|
                    #![trigger all[i], all[j]]
                    0 <= i < j < all.len() ==> all[i]@.client < all[j]@.client,
                forall|client: u16| #[trigger]
                    self@.accounts.contains_key(client) && client < next ==> exists|i: int|
                        #![trigger all[i]]
                        0 <= i < all.len() && all[i]@.client == client,
            decreases 0x1_0000 - next,
        {
            let client = next as u16;
            let ghost before = all@;
            match self.accounts.get(&client) {
                Some(account) => {
                    assert(self@.accounts.contains_key(client));
                    assert(self@.accounts[client] == account@);
                    all.push(*account);
                    assert(all[before.len() as int]@.client == client);
                    assert(forall|i: int| 0 <= i < before.len() ==> all[i] == before[i]);
                },
                None => {},
            }
            next += 1;
        }
        all
    }
}

} // verus!
