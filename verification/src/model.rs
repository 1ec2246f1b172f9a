//! The ledger as a mathematical state machine.
//!
//! [`LedgerState`] is what the contracts of the executable ledger speak of:
//! two maps, and one transition per incoming record.

use vstd::prelude::*;

use crate::account::AccountState;
use crate::amount::effective;
use crate::transaction::{Transaction, TransactionKind};

verus! {

/// What became of one record.
#[derive(Clone, Copy, Debug, PartialEq, Eq, Structural)]
pub enum Outcome {
    /// The record changed its client's balances.
    Applied,
    /// The client's account is locked.
    AccountLocked,
    /// The withdrawal would not leave the free funds strictly above zero.
    InsufficientFunds,
    /// A balance would leave the range that an account can store.
    OutOfRange,
    /// No stored deposit or withdrawal has the record's `tx`.
    UnknownTransaction,
    /// The record disputes a transaction that is under dispute already.
    AlreadyDisputed,
    /// The record resolves or charges back a transaction that is not under
    /// dispute.
    NotDisputed,
    /// The record's kind is none of the five that the ledger knows.
    UnknownKind,
}

/// All accounts by client, and every deposit and withdrawal that went
/// through, by transaction id, each with its live dispute flag.
pub struct LedgerState {
    pub accounts: Map<u16, AccountState>,
    pub transactions: Map<u32, Transaction>,
}

impl LedgerState {
    /// The ledger before the first record.
    pub open spec fn empty() -> LedgerState {
        LedgerState { accounts: Map::empty(), transactions: Map::empty() }
    }

    /// The account of `client`; a client not seen yet has a fresh one.
    pub open spec fn account(self, client: u16) -> AccountState {
        if self.accounts.contains_key(client) {
            self.accounts[client]
        } else {
            AccountState::fresh(client)
        }
    }

    /// The ledger once `client` has an account: a record opens its client's
    /// account even where it changes nothing else.
    pub open spec fn opened(self, client: u16) -> LedgerState {
        LedgerState { accounts: self.accounts.insert(client, self.account(client)), ..self }
    }

    /// What becomes of `record` in this state.
    ///
    /// A dispute, resolve or chargeback is judged first by the stored
    /// transaction it names, then by the account of the record's own client.
    pub open spec fn outcome(self, record: Transaction) -> Outcome {
        let account = self.account(record.client);
        let stored = self.transactions[record.tx];
        match record.kind {
            TransactionKind::Deposit => {
                if account.locked {
                    Outcome::AccountLocked
                } else if !account.accepts_deposit(effective(record.amount_or_zero())) {
                    Outcome::OutOfRange
                } else {
                    Outcome::Applied
                }
            },
            TransactionKind::Withdrawal => {
                if account.locked {
                    Outcome::AccountLocked
                } else if account.available - record.amount_or_zero() <= 0 {
                    Outcome::InsufficientFunds
                } else if !account.accepts_withdrawal(record.amount_or_zero() as int) {
                    Outcome::OutOfRange
                } else {
                    Outcome::Applied
                }
            },
            TransactionKind::Dispute => {
                if !self.transactions.contains_key(record.tx) {
                    Outcome::UnknownTransaction
                } else if stored.disputed {
                    Outcome::AlreadyDisputed
                } else if account.locked {
                    Outcome::AccountLocked
                } else if !account.accepts_dispute(stored.amount_or_zero() as int) {
                    Outcome::OutOfRange
                } else {
                    Outcome::Applied
                }
            },
            TransactionKind::Resolve => {
                if !self.transactions.contains_key(record.tx) {
                    Outcome::UnknownTransaction
                } else if !stored.disputed {
                    Outcome::NotDisputed
                } else if account.locked {
                    Outcome::AccountLocked
                } else if !account.accepts_resolve(stored.amount_or_zero() as int) {
                    Outcome::OutOfRange
                } else {
                    Outcome::Applied
                }
            },
            TransactionKind::Chargeback => {
                if !self.transactions.contains_key(record.tx) {
                    Outcome::UnknownTransaction
                } else if !stored.disputed {
                    Outcome::NotDisputed
                } else if account.locked {
                    Outcome::AccountLocked
                } else if !account.accepts_chargeback(stored.amount_or_zero() as int) {
                    Outcome::OutOfRange
                } else {
                    Outcome::Applied
                }
            },
            TransactionKind::Unknown => Outcome::UnknownKind,
        }
    }

    /// The ledger after `record`.
    ///
    /// A record that is not applied only opens its client's account. An
    /// applied deposit or withdrawal is stored under its `tx` as it came,
    /// not disputed, in place of any record stored there before. An applied
    /// dispute, resolve or chargeback moves the stored amount, sign included,
    /// on the account of the record's own client and sets the stored record's
    /// flag.
    pub open spec fn apply(self, record: Transaction) -> LedgerState {
        let account = self.account(record.client);
        if self.outcome(record) != Outcome::Applied {
            self.opened(record.client)
        } else {
            match record.kind {
                TransactionKind::Deposit => LedgerState {
                    accounts: self.accounts.insert(
                        record.client,
                        account.credited(effective(record.amount_or_zero())),
                    ),
                    transactions: self.transactions.insert(record.tx, record.flagged(false)),
                },
                TransactionKind::Withdrawal => LedgerState {
                    accounts: self.accounts.insert(
                        record.client,
                        account.debited(record.amount_or_zero() as int),
                    ),
                    transactions: self.transactions.insert(record.tx, record.flagged(false)),
                },
                TransactionKind::Dispute => {
                    let stored = self.transactions[record.tx];
                    LedgerState {
                        accounts: self.accounts.insert(
                            record.client,
                            account.frozen(stored.amount_or_zero() as int),
                        ),
                        transactions: self.transactions.insert(record.tx, stored.flagged(true)),
                    }
                },
                TransactionKind::Resolve => {
                    let stored = self.transactions[record.tx];
                    LedgerState {
                        accounts: self.accounts.insert(
                            record.client,
                            account.released(stored.amount_or_zero() as int),
                        ),
                        transactions: self.transactions.insert(record.tx, stored.flagged(false)),
                    }
                },
                TransactionKind::Chargeback => {
                    let stored = self.transactions[record.tx];
                    LedgerState {
                        accounts: self.accounts.insert(
                            record.client,
                            account.charged_back(stored.amount_or_zero() as int),
                        ),
                        transactions: self.transactions.insert(record.tx, stored.flagged(false)),
                    }
                },
                TransactionKind::Unknown => self.opened(record.client),
            }
        }
    }

    /// The ledger after all of `records`, in order.
    pub open spec fn apply_all(self, records: Seq<Transaction>) -> LedgerState
        decreases records.len(),
    {
        if records.len() == 0 {
            self
        } else {
            self.apply_all(records.drop_last()).apply(records.last())
        }
    }

    /// What holds of every ledger that records have built up from the empty
    /// one: each account is filed under its own client, is balanced and can
    /// be stored; each stored transaction is a deposit or a withdrawal filed
    /// under its own id.
    pub open spec fn wf(self) -> bool {
        &&& forall|client: u16| #[trigger]
            self.accounts.contains_key(client) ==> {
                &&& self.accounts[client].client == client
                &&& self.accounts[client].balanced()
                &&& self.accounts[client].in_range()
            }
        &&& forall|tx: u32| #[trigger]
            self.transactions.contains_key(tx) ==> {
                &&& self.transactions[tx].tx == tx
                &&& (self.transactions[tx].kind == TransactionKind::Deposit
                    || self.transactions[tx].kind == TransactionKind::Withdrawal)
            }
    }
}

} // verus!
