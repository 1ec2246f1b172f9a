//! Transaction records as they arrive from the input stream.

use vstd::prelude::*;

verus! {

/// What a record asks the ledger to do.
#[derive(Clone, Copy, Debug, PartialEq, Eq, Structural)]
pub enum TransactionKind {
    Deposit,
    Withdrawal,
    Dispute,
    Resolve,
    Chargeback,
    /// Any kind the ledger does not know; such a record changes no balance.
    Unknown,
}

impl TransactionKind {
    /// The kind that a record's type field names.
    ///
    /// The five known names are matched exactly: no trimming, no case folding.
    pub open spec fn named(name: Seq<char>) -> TransactionKind {
        if name == "deposit"@ {
            TransactionKind::Deposit
        } else if name == "withdrawal"@ {
            TransactionKind::Withdrawal
        } else if name == "dispute"@ {
            TransactionKind::Dispute
        } else if name == "resolve"@ {
            TransactionKind::Resolve
        } else if name == "chargeback"@ {
            TransactionKind::Chargeback
        } else {
            TransactionKind::Unknown
        }
    }

    /// Reads a record's type field.
    pub fn parse(name: &str) -> (kind: TransactionKind)
        ensures
            kind == TransactionKind::named(name@),
    {
        let name = name.to_owned();
        if name == "deposit".to_owned() {
            TransactionKind::Deposit
        } else if name == "withdrawal".to_owned() {
            TransactionKind::Withdrawal
        } else if name == "dispute".to_owned() {
            TransactionKind::Dispute
        } else if name == "resolve".to_owned() {
            TransactionKind::Resolve
        } else if name == "chargeback".to_owned() {
            TransactionKind::Chargeback
        } else {
            TransactionKind::Unknown
        }
    }
}

/// One record of the input stream.
///
/// Only deposits and withdrawals carry an amount of their own; a dispute,
/// resolve or chargeback names an earlier record by `tx` and moves that
/// record's amount, as it was stored and with its sign. `disputed` is not
/// part of the input: the ledger keeps it on the records it stores.
#[derive(Clone, Copy, Debug, PartialEq, Eq, Structural)]
pub struct Transaction {
    pub kind: TransactionKind,
    pub client: u16,
    pub tx: u32,
    pub amount: Option<i64>,
    pub disputed: bool,
}

impl Transaction {
    /// The record's amount, with a missing amount read as zero.
    pub open spec fn amount_or_zero(self) -> i64 {
        match self.amount {
            Some(amount) => amount,
            None => 0,
        }
    }

    /// The same record with its dispute flag set to `disputed`.
    pub open spec fn flagged(self, disputed: bool) -> Transaction {
        Transaction { disputed, ..self }
    }

    /// The record's amount, with a missing amount read as zero.
    pub fn get_amount(&self) -> (amount: i64)
        ensures
            amount == self.amount_or_zero(),
    {
        match self.amount {
            Some(amount) => amount,
            None => 0,
        }
    }
}

} // verus!
