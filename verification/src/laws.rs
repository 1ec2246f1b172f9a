//! What holds of every account and every ledger, proved over the states that
//! the executable types follow.

use vstd::prelude::*;

use crate::account::AccountState;
use crate::amount::effective;
use crate::model::{LedgerState, Outcome};
use crate::transaction::{Transaction, TransactionKind};

verus! {

/// Whether `kind` names an earlier transaction instead of carrying an amount
/// of its own.
pub open spec fn refers_back(kind: TransactionKind) -> bool {
    kind == TransactionKind::Dispute || kind == TransactionKind::Resolve || kind
        == TransactionKind::Chargeback
}

/// No account of `state` has frozen funds: each total is the free funds.
pub open spec fn nothing_held(state: LedgerState) -> bool {
    forall|client: u16| #[trigger]
        state.accounts.contains_key(client) ==> state.accounts[client].held == 0
            && state.accounts[client].total == state.accounts[client].available
}

/// Every account of `state` is balanced: its total is the sum of its free and
/// its frozen funds.
pub open spec fn all_balanced(state: LedgerState) -> bool {
    forall|client: u16| #[trigger]
        state.accounts.contains_key(client) ==> state.accounts[client].balanced()
}

/// Each of the five operations takes a balanced account to a balanced
/// account, whether it goes through or not.
pub proof fn lemma_operations_keep_balance(account: AccountState, amount: int)
    requires
        account.balanced(),
    ensures
        account.deposit(amount).balanced(),
        account.withdraw(amount).balanced(),
        account.dispute(amount).balanced(),
        account.resolve(amount).balanced(),
        account.chargeback(amount).balanced(),
{
}

/// A withdrawal that goes through leaves the free funds strictly above zero
/// and takes exactly `amount` from the free funds and from the total; one
/// that does not go through changes nothing.
pub proof fn lemma_withdrawal(account: AccountState, amount: int)
    ensures
        account.accepts_withdrawal(amount) ==> {
            &&& account.available - amount > 0
            &&& account.withdraw(amount).available == account.available - amount
            &&& account.withdraw(amount).total == account.total - amount
            &&& account.withdraw(amount).held == account.held
            &&& account.withdraw(amount).locked == account.locked
        },
        !account.accepts_withdrawal(amount) ==> account.withdraw(amount) == account,
{
}

/// A dispute that goes through moves exactly `amount`, sign included, from
/// the free funds to the frozen funds and leaves the total alone.
pub proof fn lemma_dispute_moves_funds(account: AccountState, amount: int)
    requires
        account.accepts_dispute(amount),
    ensures
        account.dispute(amount).available == account.available - amount,
        account.dispute(amount).held == account.held + amount,
        account.dispute(amount).total == account.total,
        !account.dispute(amount).locked,
{
}

/// A resolve that goes through moves exactly `amount`, sign included, from
/// the frozen funds back to the free funds and leaves the total alone.
pub proof fn lemma_resolve_moves_funds(account: AccountState, amount: int)
    requires
        account.accepts_resolve(amount),
    ensures
        account.resolve(amount).available == account.available + amount,
        account.resolve(amount).held == account.held - amount,
        account.resolve(amount).total == account.total,
        !account.resolve(amount).locked,
{
}

/// Resolving a dispute undoes it: after a dispute over `amount` went
/// through, the resolve over the same amount goes through too and gives back
/// the account as it was before the dispute.
pub proof fn lemma_resolve_undoes_dispute(account: AccountState, amount: int)
    requires
        account.in_range(),
        account.accepts_dispute(amount),
    ensures
        account.dispute(amount).accepts_resolve(amount),
        account.dispute(amount).resolve(amount) == account,
{
}

/// A chargeback that goes through takes exactly `amount`, sign included,
/// from the frozen funds and from the total, leaves the free funds alone and
/// locks the account.
pub proof fn lemma_chargeback_locks(account: AccountState, amount: int)
    requires
        account.accepts_chargeback(amount),
    ensures
        account.chargeback(amount).held == account.held - amount,
        account.chargeback(amount).total == account.total - amount,
        account.chargeback(amount).available == account.available,
        account.chargeback(amount).locked,
{
}

/// A locked account refuses each of the five operations, whatever the amount,
/// and stays exactly as it is.
pub proof fn lemma_locked_account_refuses(account: AccountState, amount: int)
    requires
        account.locked,
    ensures
        !account.accepts_deposit(amount) && account.deposit(amount) == account,
        !account.accepts_withdrawal(amount) && account.withdraw(amount) == account,
        !account.accepts_dispute(amount) && account.dispute(amount) == account,
        !account.accepts_resolve(amount) && account.resolve(amount) == account,
        !account.accepts_chargeback(amount) && account.chargeback(amount) == account,
{
}

/// A deposit into an unlocked account goes through whenever the new
/// balances can be stored. It leaves the frozen funds alone, and where the
/// total was the free funds before, it is so afterwards.
pub proof fn lemma_deposit_goes_through(account: AccountState, amount: i64)
    requires
        !account.locked,
        account.credited(effective(amount)).in_range(),
    ensures
        account.accepts_deposit(effective(amount)),
        account.deposit(effective(amount)).available == account.available + effective(amount),
        account.deposit(effective(amount)).total == account.total + effective(amount),
        account.deposit(effective(amount)).held == account.held,
        account.balanced() ==> account.deposit(effective(amount)).balanced(),
        account.total == account.available ==> account.deposit(effective(amount)).total
            == account.deposit(effective(amount)).available,
{
}

/// A negative deposit changes nothing.
pub proof fn lemma_negative_deposit_changes_nothing(account: AccountState, amount: i64)
    requires
        amount < 0,
    ensures
        account.deposit(effective(amount)) == account,
{
}

/// The account after an attempt to deposit each of `amounts`, in order.
pub open spec fn after_deposits(account: AccountState, amounts: Seq<i64>) -> AccountState
    decreases amounts.len(),
{
    if amounts.len() == 0 {
        account
    } else {
        after_deposits(account, amounts.drop_last()).deposit(effective(amounts.last()))
    }
}

/// After deposits only, a fresh account has no frozen funds, its total is
/// its free funds, and it is not locked.
pub proof fn lemma_deposits_on_fresh_account(client: u16, amounts: Seq<i64>)
    ensures
        after_deposits(AccountState::fresh(client), amounts).held == 0,
        after_deposits(AccountState::fresh(client), amounts).total == after_deposits(
            AccountState::fresh(client),
            amounts,
        ).available,
        !after_deposits(AccountState::fresh(client), amounts).locked,
    decreases amounts.len(),
{
    if amounts.len() > 0 {
        lemma_deposits_on_fresh_account(client, amounts.drop_last());
    }
}

/// A withdrawal goes through exactly on an unlocked account whose free funds
/// stay strictly above zero, whenever the new balances can be stored. The
/// frozen funds play no part in it.
pub proof fn lemma_withdrawal_goes_through(account: AccountState, amount: int)
    requires
        account.debited(amount).in_range(),
    ensures
        account.accepts_withdrawal(amount) == (!account.locked && account.available - amount > 0),
{
}

/// A dispute, and likewise a resolve, goes through on every unlocked account
/// whenever the new balances can be stored.
pub proof fn lemma_dispute_and_resolve_go_through(account: AccountState, amount: int)
    ensures
        account.frozen(amount).in_range() ==> account.accepts_dispute(amount) == !account.locked,
        account.released(amount).in_range() ==> account.accepts_resolve(amount)
            == !account.locked,
{
}

/// Whenever the new balances can be stored, a chargeback goes through exactly
/// on an unlocked account, and the account is locked afterwards in either
/// case.
pub proof fn lemma_chargeback_leaves_locked(account: AccountState, amount: int)
    requires
        account.charged_back(amount).in_range(),
    ensures
        account.accepts_chargeback(amount) == !account.locked,
        account.chargeback(amount).locked,
{
}

/// No operation unlocks an account.
pub proof fn lemma_locked_stays_locked(account: AccountState, amount: int)
    requires
        account.locked,
    ensures
        account.deposit(amount).locked,
        account.withdraw(amount).locked,
        account.dispute(amount).locked,
        account.resolve(amount).locked,
        account.chargeback(amount).locked,
{
}

/// The empty ledger is well formed.
pub proof fn lemma_empty_is_wf()
    ensures
        LedgerState::empty().wf(),
{
}

/// No record takes a well-formed ledger to one that is not: after any
/// record, every account is still filed under its own client, its total is
/// still the sum of its free and frozen funds, and every stored transaction
/// is still a deposit or a withdrawal under its own id.
pub proof fn lemma_apply_keeps_wf(state: LedgerState, record: Transaction)
    requires
        state.wf(),
    ensures
        state.apply(record).wf(),
{
}

/// Whatever the records, every account of the ledger built from them is
/// balanced.
pub proof fn lemma_every_account_is_balanced(records: Seq<Transaction>)
    ensures
        LedgerState::empty().apply_all(records).wf(),
        all_balanced(LedgerState::empty().apply_all(records)),
    decreases records.len(),
{
    if records.len() > 0 {
        lemma_every_account_is_balanced(records.drop_last());
        lemma_apply_keeps_wf(LedgerState::empty().apply_all(records.drop_last()), records.last());
    }
}

/// After deposits only, no account has frozen funds and each total equals
/// the free funds.
pub proof fn lemma_deposits_hold_nothing(records: Seq<Transaction>)
    requires
        forall|i: int|
            0 <= i < records.len() ==> (#[trigger] records[i]).kind == TransactionKind::Deposit,
    ensures
        nothing_held(LedgerState::empty().apply_all(records)),
    decreases records.len(),
{
    if records.len() > 0 {
        lemma_deposits_hold_nothing(records.drop_last());
        assert(records.last().kind == TransactionKind::Deposit);
    }
}

/// A record that is not applied leaves every account and every stored
/// transaction as it was. At most it opens a fresh account for its client.
pub proof fn lemma_refused_record_changes_nothing(state: LedgerState, record: Transaction)
    requires
        state.outcome(record) != Outcome::Applied,
    ensures
        state.apply(record).transactions == state.transactions,
        forall|client: u16| #[trigger]
            state.apply(record).account(client) == state.account(client),
        state.accounts.contains_key(record.client) ==> state.apply(record) == state,
{
    if state.accounts.contains_key(record.client) {
        assert(state.apply(record).accounts =~= state.accounts);
    }
}

/// A dispute, resolve or chargeback that names a transaction the ledger has
/// not stored is not applied, and leaves every account and every stored
/// transaction as it was.
pub proof fn lemma_unknown_reference_changes_nothing(state: LedgerState, record: Transaction)
    requires
        refers_back(record.kind),
        !state.transactions.contains_key(record.tx),
    ensures
        state.outcome(record) == Outcome::UnknownTransaction,
        state.apply(record).transactions == state.transactions,
        forall|client: u16| #[trigger]
            state.apply(record).account(client) == state.account(client),
        state.accounts.contains_key(record.client) ==> state.apply(record) == state,
{
    lemma_refused_record_changes_nothing(state, record);
}

/// A record changes at most the account of its own client.
pub proof fn lemma_other_accounts_untouched(state: LedgerState, record: Transaction, client: u16)
    requires
        client != record.client,
    ensures
        state.apply(record).account(client) == state.account(client),
        state.apply(record).accounts.contains_key(client) == state.accounts.contains_key(client),
{
}

/// No record is applied to a locked account.
pub proof fn lemma_locked_account_refuses_records(state: LedgerState, record: Transaction)
    requires
        state.account(record.client).locked,
    ensures
        state.outcome(record) != Outcome::Applied,
        state.apply(record).account(record.client) == state.account(record.client),
{
}

/// Once an account is locked it never changes again, whatever records
/// follow.
pub proof fn lemma_locked_account_is_final(
    state: LedgerState,
    records: Seq<Transaction>,
    client: u16,
)
    requires
        state.account(client).locked,
    ensures
        state.apply_all(records).account(client) == state.account(client),
    decreases records.len(),
{
    if records.len() > 0 {
        lemma_locked_account_is_final(state, records.drop_last(), client);
        let before = state.apply_all(records.drop_last());
        if records.last().client == client {
            lemma_locked_account_refuses_records(before, records.last());
        } else {
            lemma_other_accounts_untouched(before, records.last(), client);
        }
    }
}

/// In a ledger, a resolve undoes the dispute before it: where a dispute is
/// applied, the resolve of the same transaction for the same client is
/// applied too, and the ledger is then as it was before the dispute, with the
/// client's account opened.
pub proof fn lemma_resolve_undoes_dispute_in_ledger(
    state: LedgerState,
    dispute: Transaction,
    resolve: Transaction,
)
    requires
        state.wf(),
        dispute.kind == TransactionKind::Dispute,
        resolve.kind == TransactionKind::Resolve,
        resolve.tx == dispute.tx,
        resolve.client == dispute.client,
        state.outcome(dispute) == Outcome::Applied,
    ensures
        state.apply(dispute).outcome(resolve) == Outcome::Applied,
        state.apply(dispute).apply(resolve) == state.opened(dispute.client),
{
    let account = state.account(dispute.client);
    let stored = state.transactions[dispute.tx];
    lemma_resolve_undoes_dispute(account, stored.amount_or_zero() as int);
    let between = state.apply(dispute);
    assert(between.transactions[resolve.tx] == stored.flagged(true));
    assert(between.account(resolve.client) == account.dispute(stored.amount_or_zero() as int));
    let after = between.apply(resolve);
    assert(stored.flagged(true).flagged(false) == stored);
    assert(after.accounts =~= state.opened(dispute.client).accounts);
    assert(after.transactions =~= state.transactions);
}

/// An applied dispute moves the amount of the stored transaction it names,
/// never an amount of its own, from the free to the frozen funds of its
/// client, and changes nothing of the stored transaction but its flag.
pub proof fn lemma_dispute_moves_stored_amount(state: LedgerState, dispute: Transaction)
    requires
        dispute.kind == TransactionKind::Dispute,
        state.outcome(dispute) == Outcome::Applied,
    ensures
        state.transactions.contains_key(dispute.tx),
        !state.transactions[dispute.tx].disputed,
        state.apply(dispute).account(dispute.client) == state.account(dispute.client).frozen(
            state.transactions[dispute.tx].amount_or_zero() as int,
        ),
        state.apply(dispute).transactions == state.transactions.insert(
            dispute.tx,
            state.transactions[dispute.tx].flagged(true),
        ),
{
}

} // verus!
