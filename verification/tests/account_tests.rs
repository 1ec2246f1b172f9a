use transactions_parser::account::Account;
use transactions_parser::transaction::{Transaction, TransactionKind};

/// Ten-thousandths in a decimal amount.
fn units(decimal: f64) -> i64 {
    (decimal * 10_000.0).round() as i64
}

fn withdrawal_of_5_1002() -> Transaction {
    Transaction {
        kind: TransactionKind::parse("withdraw"),
        client: 123,
        tx: 5001,
        amount: Some(units(5.1002)),
        disputed: false,
    }
}

#[test]
fn test_deposit() {
    let mut acc = Account::new(&123);
    acc.deposit(units(3.1415));
    assert_eq!(acc.available(), units(3.1415));
    assert_eq!(acc.total(), units(3.1415));
}

#[test]
fn test_withdraw() {
    let mut acc = Account::new(&123);
    acc.deposit(units(3.1415));
    acc.withdraw(units(2.1414));
    assert_eq!(acc.available(), units(1.0001));
    assert_eq!(acc.total(), units(1.0001));
    // test withdraw more than available
    assert_eq!(acc.withdraw(units(12.1414)), false);
}

#[test]
fn test_dispute() {
    let mut acc = Account::new(&123);
    acc.deposit(units(10.1234));
    let tr = Transaction {
        kind: TransactionKind::parse("withdraw"),
        client: 123,
        tx: 5001,
        amount: Some(units(5.1002)),
        disputed: false,
    };
    acc.withdraw(units(5.1002));

    acc.dispute(&tr);
    assert_eq!(acc.available(), units(-0.077));
    assert_eq!(acc.held(), units(5.1002));
    assert_eq!(acc.total(), units(5.0232));
}

#[test]
fn test_resolve() {
    let mut acc = Account::new(&123);
    acc.deposit(units(10.1234));
    let tr = Transaction {
        kind: TransactionKind::parse("withdraw"),
        client: 123,
        tx: 5001,
        amount: Some(units(5.1002)),
        disputed: false,
    };
    acc.withdraw(units(5.1002));

    acc.dispute(&tr);

    acc.resolve(&tr);
    assert_eq!(acc.available(), units(5.0232));
    assert_eq!(acc.held(), units(0.0));
    assert_eq!(acc.total(), units(5.0232));
}

#[test]
fn test_chargeback() {
    let mut acc = Account::new(&123);
    acc.deposit(units(10.1234));
    let tr = Transaction {
        kind: TransactionKind::parse("withdraw"),
        client: 123,
        tx: 5001,
        amount: Some(units(5.1002)),
        disputed: false,
    };
    acc.withdraw(units(5.1002));

    acc.dispute(&tr);

    acc.chargeback(&tr);
    assert_eq!(acc.available(), units(-0.077));
    assert_eq!(acc.held(), units(0.0));
    assert_eq!(acc.total(), units(-0.077));
    assert_eq!(acc.locked(), true);
}

#[test]
fn test_locked_operations() {
    let mut acc = Account::new(&123);
    acc.deposit(units(10.1234));
    let tr = Transaction {
        kind: TransactionKind::parse("withdraw"),
        client: 123,
        tx: 5001,
        amount: Some(units(5.1002)),
        disputed: false,
    };
    acc.withdraw(units(5.1002));

    acc.dispute(&tr);

    acc.chargeback(&tr);
    assert_eq!(acc.deposit(units(0.1)), false);
    assert_eq!(acc.withdraw(units(0.1)), false);
    assert_eq!(acc.dispute(&tr), false);
    assert_eq!(acc.resolve(&tr), false);
    assert_eq!(acc.chargeback(&tr), false);
}

#[test]
fn units_are_ten_thousandths() {
    assert_eq!(transactions_parser::amount::UNITS_PER_WHOLE, 10_000);
    assert_eq!(units(3.1415), 31_415);
    assert_eq!(units(-0.077), -770);
    assert_eq!(transactions_parser::amount::effective_amount(31_415), 31_415);
    assert_eq!(transactions_parser::amount::effective_amount(0), 0);
    assert_eq!(transactions_parser::amount::effective_amount(-1), 0);
    assert_eq!(transactions_parser::amount::effective_amount(i64::MIN), 0);
}

#[test]
fn new_account_is_empty_and_unlocked() {
    let acc = Account::new(&123);
    assert_eq!(acc.client(), 123);
    assert_eq!(acc.available(), 0);
    assert_eq!(acc.held(), 0);
    assert_eq!(acc.total(), 0);
    assert_eq!(acc.locked(), false);
}

#[test]
fn single_deposit_into_fresh_account() {
    let mut acc = Account::new(&7);
    assert!(acc.deposit(units(3.1415)));
    assert_eq!(acc.available(), 31_415);
    assert_eq!(acc.total(), 31_415);
    assert_eq!(acc.held(), 0);
    assert_eq!(acc.locked(), false);
}

#[test]
fn deposits_only_hold_nothing() {
    let mut acc = Account::new(&1);
    for amount in [1, 20_000, 0, 31_415, 999_999_999] {
        assert!(acc.deposit(amount));
        assert_eq!(acc.held(), 0);
        assert_eq!(acc.total(), acc.available());
    }
    assert_eq!(acc.available(), 1_000_051_415);
}

#[test]
fn total_is_available_plus_held_after_each_operation() {
    let mut acc = Account::new(&1);
    let tr = withdrawal_of_5_1002();
    assert!(acc.deposit(units(10.1234)));
    assert_eq!(acc.total(), acc.available() + acc.held());
    assert!(acc.withdraw(units(5.1002)));
    assert_eq!(acc.total(), acc.available() + acc.held());
    assert!(acc.dispute(&tr));
    assert_eq!(acc.total(), acc.available() + acc.held());
    assert!(acc.resolve(&tr));
    assert_eq!(acc.total(), acc.available() + acc.held());
    assert!(acc.dispute(&tr));
    assert_eq!(acc.total(), acc.available() + acc.held());
    assert!(acc.chargeback(&tr));
    assert_eq!(acc.total(), acc.available() + acc.held());
    assert!(!acc.deposit(1));
    assert_eq!(acc.total(), acc.available() + acc.held());
}

#[test]
fn withdrawal_must_leave_funds_above_zero() {
    let mut acc = Account::new(&1);
    assert!(acc.deposit(100));
    let before = acc;
    // the whole of the free funds cannot be withdrawn
    assert_eq!(acc.withdraw(100), false);
    assert_eq!(acc, before);
    assert_eq!(acc.withdraw(101), false);
    assert_eq!(acc, before);
    assert_eq!(acc.withdraw(99), true);
    assert_eq!(acc.available(), 1);
    assert_eq!(acc.total(), 1);
    assert_eq!(acc.held(), 0);
}

#[test]
fn withdrawal_from_empty_account_is_refused() {
    let mut acc = Account::new(&1);
    assert_eq!(acc.withdraw(0), false);
    assert_eq!(acc.withdraw(1), false);
    assert_eq!(acc, Account::new(&1));
}

#[test]
fn dispute_moves_amount_and_resolve_moves_it_back() {
    let mut acc = Account::new(&1);
    assert!(acc.deposit(500));
    let before = acc;
    let tr = Transaction {
        kind: TransactionKind::Deposit,
        client: 1,
        tx: 9,
        amount: Some(200),
        disputed: false,
    };
    assert!(acc.dispute(&tr));
    assert_eq!(acc.available(), 300);
    assert_eq!(acc.held(), 200);
    assert_eq!(acc.total(), 500);
    assert!(acc.resolve(&tr));
    assert_eq!(acc, before);
}

#[test]
fn dispute_may_take_available_below_zero() {
    let mut acc = Account::new(&1);
    assert!(acc.deposit(100));
    let tr = Transaction {
        kind: TransactionKind::Withdrawal,
        client: 1,
        tx: 9,
        amount: Some(250),
        disputed: false,
    };
    assert!(acc.dispute(&tr));
    assert_eq!(acc.available(), -150);
    assert_eq!(acc.held(), 250);
    assert_eq!(acc.total(), 100);
}

#[test]
fn chargeback_takes_from_held_and_total_and_locks() {
    let mut acc = Account::new(&1);
    assert!(acc.deposit(500));
    let tr = Transaction {
        kind: TransactionKind::Deposit,
        client: 1,
        tx: 9,
        amount: Some(200),
        disputed: false,
    };
    assert!(acc.dispute(&tr));
    assert!(acc.chargeback(&tr));
    assert_eq!(acc.available(), 300);
    assert_eq!(acc.held(), 0);
    assert_eq!(acc.total(), 300);
    assert_eq!(acc.locked(), true);
}

#[test]
fn locked_account_stays_as_it_is() {
    let mut acc = Account::new(&1);
    assert!(acc.deposit(500));
    let tr = Transaction {
        kind: TransactionKind::Deposit,
        client: 1,
        tx: 9,
        amount: Some(200),
        disputed: false,
    };
    assert!(acc.chargeback(&tr));
    let locked = acc;
    assert_eq!(locked.locked(), true);
    assert_eq!(locked.held(), -200);
    assert_eq!(acc.deposit(1), false);
    assert_eq!(acc, locked);
    assert_eq!(acc.withdraw(1), false);
    assert_eq!(acc, locked);
    assert_eq!(acc.dispute(&tr), false);
    assert_eq!(acc, locked);
    assert_eq!(acc.resolve(&tr), false);
    assert_eq!(acc, locked);
    assert_eq!(acc.chargeback(&tr), false);
    assert_eq!(acc, locked);
}

#[test]
fn negative_deposit_counts_as_zero() {
    let mut acc = Account::new(&1);
    assert!(acc.deposit(100));
    assert_eq!(acc.deposit(-40), true);
    assert_eq!(acc.available(), 100);
    assert_eq!(acc.total(), 100);
    assert_eq!(acc.held(), 0);
    assert_eq!(acc.deposit(i64::MIN), true);
    assert_eq!(acc.available(), 100);
    assert_eq!(acc.total(), 100);
}

#[test]
fn negative_withdrawal_adds_to_the_balances() {
    let mut acc = Account::new(&1);
    // nothing free, and yet the balance after the withdrawal is above zero
    assert_eq!(acc.withdraw(-10_000), true);
    assert_eq!(acc.available(), 10_000);
    assert_eq!(acc.total(), 10_000);
    assert_eq!(acc.held(), 0);
    assert_eq!(acc.withdraw(-40), true);
    assert_eq!(acc.available(), 10_040);
    assert_eq!(acc.total(), 10_040);
}

#[test]
fn negative_withdrawal_that_leaves_nothing_is_refused() {
    let mut acc = Account::new(&1);
    let tr = Transaction {
        kind: TransactionKind::Deposit,
        client: 1,
        tx: 9,
        amount: Some(50),
        disputed: false,
    };
    assert!(acc.dispute(&tr));
    assert_eq!(acc.available(), -50);
    let before = acc;
    assert_eq!(acc.withdraw(-50), false);
    assert_eq!(acc, before);
    assert_eq!(acc.withdraw(-51), true);
    assert_eq!(acc.available(), 1);
    assert_eq!(acc.total(), 51);
}

#[test]
fn dispute_family_moves_the_signed_amount() {
    let mut acc = Account::new(&1);
    assert!(acc.deposit(100));
    let tr = Transaction {
        kind: TransactionKind::Deposit,
        client: 1,
        tx: 9,
        amount: Some(-25_000),
        disputed: false,
    };
    assert_eq!(acc.dispute(&tr), true);
    assert_eq!(acc.available(), 25_100);
    assert_eq!(acc.held(), -25_000);
    assert_eq!(acc.total(), 100);
    assert_eq!(acc.resolve(&tr), true);
    assert_eq!(acc.available(), 100);
    assert_eq!(acc.held(), 0);
    assert_eq!(acc.total(), 100);
    assert_eq!(acc.chargeback(&tr), true);
    assert_eq!(acc.available(), 100);
    assert_eq!(acc.held(), 25_000);
    assert_eq!(acc.total(), 25_100);
    assert_eq!(acc.locked(), true);
}

#[test]
fn withdrawal_out_of_range_is_refused() {
    let mut acc = Account::new(&1);
    assert!(acc.deposit(i64::MAX));
    let full = acc;
    assert_eq!(acc.withdraw(-1), false);
    assert_eq!(acc, full);
    assert_eq!(acc.withdraw(i64::MIN), false);
    assert_eq!(acc, full);
    assert_eq!(acc.withdraw(1), true);
    assert_eq!(acc.available(), i64::MAX - 1);
}

#[test]
fn chargeback_out_of_range_leaves_account_unlocked() {
    let mut acc = Account::new(&1);
    let tr = Transaction {
        kind: TransactionKind::Deposit,
        client: 1,
        tx: 9,
        amount: Some(i64::MAX),
        disputed: false,
    };
    assert!(acc.chargeback(&Transaction { amount: Some(2), ..tr }));
    let mut other = Account::new(&2);
    assert!(other.dispute(&Transaction { amount: Some(-2), ..tr }));
    assert_eq!(other.held(), -2);
    let before = other;
    assert_eq!(other.chargeback(&tr), false);
    assert_eq!(other, before);
    assert_eq!(other.locked(), false);
}

#[test]
fn missing_amount_counts_as_zero() {
    let tr = Transaction {
        kind: TransactionKind::Dispute,
        client: 1,
        tx: 9,
        amount: None,
        disputed: false,
    };
    assert_eq!(tr.get_amount(), 0);
    let mut acc = Account::new(&1);
    assert!(acc.deposit(100));
    assert!(acc.dispute(&tr));
    assert_eq!(acc.available(), 100);
    assert_eq!(acc.held(), 0);
    assert_eq!(acc.total(), 100);
}

#[test]
fn get_amount_hands_back_the_amount() {
    let tr = withdrawal_of_5_1002();
    assert_eq!(tr.get_amount(), 51_002);
    let negative = Transaction { amount: Some(-3), ..tr };
    assert_eq!(negative.get_amount(), -3);
}

#[test]
fn balance_out_of_range_is_refused() {
    let mut acc = Account::new(&1);
    assert!(acc.deposit(i64::MAX));
    let full = acc;
    assert_eq!(acc.deposit(1), false);
    assert_eq!(acc, full);
    assert_eq!(acc.deposit(0), true);
    assert_eq!(acc, full);

    // a dispute that would take the free funds below the smallest balance
    let mut low = Account::new(&2);
    let tr = Transaction {
        kind: TransactionKind::Deposit,
        client: 2,
        tx: 1,
        amount: Some(i64::MAX),
        disputed: false,
    };
    assert!(low.dispute(&tr));
    assert_eq!(low.available(), -i64::MAX);
    assert_eq!(low.held(), i64::MAX);
    let before = low;
    assert_eq!(low.dispute(&tr), false);
    assert_eq!(low, before);
    assert_eq!(low.resolve(&tr), true);
    assert_eq!(low, Account::new(&2));
}

#[test]
fn kind_names_are_matched_exactly() {
    assert_eq!(TransactionKind::parse("deposit"), TransactionKind::Deposit);
    assert_eq!(TransactionKind::parse("withdrawal"), TransactionKind::Withdrawal);
    assert_eq!(TransactionKind::parse("dispute"), TransactionKind::Dispute);
    assert_eq!(TransactionKind::parse("resolve"), TransactionKind::Resolve);
    assert_eq!(TransactionKind::parse("chargeback"), TransactionKind::Chargeback);
    assert_eq!(TransactionKind::parse("withdraw"), TransactionKind::Unknown);
    assert_eq!(TransactionKind::parse("Deposit"), TransactionKind::Unknown);
    assert_eq!(TransactionKind::parse(" deposit"), TransactionKind::Unknown);
    assert_eq!(TransactionKind::parse(""), TransactionKind::Unknown);
}
