//! Fixed-point amounts.
//!
//! An amount is an `i64` count of ten-thousandths of a currency unit:
//! `31415` stands for `3.1415`. Whoever hands amounts to the library rounds
//! them to four decimal places first; from there on every sum and difference
//! is exact.

use vstd::prelude::*;

verus! {

/// How many units make one whole currency unit.
pub const UNITS_PER_WHOLE: i64 = 10_000;

/// Whether `value` can be stored in a balance.
pub open spec fn representable(value: int) -> bool {
    i64::MIN <= value <= i64::MAX
}

/// What a deposit adds when it is handed `amount`.
///
/// Deposits are meant to be non-negative. A negative deposit is not rejected:
/// it counts as a deposit of zero. The other operations take their amount as
/// it stands, sign included.
pub open spec fn effective(amount: i64) -> int {
    if amount < 0 {
        0
    } else {
        amount as int
    }
}

/// Computes [`effective`].
pub fn effective_amount(amount: i64) -> (moved: i64)
    ensures
        moved == effective(amount),
{
    if amount < 0 {
        0
    } else {
        amount
    }
}

} // verus!
