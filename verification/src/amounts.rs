//! Saturating arithmetic on amounts. An amount is a `u128` count of the
//! smallest indivisible token unit. Credits and accrual totals clamp at the
//! representable maximum instead of overflowing; this is an accepted lossy
//! edge case, documented here once for the whole crate. Debits never use
//! saturating subtraction: a debit is always preceded by a sufficiency check.

use vstd::prelude::*;

verus! {

/// Saturating product of two amounts, clamped at `u128::MAX`.
pub open spec fn sat_mul_spec(a: u128, b: u128) -> u128 {
    if a * b > u128::MAX {
        u128::MAX
    } else {
        (a * b) as u128
    }
}

/// Saturating multiplication; used for `rate * whole_seconds` accrual totals.
pub fn sat_mul(a: u128, b: u128) -> (r: u128)
    ensures
        r == sat_mul_spec(a, b),
{
    match a.checked_mul(b) {
        Some(p) => p,
        None => u128::MAX,
    }
}

/// Microseconds in a whole duration of `seconds`, clamped at `u64::MAX`.
pub open spec fn duration_micros_spec(seconds: u64) -> u64 {
    if seconds * 1_000_000 > u64::MAX {
        u64::MAX
    } else {
        (seconds * 1_000_000) as u64
    }
}

/// Saturating conversion of a whole-second duration to microseconds.
pub fn duration_micros(seconds: u64) -> (r: u64)
    ensures
        r == duration_micros_spec(seconds),
{
    match seconds.checked_mul(1_000_000) {
        Some(m) => m,
        None => u64::MAX,
    }
}

} // verus!
