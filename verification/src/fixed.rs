//! Fixed-point numeric domain shared by the whole library.
//!
//! A fractional value `x` is stored as the integer `x * SCALE`, so one
//! unit of currency or of quantity is `SCALE` ticks. Amounts are kept
//! within `[0, AMOUNT_MAX]`; percentages within `(0, SCALE]`.

use vstd::prelude::*;

verus! {

/// Number of ticks in one whole unit.
pub const SCALE: u64 = 1_000_000;

/// Largest representable amount (price, quantity or notional), in ticks.
pub const AMOUNT_MAX: u64 = 1_000_000_000_000_000_000;

/// Largest accepted moving-average or RSI window length.
pub const PERIOD_MAX: usize = 100_000;

/// Smaller of two mathematical integers.
pub open spec fn min_int(a: int, b: int) -> int {
    if a <= b {
        a
    } else {
        b
    }
}

} // verus!
