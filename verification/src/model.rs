//! The mathematical model shared by all four strategies: the Fibonacci
//! sequence itself, the two guard thresholds, and the outcome each strategy
//! owes its caller at every index.

use vstd::prelude::*;

verus! {

/// Largest index whose Fibonacci number the strategies will compute: the
/// `u128` result type holds every Fibonacci number up to this index (and one
/// past it, which the accumulator pairs reach), and no further.
pub const FIBO_INDEX_MAX: u8 = 185;

/// Largest index the naive strategy accepts: beyond it the doubly recursive
/// computation takes exponential time and is refused up front.
pub const FIBO_NAIVE_INDEX_MAX: u8 = 40;

/// The Fibonacci sequence: 0, 1, 1, 2, 3, 5, ..., each term the sum of the
/// two before it.
pub open spec fn fibo(n: nat) -> nat
    decreases n,
{
    if n == 0 {
        0
    } else if n == 1 {
        1
    } else {
        fibo((n - 2) as nat) + fibo((n - 1) as nat)
    }
}

/// Why a strategy declined to compute an index.
#[derive(Clone, Copy, Debug, PartialEq, Eq, Structural)]
pub enum FibError {
    /// The index is past `FIBO_INDEX_MAX`, so the result would not fit the
    /// `u128` value type.
    Overflow,
    /// The index is past `FIBO_NAIVE_INDEX_MAX`; only the naive strategy
    /// reports this.
    TooSlow,
}

/// What the loop, tail-recursive and memoized strategies return at index `n`:
/// the Fibonacci number when it fits the value type, `Overflow` otherwise.
pub open spec fn fibo_outcome(n: u8) -> Result<u128, FibError> {
    if n > FIBO_INDEX_MAX {
        Err(FibError::Overflow)
    } else {
        Ok(fibo(n as nat) as u128)
    }
}

/// What the naive strategy returns at index `n`: as the other strategies,
/// except that an index past `FIBO_NAIVE_INDEX_MAX` (but within
/// `FIBO_INDEX_MAX`) is refused as too slow. The overflow guard is checked
/// first, so past `FIBO_INDEX_MAX` the answer is `Overflow`, never `TooSlow`.
pub open spec fn naive_outcome(n: u8) -> Result<u128, FibError> {
    if n > FIBO_INDEX_MAX {
        Err(FibError::Overflow)
    } else if n > FIBO_NAIVE_INDEX_MAX {
        Err(FibError::TooSlow)
    } else {
        Ok(fibo(n as nat) as u128)
    }
}

} // verus!
