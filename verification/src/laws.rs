//! The laws the strategies obey, stated over the outcome model that each
//! strategy's own contract pins its result to.

use vstd::prelude::*;

use crate::bounds::lemma_fibo_fits_u128;
use crate::model::fibo;
use crate::model::fibo_outcome;
use crate::model::naive_outcome;
use crate::model::FibError;
use crate::model::FIBO_INDEX_MAX;
use crate::model::FIBO_NAIVE_INDEX_MAX;

verus! {

/// Cross-strategy equivalence: at every index up to `FIBO_INDEX_MAX`, the
/// loop, tail-recursive and memoized strategies succeed with exactly the
/// Fibonacci number of the index (no truncation), and wherever the naive
/// strategy is within its own slow threshold it returns the very same value.
pub proof fn lemma_strategies_agree(n: u8)
    requires
        n <= FIBO_INDEX_MAX,
    ensures
        fibo_outcome(n) == Ok::<u128, FibError>((fibo(n as nat) as u128)),
        fibo(n as nat) as u128 == fibo(n as nat),
        n <= FIBO_NAIVE_INDEX_MAX ==> naive_outcome(n) == fibo_outcome(n),
{
    lemma_fibo_fits_u128(n as nat);
}

/// Every index past `FIBO_INDEX_MAX` fails with `Overflow`, under all four
/// strategies; for the naive strategy the overflow guard wins over the slow
/// guard, so the answer is `Overflow` there too, never `TooSlow`.
pub proof fn lemma_overflow_dominates(n: u8)
    requires
        n > FIBO_INDEX_MAX,
    ensures
        fibo_outcome(n) == Err::<u128, FibError>(FibError::Overflow),
        naive_outcome(n) == Err::<u128, FibError>(FibError::Overflow),
{
}

/// Between its slow threshold and the shared overflow threshold the naive
/// strategy fails with `TooSlow` — and only there: the two error kinds
/// partition the failing indices.
pub proof fn lemma_naive_too_slow(n: u8)
    requires
        FIBO_NAIVE_INDEX_MAX < n <= FIBO_INDEX_MAX,
    ensures
        naive_outcome(n) == Err::<u128, FibError>(FibError::TooSlow),
{
}

/// Idempotence: a strategy called twice at the same index returns the same
/// result, because each strategy's contract equates its result with a
/// function of the index alone — there is no hidden state across calls.
pub proof fn lemma_repeat_call_agrees(
    n: u8,
    naive: bool,
    first: Result<u128, FibError>,
    second: Result<u128, FibError>,
)
    requires
        first == (if naive { naive_outcome(n) } else { fibo_outcome(n) }),
        second == (if naive { naive_outcome(n) } else { fibo_outcome(n) }),
    ensures
        first == second,
{
}

/// The boundary of the shared guard: index `FIBO_INDEX_MAX` itself is never
/// refused as an overflow — the three fast strategies succeed there, and the
/// naive strategy reports `TooSlow`, not `Overflow` — while one index past it
/// every strategy fails with `Overflow`.
pub proof fn lemma_boundary()
    ensures
        fibo_outcome(FIBO_INDEX_MAX) == Ok::<u128, FibError>(
            (fibo(FIBO_INDEX_MAX as nat) as u128),
        ),
        naive_outcome(FIBO_INDEX_MAX) == Err::<u128, FibError>(FibError::TooSlow),
        fibo_outcome((FIBO_INDEX_MAX + 1) as u8) == Err::<u128, FibError>(FibError::Overflow),
        naive_outcome((FIBO_INDEX_MAX + 1) as u8) == Err::<u128, FibError>(FibError::Overflow),
{
}

} // verus!
