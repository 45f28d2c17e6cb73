//! The four strategies. Each is verified against the same model: the loop,
//! tail-recursive and memoized strategies return exactly `fibo_outcome(n)`,
//! and the naive strategy exactly `naive_outcome(n)`.

use std::collections::HashMap;
use vstd::prelude::*;

use crate::bounds::lemma_fibo_fits_u128;
use crate::model::fibo;
use crate::model::fibo_outcome;
use crate::model::naive_outcome;
use crate::model::FibError;
use crate::model::FIBO_INDEX_MAX;
use crate::model::FIBO_NAIVE_INDEX_MAX;

verus! {

broadcast use vstd::std_specs::hash::group_hash_axioms;

/// Iterative strategy: a pair of accumulators walks the recurrence `n` steps.
pub fn get_nth_fibonacci_loop(n: u8) -> (r: Result<u128, FibError>)
    ensures
        r == fibo_outcome(n),
{
    if n > FIBO_INDEX_MAX {
        return Err(FibError::Overflow);
    }
    let mut a: u128 = 0;
    let mut b: u128 = 1;
    let mut i: u8 = 0;
    while i < n
        invariant
            i <= n <= FIBO_INDEX_MAX,
            a == fibo(i as nat),
            b == fibo((i + 1) as nat),
        decreases n - i,
    {
        proof {
            lemma_fibo_fits_u128((i + 2) as nat);
            assert(fibo((i + 2) as nat) == fibo(i as nat) + fibo((i + 1) as nat));
        }
        let next: u128 = a + b;
        a = b;
        b = next;
        i = i + 1;
    }
    Ok(a)
}

/// Carries the recurrence down to zero: `a` and `b` hold the Fibonacci
/// numbers at the (ghost) index already reached, and `n` steps remain.
fn tail_call_helper(n: u8, a: u128, b: u128, Ghost(reached): Ghost<nat>) -> (r: u128)
    requires
        a == fibo(reached),
        b == fibo(reached + 1),
        reached + n <= FIBO_INDEX_MAX,
    ensures
        r == fibo((reached + n) as nat),
    decreases n,
{
    if n == 0 {
        a
    } else {
        proof {
            lemma_fibo_fits_u128(reached + 2);
            assert(fibo(reached + 2) == fibo(reached) + fibo(reached + 1));
        }
        tail_call_helper(n - 1, b, a + b, Ghost(reached + 1))
    }
}

/// Tail-recursive strategy: the same recurrence as the loop, expressed as a
/// helper that carries its whole state in its arguments.
pub fn get_nth_fibonacci_tail_call(n: u8) -> (r: Result<u128, FibError>)
    ensures
        r == fibo_outcome(n),
{
    if n > FIBO_INDEX_MAX {
        return Err(FibError::Overflow);
    }
    let v = tail_call_helper(n, 0, 1, Ghost(0nat));
    Ok(v)
}

/// Every entry of the memoization cache is a true point of the sequence.
spec fn cache_valid(cache: Map<u8, u128>) -> bool {
    forall|k: u8| #[trigger] cache.contains_key(k) ==> cache[k] == fibo(k as nat)
}

/// Memoized recursion: consults the per-call cache before recursing, and
/// records each freshly computed sub-result at once. The `n - 1` branch runs
/// first, so its whole subtree is cached before the `n - 2` branch asks.
fn dynamic_helper(fibonacci_cache: &mut HashMap<u8, u128>, n: u8) -> (r: u128)
    requires
        cache_valid(old(fibonacci_cache)@),
        n <= FIBO_INDEX_MAX,
    ensures
        r == fibo(n as nat),
        cache_valid(final(fibonacci_cache)@),
    decreases n,
{
    if n == 0 {
        0
    } else if n == 1 {
        1
    } else {
        let fibo_n_minus_1: u128 = match fibonacci_cache.get(&(n - 1)) {
            Some(val) => *val,
            None => {
                let val = dynamic_helper(fibonacci_cache, n - 1);
                fibonacci_cache.insert(n - 1, val);
                val
            },
        };
        let fibo_n_minus_2: u128 = match fibonacci_cache.get(&(n - 2)) {
            Some(val) => *val,
            None => {
                let val = dynamic_helper(fibonacci_cache, n - 2);
                fibonacci_cache.insert(n - 2, val);
                val
            },
        };
        proof {
            lemma_fibo_fits_u128(n as nat);
            assert(fibo(n as nat) == fibo((n - 2) as nat) + fibo((n - 1) as nat));
        }
        fibo_n_minus_1 + fibo_n_minus_2
    }
}

/// Memoized (dynamic-programming) strategy: a cache local to this one call
/// maps each index already visited to its Fibonacci number, and is dropped
/// when the call returns.
pub fn get_nth_fibonacci_dynamic(n: u8) -> (r: Result<u128, FibError>)
    ensures
        r == fibo_outcome(n),
{
    let mut fibonacci_cache: HashMap<u8, u128> = HashMap::new();
    if n > FIBO_INDEX_MAX {
        return Err(FibError::Overflow);
    }
    let v = dynamic_helper(&mut fibonacci_cache, n);
    Ok(v)
}

/// Direct double recursion, with no cache; exponential time, so the public
/// entry point only lets indices up to `FIBO_NAIVE_INDEX_MAX` through.
fn naive_helper(n: u8) -> (r: u128)
    requires
        n <= FIBO_NAIVE_INDEX_MAX,
    ensures
        r == fibo(n as nat),
    decreases n,
{
    if n == 0 {
        0
    } else if n == 1 {
        1
    } else {
        let fibo_n_minus_1 = naive_helper(n - 1);
        let fibo_n_minus_2 = naive_helper(n - 2);
        proof {
            lemma_fibo_fits_u128(n as nat);
            assert(fibo(n as nat) == fibo((n - 2) as nat) + fibo((n - 1) as nat));
        }
        fibo_n_minus_1 + fibo_n_minus_2
    }
}

/// Naive recursive strategy: checks the shared overflow guard first, then
/// refuses anything past its own slow threshold, and only then recurses.
pub fn get_nth_fibonacci_naive(n: u8) -> (r: Result<u128, FibError>)
    ensures
        r == naive_outcome(n),
{
    if n > FIBO_INDEX_MAX {
        return Err(FibError::Overflow);
    }
    if n > FIBO_NAIVE_INDEX_MAX {
        return Err(FibError::TooSlow);
    }
    Ok(naive_helper(n))
}

} // verus!
