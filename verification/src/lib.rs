//! Fibonacci numbers by four strategies — an iterative loop, tail recursion,
//! memoized recursion and naive double recursion — each verified to return
//! the same value of the one mathematical sequence, and to refuse exactly the
//! indices whose result would not fit the `u128` value type (plus, for the
//! naive strategy alone, the indices it would take exponential time to
//! reach).

use vstd::prelude::*;

mod bounds;
mod laws;
mod model;
mod strategies;

verus! {

pub use crate::bounds::lemma_fibo_fits_u128;
pub use crate::bounds::lemma_fibo_is_monotonic;
pub use crate::laws::lemma_boundary;
pub use crate::laws::lemma_naive_too_slow;
pub use crate::laws::lemma_overflow_dominates;
pub use crate::laws::lemma_repeat_call_agrees;
pub use crate::laws::lemma_strategies_agree;
pub use crate::model::fibo;
pub use crate::model::fibo_outcome;
pub use crate::model::naive_outcome;
pub use crate::model::FibError;
pub use crate::model::FIBO_INDEX_MAX;
pub use crate::model::FIBO_NAIVE_INDEX_MAX;
pub use crate::strategies::get_nth_fibonacci_dynamic;
pub use crate::strategies::get_nth_fibonacci_loop;
pub use crate::strategies::get_nth_fibonacci_naive;
pub use crate::strategies::get_nth_fibonacci_tail_call;

} // verus!
