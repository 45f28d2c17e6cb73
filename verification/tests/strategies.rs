use fibonacci::get_nth_fibonacci_dynamic;
use fibonacci::get_nth_fibonacci_loop;
use fibonacci::get_nth_fibonacci_naive;
use fibonacci::get_nth_fibonacci_tail_call;
use fibonacci::FibError;

const FIB_50: u128 = 12586269025;
const FIB_185: u128 = 205697230343233228174223751303346572685;

#[test]
fn known_values_loop() {
    assert_eq!(get_nth_fibonacci_loop(0), Ok(0));
    assert_eq!(get_nth_fibonacci_loop(1), Ok(1));
    assert_eq!(get_nth_fibonacci_loop(2), Ok(1));
    assert_eq!(get_nth_fibonacci_loop(10), Ok(55));
    assert_eq!(get_nth_fibonacci_loop(50), Ok(FIB_50));
}

#[test]
fn known_values_tail_call() {
    assert_eq!(get_nth_fibonacci_tail_call(0), Ok(0));
    assert_eq!(get_nth_fibonacci_tail_call(1), Ok(1));
    assert_eq!(get_nth_fibonacci_tail_call(2), Ok(1));
    assert_eq!(get_nth_fibonacci_tail_call(10), Ok(55));
    assert_eq!(get_nth_fibonacci_tail_call(50), Ok(FIB_50));
}

#[test]
fn known_values_dynamic() {
    assert_eq!(get_nth_fibonacci_dynamic(0), Ok(0));
    assert_eq!(get_nth_fibonacci_dynamic(1), Ok(1));
    assert_eq!(get_nth_fibonacci_dynamic(2), Ok(1));
    assert_eq!(get_nth_fibonacci_dynamic(10), Ok(55));
    assert_eq!(get_nth_fibonacci_dynamic(50), Ok(FIB_50));
}

#[test]
fn known_values_naive() {
    assert_eq!(get_nth_fibonacci_naive(0), Ok(0));
    assert_eq!(get_nth_fibonacci_naive(1), Ok(1));
    assert_eq!(get_nth_fibonacci_naive(2), Ok(1));
    assert_eq!(get_nth_fibonacci_naive(10), Ok(55));
}

#[test]
fn fast_strategies_agree_everywhere_in_range() {
    for n in 0..=185u8 {
        let from_loop = get_nth_fibonacci_loop(n);
        assert!(from_loop.is_ok());
        assert_eq!(get_nth_fibonacci_tail_call(n), from_loop);
        assert_eq!(get_nth_fibonacci_dynamic(n), from_loop);
    }
}

#[test]
fn naive_agrees_within_its_threshold() {
    // Kept to small indices: the naive strategy's exponential running time
    // is real, and is exactly why it refuses larger ones.
    for n in 0..=30u8 {
        assert_eq!(get_nth_fibonacci_naive(n), get_nth_fibonacci_loop(n));
    }
}

#[test]
fn overflow_past_the_shared_threshold() {
    for n in 186..200u8 {
        assert_eq!(get_nth_fibonacci_loop(n), Err(FibError::Overflow));
        assert_eq!(get_nth_fibonacci_tail_call(n), Err(FibError::Overflow));
        assert_eq!(get_nth_fibonacci_dynamic(n), Err(FibError::Overflow));
        assert_eq!(get_nth_fibonacci_naive(n), Err(FibError::Overflow));
    }
}

#[test]
fn naive_too_slow_between_the_thresholds() {
    for n in 41..=185u8 {
        assert_eq!(get_nth_fibonacci_naive(n), Err(FibError::TooSlow));
    }
}

#[test]
fn boundary_at_the_overflow_threshold() {
    assert_eq!(get_nth_fibonacci_loop(185), Ok(FIB_185));
    assert_eq!(get_nth_fibonacci_tail_call(185), Ok(FIB_185));
    assert_eq!(get_nth_fibonacci_dynamic(185), Ok(FIB_185));
    assert_eq!(get_nth_fibonacci_naive(185), Err(FibError::TooSlow));

    assert_eq!(get_nth_fibonacci_loop(186), Err(FibError::Overflow));
    assert_eq!(get_nth_fibonacci_tail_call(186), Err(FibError::Overflow));
    assert_eq!(get_nth_fibonacci_dynamic(186), Err(FibError::Overflow));
    assert_eq!(get_nth_fibonacci_naive(186), Err(FibError::Overflow));
}

#[test]
fn boundary_at_the_slow_threshold() {
    assert_eq!(get_nth_fibonacci_naive(40), Ok(102334155));
    assert_eq!(get_nth_fibonacci_naive(41), Err(FibError::TooSlow));
}

#[test]
fn repeated_calls_agree() {
    for n in [0u8, 1, 30, 120, 185, 186, 199] {
        assert_eq!(get_nth_fibonacci_loop(n), get_nth_fibonacci_loop(n));
        assert_eq!(get_nth_fibonacci_tail_call(n), get_nth_fibonacci_tail_call(n));
        assert_eq!(get_nth_fibonacci_dynamic(n), get_nth_fibonacci_dynamic(n));
    }
    for n in [0u8, 1, 30, 100, 185, 186, 199] {
        assert_eq!(get_nth_fibonacci_naive(n), get_nth_fibonacci_naive(n));
    }
}
