use std::cell::Cell;

use wasm_harness::bench::benchmark;
use wasm_harness::native::{gcd, is_prime};

#[test]
fn gcd_concrete_values() {
    assert_eq!(gcd(42, 56), 14);
    assert_eq!(gcd(56, 42), 14);
    assert_eq!(gcd(0, 0), 0);
    assert_eq!(gcd(0, 5), 5);
    assert_eq!(gcd(5, 0), 5);
    assert_eq!(gcd(1, 1), 1);
    assert_eq!(gcd(12, 18), 6);
    assert_eq!(gcd(100_000, 250), 250);
    assert_eq!(gcd(7, 13), 1);
}

#[test]
fn gcd_identity_and_large_values() {
    assert_eq!(gcd(0, 2147483647), 2147483647);
    assert_eq!(gcd(2147483647, 0), 2147483647);
    assert_eq!(gcd(2147483647, 2), 1);
    assert_eq!(gcd(1071, 462), 21);
}

#[test]
fn is_prime_small_targets() {
    // Targets below 4 have no divisor whose square fits under them, so the
    // trial division reports them all as prime.
    assert_eq!(is_prime(0), Some(true));
    assert_eq!(is_prime(1), Some(true));
    assert_eq!(is_prime(2), Some(true));
    assert_eq!(is_prime(3), Some(true));
    assert_eq!(is_prime(4), Some(false));
    assert_eq!(is_prime(5), Some(true));
    assert_eq!(is_prime(6), Some(false));
}

#[test]
fn is_prime_larger_targets() {
    assert_eq!(is_prime(101), Some(true));
    assert_eq!(is_prime(102), Some(false));
    assert_eq!(is_prime(7919), Some(true));
    assert_eq!(is_prime(7919 * 7919), Some(false));
    assert_eq!(is_prime(u64::MAX), Some(false));
}

#[test]
fn benchmark_zero_times_never_calls() {
    let calls: Cell<u64> = Cell::new(0);
    let op = || {
        calls.set(calls.get() + 1);
        7u64
    };
    let (_elapsed, results) = benchmark(op, 0);
    assert_eq!(results.len(), 0);
    assert_eq!(calls.get(), 0);
}

#[test]
fn benchmark_keeps_every_result_in_call_order() {
    let counter: Cell<usize> = Cell::new(0);
    let op = || {
        let v = counter.get();
        counter.set(v + 1);
        v
    };
    let (_elapsed, results) = benchmark(op, 5);
    assert_eq!(results, vec![0, 1, 2, 3, 4]);
    assert_eq!(counter.get(), 5);
}

#[test]
fn benchmark_length_equals_times() {
    let (_elapsed, results) = benchmark(|| gcd(42, 56), 100);
    assert_eq!(results.len(), 100);
    assert!(results.iter().all(|&r| r == 14));
}
