//! The benchmark runner: calls a zero-argument operation a fixed number of
//! times, keeping every result in call order so that the measured work stays
//! observable, and reports the wall-clock time spent in the calls. Timing
//! starts immediately before the first call and stops immediately after the
//! last; the result buffer is reserved beforehand.

use vstd::prelude::*;

verus! {

#[verifier::external_type_specification]
#[verifier::external_body]
pub struct ExInstant(std::time::Instant);

/// Relies on std::time::Instant::now: reads a moment from the monotonic
/// clock. Nothing can be promised of its value.
#[verifier::external_body]
fn clock_now() -> std::time::Instant {
    std::time::Instant::now()
}

/// Relies on std::time::Instant::elapsed: the wall-clock time since `start`.
/// Nothing can be promised of its value.
#[verifier::external_body]
fn clock_elapsed(start: &std::time::Instant) -> std::time::Duration {
    start.elapsed()
}

/// Calls `func` exactly `times` times and returns the elapsed wall-clock
/// time together with every result, in call order. `times == 0` is legal:
/// the operation is never called and the result sequence is empty. A result
/// sequence entry is whatever the corresponding call returned, so the
/// returned buffer always has exactly `times` entries even when the
/// operation's results vary from call to call.
pub fn benchmark<T, F: Fn() -> T>(func: F, times: usize) -> (r: (std::time::Duration, Vec<T>))
    requires
        times > 0 ==> call_requires(func, ()),
    ensures
        r.1.len() == times,
        forall|i: int| 0 <= i < times ==> call_ensures(func, (), #[trigger] r.1[i]),
{
    let mut buf: Vec<T> = Vec::with_capacity(times);
    let start = clock_now();
    let mut k: usize = 0;
    while k < times
        invariant
            times > 0 ==> call_requires(func, ()),
            k <= times,
            buf.len() == k,
            forall|i: int| 0 <= i < k ==> call_ensures(func, (), #[trigger] buf[i]),
        decreases times - k,
    {
        let v = func();
        buf.push(v);
        k += 1;
    }
    let elapsed = clock_elapsed(&start);
    (elapsed, buf)
}

} // verus!
