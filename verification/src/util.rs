//! The benchmarking protocol: evict the cache, read the injected time source,
//! run the task, read the time source again, and hand the output through a
//! sink that the optimizer cannot see through.
use core::time::Duration;
use vstd::prelude::*;

verus! {

/// Capacity, in bytes, that the scratch buffer of the cache eviction step
/// covers: the size of a large last-level cache.
pub const LLC_CACHE_SIZE: usize = 33554432;

/// The duration of `nanos` nanoseconds.
pub uninterp spec fn nanos_duration(nanos: u64) -> Duration;

/// `Duration::from_nanos` of std: the result is the duration of that many
/// nanoseconds, a function of the argument alone.
pub assume_specification[ Duration::from_nanos ](nanos: u64) -> (d: Duration)
    ensures
        d == nanos_duration(nanos),
;

/// `core::hint::black_box` of std: an identity function, whatever the
/// optimizer makes of it.
pub assume_specification<T>[ core::hint::black_box::<T> ](dummy: T) -> (r: T)
    ensures
        r == dummy,
;

/// The second reading of the time source was below the first.
#[derive(Clone, Copy, Debug, PartialEq, Eq)]
pub struct TimerError {
    pub begin: u64,
    pub end: u64,
}

/// The time between two readings of a counter of nanoseconds, or the error
/// that says the counter went backwards.
pub open spec fn elapsed_between(begin: u64, end: u64) -> Result<Duration, TimerError> {
    if begin <= end {
        Ok(nanos_duration((end - begin) as u64))
    } else {
        Err(TimerError { begin, end })
    }
}

/// `r` is what two readings of `clock`, taken in this order, amount to.
pub open spec fn measured_by<C: Fn() -> u64>(clock: &C, r: Result<Duration, TimerError>) -> bool {
    exists|begin: u64, end: u64|
        #![trigger clock.ensures((), begin), clock.ensures((), end)]
        clock.ensures((), begin) && clock.ensures((), end) && r == elapsed_between(begin, end)
}

/// A duration is reported exactly when the second reading is not below the
/// first, and it is then the duration of their difference; otherwise the
/// error carries both readings.
pub proof fn elapsed_is_the_difference(begin: u64, end: u64)
    ensures
        elapsed_between(begin, end) is Ok <==> begin <= end,
        begin <= end ==> elapsed_between(begin, end) == Ok::<Duration, TimerError>(
            nanos_duration((end - begin) as u64),
        ),
        begin > end ==> elapsed_between(begin, end) == Err::<Duration, TimerError>(
            TimerError { begin, end },
        ),
{
}

/// The wrapping sum of the first `n` elements of `s`.
pub open spec fn wrapping_total(s: Seq<usize>, n: nat) -> usize
    decreases n,
{
    if n == 0 {
        0
    } else {
        vstd::wrapping::usize_specs::wrapping_add(wrapping_total(s, (n - 1) as nat), s[n - 1])
    }
}

/// Hands `dummy` back unchanged, through a boundary that keeps the optimizer
/// from proving the value unused.
pub fn consume<T>(dummy: T) -> (r: T)
    ensures
        r == dummy,
{
    core::hint::black_box(dummy)
}

/// Reads every element of the buffer and returns their wrapping sum.
pub fn scratch_total(buf: &Vec<usize>) -> (sum: usize)
    ensures
        sum == wrapping_total(buf@, buf@.len()),
{
    let mut sum: usize = 0;
    for i in 0..buf.len()
        invariant
            sum == wrapping_total(buf@, i as nat),
    {
        sum = sum.wrapping_add(buf[i]);
    }
    sum
}

/// A zeroed scratch buffer that covers at least `LLC_CACHE_SIZE` bytes.
pub fn scratch_buffer() -> (buf: Vec<usize>)
    ensures
        buf@.len() * vstd::layout::size_of::<usize>() >= LLC_CACHE_SIZE,
        (buf@.len() - 1) * vstd::layout::size_of::<usize>() < LLC_CACHE_SIZE,
        forall|i: int| 0 <= i < buf@.len() ==> (#[trigger] buf@[i]) == 0,
{
    let word: usize = core::mem::size_of::<usize>();
    proof {
        broadcast use vstd::layout::layout_of_primitives;

    }
    let num_elems: usize = (LLC_CACHE_SIZE - 1) / word + 1;
    let mut buf: Vec<usize> = Vec::with_capacity(num_elems);
    buf.resize(num_elems, 0);
    buf
}

/// Evicts earlier data from the last-level cache: reads a scratch buffer
/// larger than the cache from end to end and feeds the sum of its words to
/// the sink.
fn flush_llc_cache() {
    let buf = scratch_buffer();
    let sum = scratch_total(&buf);
    consume(sum);
}

/// The time between two readings of the time source, in nanoseconds; an
/// error where the second is below the first.
pub fn elapsed(begin: u64, end: u64) -> (r: Result<Duration, TimerError>)
    ensures
        r == elapsed_between(begin, end),
{
    if begin <= end {
        Ok(Duration::from_nanos(end - begin))
    } else {
        Err(TimerError { begin, end })
    }
}

/// Runs the task once on a cold cache, untimed: the duration returned is zero.
pub fn benchmark<R, F: FnOnce() -> R>(f: F) -> (r: (Duration, R))
    requires
        f.requires(()),
    ensures
        r.0 == nanos_duration(0),
        f.ensures((), r.1),
{
    flush_llc_cache();
    let output = f();
    (Duration::from_nanos(0), output)
}

/// Runs the task once on a cold cache between two readings of the time
/// source, and returns the time between the readings with the task's output.
pub fn benchmark_with_timing_function<R, F: FnOnce() -> R, C: Fn() -> u64>(
    task: F,
    time_function: &C,
) -> (r: (Result<Duration, TimerError>, R))
    requires
        task.requires(()),
        time_function.requires(()),
    ensures
        measured_by(time_function, r.0),
        task.ensures((), r.1),
{
    flush_llc_cache();
    let begin = time_function();
    let output = task();
    let end = time_function();
    (elapsed(begin, end), output)
}

} // verus!
