use core::cell::Cell;
use core::time::Duration;
use polybench_rs::util::{
    benchmark, benchmark_with_timing_function, consume, elapsed, scratch_buffer, scratch_total,
    TimerError, LLC_CACHE_SIZE,
};

#[test]
fn consume_hands_its_argument_back() {
    assert_eq!(consume(42u64), 42);
    assert_eq!(consume(String::from("kept")), "kept");
    assert_eq!(consume(vec![1, 2, 3]), vec![1, 2, 3]);
}

#[test]
fn elapsed_is_the_difference_of_the_readings() {
    assert_eq!(elapsed(100, 350), Ok(Duration::from_nanos(250)));
    assert_eq!(elapsed(7, 7), Ok(Duration::from_nanos(0)));
    assert_eq!(elapsed(0, u64::MAX), Ok(Duration::from_nanos(u64::MAX)));
    assert_ne!(elapsed(100, 350), Ok(Duration::from_nanos(350)));
}

#[test]
fn elapsed_rejects_a_counter_that_went_backwards() {
    assert_eq!(elapsed(350, 100), Err(TimerError { begin: 350, end: 100 }));
    assert_eq!(elapsed(1, 0), Err(TimerError { begin: 1, end: 0 }));
}

#[test]
fn scratch_total_sums_with_wrapping() {
    assert_eq!(scratch_total(&vec![]), 0);
    assert_eq!(scratch_total(&vec![1, 2, 3, 4]), 10);
    assert_eq!(scratch_total(&vec![usize::MAX, 2]), 1);
}

#[test]
fn scratch_buffer_covers_thirty_two_mebibytes_of_zeros() {
    assert_eq!(LLC_CACHE_SIZE, 32 * 1024 * 1024);
    let buf = scratch_buffer();
    assert_eq!(buf.len() * core::mem::size_of::<usize>(), LLC_CACHE_SIZE);
    assert!(buf.iter().all(|word| *word == 0));
    assert_eq!(scratch_total(&buf), 0);
}

#[test]
fn benchmark_runs_the_task_once_and_reports_zero() {
    let runs = Cell::new(0);
    let (duration, output) = benchmark(|| {
        runs.set(runs.get() + 1);
        17
    });
    assert_eq!(runs.get(), 1);
    assert_eq!(output, 17);
    assert_eq!(duration, Duration::from_secs(0));
}

#[test]
fn timed_run_reports_the_counter_difference() {
    let readings = Cell::new(0);
    let clock = || {
        let n = readings.get();
        readings.set(n + 1);
        if n == 0 {
            100
        } else {
            350
        }
    };
    let (elapsed, output) = benchmark_with_timing_function(|| "done", &clock);
    assert_eq!(elapsed, Ok(Duration::from_nanos(250)));
    assert_eq!(output, "done");
    assert_eq!(readings.get(), 2);
}

#[test]
fn timed_run_reads_the_clock_around_the_task() {
    let order = Cell::new(0u32);
    let begin_seen = Cell::new(0u32);
    let end_seen = Cell::new(0u32);
    let task_seen = Cell::new(0u32);
    let clock = || {
        order.set(order.get() + 1);
        if begin_seen.get() == 0 {
            begin_seen.set(order.get());
        } else {
            end_seen.set(order.get());
        }
        u64::from(order.get()) * 10
    };
    let task = || {
        order.set(order.get() + 1);
        task_seen.set(order.get());
    };
    let (elapsed, ()) = benchmark_with_timing_function(task, &clock);
    assert_eq!((begin_seen.get(), task_seen.get(), end_seen.get()), (1, 2, 3));
    assert_eq!(elapsed, Ok(Duration::from_nanos(20)));
}

#[test]
fn timed_run_surfaces_a_clock_that_went_backwards() {
    let readings = Cell::new(0);
    let clock = || {
        let n = readings.get();
        readings.set(n + 1);
        if n == 0 {
            350
        } else {
            100
        }
    };
    let (elapsed, ()) = benchmark_with_timing_function(|| (), &clock);
    assert_eq!(elapsed, Err(TimerError { begin: 350, end: 100 }));
}

#[test]
fn timed_run_with_a_constant_clock_is_zero() {
    let (elapsed, ()) = benchmark_with_timing_function(|| (), &|| 0);
    assert_eq!(elapsed, Ok(Duration::from_nanos(0)));
}
