//! Jacobi relaxation on a line: each interior point becomes the scaled sum of
//! itself and its two neighbours, with two arrays taking turns.
use crate::ndarray::{Array1D, ArrayAlloc, Uninit};
use crate::scalar::{ratio, ratio_of, Scalar};
use crate::util::{benchmark_with_timing_function, consume, measured_by, TimerError};
use core::time::Duration;
use vstd::prelude::*;

verus! {

/// The weight of the three-point sum.
pub open spec fn weight<T: Scalar>() -> T {
    ratio_of::<T>(33333, 100000)
}

/// The line after one relaxation from `src`: every interior point is the
/// weighted sum of the three points of `src` around it; the two end points
/// are those of `keep`.
pub open spec fn relaxed<T: Scalar>(src: Seq<T>, keep: Seq<T>, n: usize) -> Seq<T> {
    Seq::new(
        n as nat,
        |i: int|
            if 1 <= i < n - 1 {
                weight::<T>().times(src[i - 1].plus(src[i]).plus(src[i + 1]))
            } else {
                keep[i]
            },
    )
}

/// The two lines `(a, b)` after `t` time steps: in each step `b` is relaxed
/// from `a`, then `a` from `b`.
pub open spec fn after_steps<T: Scalar>(a: Seq<T>, b: Seq<T>, n: usize, t: nat) -> (Seq<T>, Seq<T>)
    decreases t,
{
    if t == 0 {
        (a, b)
    } else {
        let before = after_steps(a, b, n, (t - 1) as nat);
        let next_b = relaxed(before.0, before.1, n);
        let next_a = relaxed(next_b, before.0, n);
        (next_a, next_b)
    }
}

/// The generated entry at `i` of the line with offset `shift`.
pub open spec fn line_entry<T: Scalar>(n: usize, shift: int, i: int) -> T {
    ratio_of::<T>((i + shift) as usize, n)
}

/// Computes the generated entry of `a` at `i`.
pub fn a_value<T: Scalar, const N: usize>(i: usize) -> (v: T)
    requires
        i < N,
        N + 3 <= usize::MAX,
    ensures
        v == line_entry::<T>(N, 2, i as int),
{
    ratio(i + 2, N)
}

/// Computes the generated entry of `b` at `i`.
pub fn b_value<T: Scalar, const N: usize>(i: usize) -> (v: T)
    requires
        i < N,
        N + 3 <= usize::MAX,
    ensures
        v == line_entry::<T>(N, 3, i as int),
{
    ratio(i + 3, N)
}

/// Fills the two lines, each point with a fixed function of its index and
/// the shape.
pub fn init_array<T: Scalar, const N: usize, const TSTEPS: usize>(
    a: &mut Uninit<Array1D<T, N>>,
    b: &mut Uninit<Array1D<T, N>>,
)
    requires
        N + 3 <= usize::MAX,
    ensures
        forall|i: int| 0 <= i < N ==> (#[trigger] final(a)@[i]) == Some(line_entry::<T>(N, 2, i)),
        forall|i: int| 0 <= i < N ==> (#[trigger] final(b)@[i]) == Some(line_entry::<T>(N, 3, i)),
{
    a.fill_with(a_value::<T, N>);
    b.fill_with(b_value::<T, N>);
}

/// Two runs of the generator leave the same values behind: what it writes
/// depends on the indices and the shape alone, on nothing that was there
/// before and on nothing from outside.
pub proof fn init_array_is_deterministic<T: Scalar, const N: usize>(
    a_1: Uninit<Array1D<T, N>>,
    b_1: Uninit<Array1D<T, N>>,
    a_2: Uninit<Array1D<T, N>>,
    b_2: Uninit<Array1D<T, N>>,
)
    requires
        forall|i: int| 0 <= i < N ==> (#[trigger] a_1@[i]) == Some(line_entry::<T>(N, 2, i)),
        forall|i: int| 0 <= i < N ==> (#[trigger] b_1@[i]) == Some(line_entry::<T>(N, 3, i)),
        forall|i: int| 0 <= i < N ==> (#[trigger] a_2@[i]) == Some(line_entry::<T>(N, 2, i)),
        forall|i: int| 0 <= i < N ==> (#[trigger] b_2@[i]) == Some(line_entry::<T>(N, 3, i)),
    ensures
        a_1@ == a_2@,
        b_1@ == b_2@,
{
    assert(a_1@ =~~= a_2@);
    assert(b_1@ =~~= b_2@);
}

/// Relaxes the interior of `dst` from `src`.
pub fn relax<T: Scalar, const N: usize>(dst: &mut Array1D<T, N>, src: &Array1D<T, N>)
    ensures
        final(dst)@ == relaxed(src@, old(dst)@, N),
{
    let w = ratio::<T>(33333, 100000);
    let mut i: usize = 1;
    while i + 1 < N
        invariant
            i == 1 || 1 <= i < N,
            w == weight::<T>(),
            forall|p: int|
                0 <= p < N ==> (#[trigger] dst@[p]) == (if 1 <= p < i {
                    w.times(src@[p - 1].plus(src@[p]).plus(src@[p + 1]))
                } else {
                    old(dst)@[p]
                }),
        decreases N - i,
    {
        dst.set(i, w.mul(src.get(i - 1).add(*src.get(i)).add(*src.get(i + 1))));
        i += 1;
    }
}

/// Takes `TSTEPS` time steps. The two end points of either line are never
/// written.
pub fn kernel_jacobi_1d<T: Scalar, const N: usize, const TSTEPS: usize>(
    a: &mut Array1D<T, N>,
    b: &mut Array1D<T, N>,
)
    ensures
        (final(a)@, final(b)@) == after_steps(old(a)@, old(b)@, N, TSTEPS as nat),
        N > 0 ==> final(a)@[0] == old(a)@[0] && final(a)@[N - 1] == old(a)@[N - 1],
        N > 0 ==> final(b)@[0] == old(b)@[0] && final(b)@[N - 1] == old(b)@[N - 1],
{
    for t in 0..TSTEPS
        invariant
            (a@, b@) == after_steps(old(a)@, old(b)@, N, t as nat),
            N > 0 ==> a@[0] == old(a)@[0] && a@[N - 1] == old(a)@[N - 1],
            N > 0 ==> b@[0] == old(b)@[0] && b@[N - 1] == old(b)@[N - 1],
    {
        relax(b, a);
        relax(a, b);
    }
}

/// Generates the lines, times one run of the kernel with the given time
/// source, and returns the time between its two readings.
pub fn bench<T: Scalar, const N: usize, const TSTEPS: usize, C: Fn() -> u64>(
    timing_function: &C,
) -> (r: Result<Duration, TimerError>)
    requires
        N + 3 <= usize::MAX,
        timing_function.requires(()),
    ensures
        measured_by(timing_function, r),
{
    let mut a = Array1D::<T, N>::maybe_uninit();
    let mut b = Array1D::<T, N>::maybe_uninit();
    init_array::<T, N, TSTEPS>(&mut a, &mut b);
    let a = a.assume_init();
    let b = b.assume_init();
    let (elapsed, a) = benchmark_with_timing_function(
        move || -> (a: Box<Array1D<T, N>>)
            {
                let mut a = a;
                let mut b = b;
                kernel_jacobi_1d::<T, N, TSTEPS>(&mut *a, &mut *b);
                a
            },
        timing_function,
    );
    consume(a);
    elapsed
}

} // verus!
