//! Gauss-Seidel relaxation on a square grid, in place: each interior point
//! becomes the mean of the nine points around it, of which those before it
//! in row order are already new.
use crate::ndarray::{Array2D, ArrayAlloc, Uninit};
use crate::scalar::{ratio, ratio_of, Scalar};
use crate::util::{benchmark_with_timing_function, consume, measured_by, TimerError};
use core::time::Duration;
use vstd::prelude::*;

verus! {

/// The point at row `i`, column `j` of `n` by `n` points is not on the
/// boundary.
pub open spec fn interior(n: usize, i: int, j: int) -> bool {
    1 <= i < n - 1 && 1 <= j < n - 1
}

/// The point at row `i`, column `j` after one sweep over `a`: a boundary
/// point is as it was; an interior point is the sum of the nine points around
/// it over nine, where the row above and the point to the left are taken
/// after the sweep, the others before it.
pub open spec fn swept_point<T: Scalar>(a: Seq<Seq<T>>, n: usize, i: int, j: int) -> T
    decreases i, j,
{
    if !interior(n, i, j) {
        a[i][j]
    } else {
        swept_point(a, n, i - 1, j - 1).plus(swept_point(a, n, i - 1, j)).plus(
            swept_point(a, n, i - 1, j + 1),
        ).plus(swept_point(a, n, i, j - 1)).plus(a[i][j]).plus(a[i][j + 1]).plus(
            a[i + 1][j - 1],
        ).plus(a[i + 1][j]).plus(a[i + 1][j + 1]).over(T::of_usize(9))
    }
}

/// The grid after one sweep.
pub open spec fn swept<T: Scalar>(a: Seq<Seq<T>>, n: usize) -> Seq<Seq<T>> {
    Seq::new(n as nat, |i: int| Seq::new(n as nat, |j: int| swept_point(a, n, i, j)))
}

/// The grid after `t` sweeps.
pub open spec fn after_steps<T: Scalar>(a: Seq<Seq<T>>, n: usize, t: nat) -> Seq<Seq<T>>
    decreases t,
{
    if t == 0 {
        a
    } else {
        swept(after_steps(a, n, (t - 1) as nat), n)
    }
}

/// `now` agrees with `then` on the boundary of the grid.
pub open spec fn same_boundary<T>(now: Seq<Seq<T>>, then: Seq<Seq<T>>, n: usize) -> bool {
    forall|i: int, j: int|
        0 <= i < n && 0 <= j < n && !interior(n, i, j) ==> (#[trigger] now[i][j]) == then[i][j]
}

/// The generated entry of the grid at row `i`, column `j`.
pub open spec fn grid_entry<T: Scalar>(n: usize, i: int, j: int) -> T {
    ratio_of::<T>((i * (j + 2) + 2) as usize, n)
}

/// Computes the generated entry of the grid at row `i`, column `j`.
pub fn grid_value<T: Scalar, const N: usize>(i: usize, j: usize) -> (v: T)
    requires
        i < N,
        j < N,
        N * (N + 2) <= usize::MAX,
    ensures
        v == grid_entry::<T>(N, i as int, j as int),
{
    assert(i * (j + 2) + 2 <= N * (N + 2) && j + 2 <= N * (N + 2)) by (nonlinear_arith)
        requires
            i < N,
            j < N,
    ;
    ratio(i * (j + 2) + 2, N)
}

/// Fills the grid, each point with a fixed function of its indices and the
/// shape.
pub fn init_array<T: Scalar, const N: usize, const TSTEPS: usize>(a: &mut Uninit<Array2D<T, N, N>>)
    requires
        N * (N + 2) <= usize::MAX,
    ensures
        forall|i: int, j: int|
            0 <= i < N && 0 <= j < N ==> (#[trigger] final(a)@[i][j]) == Some(
                grid_entry::<T>(N, i, j),
            ),
{
    a.fill_with(grid_value::<T, N>);
}

/// Two runs of the generator leave the same values behind: what it writes
/// depends on the indices and the shape alone, on nothing that was there
/// before and on nothing from outside.
pub proof fn init_array_is_deterministic<T: Scalar, const N: usize>(
    a_1: Uninit<Array2D<T, N, N>>,
    a_2: Uninit<Array2D<T, N, N>>,
)
    requires
        forall|i: int, j: int|
            0 <= i < N && 0 <= j < N ==> (#[trigger] a_1@[i][j]) == Some(
                grid_entry::<T>(N, i, j),
            ),
        forall|i: int, j: int|
            0 <= i < N && 0 <= j < N ==> (#[trigger] a_2@[i][j]) == Some(
                grid_entry::<T>(N, i, j),
            ),
    ensures
        a_1@ == a_2@,
{
    assert(a_1@ =~~= a_2@);
}

/// One sweep over the interior, in row order.
#[verifier::loop_isolation(false)]
pub fn sweep<T: Scalar, const N: usize>(a: &mut Array2D<T, N, N>)
    ensures
        final(a)@ == swept(old(a)@, N),
{
    let ghost a0 = a@;
    let nine = T::from_usize(9);
    let mut i: usize = 1;
    while i + 1 < N
        invariant
            i == 1 || 1 <= i < N,
            forall|p: int, q: int|
                0 <= p < N && 0 <= q < N ==> (#[trigger] a@[p][q]) == (if p < i {
                    swept_point(a0, N, p, q)
                } else {
                    a0[p][q]
                }),
        decreases N - i,
    {
        let mut j: usize = 1;
        while j + 1 < N
            invariant
                1 <= j < N,
                forall|p: int, q: int|
                    0 <= p < N && 0 <= q < N ==> (#[trigger] a@[p][q]) == (if p < i || (p == i
                        && q < j) {
                        swept_point(a0, N, p, q)
                    } else {
                        a0[p][q]
                    }),
            decreases N - j,
        {
            let sum = a.get(i - 1, j - 1).add(*a.get(i - 1, j)).add(*a.get(i - 1, j + 1)).add(
                *a.get(i, j - 1),
            ).add(*a.get(i, j)).add(*a.get(i, j + 1)).add(*a.get(i + 1, j - 1)).add(
                *a.get(i + 1, j),
            ).add(*a.get(i + 1, j + 1));
            a.set(i, j, sum.div(nine));
            j += 1;
        }
        i += 1;
    }
    assert(a@ =~~= swept(a0, N));
}

/// Takes `TSTEPS` sweeps. The boundary of the grid is never written.
pub fn kernel_seidel_2d<T: Scalar, const N: usize, const TSTEPS: usize>(a: &mut Array2D<T, N, N>)
    ensures
        final(a)@ == after_steps(old(a)@, N, TSTEPS as nat),
        same_boundary(final(a)@, old(a)@, N),
{
    for t in 0..TSTEPS
        invariant
            a@ == after_steps(old(a)@, N, t as nat),
            same_boundary(a@, old(a)@, N),
    {
        sweep(a);
    }
}

/// Generates the grid, times one run of the kernel with the given time
/// source, and returns the time between its two readings.
pub fn bench<T: Scalar, const N: usize, const TSTEPS: usize, C: Fn() -> u64>(
    timing_function: &C,
) -> (r: Result<Duration, TimerError>)
    requires
        N * (N + 2) <= usize::MAX,
        timing_function.requires(()),
    ensures
        measured_by(timing_function, r),
{
    let mut a = Array2D::<T, N, N>::maybe_uninit();
    init_array::<T, N, TSTEPS>(&mut a);
    let a = a.assume_init();
    let (elapsed, a) = benchmark_with_timing_function(
        move || -> (a: Box<Array2D<T, N, N>>)
            {
                let mut a = a;
                kernel_seidel_2d::<T, N, TSTEPS>(&mut *a);
                a
            },
        timing_function,
    );
    consume(a);
    elapsed
}

} // verus!
