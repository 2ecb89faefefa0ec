//! Jacobi relaxation on a square grid: each interior point becomes the scaled
//! sum of itself and its four neighbours, with two grids taking turns.
use crate::ndarray::{Array2D, ArrayAlloc, Uninit};
use crate::scalar::{ratio, ratio_of, Scalar};
use crate::util::{benchmark_with_timing_function, consume, measured_by, TimerError};
use core::time::Duration;
use vstd::prelude::*;

verus! {

/// The weight of the five-point sum.
pub open spec fn weight<T: Scalar>() -> T {
    ratio_of::<T>(1, 5)
}

/// The point at row `i`, column `j` of `n` by `n` points is not on the
/// boundary.
pub open spec fn interior(n: usize, i: int, j: int) -> bool {
    1 <= i < n - 1 && 1 <= j < n - 1
}

/// The weighted sum of the five points of `src` around `(i, j)`.
pub open spec fn five_point<T: Scalar>(src: Seq<Seq<T>>, i: int, j: int) -> T {
    weight::<T>().times(
        src[i][j].plus(src[i][j - 1]).plus(src[i][j + 1]).plus(src[i + 1][j]).plus(src[i - 1][j]),
    )
}

/// The grid after one relaxation from `src`: every interior point is the
/// five-point sum of `src`; the boundary is that of `keep`.
pub open spec fn relaxed<T: Scalar>(src: Seq<Seq<T>>, keep: Seq<Seq<T>>, n: usize) -> Seq<Seq<T>> {
    Seq::new(
        n as nat,
        |i: int|
            Seq::new(
                n as nat,
                |j: int|
                    if interior(n, i, j) {
                        five_point(src, i, j)
                    } else {
                        keep[i][j]
                    },
            ),
    )
}

/// The two grids `(a, b)` after `t` time steps: in each step `b` is relaxed
/// from `a`, then `a` from `b`.
pub open spec fn after_steps<T: Scalar>(a: Seq<Seq<T>>, b: Seq<Seq<T>>, n: usize, t: nat) -> (
    Seq<Seq<T>>,
    Seq<Seq<T>>,
)
    decreases t,
{
    if t == 0 {
        (a, b)
    } else {
        let before = after_steps(a, b, n, (t - 1) as nat);
        let next_b = relaxed(before.0, before.1, n);
        let next_a = relaxed(next_b, before.0, n);
        (next_a, next_b)
    }
}

/// `now` agrees with `then` on the boundary of the grid.
pub open spec fn same_boundary<T>(now: Seq<Seq<T>>, then: Seq<Seq<T>>, n: usize) -> bool {
    forall|i: int, j: int|
        0 <= i < n && 0 <= j < n && !interior(n, i, j) ==> (#[trigger] now[i][j]) == then[i][j]
}

/// The generated entry at row `i`, column `j` of the grid with offset
/// `shift`.
pub open spec fn grid_entry<T: Scalar>(n: usize, shift: int, i: int, j: int) -> T {
    ratio_of::<T>((i * (j + shift) + shift) as usize, n)
}

/// Computes the generated entry of `a` at row `i`, column `j`.
pub fn a_value<T: Scalar, const N: usize>(i: usize, j: usize) -> (v: T)
    requires
        i < N,
        j < N,
        N * (N + 3) <= usize::MAX,
    ensures
        v == grid_entry::<T>(N, 2, i as int, j as int),
{
    assert(i * (j + 2) + 2 <= N * (N + 3) && j + 2 <= N * (N + 3)) by (nonlinear_arith)
        requires
            i < N,
            j < N,
    ;
    ratio(i * (j + 2) + 2, N)
}

/// Computes the generated entry of `b` at row `i`, column `j`.
pub fn b_value<T: Scalar, const N: usize>(i: usize, j: usize) -> (v: T)
    requires
        i < N,
        j < N,
        N * (N + 3) <= usize::MAX,
    ensures
        v == grid_entry::<T>(N, 3, i as int, j as int),
{
    assert(i * (j + 3) + 3 <= N * (N + 3) && j + 3 <= N * (N + 3)) by (nonlinear_arith)
        requires
            i < N,
            j < N,
    ;
    ratio(i * (j + 3) + 3, N)
}

/// Fills the two grids, each point with a fixed function of its indices and
/// the shape.
pub fn init_array<T: Scalar, const N: usize, const TSTEPS: usize>(
    a: &mut Uninit<Array2D<T, N, N>>,
    b: &mut Uninit<Array2D<T, N, N>>,
)
    requires
        N * (N + 3) <= usize::MAX,
    ensures
        forall|i: int, j: int|
            0 <= i < N && 0 <= j < N ==> (#[trigger] final(a)@[i][j]) == Some(
                grid_entry::<T>(N, 2, i, j),
            ),
        forall|i: int, j: int|
            0 <= i < N && 0 <= j < N ==> (#[trigger] final(b)@[i][j]) == Some(
                grid_entry::<T>(N, 3, i, j),
            ),
{
    a.fill_with(a_value::<T, N>);
    b.fill_with(b_value::<T, N>);
}

/// Two runs of the generator leave the same values behind: what it writes
/// depends on the indices and the shape alone, on nothing that was there
/// before and on nothing from outside.
pub proof fn init_array_is_deterministic<T: Scalar, const N: usize>(
    a_1: Uninit<Array2D<T, N, N>>,
    b_1: Uninit<Array2D<T, N, N>>,
    a_2: Uninit<Array2D<T, N, N>>,
    b_2: Uninit<Array2D<T, N, N>>,
)
    requires
        forall|i: int, j: int|
            0 <= i < N && 0 <= j < N ==> (#[trigger] a_1@[i][j]) == Some(
                grid_entry::<T>(N, 2, i, j),
            ),
        forall|i: int, j: int|
            0 <= i < N && 0 <= j < N ==> (#[trigger] b_1@[i][j]) == Some(
                grid_entry::<T>(N, 3, i, j),
            ),
        forall|i: int, j: int|
            0 <= i < N && 0 <= j < N ==> (#[trigger] a_2@[i][j]) == Some(
                grid_entry::<T>(N, 2, i, j),
            ),
        forall|i: int, j: int|
            0 <= i < N && 0 <= j < N ==> (#[trigger] b_2@[i][j]) == Some(
                grid_entry::<T>(N, 3, i, j),
            ),
    ensures
        a_1@ == a_2@,
        b_1@ == b_2@,
{
    assert(a_1@ =~~= a_2@);
    assert(b_1@ =~~= b_2@);
}

/// Relaxes the interior of `dst` from `src`.
#[verifier::loop_isolation(false)]
pub fn relax<T: Scalar, const N: usize>(dst: &mut Array2D<T, N, N>, src: &Array2D<T, N, N>)
    ensures
        final(dst)@ == relaxed(src@, old(dst)@, N),
{
    let w = ratio::<T>(1, 5);
    let mut i: usize = 1;
    while i + 1 < N
        invariant
            i == 1 || 1 <= i < N,
            forall|p: int, q: int|
                0 <= p < N && 0 <= q < N ==> (#[trigger] dst@[p][q]) == (if interior(N, p, q) && p
                    < i {
                    five_point(src@, p, q)
                } else {
                    old(dst)@[p][q]
                }),
        decreases N - i,
    {
        let mut j: usize = 1;
        while j + 1 < N
            invariant
                1 <= j < N,
                forall|p: int, q: int|
                    0 <= p < N && 0 <= q < N ==> (#[trigger] dst@[p][q]) == (if interior(N, p, q)
                        && (p < i || (p == i && q < j)) {
                        five_point(src@, p, q)
                    } else {
                        old(dst)@[p][q]
                    }),
            decreases N - j,
        {
            let sum = src.get(i, j).add(*src.get(i, j - 1)).add(*src.get(i, 1 + j)).add(
                *src.get(1 + i, j),
            ).add(*src.get(i - 1, j));
            dst.set(i, j, w.mul(sum));
            j += 1;
        }
        i += 1;
    }
    assert(dst@ =~~= relaxed(src@, old(dst)@, N));
}

/// Takes `TSTEPS` time steps. The boundary of either grid is never written.
pub fn kernel_jacobi_2d<T: Scalar, const N: usize, const TSTEPS: usize>(
    a: &mut Array2D<T, N, N>,
    b: &mut Array2D<T, N, N>,
)
    ensures
        (final(a)@, final(b)@) == after_steps(old(a)@, old(b)@, N, TSTEPS as nat),
        same_boundary(final(a)@, old(a)@, N),
        same_boundary(final(b)@, old(b)@, N),
{
    for t in 0..TSTEPS
        invariant
            (a@, b@) == after_steps(old(a)@, old(b)@, N, t as nat),
            same_boundary(a@, old(a)@, N),
            same_boundary(b@, old(b)@, N),
    {
        relax(b, a);
        relax(a, b);
    }
}

/// Generates the grids, times one run of the kernel with the given time
/// source, and returns the time between its two readings.
pub fn bench<T: Scalar, const N: usize, const TSTEPS: usize, C: Fn() -> u64>(
    timing_function: &C,
) -> (r: Result<Duration, TimerError>)
    requires
        N * (N + 3) <= usize::MAX,
        timing_function.requires(()),
    ensures
        measured_by(timing_function, r),
{
    let mut a = Array2D::<T, N, N>::maybe_uninit();
    let mut b = Array2D::<T, N, N>::maybe_uninit();
    init_array::<T, N, TSTEPS>(&mut a, &mut b);
    let a = a.assume_init();
    let b = b.assume_init();
    let (elapsed, a) = benchmark_with_timing_function(
        move || -> (a: Box<Array2D<T, N, N>>)
            {
                let mut a = a;
                let mut b = b;
                kernel_jacobi_2d::<T, N, TSTEPS>(&mut *a, &mut *b);
                a
            },
        timing_function,
    );
    consume(a);
    elapsed
}

} // verus!
