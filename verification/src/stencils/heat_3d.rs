//! The heat equation on a cube: each interior point moves by a weighted
//! second difference along each of the three axes, with two grids taking
//! turns.
use crate::ndarray::{Array3D, ArrayAlloc, Uninit};
use crate::scalar::{ratio, ratio_of, Scalar};
use crate::util::{benchmark_with_timing_function, consume, measured_by, TimerError};
use core::time::Duration;
use vstd::prelude::*;

verus! {

/// The weight of each second difference.
pub open spec fn weight<T: Scalar>() -> T {
    ratio_of::<T>(1, 8)
}

/// The point `(i, j, k)` of `n` by `n` by `n` points is not on the boundary.
pub open spec fn interior(n: usize, i: int, j: int, k: int) -> bool {
    1 <= i < n - 1 && 1 <= j < n - 1 && 1 <= k < n - 1
}

/// The weighted second difference of `lo`, `mid` and `hi`.
pub open spec fn second_difference<T: Scalar>(hi: T, mid: T, lo: T) -> T {
    weight::<T>().times(hi.minus(T::of_usize(2).times(mid)).plus(lo))
}

/// The point of `src` at `(i, j, k)` moved by the three second differences.
pub open spec fn diffused_point<T: Scalar>(src: Seq<Seq<Seq<T>>>, i: int, j: int, k: int) -> T {
    second_difference(src[i + 1][j][k], src[i][j][k], src[i - 1][j][k]).plus(
        second_difference(src[i][j + 1][k], src[i][j][k], src[i][j - 1][k]),
    ).plus(second_difference(src[i][j][k + 1], src[i][j][k], src[i][j][k - 1])).plus(src[i][j][k])
}

/// The grid after one diffusion from `src`: every interior point is the
/// diffused point of `src`; the boundary is that of `keep`.
pub open spec fn diffused<T: Scalar>(src: Seq<Seq<Seq<T>>>, keep: Seq<Seq<Seq<T>>>, n: usize) -> Seq<
    Seq<Seq<T>>,
> {
    Seq::new(
        n as nat,
        |i: int|
            Seq::new(
                n as nat,
                |j: int|
                    Seq::new(
                        n as nat,
                        |k: int|
                            if interior(n, i, j, k) {
                                diffused_point(src, i, j, k)
                            } else {
                                keep[i][j][k]
                            },
                    ),
            ),
    )
}

/// The two grids `(a, b)` after `t` time steps: in each step `b` is diffused
/// from `a`, then `a` from `b`.
pub open spec fn after_steps<T: Scalar>(
    a: Seq<Seq<Seq<T>>>,
    b: Seq<Seq<Seq<T>>>,
    n: usize,
    t: nat,
) -> (Seq<Seq<Seq<T>>>, Seq<Seq<Seq<T>>>)
    decreases t,
{
    if t == 0 {
        (a, b)
    } else {
        let before = after_steps(a, b, n, (t - 1) as nat);
        let next_b = diffused(before.0, before.1, n);
        let next_a = diffused(next_b, before.0, n);
        (next_a, next_b)
    }
}

/// The number of time steps that the kernel takes for `tsteps`: one fewer,
/// and none for zero.
pub open spec fn steps_taken(tsteps: usize) -> nat {
    if tsteps >= 1 {
        (tsteps - 1) as nat
    } else {
        0
    }
}

/// `now` agrees with `then` on the boundary of the grid.
pub open spec fn same_boundary<T>(now: Seq<Seq<Seq<T>>>, then: Seq<Seq<Seq<T>>>, n: usize) -> bool {
    forall|i: int, j: int, k: int|
        0 <= i < n && 0 <= j < n && 0 <= k < n && !interior(n, i, j, k) ==> (
        #[trigger] now[i][j][k]) == then[i][j][k]
}

/// The generated entry of both grids at `(i, j, k)`.
pub open spec fn grid_entry<T: Scalar>(n: usize, i: int, j: int, k: int) -> T {
    T::of_usize((i + j + (n - k)) as usize).times(T::of_usize(10)).over(T::of_usize(n))
}

/// Computes the generated entry of both grids at `(i, j, k)`.
pub fn grid_value<T: Scalar, const N: usize>(i: usize, j: usize, k: usize) -> (v: T)
    requires
        i < N,
        j < N,
        k < N,
        3 * N <= usize::MAX,
    ensures
        v == grid_entry::<T>(N, i as int, j as int, k as int),
{
    T::from_usize(i + j + (N - k)).mul(T::from_usize(10)).div(T::from_usize(N))
}

/// Fills the two grids alike, each point with a fixed function of its
/// indices and the shape.
pub fn init_array<T: Scalar, const N: usize, const TSTEPS: usize>(
    a: &mut Uninit<Array3D<T, N, N, N>>,
    b: &mut Uninit<Array3D<T, N, N, N>>,
)
    requires
        3 * N <= usize::MAX,
    ensures
        forall|i: int, j: int, k: int|
            0 <= i < N && 0 <= j < N && 0 <= k < N ==> (#[trigger] final(a)@[i][j][k]) == Some(
                grid_entry::<T>(N, i, j, k),
            ),
        forall|i: int, j: int, k: int|
            0 <= i < N && 0 <= j < N && 0 <= k < N ==> (#[trigger] final(b)@[i][j][k]) == Some(
                grid_entry::<T>(N, i, j, k),
            ),
{
    b.fill_with(grid_value::<T, N>);
    a.fill_with(grid_value::<T, N>);
}

/// Two runs of the generator leave the same values behind: what it writes
/// depends on the indices and the shape alone, on nothing that was there
/// before and on nothing from outside.
pub proof fn init_array_is_deterministic<T: Scalar, const N: usize>(
    a_1: Uninit<Array3D<T, N, N, N>>,
    b_1: Uninit<Array3D<T, N, N, N>>,
    a_2: Uninit<Array3D<T, N, N, N>>,
    b_2: Uninit<Array3D<T, N, N, N>>,
)
    requires
        forall|i: int, j: int, k: int|
            0 <= i < N && 0 <= j < N && 0 <= k < N ==> (#[trigger] a_1@[i][j][k]) == Some(
                grid_entry::<T>(N, i, j, k),
            ),
        forall|i: int, j: int, k: int|
            0 <= i < N && 0 <= j < N && 0 <= k < N ==> (#[trigger] b_1@[i][j][k]) == Some(
                grid_entry::<T>(N, i, j, k),
            ),
        forall|i: int, j: int, k: int|
            0 <= i < N && 0 <= j < N && 0 <= k < N ==> (#[trigger] a_2@[i][j][k]) == Some(
                grid_entry::<T>(N, i, j, k),
            ),
        forall|i: int, j: int, k: int|
            0 <= i < N && 0 <= j < N && 0 <= k < N ==> (#[trigger] b_2@[i][j][k]) == Some(
                grid_entry::<T>(N, i, j, k),
            ),
    ensures
        a_1@ == a_2@,
        b_1@ == b_2@,
{
    assert(a_1@ =~~= a_2@);
    assert(b_1@ =~~= b_2@);
}

/// Diffuses the interior of `dst` from `src`.
#[verifier::loop_isolation(false)]
pub fn diffuse<T: Scalar, const N: usize>(dst: &mut Array3D<T, N, N, N>, src: &Array3D<T, N, N, N>)
    ensures
        final(dst)@ == diffused(src@, old(dst)@, N),
{
    let w = ratio::<T>(1, 8);
    let two = T::from_usize(2);
    let mut i: usize = 1;
    while i + 1 < N
        invariant
            i == 1 || 1 <= i < N,
            forall|p: int, q: int, r: int|
                0 <= p < N && 0 <= q < N && 0 <= r < N ==> (#[trigger] dst@[p][q][r]) == (
                if interior(N, p, q, r) && p < i {
                    diffused_point(src@, p, q, r)
                } else {
                    old(dst)@[p][q][r]
                }),
        decreases N - i,
    {
        let mut j: usize = 1;
        while j + 1 < N
            invariant
                1 <= j < N,
                forall|p: int, q: int, r: int|
                    0 <= p < N && 0 <= q < N && 0 <= r < N ==> (#[trigger] dst@[p][q][r]) == (
                    if interior(N, p, q, r) && (p < i || (p == i && q < j)) {
                        diffused_point(src@, p, q, r)
                    } else {
                        old(dst)@[p][q][r]
                    }),
            decreases N - j,
        {
            let mut k: usize = 1;
            while k + 1 < N
                invariant
                    1 <= k < N,
                    forall|p: int, q: int, r: int|
                        0 <= p < N && 0 <= q < N && 0 <= r < N ==> (#[trigger] dst@[p][q][r]) == (
                        if interior(N, p, q, r) && (p < i || (p == i && (q < j || (q == j && r
                            < k)))) {
                            diffused_point(src@, p, q, r)
                        } else {
                            old(dst)@[p][q][r]
                        }),
                decreases N - k,
            {
                let mid = *src.get(i, j, k);
                let along_i = w.mul(src.get(i + 1, j, k).sub(two.mul(mid)).add(*src.get(i - 1, j, k)));
                let along_j = w.mul(src.get(i, j + 1, k).sub(two.mul(mid)).add(*src.get(i, j - 1, k)));
                let along_k = w.mul(src.get(i, j, k + 1).sub(two.mul(mid)).add(*src.get(i, j, k - 1)));
                dst.set(i, j, k, along_i.add(along_j).add(along_k).add(mid));
                k += 1;
            }
            j += 1;
        }
        i += 1;
    }
    assert(dst@ =~~= diffused(src@, old(dst)@, N));
}

/// Takes the time steps. The boundary of either grid is never written.
pub fn kernel_heat_3d<T: Scalar, const N: usize, const TSTEPS: usize>(
    a: &mut Array3D<T, N, N, N>,
    b: &mut Array3D<T, N, N, N>,
)
    ensures
        (final(a)@, final(b)@) == after_steps(old(a)@, old(b)@, N, steps_taken(TSTEPS)),
        same_boundary(final(a)@, old(a)@, N),
        same_boundary(final(b)@, old(b)@, N),
{
    let mut t: usize = 1;
    while t < TSTEPS
        invariant
            t == 1 || 1 <= t <= TSTEPS,
            (a@, b@) == after_steps(old(a)@, old(b)@, N, (t - 1) as nat),
            same_boundary(a@, old(a)@, N),
            same_boundary(b@, old(b)@, N),
        decreases TSTEPS - t,
    {
        diffuse(b, a);
        diffuse(a, b);
        t += 1;
    }
}

/// Generates the grids, times one run of the kernel with the given time
/// source, and returns the time between its two readings.
pub fn bench<T: Scalar, const N: usize, const TSTEPS: usize, C: Fn() -> u64>(
    timing_function: &C,
) -> (r: Result<Duration, TimerError>)
    requires
        3 * N <= usize::MAX,
        timing_function.requires(()),
    ensures
        measured_by(timing_function, r),
{
    let mut a = Array3D::<T, N, N, N>::maybe_uninit();
    let mut b = Array3D::<T, N, N, N>::maybe_uninit();
    init_array::<T, N, TSTEPS>(&mut a, &mut b);
    let a = a.assume_init();
    let b = b.assume_init();
    let (elapsed, a) = benchmark_with_timing_function(
        move || -> (a: Box<Array3D<T, N, N, N>>)
            {
                let mut a = a;
                let mut b = b;
                kernel_heat_3d::<T, N, TSTEPS>(&mut *a, &mut *b);
                a
            },
        timing_function,
    );
    consume(a);
    elapsed
}

} // verus!
