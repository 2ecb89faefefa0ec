//! Cholesky factorization, in place: the lower triangular factor on and under
//! the diagonal; what lies above the diagonal is left as it is.
use crate::linear_algebra::solvers::input::{symmetric_input, triangular};
use crate::ndarray::{gram, Array2D, ArrayAlloc, Uninit};
use crate::scalar::Scalar;
use crate::util::{benchmark_with_timing_function, consume, measured_by, TimerError};
use core::time::Duration;
use vstd::prelude::*;

verus! {

/// The entry of `a` at row `i`, column `j`, less the products of the factor's
/// entries `(i, s)` and `(j, s)` for `s < k`, taken off one after the other.
pub open spec fn cholesky_acc<T: Scalar>(a: Seq<Seq<T>>, i: int, j: int, k: int) -> T
    decreases i + j, 0int, k,
{
    if j < 0 || j > i || k <= 0 || k > j {
        a[i][j]
    } else {
        cholesky_acc(a, i, j, k - 1).minus(
            cholesky_cell(a, i, k - 1).times(cholesky_cell(a, j, k - 1)),
        )
    }
}

/// The entry of the factor of `a` at row `i`, column `j`; above the diagonal,
/// the entry of `a`.
pub open spec fn cholesky_cell<T: Scalar>(a: Seq<Seq<T>>, i: int, j: int) -> T
    decreases i + j, 1int, 0int,
{
    if j < 0 || j > i {
        a[i][j]
    } else if j < i {
        cholesky_acc(a, i, j, j).over(cholesky_cell(a, j, j))
    } else {
        cholesky_acc(a, i, i, i).root()
    }
}

/// The factorization of `a`, a matrix of `n` rows.
pub open spec fn cholesky_of<T: Scalar>(a: Seq<Seq<T>>, n: nat) -> Seq<Seq<T>> {
    Seq::new(n, |i: int| Seq::new(n, |j: int| cholesky_cell(a, i, j)))
}

/// Builds the symmetric input matrix.
pub fn init_array<T: Scalar, const N: usize>(a: Uninit<Array2D<T, N, N>>) -> (r: Box<
    Array2D<T, N, N>,
>)
    ensures
        r@ == gram(triangular::<T>(N)),
{
    symmetric_input(a)
}

/// Two runs of the generator leave the same values behind: what it writes
/// depends on the indices and the shape alone, on nothing that was there
/// before and on nothing from outside.
pub proof fn init_array_is_deterministic<T: Scalar, const N: usize>(
    r_1: Array2D<T, N, N>,
    r_2: Array2D<T, N, N>,
)
    requires
        r_1@ == gram(triangular::<T>(N)),
        r_2@ == gram(triangular::<T>(N)),
    ensures
        r_1@ == r_2@,
{
}

/// Replaces the lower triangle of `a` by its Cholesky factor. No pivot is
/// tested: a zero or negative pivot gives what the element type's division
/// and square root give.
pub fn kernel_cholesky<T: Scalar, const N: usize>(a: &mut Array2D<T, N, N>)
    ensures
        final(a)@ == cholesky_of(old(a)@, N as nat),
        forall|i: int, j: int|
            0 <= i < j < N ==> (#[trigger] final(a)@[i][j]) == old(a)@[i][j],
{
    let ghost a0 = a@;
    for i in 0..N
        invariant
            forall|p: int, q: int|
                0 <= p < N && 0 <= q < N ==> (#[trigger] a@[p][q]) == (if p < i {
                    cholesky_cell(a0, p, q)
                } else {
                    a0[p][q]
                }),
    {
        for j in 0..i
            invariant
                i < N,
                forall|p: int, q: int|
                    0 <= p < N && 0 <= q < N ==> (#[trigger] a@[p][q]) == (if p < i || (p == i
                        && q < j) {
                        cholesky_cell(a0, p, q)
                    } else {
                        a0[p][q]
                    }),
        {
            for k in 0..j
                invariant
                    i < N,
                    j < i,
                    a@[i as int][j as int] == cholesky_acc(a0, i as int, j as int, k as int),
                    forall|p: int, q: int|
                        0 <= p < N && 0 <= q < N && !(p == i && q == j) ==> (#[trigger] a@[p][q])
                            == (if p < i || (p == i && q < j) {
                            cholesky_cell(a0, p, q)
                        } else {
                            a0[p][q]
                        }),
            {
                let term = a.get(i, k).mul(*a.get(j, k));
                a.set(i, j, a.get(i, j).sub(term));
            }
            a.set(i, j, a.get(i, j).div(*a.get(j, j)));
        }
        for k in 0..i
            invariant
                i < N,
                a@[i as int][i as int] == cholesky_acc(a0, i as int, i as int, k as int),
                forall|p: int, q: int|
                    0 <= p < N && 0 <= q < N && !(p == i && q == i) ==> (#[trigger] a@[p][q]) == (
                    if p < i || (p == i && q < i) {
                        cholesky_cell(a0, p, q)
                    } else {
                        a0[p][q]
                    }),
        {
            let term = a.get(i, k).mul(*a.get(i, k));
            a.set(i, i, a.get(i, i).sub(term));
        }
        a.set(i, i, a.get(i, i).sqrt());
    }
    assert(a@ =~~= cholesky_of(a0, N as nat));
}

/// Generates the matrix, times one run of the kernel with the given time
/// source, and returns the time between its two readings.
pub fn bench<T: Scalar, const N: usize, C: Fn() -> u64>(timing_function: &C) -> (r: Result<
    Duration,
    TimerError,
>)
    requires
        timing_function.requires(()),
    ensures
        measured_by(timing_function, r),
{
    let a = init_array(Array2D::<T, N, N>::maybe_uninit());
    let (elapsed, a) = benchmark_with_timing_function(
        move || -> (a: Box<Array2D<T, N, N>>)
            {
                let mut a = a;
                kernel_cholesky(&mut *a);
                a
            },
        timing_function,
    );
    consume(a);
    elapsed
}

} // verus!
