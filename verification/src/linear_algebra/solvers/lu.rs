//! LU factorization without pivoting, in place: the unit lower triangular
//! factor under the diagonal, the upper triangular factor on and above it.
use crate::linear_algebra::solvers::input::{symmetric_input, triangular};
use crate::ndarray::{gram, Array2D, ArrayAlloc, Uninit};
use crate::scalar::Scalar;
use crate::util::{benchmark_with_timing_function, consume, measured_by, TimerError};
use core::time::Duration;
use vstd::prelude::*;

verus! {

/// The entry of `a` at row `i`, column `j`, less the products of the factors'
/// entries `(i, s)` and `(s, j)` for `s < k`, taken off one after the other.
pub open spec fn lu_acc<T: Scalar>(a: Seq<Seq<T>>, i: int, j: int, k: int) -> T
    decreases i + j, 0int, k,
{
    if i < 0 || j < 0 || k <= 0 || k > i || k > j {
        a[i][j]
    } else {
        lu_acc(a, i, j, k - 1).minus(lu_cell(a, i, k - 1).times(lu_cell(a, k - 1, j)))
    }
}

/// The entry of the factorization of `a` at row `i`, column `j`: under the
/// diagonal an entry of the lower factor, elsewhere one of the upper factor.
pub open spec fn lu_cell<T: Scalar>(a: Seq<Seq<T>>, i: int, j: int) -> T
    decreases i + j, 1int, 0int,
{
    if i < 0 || j < 0 {
        a[i][j]
    } else if j < i {
        lu_acc(a, i, j, j).over(lu_cell(a, j, j))
    } else {
        lu_acc(a, i, j, i)
    }
}

/// The factorization of `a`, a matrix of `n` rows.
pub open spec fn lu_of<T: Scalar>(a: Seq<Seq<T>>, n: usize) -> Seq<Seq<T>> {
    Seq::new(n as nat, |i: int| Seq::new(n as nat, |j: int| lu_cell(a, i, j)))
}

/// Builds the symmetric input matrix.
pub fn init_array<T: Scalar, const N: usize>(a: Uninit<Array2D<T, N, N>>) -> (r: Box<
    Array2D<T, N, N>,
>)
    ensures
        r@ == gram(triangular::<T>(N)),
{
    symmetric_input(a)
}

/// Two runs of the generator leave the same values behind: what it writes
/// depends on the indices and the shape alone, on nothing that was there
/// before and on nothing from outside.
pub proof fn init_array_is_deterministic<T: Scalar, const N: usize>(
    r_1: Array2D<T, N, N>,
    r_2: Array2D<T, N, N>,
)
    requires
        r_1@ == gram(triangular::<T>(N)),
        r_2@ == gram(triangular::<T>(N)),
    ensures
        r_1@ == r_2@,
{
}

/// Replaces `a` by its factorization. No pivot is tested: a zero pivot gives
/// what the element type's division gives.
pub fn kernel_lu<T: Scalar, const N: usize>(a: &mut Array2D<T, N, N>)
    ensures
        final(a)@ == lu_of(old(a)@, N),
{
    let ghost a0 = a@;
    for i in 0..N
        invariant
            forall|p: int, q: int|
                0 <= p < N && 0 <= q < N ==> (#[trigger] a@[p][q]) == (if p < i {
                    lu_cell(a0, p, q)
                } else {
                    a0[p][q]
                }),
    {
        for j in 0..i
            invariant
                i < N,
                forall|p: int, q: int|
                    0 <= p < N && 0 <= q < N ==> (#[trigger] a@[p][q]) == (if p < i || (p == i
                        && q < j) {
                        lu_cell(a0, p, q)
                    } else {
                        a0[p][q]
                    }),
        {
            for k in 0..j
                invariant
                    i < N,
                    j < i,
                    a@[i as int][j as int] == lu_acc(a0, i as int, j as int, k as int),
                    forall|p: int, q: int|
                        0 <= p < N && 0 <= q < N && !(p == i && q == j) ==> (#[trigger] a@[p][q])
                            == (if p < i || (p == i && q < j) {
                            lu_cell(a0, p, q)
                        } else {
                            a0[p][q]
                        }),
            {
                let term = a.get(i, k).mul(*a.get(k, j));
                a.set(i, j, a.get(i, j).sub(term));
            }
            a.set(i, j, a.get(i, j).div(*a.get(j, j)));
        }
        for j in i..N
            invariant
                i < N,
                forall|p: int, q: int|
                    0 <= p < N && 0 <= q < N ==> (#[trigger] a@[p][q]) == (if p < i || (p == i
                        && q < j) {
                        lu_cell(a0, p, q)
                    } else {
                        a0[p][q]
                    }),
        {
            for k in 0..i
                invariant
                    i <= j < N,
                    a@[i as int][j as int] == lu_acc(a0, i as int, j as int, k as int),
                    forall|p: int, q: int|
                        0 <= p < N && 0 <= q < N && !(p == i && q == j) ==> (#[trigger] a@[p][q])
                            == (if p < i || (p == i && q < j) {
                            lu_cell(a0, p, q)
                        } else {
                            a0[p][q]
                        }),
            {
                let term = a.get(i, k).mul(*a.get(k, j));
                a.set(i, j, a.get(i, j).sub(term));
            }
        }
    }
    assert(a@ =~~= lu_of(a0, N));
}

/// Generates the matrix, times one run of the kernel with the given time
/// source, and returns the time between its two readings.
pub fn bench<T: Scalar, const N: usize, C: Fn() -> u64>(timing_function: &C) -> (r: Result<
    Duration,
    TimerError,
>)
    requires
        timing_function.requires(()),
    ensures
        measured_by(timing_function, r),
{
    let a = init_array(Array2D::<T, N, N>::maybe_uninit());
    let (elapsed, a) = benchmark_with_timing_function(
        move || -> (a: Box<Array2D<T, N, N>>)
            {
                let mut a = a;
                kernel_lu(&mut *a);
                a
            },
        timing_function,
    );
    consume(a);
    elapsed
}

} // verus!
