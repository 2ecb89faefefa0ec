//! Triangular matrix multiply: `B = alpha * transpose(A) * B`, with `A` unit
//! lower triangular.
use crate::ndarray::{Array2D, ArrayAlloc, Uninit};
use crate::scalar::{one_value, ratio, ratio_of, Scalar};
use crate::util::{benchmark_with_timing_function, consume, measured_by, TimerError};
use core::time::Duration;
use vstd::prelude::*;

verus! {

/// The generated entry of `A` at row `i`, column `j`: one on the diagonal,
/// zero above it.
pub open spec fn a_entry<T: Scalar>(m: usize, i: int, j: int) -> T {
    if j < i {
        ratio_of::<T>(((i + j) % (m as int)) as usize, m)
    } else if j == i {
        one_value::<T>()
    } else {
        T::zero_value()
    }
}

/// The generated entry of `B` at row `i`, column `j`.
pub open spec fn b_entry<T: Scalar>(n: usize, i: int, j: int) -> T {
    ratio_of::<T>(((n + i - j) % (n as int)) as usize, n)
}

/// The entry of `b` at row `i`, column `j`, then the products
/// `a[s][i] * b[s][j]` for `i < s < k` added one after the other.
pub open spec fn trmm_acc<T: Scalar>(a: Seq<Seq<T>>, b: Seq<Seq<T>>, i: int, j: int, k: int) -> T
    decreases k - i,
{
    if k <= i + 1 {
        b[i][j]
    } else {
        trmm_acc(a, b, i, j, k - 1).plus(a[k - 1][i].times(b[k - 1][j]))
    }
}

/// The entry of the product at row `i`, column `j`, for matrices of `m` rows.
pub open spec fn trmm_cell<T: Scalar>(
    alpha: T,
    a: Seq<Seq<T>>,
    b: Seq<Seq<T>>,
    i: int,
    j: int,
    m: int,
) -> T {
    alpha.times(trmm_acc(a, b, i, j, m))
}

/// Computes the generated entry of `A` at row `i`, column `j`.
pub fn a_value<T: Scalar, const M: usize>(i: usize, j: usize) -> (v: T)
    requires
        i < M,
        j < M,
        2 * M <= usize::MAX,
    ensures
        v == a_entry::<T>(M, i as int, j as int),
{
    if j < i {
        ratio((i + j) % M, M)
    } else if j == i {
        T::from_usize(1)
    } else {
        T::zero()
    }
}

/// Computes the generated entry of `B` at row `i`, column `j`.
pub fn b_value<T: Scalar, const M: usize, const N: usize>(i: usize, j: usize) -> (v: T)
    requires
        i < M,
        j < N,
        M + N <= usize::MAX,
    ensures
        v == b_entry::<T>(N, i as int, j as int),
{
    ratio(((N + i) - j) % N, N)
}

/// Sets the factor and fills the two matrices, each cell with a fixed
/// function of its indices and the shape.
pub fn init_array<T: Scalar, const M: usize, const N: usize>(
    alpha: &mut T,
    a: &mut Uninit<Array2D<T, M, M>>,
    b: &mut Uninit<Array2D<T, M, N>>,
)
    requires
        2 * M <= usize::MAX,
        M + N <= usize::MAX,
    ensures
        *final(alpha) == ratio_of::<T>(3, 2),
        forall|i: int, j: int|
            0 <= i < M && 0 <= j < M ==> (#[trigger] final(a)@[i][j]) == Some(
                a_entry::<T>(M, i, j),
            ),
        forall|i: int, j: int|
            0 <= i < M && 0 <= j < N ==> (#[trigger] final(b)@[i][j]) == Some(
                b_entry::<T>(N, i, j),
            ),
{
    *alpha = ratio(3, 2);
    a.fill_with(a_value::<T, M>);
    b.fill_with(b_value::<T, M, N>);
}

/// Two runs of the generator leave the same values behind: what it writes
/// depends on the indices and the shape alone, on nothing that was there
/// before and on nothing from outside.
pub proof fn init_array_is_deterministic<T: Scalar, const M: usize, const N: usize>(
    alpha_1: T,
    a_1: Uninit<Array2D<T, M, M>>,
    b_1: Uninit<Array2D<T, M, N>>,
    alpha_2: T,
    a_2: Uninit<Array2D<T, M, M>>,
    b_2: Uninit<Array2D<T, M, N>>,
)
    requires
        alpha_1 == ratio_of::<T>(3, 2),
        forall|i: int, j: int|
            0 <= i < M && 0 <= j < M ==> (#[trigger] a_1@[i][j]) == Some(
                a_entry::<T>(M, i, j),
            ),
        forall|i: int, j: int|
            0 <= i < M && 0 <= j < N ==> (#[trigger] b_1@[i][j]) == Some(
                b_entry::<T>(N, i, j),
            ),
        alpha_2 == ratio_of::<T>(3, 2),
        forall|i: int, j: int|
            0 <= i < M && 0 <= j < M ==> (#[trigger] a_2@[i][j]) == Some(
                a_entry::<T>(M, i, j),
            ),
        forall|i: int, j: int|
            0 <= i < M && 0 <= j < N ==> (#[trigger] b_2@[i][j]) == Some(
                b_entry::<T>(N, i, j),
            ),
    ensures
        alpha_1 == alpha_2,
        a_1@ == a_2@,
        b_1@ == b_2@,
{
    assert(a_1@ =~~= a_2@);
    assert(b_1@ =~~= b_2@);
}

/// Replaces `b` by the product, row by row from the first: each row reads
/// only the rows under it, which are still as they were.
#[verifier::loop_isolation(false)]
pub fn kernel_trmm<T: Scalar, const M: usize, const N: usize>(
    alpha: T,
    a: &Array2D<T, M, M>,
    b: &mut Array2D<T, M, N>,
)
    ensures
        forall|i: int, j: int|
            0 <= i < M && 0 <= j < N ==> (#[trigger] final(b)@[i][j]) == trmm_cell(
                alpha,
                a@,
                old(b)@,
                i,
                j,
                M as int,
            ),
{
    let ghost b0 = b@;
    for i in 0..M
        invariant
            forall|p: int, q: int|
                0 <= p < M && 0 <= q < N ==> (#[trigger] b@[p][q]) == (if p < i {
                    trmm_cell(alpha, a@, b0, p, q, M as int)
                } else {
                    b0[p][q]
                }),
    {
        for j in 0..N
            invariant
                forall|p: int, q: int|
                    0 <= p < M && 0 <= q < N ==> (#[trigger] b@[p][q]) == (if p < i || (p == i
                        && q < j) {
                        trmm_cell(alpha, a@, b0, p, q, M as int)
                    } else {
                        b0[p][q]
                    }),
        {
            for k in (i + 1)..M
                invariant
                    forall|p: int, q: int|
                        0 <= p < M && 0 <= q < N ==> (#[trigger] b@[p][q]) == (if p < i || (p
                            == i && q < j) {
                            trmm_cell(alpha, a@, b0, p, q, M as int)
                        } else if p == i && q == j {
                            trmm_acc(a@, b0, p, q, k as int)
                        } else {
                            b0[p][q]
                        }),
            {
                b.set(i, j, b.get(i, j).add(a.get(k, i).mul(*b.get(k, j))));
            }
            b.set(i, j, alpha.mul(*b.get(i, j)));
        }
    }
}

/// Generates the inputs, times one run of the kernel with the given time
/// source, and returns the time between its two readings.
pub fn bench<T: Scalar, const M: usize, const N: usize, C: Fn() -> u64>(timing_function: &C) -> (r:
    Result<Duration, TimerError>)
    requires
        2 * M <= usize::MAX,
        M + N <= usize::MAX,
        timing_function.requires(()),
    ensures
        measured_by(timing_function, r),
{
    let mut alpha = T::zero();
    let mut a = Array2D::<T, M, M>::maybe_uninit();
    let mut b = Array2D::<T, M, N>::maybe_uninit();
    init_array(&mut alpha, &mut a, &mut b);
    let a = a.assume_init();
    let b = b.assume_init();
    let (elapsed, b) = benchmark_with_timing_function(
        move || -> (b: Box<Array2D<T, M, N>>)
            {
                let mut b = b;
                kernel_trmm(alpha, &*a, &mut *b);
                b
            },
        timing_function,
    );
    consume(b);
    elapsed
}

} // verus!
