//! The sum of two scaled matrix-vector products: `y = alpha * A * x + beta * B * x`.
use crate::ndarray::{Array1D, Array2D, ArrayAlloc, Uninit};
use crate::scalar::{ratio, ratio_of, Scalar};
use crate::util::{benchmark_with_timing_function, consume, measured_by, TimerError};
use core::time::Duration;
use vstd::prelude::*;

verus! {

/// The generated entry of `x` at `i`.
pub open spec fn x_entry<T: Scalar>(n: usize, i: int) -> T {
    ratio_of::<T>((i % (n as int)) as usize, n)
}

/// The generated entry at row `i`, column `j` of the matrix with offset
/// `shift`.
pub open spec fn matrix_entry<T: Scalar>(n: usize, shift: int, i: int, j: int) -> T {
    ratio_of::<T>(((i * j + shift) % (n as int)) as usize, n)
}

/// The products `row[k] * x[k]` for `k < n`, each added in front of the sum
/// of those before it, from zero.
pub open spec fn product<T: Scalar>(row: Seq<T>, x: Seq<T>, n: nat) -> T
    decreases n,
{
    if n == 0 {
        T::zero_value()
    } else {
        row[n - 1].times(x[n - 1]).plus(product(row, x, (n - 1) as nat))
    }
}

/// Computes the generated entry of `x` at `i`.
pub fn x_value<T: Scalar, const N: usize>(i: usize) -> (v: T)
    requires
        i < N,
    ensures
        v == x_entry::<T>(N, i as int),
{
    ratio(i % N, N)
}

/// Computes the generated entry of `A` at row `i`, column `j`.
pub fn a_value<T: Scalar, const N: usize>(i: usize, j: usize) -> (v: T)
    requires
        i < N,
        j < N,
        N * N + 2 <= usize::MAX,
    ensures
        v == matrix_entry::<T>(N, 1, i as int, j as int),
{
    assert(i * j <= N * N) by (nonlinear_arith)
        requires
            i < N,
            j < N,
    ;
    ratio((i * j + 1) % N, N)
}

/// Computes the generated entry of `B` at row `i`, column `j`.
pub fn b_value<T: Scalar, const N: usize>(i: usize, j: usize) -> (v: T)
    requires
        i < N,
        j < N,
        N * N + 2 <= usize::MAX,
    ensures
        v == matrix_entry::<T>(N, 2, i as int, j as int),
{
    assert(i * j <= N * N) by (nonlinear_arith)
        requires
            i < N,
            j < N,
    ;
    ratio((i * j + 2) % N, N)
}

/// Sets the two factors and fills the two matrices and the vector, each
/// entry with a fixed function of its indices and the shape.
pub fn init_array<T: Scalar, const N: usize>(
    alpha: &mut T,
    beta: &mut T,
    a: &mut Uninit<Array2D<T, N, N>>,
    b: &mut Uninit<Array2D<T, N, N>>,
    x: &mut Uninit<Array1D<T, N>>,
)
    requires
        N * N + 2 <= usize::MAX,
    ensures
        *final(alpha) == ratio_of::<T>(3, 2),
        *final(beta) == ratio_of::<T>(6, 5),
        forall|i: int| 0 <= i < N ==> (#[trigger] final(x)@[i]) == Some(x_entry::<T>(N, i)),
        forall|i: int, j: int|
            0 <= i < N && 0 <= j < N ==> (#[trigger] final(a)@[i][j]) == Some(
                matrix_entry::<T>(N, 1, i, j),
            ),
        forall|i: int, j: int|
            0 <= i < N && 0 <= j < N ==> (#[trigger] final(b)@[i][j]) == Some(
                matrix_entry::<T>(N, 2, i, j),
            ),
{
    *alpha = ratio(3, 2);
    *beta = ratio(6, 5);
    x.fill_with(x_value::<T, N>);
    a.fill_with(a_value::<T, N>);
    b.fill_with(b_value::<T, N>);
}

/// Two runs of the generator leave the same values behind: what it writes
/// depends on the indices and the shape alone, on nothing that was there
/// before and on nothing from outside.
pub proof fn init_array_is_deterministic<T: Scalar, const N: usize>(
    alpha_1: T,
    beta_1: T,
    a_1: Uninit<Array2D<T, N, N>>,
    b_1: Uninit<Array2D<T, N, N>>,
    x_1: Uninit<Array1D<T, N>>,
    alpha_2: T,
    beta_2: T,
    a_2: Uninit<Array2D<T, N, N>>,
    b_2: Uninit<Array2D<T, N, N>>,
    x_2: Uninit<Array1D<T, N>>,
)
    requires
        alpha_1 == ratio_of::<T>(3, 2),
        beta_1 == ratio_of::<T>(6, 5),
        forall|i: int| 0 <= i < N ==> (#[trigger] x_1@[i]) == Some(x_entry::<T>(N, i)),
        forall|i: int, j: int|
            0 <= i < N && 0 <= j < N ==> (#[trigger] a_1@[i][j]) == Some(
                matrix_entry::<T>(N, 1, i, j),
            ),
        forall|i: int, j: int|
            0 <= i < N && 0 <= j < N ==> (#[trigger] b_1@[i][j]) == Some(
                matrix_entry::<T>(N, 2, i, j),
            ),
        alpha_2 == ratio_of::<T>(3, 2),
        beta_2 == ratio_of::<T>(6, 5),
        forall|i: int| 0 <= i < N ==> (#[trigger] x_2@[i]) == Some(x_entry::<T>(N, i)),
        forall|i: int, j: int|
            0 <= i < N && 0 <= j < N ==> (#[trigger] a_2@[i][j]) == Some(
                matrix_entry::<T>(N, 1, i, j),
            ),
        forall|i: int, j: int|
            0 <= i < N && 0 <= j < N ==> (#[trigger] b_2@[i][j]) == Some(
                matrix_entry::<T>(N, 2, i, j),
            ),
    ensures
        alpha_1 == alpha_2,
        beta_1 == beta_2,
        a_1@ == a_2@,
        b_1@ == b_2@,
        x_1@ == x_2@,
{
    assert(a_1@ =~~= a_2@);
    assert(b_1@ =~~= b_2@);
    assert(x_1@ =~~= x_2@);
}

/// `tmp = A * x` and `y = alpha * tmp + beta * (B * x)`.
#[verifier::loop_isolation(false)]
pub fn kernel_gesummv<T: Scalar, const N: usize>(
    alpha: T,
    beta: T,
    a: &Array2D<T, N, N>,
    b: &Array2D<T, N, N>,
    tmp: &mut Array1D<T, N>,
    x: &Array1D<T, N>,
    y: &mut Array1D<T, N>,
)
    ensures
        forall|i: int| 0 <= i < N ==> (#[trigger] final(tmp)@[i]) == product(a@[i], x@, N as nat),
        forall|i: int|
            0 <= i < N ==> (#[trigger] final(y)@[i]) == alpha.times(final(tmp)@[i]).plus(
                beta.times(product(b@[i], x@, N as nat)),
            ),
{
    for i in 0..N
        invariant
            forall|p: int| 0 <= p < i ==> (#[trigger] tmp@[p]) == product(a@[p], x@, N as nat),
            forall|p: int|
                0 <= p < i ==> (#[trigger] y@[p]) == alpha.times(tmp@[p]).plus(
                    beta.times(product(b@[p], x@, N as nat)),
                ),
    {
        tmp.set(i, T::zero());
        y.set(i, T::zero());
        for j in 0..N
            invariant
                tmp@[i as int] == product(a@[i as int], x@, j as nat),
                y@[i as int] == product(b@[i as int], x@, j as nat),
                forall|p: int| 0 <= p < i ==> (#[trigger] tmp@[p]) == product(a@[p], x@, N as nat),
                forall|p: int|
                    0 <= p < i ==> (#[trigger] y@[p]) == alpha.times(tmp@[p]).plus(
                        beta.times(product(b@[p], x@, N as nat)),
                    ),
        {
            tmp.set(i, a.get(i, j).mul(*x.get(j)).add(*tmp.get(i)));
            y.set(i, b.get(i, j).mul(*x.get(j)).add(*y.get(i)));
        }
        y.set(i, alpha.mul(*tmp.get(i)).add(beta.mul(*y.get(i))));
    }
}

/// Generates the inputs, times one run of the kernel with the given time
/// source, and returns the time between its two readings.
pub fn bench<T: Scalar, const N: usize, C: Fn() -> u64>(timing_function: &C) -> (r: Result<
    Duration,
    TimerError,
>)
    requires
        N * N + 2 <= usize::MAX,
        timing_function.requires(()),
    ensures
        measured_by(timing_function, r),
{
    let mut alpha = T::zero();
    let mut beta = T::zero();
    let mut a = Array2D::<T, N, N>::maybe_uninit();
    let mut b = Array2D::<T, N, N>::maybe_uninit();
    let tmp = Array1D::<T, N>::maybe_uninit_zeroed();
    let mut x = Array1D::<T, N>::maybe_uninit();
    let y = Array1D::<T, N>::maybe_uninit_zeroed();
    init_array(&mut alpha, &mut beta, &mut a, &mut b, &mut x);
    let a = a.assume_init();
    let b = b.assume_init();
    let x = x.assume_init();
    let (elapsed, y) = benchmark_with_timing_function(
        move || -> (y: Box<Array1D<T, N>>)
            {
                let mut tmp = tmp;
                let mut y = y;
                kernel_gesummv(alpha, beta, &*a, &*b, &mut *tmp, &*x, &mut *y);
                y
            },
        timing_function,
    );
    consume(y);
    elapsed
}

} // verus!
