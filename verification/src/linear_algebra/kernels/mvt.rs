//! Two matrix-vector products, one with the matrix and one with its
//! transpose, each added to a vector.
use crate::linear_algebra::products::{column_dot_vector, dot_vector};
use crate::ndarray::{Array1D, Array2D, ArrayAlloc, Uninit};
use crate::scalar::{ratio, ratio_of, Scalar};
use crate::util::{benchmark_with_timing_function, consume, measured_by, TimerError};
use core::time::Duration;
use vstd::prelude::*;

verus! {

/// The generated entry at `i` of the vector with offset `shift`.
pub open spec fn vector_entry<T: Scalar>(n: usize, shift: int, i: int) -> T {
    ratio_of::<T>(((i + shift) % (n as int)) as usize, n)
}

/// The generated entry of `A` at row `i`, column `j`.
pub open spec fn a_entry<T: Scalar>(n: usize, i: int, j: int) -> T {
    ratio_of::<T>(((i * j) % (n as int)) as usize, n)
}

/// Computes the generated entry of `x1` at `i`.
pub fn x1_value<T: Scalar, const N: usize>(i: usize) -> (v: T)
    requires
        i < N,
    ensures
        v == vector_entry::<T>(N, 0, i as int),
{
    ratio(i % N, N)
}

/// Computes the generated entry of `x2` at `i`.
pub fn x2_value<T: Scalar, const N: usize>(i: usize) -> (v: T)
    requires
        i < N,
    ensures
        v == vector_entry::<T>(N, 1, i as int),
{
    ratio((i + 1) % N, N)
}

/// Computes the generated entry of `y_1` at `i`.
pub fn y1_value<T: Scalar, const N: usize>(i: usize) -> (v: T)
    requires
        i < N,
        N + 4 <= usize::MAX,
    ensures
        v == vector_entry::<T>(N, 3, i as int),
{
    ratio((i + 3) % N, N)
}

/// Computes the generated entry of `y_2` at `i`.
pub fn y2_value<T: Scalar, const N: usize>(i: usize) -> (v: T)
    requires
        i < N,
        N + 4 <= usize::MAX,
    ensures
        v == vector_entry::<T>(N, 4, i as int),
{
    ratio((i + 4) % N, N)
}

/// Computes the generated entry of `A` at row `i`, column `j`.
pub fn a_value<T: Scalar, const N: usize>(i: usize, j: usize) -> (v: T)
    requires
        i < N,
        j < N,
        N * N <= usize::MAX,
    ensures
        v == a_entry::<T>(N, i as int, j as int),
{
    assert(i * j <= N * N) by (nonlinear_arith)
        requires
            i < N,
            j < N,
    ;
    ratio(i * j % N, N)
}

/// Fills the four vectors and the matrix, each entry with a fixed function of
/// its indices and the shape.
pub fn init_array<T: Scalar, const N: usize>(
    x1: &mut Uninit<Array1D<T, N>>,
    x2: &mut Uninit<Array1D<T, N>>,
    y_1: &mut Uninit<Array1D<T, N>>,
    y_2: &mut Uninit<Array1D<T, N>>,
    a: &mut Uninit<Array2D<T, N, N>>,
)
    requires
        N + 4 <= usize::MAX,
        N * N <= usize::MAX,
    ensures
        forall|i: int|
            0 <= i < N ==> (#[trigger] final(x1)@[i]) == Some(vector_entry::<T>(N, 0, i)),
        forall|i: int|
            0 <= i < N ==> (#[trigger] final(x2)@[i]) == Some(vector_entry::<T>(N, 1, i)),
        forall|i: int|
            0 <= i < N ==> (#[trigger] final(y_1)@[i]) == Some(vector_entry::<T>(N, 3, i)),
        forall|i: int|
            0 <= i < N ==> (#[trigger] final(y_2)@[i]) == Some(vector_entry::<T>(N, 4, i)),
        forall|i: int, j: int|
            0 <= i < N && 0 <= j < N ==> (#[trigger] final(a)@[i][j]) == Some(
                a_entry::<T>(N, i, j),
            ),
{
    x1.fill_with(x1_value::<T, N>);
    x2.fill_with(x2_value::<T, N>);
    y_1.fill_with(y1_value::<T, N>);
    y_2.fill_with(y2_value::<T, N>);
    a.fill_with(a_value::<T, N>);
}

/// Two runs of the generator leave the same values behind: what it writes
/// depends on the indices and the shape alone, on nothing that was there
/// before and on nothing from outside.
pub proof fn init_array_is_deterministic<T: Scalar, const N: usize>(
    x1_1: Uninit<Array1D<T, N>>,
    x2_1: Uninit<Array1D<T, N>>,
    y_1_1: Uninit<Array1D<T, N>>,
    y_2_1: Uninit<Array1D<T, N>>,
    a_1: Uninit<Array2D<T, N, N>>,
    x1_2: Uninit<Array1D<T, N>>,
    x2_2: Uninit<Array1D<T, N>>,
    y_1_2: Uninit<Array1D<T, N>>,
    y_2_2: Uninit<Array1D<T, N>>,
    a_2: Uninit<Array2D<T, N, N>>,
)
    requires
        forall|i: int|
            0 <= i < N ==> (#[trigger] x1_1@[i]) == Some(vector_entry::<T>(N, 0, i)),
        forall|i: int|
            0 <= i < N ==> (#[trigger] x2_1@[i]) == Some(vector_entry::<T>(N, 1, i)),
        forall|i: int|
            0 <= i < N ==> (#[trigger] y_1_1@[i]) == Some(vector_entry::<T>(N, 3, i)),
        forall|i: int|
            0 <= i < N ==> (#[trigger] y_2_1@[i]) == Some(vector_entry::<T>(N, 4, i)),
        forall|i: int, j: int|
            0 <= i < N && 0 <= j < N ==> (#[trigger] a_1@[i][j]) == Some(
                a_entry::<T>(N, i, j),
            ),
        forall|i: int|
            0 <= i < N ==> (#[trigger] x1_2@[i]) == Some(vector_entry::<T>(N, 0, i)),
        forall|i: int|
            0 <= i < N ==> (#[trigger] x2_2@[i]) == Some(vector_entry::<T>(N, 1, i)),
        forall|i: int|
            0 <= i < N ==> (#[trigger] y_1_2@[i]) == Some(vector_entry::<T>(N, 3, i)),
        forall|i: int|
            0 <= i < N ==> (#[trigger] y_2_2@[i]) == Some(vector_entry::<T>(N, 4, i)),
        forall|i: int, j: int|
            0 <= i < N && 0 <= j < N ==> (#[trigger] a_2@[i][j]) == Some(
                a_entry::<T>(N, i, j),
            ),
    ensures
        x1_1@ == x1_2@,
        x2_1@ == x2_2@,
        y_1_1@ == y_1_2@,
        y_2_1@ == y_2_2@,
        a_1@ == a_2@,
{
    assert(x1_1@ =~~= x1_2@);
    assert(x2_1@ =~~= x2_2@);
    assert(y_1_1@ =~~= y_1_2@);
    assert(y_2_1@ =~~= y_2_2@);
    assert(a_1@ =~~= a_2@);
}

/// `x1 = x1 + A * y_1` and `x2 = x2 + transpose(A) * y_2`.
#[verifier::loop_isolation(false)]
pub fn kernel_mvt<T: Scalar, const N: usize>(
    x1: &mut Array1D<T, N>,
    x2: &mut Array1D<T, N>,
    y_1: &Array1D<T, N>,
    y_2: &Array1D<T, N>,
    a: &Array2D<T, N, N>,
)
    ensures
        forall|i: int|
            0 <= i < N ==> (#[trigger] final(x1)@[i]) == dot_vector(
                old(x1)@[i],
                a@[i],
                y_1@,
                N as nat,
            ),
        forall|i: int|
            0 <= i < N ==> (#[trigger] final(x2)@[i]) == column_dot_vector(
                old(x2)@[i],
                a@,
                i,
                y_2@,
                N as nat,
            ),
{
    for i in 0..N
        invariant
            forall|p: int|
                0 <= p < N ==> (#[trigger] x1@[p]) == (if p < i {
                    dot_vector(old(x1)@[p], a@[p], y_1@, N as nat)
                } else {
                    old(x1)@[p]
                }),
    {
        for j in 0..N
            invariant
                forall|p: int|
                    0 <= p < N ==> (#[trigger] x1@[p]) == (if p < i {
                        dot_vector(old(x1)@[p], a@[p], y_1@, N as nat)
                    } else if p == i {
                        dot_vector(old(x1)@[p], a@[p], y_1@, j as nat)
                    } else {
                        old(x1)@[p]
                    }),
        {
            x1.set(i, x1.get(i).add(a.get(i, j).mul(*y_1.get(j))));
        }
    }
    for i in 0..N
        invariant
            forall|p: int|
                0 <= p < N ==> (#[trigger] x2@[p]) == (if p < i {
                    column_dot_vector(old(x2)@[p], a@, p, y_2@, N as nat)
                } else {
                    old(x2)@[p]
                }),
    {
        for j in 0..N
            invariant
                forall|p: int|
                    0 <= p < N ==> (#[trigger] x2@[p]) == (if p < i {
                        column_dot_vector(old(x2)@[p], a@, p, y_2@, N as nat)
                    } else if p == i {
                        column_dot_vector(old(x2)@[p], a@, p, y_2@, j as nat)
                    } else {
                        old(x2)@[p]
                    }),
        {
            x2.set(i, x2.get(i).add(a.get(j, i).mul(*y_2.get(j))));
        }
    }
}

/// Generates the inputs, times one run of the kernel with the given time
/// source, and returns the time between its two readings.
pub fn bench<T: Scalar, const N: usize, C: Fn() -> u64>(timing_function: &C) -> (r: Result<
    Duration,
    TimerError,
>)
    requires
        N + 4 <= usize::MAX,
        N * N <= usize::MAX,
        timing_function.requires(()),
    ensures
        measured_by(timing_function, r),
{
    let mut x1 = Array1D::<T, N>::maybe_uninit();
    let mut x2 = Array1D::<T, N>::maybe_uninit();
    let mut y_1 = Array1D::<T, N>::maybe_uninit();
    let mut y_2 = Array1D::<T, N>::maybe_uninit();
    let mut a = Array2D::<T, N, N>::maybe_uninit();
    init_array(&mut x1, &mut x2, &mut y_1, &mut y_2, &mut a);
    let x1 = x1.assume_init();
    let x2 = x2.assume_init();
    let y_1 = y_1.assume_init();
    let y_2 = y_2.assume_init();
    let a = a.assume_init();
    let (elapsed, out) = benchmark_with_timing_function(
        move || -> (out: (Box<Array1D<T, N>>, Box<Array1D<T, N>>))
            {
                let mut x1 = x1;
                let mut x2 = x2;
                kernel_mvt(&mut *x1, &mut *x2, &*y_1, &*y_2, &*a);
                (x1, x2)
            },
        timing_function,
    );
    consume(out.0);
    consume(out.1);
    elapsed
}

} // verus!
