//! A matrix times a vector, folded back over the rows of the matrix.
use crate::linear_algebra::products::dot_vector;
use crate::ndarray::{Array1D, Array2D, ArrayAlloc, Uninit};
use crate::scalar::{one_value, ratio, ratio_of, Scalar};
use crate::util::{benchmark_with_timing_function, consume, measured_by, TimerError};
use core::time::Duration;
use vstd::prelude::*;

verus! {

/// The generated entry of `x` at `i`.
pub open spec fn x_entry<T: Scalar>(n: usize, i: int) -> T {
    one_value::<T>().plus(ratio_of::<T>(i as usize, n))
}

/// The generated entry of `A` at row `i`, column `j`.
pub open spec fn a_entry<T: Scalar>(m: usize, n: usize, i: int, j: int) -> T {
    ratio_of::<T>(((i + j) % (n as int)) as usize, (5 * m) as usize)
}

/// The product of row `i` of `a` with `x`, accumulated from zero.
pub open spec fn row_product<T: Scalar>(a: Seq<Seq<T>>, x: Seq<T>, i: int, n: nat) -> T {
    dot_vector(T::zero_value(), a[i], x, n)
}

/// The entry of `y` at `j` after the first `m` rows have been folded in: for
/// every row, the entry of the matrix and then the row's product are added.
pub open spec fn folded<T: Scalar>(a: Seq<Seq<T>>, x: Seq<T>, j: int, n: nat, m: nat) -> T
    decreases m,
{
    if m == 0 {
        T::zero_value()
    } else {
        folded(a, x, j, n, (m - 1) as nat).plus(a[m - 1][j]).plus(row_product(a, x, m - 1, n))
    }
}

/// Computes the generated entry of `x` at `i`.
pub fn x_value<T: Scalar, const N: usize>(i: usize) -> (v: T)
    requires
        i < N,
    ensures
        v == x_entry::<T>(N, i as int),
{
    T::from_usize(1).add(ratio(i, N))
}

/// Computes the generated entry of `A` at row `i`, column `j`.
pub fn a_value<T: Scalar, const M: usize, const N: usize>(i: usize, j: usize) -> (v: T)
    requires
        i < M,
        j < N,
        M + N <= usize::MAX,
        5 * M <= usize::MAX,
    ensures
        v == a_entry::<T>(M, N, i as int, j as int),
{
    ratio((i + j) % N, 5 * M)
}

/// Fills the matrix and the vector, each entry with a fixed function of its
/// indices and the shape.
pub fn init_array<T: Scalar, const M: usize, const N: usize>(
    a: &mut Uninit<Array2D<T, M, N>>,
    x: &mut Uninit<Array1D<T, N>>,
)
    requires
        M + N <= usize::MAX,
        5 * M <= usize::MAX,
    ensures
        forall|i: int| 0 <= i < N ==> (#[trigger] final(x)@[i]) == Some(x_entry::<T>(N, i)),
        forall|i: int, j: int|
            0 <= i < M && 0 <= j < N ==> (#[trigger] final(a)@[i][j]) == Some(
                a_entry::<T>(M, N, i, j),
            ),
{
    x.fill_with(x_value::<T, N>);
    a.fill_with(a_value::<T, M, N>);
}

/// Two runs of the generator leave the same values behind: what it writes
/// depends on the indices and the shape alone, on nothing that was there
/// before and on nothing from outside.
pub proof fn init_array_is_deterministic<T: Scalar, const M: usize, const N: usize>(
    a_1: Uninit<Array2D<T, M, N>>,
    x_1: Uninit<Array1D<T, N>>,
    a_2: Uninit<Array2D<T, M, N>>,
    x_2: Uninit<Array1D<T, N>>,
)
    requires
        forall|i: int| 0 <= i < N ==> (#[trigger] x_1@[i]) == Some(x_entry::<T>(N, i)),
        forall|i: int, j: int|
            0 <= i < M && 0 <= j < N ==> (#[trigger] a_1@[i][j]) == Some(
                a_entry::<T>(M, N, i, j),
            ),
        forall|i: int| 0 <= i < N ==> (#[trigger] x_2@[i]) == Some(x_entry::<T>(N, i)),
        forall|i: int, j: int|
            0 <= i < M && 0 <= j < N ==> (#[trigger] a_2@[i][j]) == Some(
                a_entry::<T>(M, N, i, j),
            ),
    ensures
        a_1@ == a_2@,
        x_1@ == x_2@,
{
    assert(a_1@ =~~= a_2@);
    assert(x_1@ =~~= x_2@);
}

/// For every row of `a`: its product with `x` goes to `tmp`, and the row and
/// that product are added to every entry of `y`.
#[verifier::loop_isolation(false)]
pub fn kernel_atax<T: Scalar, const M: usize, const N: usize>(
    a: &Array2D<T, M, N>,
    x: &Array1D<T, N>,
    y: &mut Array1D<T, N>,
    tmp: &mut Array1D<T, M>,
)
    ensures
        forall|i: int|
            0 <= i < M ==> (#[trigger] final(tmp)@[i]) == row_product(a@, x@, i, N as nat),
        forall|j: int|
            0 <= j < N ==> (#[trigger] final(y)@[j]) == folded(a@, x@, j, N as nat, M as nat),
{
    for i in 0..N
        invariant
            forall|q: int| 0 <= q < i ==> (#[trigger] y@[q]) == T::zero_value(),
    {
        y.set(i, T::zero());
    }
    for i in 0..M
        invariant
            forall|p: int| 0 <= p < i ==> (#[trigger] tmp@[p]) == row_product(a@, x@, p, N as nat),
            forall|q: int|
                0 <= q < N ==> (#[trigger] y@[q]) == folded(a@, x@, q, N as nat, i as nat),
    {
        tmp.set(i, T::zero());
        for j in 0..N
            invariant
                tmp@[i as int] == row_product(a@, x@, i as int, j as nat),
                forall|p: int|
                    0 <= p < i ==> (#[trigger] tmp@[p]) == row_product(a@, x@, p, N as nat),
        {
            tmp.set(i, tmp.get(i).add(a.get(i, j).mul(*x.get(j))));
        }
        for j in 0..N
            invariant
                forall|q: int|
                    0 <= q < N ==> (#[trigger] y@[q]) == folded(
                        a@,
                        x@,
                        q,
                        N as nat,
                        if q < j {
                            (i + 1) as nat
                        } else {
                            i as nat
                        },
                    ),
        {
            y.set(j, y.get(j).add(*a.get(i, j)).add(*tmp.get(i)));
        }
    }
}

/// Generates the inputs, times one run of the kernel with the given time
/// source, and returns the time between its two readings.
pub fn bench<T: Scalar, const M: usize, const N: usize, C: Fn() -> u64>(timing_function: &C) -> (r:
    Result<Duration, TimerError>)
    requires
        M + N <= usize::MAX,
        5 * M <= usize::MAX,
        timing_function.requires(()),
    ensures
        measured_by(timing_function, r),
{
    let mut a = Array2D::<T, M, N>::maybe_uninit();
    let mut x = Array1D::<T, N>::maybe_uninit();
    let y = Array1D::<T, N>::maybe_uninit_zeroed();
    let tmp = Array1D::<T, M>::maybe_uninit_zeroed();
    init_array(&mut a, &mut x);
    let a = a.assume_init();
    let x = x.assume_init();
    let (elapsed, y) = benchmark_with_timing_function(
        move || -> (y: Box<Array1D<T, N>>)
            {
                let mut y = y;
                let mut tmp = tmp;
                kernel_atax(&*a, &*x, &mut *y, &mut *tmp);
                y
            },
        timing_function,
    );
    consume(y);
    elapsed
}

} // verus!
