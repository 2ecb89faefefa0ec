//! The two matrix-vector products of the biconjugate gradient method: a
//! vector times the matrix, and the matrix times a vector.
use crate::linear_algebra::products::{dot_column, dot_vector};
use crate::ndarray::{Array1D, Array2D, ArrayAlloc, Uninit};
use crate::scalar::{ratio, ratio_of, Scalar};
use crate::util::{benchmark_with_timing_function, consume, measured_by, TimerError};
use core::time::Duration;
use vstd::prelude::*;

verus! {

/// The generated entry of `p` at `i`.
pub open spec fn p_entry<T: Scalar>(n: usize, i: int) -> T {
    ratio_of::<T>((i % (n as int)) as usize, n)
}

/// The generated entry of `r` at `i`.
pub open spec fn r_entry<T: Scalar>(m: usize, i: int) -> T {
    ratio_of::<T>((i % (m as int)) as usize, m)
}

/// The generated entry of `A` at row `i`, column `j`.
pub open spec fn a_entry<T: Scalar>(m: usize, i: int, j: int) -> T {
    ratio_of::<T>(((i * (j + 1)) % (m as int)) as usize, m)
}

/// Computes the generated entry of `p` at `i`.
pub fn p_value<T: Scalar, const N: usize>(i: usize) -> (v: T)
    requires
        i < N,
    ensures
        v == p_entry::<T>(N, i as int),
{
    ratio(i % N, N)
}

/// Computes the generated entry of `r` at `i`.
pub fn r_value<T: Scalar, const M: usize>(i: usize) -> (v: T)
    requires
        i < M,
    ensures
        v == r_entry::<T>(M, i as int),
{
    ratio(i % M, M)
}

/// Computes the generated entry of `A` at row `i`, column `j`.
pub fn a_value<T: Scalar, const M: usize, const N: usize>(i: usize, j: usize) -> (v: T)
    requires
        i < M,
        j < N,
        M * (N + 1) <= usize::MAX,
    ensures
        v == a_entry::<T>(M, i as int, j as int),
{
    assert(i * (j + 1) <= M * (N + 1) && j + 1 <= M * (N + 1)) by (nonlinear_arith)
        requires
            i < M,
            j < N,
    ;
    ratio(i * (j + 1) % M, M)
}

/// Fills the matrix and the two vectors, each entry with a fixed function of
/// its indices and the shape.
pub fn init_array<T: Scalar, const M: usize, const N: usize>(
    a: &mut Uninit<Array2D<T, M, N>>,
    r: &mut Uninit<Array1D<T, M>>,
    p: &mut Uninit<Array1D<T, N>>,
)
    requires
        M * (N + 1) <= usize::MAX,
    ensures
        forall|i: int| 0 <= i < N ==> (#[trigger] final(p)@[i]) == Some(p_entry::<T>(N, i)),
        forall|i: int| 0 <= i < M ==> (#[trigger] final(r)@[i]) == Some(r_entry::<T>(M, i)),
        forall|i: int, j: int|
            0 <= i < M && 0 <= j < N ==> (#[trigger] final(a)@[i][j]) == Some(
                a_entry::<T>(M, i, j),
            ),
{
    p.fill_with(p_value::<T, N>);
    r.fill_with(r_value::<T, M>);
    a.fill_with(a_value::<T, M, N>);
}

/// Two runs of the generator leave the same values behind: what it writes
/// depends on the indices and the shape alone, on nothing that was there
/// before and on nothing from outside.
pub proof fn init_array_is_deterministic<T: Scalar, const M: usize, const N: usize>(
    a_1: Uninit<Array2D<T, M, N>>,
    r_1: Uninit<Array1D<T, M>>,
    p_1: Uninit<Array1D<T, N>>,
    a_2: Uninit<Array2D<T, M, N>>,
    r_2: Uninit<Array1D<T, M>>,
    p_2: Uninit<Array1D<T, N>>,
)
    requires
        forall|i: int| 0 <= i < N ==> (#[trigger] p_1@[i]) == Some(p_entry::<T>(N, i)),
        forall|i: int| 0 <= i < M ==> (#[trigger] r_1@[i]) == Some(r_entry::<T>(M, i)),
        forall|i: int, j: int|
            0 <= i < M && 0 <= j < N ==> (#[trigger] a_1@[i][j]) == Some(
                a_entry::<T>(M, i, j),
            ),
        forall|i: int| 0 <= i < N ==> (#[trigger] p_2@[i]) == Some(p_entry::<T>(N, i)),
        forall|i: int| 0 <= i < M ==> (#[trigger] r_2@[i]) == Some(r_entry::<T>(M, i)),
        forall|i: int, j: int|
            0 <= i < M && 0 <= j < N ==> (#[trigger] a_2@[i][j]) == Some(
                a_entry::<T>(M, i, j),
            ),
    ensures
        a_1@ == a_2@,
        r_1@ == r_2@,
        p_1@ == p_2@,
{
    assert(a_1@ =~~= a_2@);
    assert(r_1@ =~~= r_2@);
    assert(p_1@ =~~= p_2@);
}

/// `s = r * A` and `q = A * p`, both accumulated from zero.
#[verifier::loop_isolation(false)]
pub fn kernel_bicg<T: Scalar, const M: usize, const N: usize>(
    a: &Array2D<T, M, N>,
    s: &mut Array1D<T, N>,
    q: &mut Array1D<T, M>,
    p: &Array1D<T, N>,
    r: &Array1D<T, M>,
)
    ensures
        forall|j: int|
            0 <= j < N ==> (#[trigger] final(s)@[j]) == dot_column(
                T::zero_value(),
                r@,
                a@,
                j,
                M as nat,
            ),
        forall|i: int|
            0 <= i < M ==> (#[trigger] final(q)@[i]) == dot_vector(
                T::zero_value(),
                a@[i],
                p@,
                N as nat,
            ),
{
    for i in 0..N
        invariant
            forall|j: int| 0 <= j < i ==> (#[trigger] s@[j]) == T::zero_value(),
    {
        s.set(i, T::zero());
    }
    for i in 0..M
        invariant
            forall|j: int|
                0 <= j < N ==> (#[trigger] s@[j]) == dot_column(
                    T::zero_value(),
                    r@,
                    a@,
                    j,
                    i as nat,
                ),
            forall|k: int|
                0 <= k < i ==> (#[trigger] q@[k]) == dot_vector(
                    T::zero_value(),
                    a@[k],
                    p@,
                    N as nat,
                ),
    {
        q.set(i, T::zero());
        for j in 0..N
            invariant
                forall|c: int|
                    0 <= c < N ==> (#[trigger] s@[c]) == dot_column(
                        T::zero_value(),
                        r@,
                        a@,
                        c,
                        if c < j {
                            (i + 1) as nat
                        } else {
                            i as nat
                        },
                    ),
                q@[i as int] == dot_vector(T::zero_value(), a@[i as int], p@, j as nat),
                forall|k: int|
                    0 <= k < i ==> (#[trigger] q@[k]) == dot_vector(
                        T::zero_value(),
                        a@[k],
                        p@,
                        N as nat,
                    ),
        {
            s.set(j, s.get(j).add(r.get(i).mul(*a.get(i, j))));
            q.set(i, q.get(i).add(a.get(i, j).mul(*p.get(j))));
        }
    }
}

/// Generates the inputs, times one run of the kernel with the given time
/// source, and returns the time between its two readings.
pub fn bench<T: Scalar, const M: usize, const N: usize, C: Fn() -> u64>(timing_function: &C) -> (r:
    Result<Duration, TimerError>)
    requires
        M * (N + 1) <= usize::MAX,
        timing_function.requires(()),
    ensures
        measured_by(timing_function, r),
{
    let mut a = Array2D::<T, M, N>::maybe_uninit();
    let s = Array1D::<T, N>::maybe_uninit_zeroed();
    let q = Array1D::<T, M>::maybe_uninit_zeroed();
    let mut p = Array1D::<T, N>::maybe_uninit();
    let mut r = Array1D::<T, M>::maybe_uninit();
    init_array(&mut a, &mut r, &mut p);
    let a = a.assume_init();
    let p = p.assume_init();
    let r = r.assume_init();
    let (elapsed, out) = benchmark_with_timing_function(
        move || -> (out: (Box<Array1D<T, N>>, Box<Array1D<T, M>>))
            {
                let mut s = s;
                let mut q = q;
                kernel_bicg(&*a, &mut *s, &mut *q, &*p, &*r);
                (s, q)
            },
        timing_function,
    );
    consume(out.0);
    consume(out.1);
    elapsed
}

} // verus!
