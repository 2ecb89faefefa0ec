//! Symmetric rank-2k update:
//! `C = beta * C + alpha * A * transpose(B) + alpha * B * transpose(A)`, on
//! and under the diagonal of `C` only.
use crate::ndarray::{Array2D, ArrayAlloc, Uninit};
use crate::scalar::{ratio, ratio_of, Scalar};
use crate::util::{benchmark_with_timing_function, consume, measured_by, TimerError};
use core::time::Duration;
use vstd::prelude::*;

verus! {

/// The generated entry of `A` at row `i`, column `j`.
pub open spec fn a_entry<T: Scalar>(m: usize, i: int, j: int) -> T {
    ratio_of::<T>(((i * j + 1) % (m as int)) as usize, m)
}

/// The generated entry of `B` at row `i`, column `j`.
pub open spec fn b_entry<T: Scalar>(n: usize, i: int, j: int) -> T {
    ratio_of::<T>(((i * j + 2) % (n as int)) as usize, n)
}

/// The generated entry of `C` at row `i`, column `j`.
pub open spec fn c_entry<T: Scalar>(m: usize, n: usize, i: int, j: int) -> T {
    ratio_of::<T>(((i * j + 3) % (m as int)) as usize, n)
}

/// `init` scaled by `beta`, then the terms
/// `aj[k] * alpha * bi[k] + bj[k] * alpha * ai[k]` for `k < n` added one
/// after the other.
pub open spec fn syr2k_cell<T: Scalar>(
    alpha: T,
    beta: T,
    init: T,
    ai: Seq<T>,
    bi: Seq<T>,
    aj: Seq<T>,
    bj: Seq<T>,
    n: nat,
) -> T
    decreases n,
{
    if n == 0 {
        init.times(beta)
    } else {
        syr2k_cell(alpha, beta, init, ai, bi, aj, bj, (n - 1) as nat).plus(
            aj[n - 1].times(alpha).times(bi[n - 1]).plus(
                bj[n - 1].times(alpha).times(ai[n - 1]),
            ),
        )
    }
}

/// Computes the generated entry of `A` at row `i`, column `j`.
pub fn a_value<T: Scalar, const M: usize, const N: usize>(i: usize, j: usize) -> (v: T)
    requires
        i < M,
        j < N,
        M * N + 2 <= usize::MAX,
    ensures
        v == a_entry::<T>(M, i as int, j as int),
{
    assert(i * j <= M * N) by (nonlinear_arith)
        requires
            i < M,
            j < N,
    ;
    ratio((i * j + 1) % M, M)
}

/// Computes the generated entry of `B` at row `i`, column `j`.
pub fn b_value<T: Scalar, const M: usize, const N: usize>(i: usize, j: usize) -> (v: T)
    requires
        i < M,
        j < N,
        M * N + 2 <= usize::MAX,
    ensures
        v == b_entry::<T>(N, i as int, j as int),
{
    assert(i * j <= M * N) by (nonlinear_arith)
        requires
            i < M,
            j < N,
    ;
    ratio((i * j + 2) % N, N)
}

/// Computes the generated entry of `C` at row `i`, column `j`.
pub fn c_value<T: Scalar, const M: usize, const N: usize>(i: usize, j: usize) -> (v: T)
    requires
        i < M,
        j < M,
        M * M + 3 <= usize::MAX,
    ensures
        v == c_entry::<T>(M, N, i as int, j as int),
{
    assert(i * j <= M * M) by (nonlinear_arith)
        requires
            i < M,
            j < M,
    ;
    ratio((i * j + 3) % M, N)
}

/// Sets the two factors and fills the three matrices, each cell with a fixed
/// function of its indices and the shape.
pub fn init_array<T: Scalar, const M: usize, const N: usize>(
    alpha: &mut T,
    beta: &mut T,
    c: &mut Uninit<Array2D<T, M, M>>,
    a: &mut Uninit<Array2D<T, M, N>>,
    b: &mut Uninit<Array2D<T, M, N>>,
)
    requires
        M * N + 2 <= usize::MAX,
        M * M + 3 <= usize::MAX,
    ensures
        *final(alpha) == ratio_of::<T>(3, 2),
        *final(beta) == ratio_of::<T>(6, 5),
        forall|i: int, j: int|
            0 <= i < M && 0 <= j < N ==> (#[trigger] final(a)@[i][j]) == Some(
                a_entry::<T>(M, i, j),
            ),
        forall|i: int, j: int|
            0 <= i < M && 0 <= j < N ==> (#[trigger] final(b)@[i][j]) == Some(
                b_entry::<T>(N, i, j),
            ),
        forall|i: int, j: int|
            0 <= i < M && 0 <= j < M ==> (#[trigger] final(c)@[i][j]) == Some(
                c_entry::<T>(M, N, i, j),
            ),
{
    *alpha = ratio(3, 2);
    *beta = ratio(6, 5);
    a.fill_with(a_value::<T, M, N>);
    b.fill_with(b_value::<T, M, N>);
    c.fill_with(c_value::<T, M, N>);
}

/// Two runs of the generator leave the same values behind: what it writes
/// depends on the indices and the shape alone, on nothing that was there
/// before and on nothing from outside.
pub proof fn init_array_is_deterministic<T: Scalar, const M: usize, const N: usize>(
    alpha_1: T,
    beta_1: T,
    c_1: Uninit<Array2D<T, M, M>>,
    a_1: Uninit<Array2D<T, M, N>>,
    b_1: Uninit<Array2D<T, M, N>>,
    alpha_2: T,
    beta_2: T,
    c_2: Uninit<Array2D<T, M, M>>,
    a_2: Uninit<Array2D<T, M, N>>,
    b_2: Uninit<Array2D<T, M, N>>,
)
    requires
        alpha_1 == ratio_of::<T>(3, 2),
        beta_1 == ratio_of::<T>(6, 5),
        forall|i: int, j: int|
            0 <= i < M && 0 <= j < N ==> (#[trigger] a_1@[i][j]) == Some(
                a_entry::<T>(M, i, j),
            ),
        forall|i: int, j: int|
            0 <= i < M && 0 <= j < N ==> (#[trigger] b_1@[i][j]) == Some(
                b_entry::<T>(N, i, j),
            ),
        forall|i: int, j: int|
            0 <= i < M && 0 <= j < M ==> (#[trigger] c_1@[i][j]) == Some(
                c_entry::<T>(M, N, i, j),
            ),
        alpha_2 == ratio_of::<T>(3, 2),
        beta_2 == ratio_of::<T>(6, 5),
        forall|i: int, j: int|
            0 <= i < M && 0 <= j < N ==> (#[trigger] a_2@[i][j]) == Some(
                a_entry::<T>(M, i, j),
            ),
        forall|i: int, j: int|
            0 <= i < M && 0 <= j < N ==> (#[trigger] b_2@[i][j]) == Some(
                b_entry::<T>(N, i, j),
            ),
        forall|i: int, j: int|
            0 <= i < M && 0 <= j < M ==> (#[trigger] c_2@[i][j]) == Some(
                c_entry::<T>(M, N, i, j),
            ),
    ensures
        alpha_1 == alpha_2,
        beta_1 == beta_2,
        c_1@ == c_2@,
        a_1@ == a_2@,
        b_1@ == b_2@,
{
    assert(c_1@ =~~= c_2@);
    assert(a_1@ =~~= a_2@);
    assert(b_1@ =~~= b_2@);
}

/// Updates `c` on and under its diagonal; what lies above the diagonal is
/// left as it is, to be had by mirroring.
#[verifier::loop_isolation(false)]
pub fn kernel_syr2k<T: Scalar, const M: usize, const N: usize>(
    alpha: T,
    beta: T,
    c: &mut Array2D<T, M, M>,
    a: &Array2D<T, M, N>,
    b: &Array2D<T, M, N>,
)
    ensures
        forall|i: int, j: int|
            0 <= j <= i < M ==> (#[trigger] final(c)@[i][j]) == syr2k_cell(
                alpha,
                beta,
                old(c)@[i][j],
                a@[i],
                b@[i],
                a@[j],
                b@[j],
                N as nat,
            ),
        forall|i: int, j: int| 0 <= i < j < M ==> (#[trigger] final(c)@[i][j]) == old(c)@[i][j],
{
    let ghost c0 = c@;
    for i in 0..M
        invariant
            forall|p: int, q: int|
                0 <= p < M && 0 <= q < M ==> (#[trigger] c@[p][q]) == (if q <= p < i {
                    syr2k_cell(alpha, beta, c0[p][q], a@[p], b@[p], a@[q], b@[q], N as nat)
                } else {
                    c0[p][q]
                }),
    {
        for j in 0..(i + 1)
            invariant
                forall|p: int, q: int|
                    0 <= p < M && 0 <= q < M ==> (#[trigger] c@[p][q]) == (if q <= p < i {
                        syr2k_cell(alpha, beta, c0[p][q], a@[p], b@[p], a@[q], b@[q], N as nat)
                    } else if p == i && q < j {
                        c0[p][q].times(beta)
                    } else {
                        c0[p][q]
                    }),
        {
            c.set(i, j, c.get(i, j).mul(beta));
        }
        for k in 0..N
            invariant
                forall|p: int, q: int|
                    0 <= p < M && 0 <= q < M ==> (#[trigger] c@[p][q]) == (if q <= p < i {
                        syr2k_cell(alpha, beta, c0[p][q], a@[p], b@[p], a@[q], b@[q], N as nat)
                    } else if p == i && q <= i {
                        syr2k_cell(alpha, beta, c0[p][q], a@[p], b@[p], a@[q], b@[q], k as nat)
                    } else {
                        c0[p][q]
                    }),
        {
            for j in 0..(i + 1)
                invariant
                    forall|p: int, q: int|
                        0 <= p < M && 0 <= q < M ==> (#[trigger] c@[p][q]) == (if q <= p < i {
                            syr2k_cell(
                                alpha,
                                beta,
                                c0[p][q],
                                a@[p],
                                b@[p],
                                a@[q],
                                b@[q],
                                N as nat,
                            )
                        } else if p == i && q <= i {
                            syr2k_cell(
                                alpha,
                                beta,
                                c0[p][q],
                                a@[p],
                                b@[p],
                                a@[q],
                                b@[q],
                                if q < j {
                                    (k + 1) as nat
                                } else {
                                    k as nat
                                },
                            )
                        } else {
                            c0[p][q]
                        }),
            {
                let first = a.get(j, k).mul(alpha).mul(*b.get(i, k));
                let second = b.get(j, k).mul(alpha).mul(*a.get(i, k));
                c.set(i, j, c.get(i, j).add(first.add(second)));
            }
        }
    }
}

/// Generates the inputs, times one run of the kernel with the given time
/// source, and returns the time between its two readings.
pub fn bench<T: Scalar, const M: usize, const N: usize, C: Fn() -> u64>(timing_function: &C) -> (r:
    Result<Duration, TimerError>)
    requires
        M * N + 2 <= usize::MAX,
        M * M + 3 <= usize::MAX,
        timing_function.requires(()),
    ensures
        measured_by(timing_function, r),
{
    let mut alpha = T::zero();
    let mut beta = T::zero();
    let mut c = Array2D::<T, M, M>::maybe_uninit();
    let mut a = Array2D::<T, M, N>::maybe_uninit();
    let mut b = Array2D::<T, M, N>::maybe_uninit();
    init_array(&mut alpha, &mut beta, &mut c, &mut a, &mut b);
    let a = a.assume_init();
    let b = b.assume_init();
    let c = c.assume_init();
    let (elapsed, c) = benchmark_with_timing_function(
        move || -> (c: Box<Array2D<T, M, M>>)
            {
                let mut c = c;
                kernel_syr2k(alpha, beta, &mut *c, &*a, &*b);
                c
            },
        timing_function,
    );
    consume(c);
    elapsed
}

} // verus!
