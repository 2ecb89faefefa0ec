//! Symmetric rank-k update: `C = beta * C + alpha * A * transpose(A)`, on and
//! under the diagonal of `C` only.
use crate::ndarray::{Array2D, ArrayAlloc, Uninit};
use crate::scalar::{ratio, ratio_of, Scalar};
use crate::util::{benchmark_with_timing_function, consume, measured_by, TimerError};
use core::time::Duration;
use vstd::prelude::*;

verus! {

/// The generated entry of `A` at row `i`, column `j`.
pub open spec fn a_entry<T: Scalar>(m: usize, i: int, j: int) -> T {
    ratio_of::<T>(((i * j + 1) % (m as int)) as usize, m)
}

/// The generated entry of `C` at row `i`, column `j`.
pub open spec fn c_entry<T: Scalar>(n: usize, i: int, j: int) -> T {
    ratio_of::<T>(((i * j + 2) % (n as int)) as usize, n)
}

/// `init` scaled by `beta`, then the products `alpha * ai[k] * aj[k]` for
/// `k < n` added one after the other.
pub open spec fn syrk_cell<T: Scalar>(alpha: T, beta: T, init: T, ai: Seq<T>, aj: Seq<T>, n: nat) -> T
    decreases n,
{
    if n == 0 {
        init.times(beta)
    } else {
        syrk_cell(alpha, beta, init, ai, aj, (n - 1) as nat).plus(
            alpha.times(ai[n - 1]).times(aj[n - 1]),
        )
    }
}

/// `c` with what lies on and under its diagonal copied over the diagonal.
pub open spec fn mirrored<T>(c: Seq<Seq<T>>) -> Seq<Seq<T>> {
    Seq::new(
        c.len(),
        |i: int|
            Seq::new(
                c.len(),
                |j: int|
                    if j <= i {
                        c[i][j]
                    } else {
                        c[j][i]
                    },
            ),
    )
}

/// A matrix with its written half mirrored into the other half is symmetric,
/// and agrees with the matrix on the written half.
pub proof fn mirrored_is_symmetric<T>(c: Seq<Seq<T>>)
    ensures
        forall|i: int, j: int|
            0 <= i < c.len() && 0 <= j < c.len() ==> (#[trigger] mirrored(c)[i][j]) == mirrored(
                c,
            )[j][i],
        forall|i: int, j: int| 0 <= j <= i < c.len() ==> (#[trigger] mirrored(c)[i][j]) == c[i][j],
{
}

/// Computes the generated entry of `A` at row `i`, column `j`.
pub fn a_value<T: Scalar, const M: usize, const N: usize>(i: usize, j: usize) -> (v: T)
    requires
        i < M,
        j < N,
        M * N < usize::MAX,
    ensures
        v == a_entry::<T>(M, i as int, j as int),
{
    assert(i * j <= M * N) by (nonlinear_arith)
        requires
            i < M,
            j < N,
    ;
    ratio((i * j + 1) % M, M)
}

/// Computes the generated entry of `C` at row `i`, column `j`.
pub fn c_value<T: Scalar, const M: usize, const N: usize>(i: usize, j: usize) -> (v: T)
    requires
        i < M,
        j < M,
        N > 0,
        M * M + 2 <= usize::MAX,
    ensures
        v == c_entry::<T>(N, i as int, j as int),
{
    assert(i * j <= M * M) by (nonlinear_arith)
        requires
            i < M,
            j < M,
    ;
    ratio((i * j + 2) % N, N)
}

/// Sets the two factors and fills the two matrices, each cell with a fixed
/// function of its indices and the shape.
pub fn init_array<T: Scalar, const M: usize, const N: usize>(
    alpha: &mut T,
    beta: &mut T,
    c: &mut Uninit<Array2D<T, M, M>>,
    a: &mut Uninit<Array2D<T, M, N>>,
)
    requires
        N > 0,
        M * N < usize::MAX,
        M * M + 2 <= usize::MAX,
    ensures
        *final(alpha) == ratio_of::<T>(3, 2),
        *final(beta) == ratio_of::<T>(6, 5),
        forall|i: int, j: int|
            0 <= i < M && 0 <= j < N ==> (#[trigger] final(a)@[i][j]) == Some(
                a_entry::<T>(M, i, j),
            ),
        forall|i: int, j: int|
            0 <= i < M && 0 <= j < M ==> (#[trigger] final(c)@[i][j]) == Some(
                c_entry::<T>(N, i, j),
            ),
{
    *alpha = ratio(3, 2);
    *beta = ratio(6, 5);
    a.fill_with(a_value::<T, M, N>);
    c.fill_with(c_value::<T, M, N>);
}

/// Two runs of the generator leave the same values behind: what it writes
/// depends on the indices and the shape alone, on nothing that was there
/// before and on nothing from outside.
pub proof fn init_array_is_deterministic<T: Scalar, const M: usize, const N: usize>(
    alpha_1: T,
    beta_1: T,
    c_1: Uninit<Array2D<T, M, M>>,
    a_1: Uninit<Array2D<T, M, N>>,
    alpha_2: T,
    beta_2: T,
    c_2: Uninit<Array2D<T, M, M>>,
    a_2: Uninit<Array2D<T, M, N>>,
)
    requires
        alpha_1 == ratio_of::<T>(3, 2),
        beta_1 == ratio_of::<T>(6, 5),
        forall|i: int, j: int|
            0 <= i < M && 0 <= j < N ==> (#[trigger] a_1@[i][j]) == Some(
                a_entry::<T>(M, i, j),
            ),
        forall|i: int, j: int|
            0 <= i < M && 0 <= j < M ==> (#[trigger] c_1@[i][j]) == Some(
                c_entry::<T>(N, i, j),
            ),
        alpha_2 == ratio_of::<T>(3, 2),
        beta_2 == ratio_of::<T>(6, 5),
        forall|i: int, j: int|
            0 <= i < M && 0 <= j < N ==> (#[trigger] a_2@[i][j]) == Some(
                a_entry::<T>(M, i, j),
            ),
        forall|i: int, j: int|
            0 <= i < M && 0 <= j < M ==> (#[trigger] c_2@[i][j]) == Some(
                c_entry::<T>(N, i, j),
            ),
    ensures
        alpha_1 == alpha_2,
        beta_1 == beta_2,
        c_1@ == c_2@,
        a_1@ == a_2@,
{
    assert(c_1@ =~~= c_2@);
    assert(a_1@ =~~= a_2@);
}

/// Updates `c` on and under its diagonal; what lies above the diagonal is
/// left as it is, to be had by mirroring.
#[verifier::loop_isolation(false)]
pub fn kernel_syrk<T: Scalar, const M: usize, const N: usize>(
    alpha: T,
    beta: T,
    c: &mut Array2D<T, M, M>,
    a: &Array2D<T, M, N>,
)
    ensures
        forall|i: int, j: int|
            0 <= j <= i < M ==> (#[trigger] final(c)@[i][j]) == syrk_cell(
                alpha,
                beta,
                old(c)@[i][j],
                a@[i],
                a@[j],
                N as nat,
            ),
        forall|i: int, j: int| 0 <= i < j < M ==> (#[trigger] final(c)@[i][j]) == old(c)@[i][j],
{
    let ghost c0 = c@;
    for i in 0..M
        invariant
            forall|p: int, q: int|
                0 <= p < M && 0 <= q < M ==> (#[trigger] c@[p][q]) == (if q <= p < i {
                    syrk_cell(alpha, beta, c0[p][q], a@[p], a@[q], N as nat)
                } else {
                    c0[p][q]
                }),
    {
        for j in 0..(i + 1)
            invariant
                forall|p: int, q: int|
                    0 <= p < M && 0 <= q < M ==> (#[trigger] c@[p][q]) == (if q <= p < i {
                        syrk_cell(alpha, beta, c0[p][q], a@[p], a@[q], N as nat)
                    } else if p == i && q < j {
                        c0[p][q].times(beta)
                    } else {
                        c0[p][q]
                    }),
        {
            c.set(i, j, c.get(i, j).mul(beta));
        }
        for k in 0..N
            invariant
                forall|p: int, q: int|
                    0 <= p < M && 0 <= q < M ==> (#[trigger] c@[p][q]) == (if q <= p < i {
                        syrk_cell(alpha, beta, c0[p][q], a@[p], a@[q], N as nat)
                    } else if p == i && q <= i {
                        syrk_cell(alpha, beta, c0[p][q], a@[p], a@[q], k as nat)
                    } else {
                        c0[p][q]
                    }),
        {
            for j in 0..(i + 1)
                invariant
                    forall|p: int, q: int|
                        0 <= p < M && 0 <= q < M ==> (#[trigger] c@[p][q]) == (if q <= p < i {
                            syrk_cell(alpha, beta, c0[p][q], a@[p], a@[q], N as nat)
                        } else if p == i && q <= i {
                            syrk_cell(
                                alpha,
                                beta,
                                c0[p][q],
                                a@[p],
                                a@[q],
                                if q < j {
                                    (k + 1) as nat
                                } else {
                                    k as nat
                                },
                            )
                        } else {
                            c0[p][q]
                        }),
            {
                c.set(i, j, c.get(i, j).add(alpha.mul(*a.get(i, k)).mul(*a.get(j, k))));
            }
        }
    }
}

/// Generates the inputs, times one run of the kernel with the given time
/// source, and returns the time between its two readings.
pub fn bench<T: Scalar, const M: usize, const N: usize, C: Fn() -> u64>(timing_function: &C) -> (r:
    Result<Duration, TimerError>)
    requires
        N > 0,
        M * N < usize::MAX,
        M * M + 2 <= usize::MAX,
        timing_function.requires(()),
    ensures
        measured_by(timing_function, r),
{
    let mut alpha = T::zero();
    let mut beta = T::zero();
    let mut c = Array2D::<T, M, M>::maybe_uninit();
    let mut a = Array2D::<T, M, N>::maybe_uninit();
    init_array(&mut alpha, &mut beta, &mut c, &mut a);
    let a = a.assume_init();
    let c = c.assume_init();
    let (elapsed, c) = benchmark_with_timing_function(
        move || -> (c: Box<Array2D<T, M, M>>)
            {
                let mut c = c;
                kernel_syrk(alpha, beta, &mut *c, &*a);
                c
            },
        timing_function,
    );
    consume(c);
    elapsed
}

} // verus!
