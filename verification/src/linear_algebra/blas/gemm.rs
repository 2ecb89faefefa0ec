//! General matrix multiply: `C = beta * C + alpha * A * B`.
use crate::ndarray::{Array2D, ArrayAlloc, Uninit};
use crate::scalar::{ratio, ratio_of, Scalar};
use crate::util::{benchmark_with_timing_function, consume, measured_by, TimerError};
use core::time::Duration;
use vstd::prelude::*;

verus! {

/// The generated entry of `C` at row `i`, column `j`.
pub open spec fn c_entry<T: Scalar>(ni: usize, i: int, j: int) -> T {
    ratio_of::<T>(((i * j + 1) % (ni as int)) as usize, ni)
}

/// The generated entry of `A` at row `i`, column `j`.
pub open spec fn a_entry<T: Scalar>(nk: usize, i: int, j: int) -> T {
    ratio_of::<T>(((i * (j + 1)) % (nk as int)) as usize, nk)
}

/// The generated entry of `B` at row `i`, column `j`.
pub open spec fn b_entry<T: Scalar>(nj: usize, i: int, j: int) -> T {
    ratio_of::<T>(((i * (j + 2)) % (nj as int)) as usize, nj)
}

/// `init` scaled by `beta`, then the terms `alpha * a[k] * b[k][j]` for
/// `k < n` added one after the other.
pub open spec fn gemm_cell<T: Scalar>(
    alpha: T,
    beta: T,
    init: T,
    a: Seq<T>,
    b: Seq<Seq<T>>,
    j: int,
    n: nat,
) -> T
    decreases n,
{
    if n == 0 {
        init.times(beta)
    } else {
        gemm_cell(alpha, beta, init, a, b, j, (n - 1) as nat).plus(
            alpha.times(a[n - 1]).times(b[n - 1][j]),
        )
    }
}

/// Computes the generated entry of `C` at row `i`, column `j`.
pub fn c_value<T: Scalar, const NI: usize, const NJ: usize>(i: usize, j: usize) -> (v: T)
    requires
        i < NI,
        j < NJ,
        NI * NJ < usize::MAX,
    ensures
        v == c_entry::<T>(NI, i as int, j as int),
{
    assert(i * j <= NI * NJ) by (nonlinear_arith)
        requires
            i < NI,
            j < NJ,
    ;
    ratio((i * j + 1) % NI, NI)
}

/// Computes the generated entry of `A` at row `i`, column `j`.
pub fn a_value<T: Scalar, const NI: usize, const NK: usize>(i: usize, j: usize) -> (v: T)
    requires
        i < NI,
        j < NK,
        NI * NK < usize::MAX,
    ensures
        v == a_entry::<T>(NK, i as int, j as int),
{
    assert(i * (j + 1) <= NI * NK) by (nonlinear_arith)
        requires
            i < NI,
            j < NK,
    ;
    ratio(i * (j + 1) % NK, NK)
}

/// Computes the generated entry of `B` at row `i`, column `j`.
pub fn b_value<T: Scalar, const NK: usize, const NJ: usize>(i: usize, j: usize) -> (v: T)
    requires
        i < NK,
        j < NJ,
        NK * (NJ + 1) < usize::MAX,
    ensures
        v == b_entry::<T>(NJ, i as int, j as int),
{
    assert(j + 2 <= NK * (NJ + 1) && i * (j + 2) <= NK * (NJ + 1)) by (nonlinear_arith)
        requires
            i < NK,
            j < NJ,
    ;
    ratio(i * (j + 2) % NJ, NJ)
}

/// Sets the two factors and fills the three matrices, each cell with a fixed
/// function of its indices and the shape.
pub fn init_array<T: Scalar, const NI: usize, const NJ: usize, const NK: usize>(
    alpha: &mut T,
    beta: &mut T,
    c: &mut Uninit<Array2D<T, NI, NJ>>,
    a: &mut Uninit<Array2D<T, NI, NK>>,
    b: &mut Uninit<Array2D<T, NK, NJ>>,
)
    requires
        NI * NJ < usize::MAX,
        NI * NK < usize::MAX,
        NK * (NJ + 1) < usize::MAX,
    ensures
        *final(alpha) == ratio_of::<T>(3, 2),
        *final(beta) == ratio_of::<T>(6, 5),
        forall|i: int, j: int|
            0 <= i < NI && 0 <= j < NJ ==> (#[trigger] final(c)@[i][j]) == Some(
                c_entry::<T>(NI, i, j),
            ),
        forall|i: int, j: int|
            0 <= i < NI && 0 <= j < NK ==> (#[trigger] final(a)@[i][j]) == Some(
                a_entry::<T>(NK, i, j),
            ),
        forall|i: int, j: int|
            0 <= i < NK && 0 <= j < NJ ==> (#[trigger] final(b)@[i][j]) == Some(
                b_entry::<T>(NJ, i, j),
            ),
{
    *alpha = ratio(3, 2);
    *beta = ratio(6, 5);
    c.fill_with(c_value::<T, NI, NJ>);
    a.fill_with(a_value::<T, NI, NK>);
    b.fill_with(b_value::<T, NK, NJ>);
}

/// Two runs of the generator leave the same values behind: what it writes
/// depends on the indices and the shape alone, on nothing that was there
/// before and on nothing from outside.
pub proof fn init_array_is_deterministic<T: Scalar, const NI: usize, const NJ: usize, const NK: usize>(
    alpha_1: T,
    beta_1: T,
    c_1: Uninit<Array2D<T, NI, NJ>>,
    a_1: Uninit<Array2D<T, NI, NK>>,
    b_1: Uninit<Array2D<T, NK, NJ>>,
    alpha_2: T,
    beta_2: T,
    c_2: Uninit<Array2D<T, NI, NJ>>,
    a_2: Uninit<Array2D<T, NI, NK>>,
    b_2: Uninit<Array2D<T, NK, NJ>>,
)
    requires
        alpha_1 == ratio_of::<T>(3, 2),
        beta_1 == ratio_of::<T>(6, 5),
        forall|i: int, j: int|
            0 <= i < NI && 0 <= j < NJ ==> (#[trigger] c_1@[i][j]) == Some(
                c_entry::<T>(NI, i, j),
            ),
        forall|i: int, j: int|
            0 <= i < NI && 0 <= j < NK ==> (#[trigger] a_1@[i][j]) == Some(
                a_entry::<T>(NK, i, j),
            ),
        forall|i: int, j: int|
            0 <= i < NK && 0 <= j < NJ ==> (#[trigger] b_1@[i][j]) == Some(
                b_entry::<T>(NJ, i, j),
            ),
        alpha_2 == ratio_of::<T>(3, 2),
        beta_2 == ratio_of::<T>(6, 5),
        forall|i: int, j: int|
            0 <= i < NI && 0 <= j < NJ ==> (#[trigger] c_2@[i][j]) == Some(
                c_entry::<T>(NI, i, j),
            ),
        forall|i: int, j: int|
            0 <= i < NI && 0 <= j < NK ==> (#[trigger] a_2@[i][j]) == Some(
                a_entry::<T>(NK, i, j),
            ),
        forall|i: int, j: int|
            0 <= i < NK && 0 <= j < NJ ==> (#[trigger] b_2@[i][j]) == Some(
                b_entry::<T>(NJ, i, j),
            ),
    ensures
        alpha_1 == alpha_2,
        beta_1 == beta_2,
        c_1@ == c_2@,
        a_1@ == a_2@,
        b_1@ == b_2@,
{
    assert(c_1@ =~~= c_2@);
    assert(a_1@ =~~= a_2@);
    assert(b_1@ =~~= b_2@);
}

/// `C = beta * C + alpha * A * B`, by a triple loop with one accumulator per
/// cell.
pub fn kernel_gemm<T: Scalar, const NI: usize, const NJ: usize, const NK: usize>(
    alpha: T,
    beta: T,
    c: &mut Array2D<T, NI, NJ>,
    a: &Array2D<T, NI, NK>,
    b: &Array2D<T, NK, NJ>,
)
    ensures
        forall|i: int, j: int|
            0 <= i < NI && 0 <= j < NJ ==> (#[trigger] final(c)@[i][j]) == gemm_cell(
                alpha,
                beta,
                old(c)@[i][j],
                a@[i],
                b@,
                j,
                NK as nat,
            ),
{
    for i in 0..NI
        invariant
            forall|p: int, q: int|
                0 <= p < NI && 0 <= q < NJ ==> (#[trigger] c@[p][q]) == (if p < i {
                    gemm_cell(alpha, beta, old(c)@[p][q], a@[p], b@, q, NK as nat)
                } else {
                    old(c)@[p][q]
                }),
    {
        for j in 0..NJ
            invariant
                i < NI,
                forall|p: int, q: int|
                    0 <= p < NI && 0 <= q < NJ ==> (#[trigger] c@[p][q]) == (if p < i || (p == i
                        && q < j) {
                        gemm_cell(alpha, beta, old(c)@[p][q], a@[p], b@, q, NK as nat)
                    } else {
                        old(c)@[p][q]
                    }),
        {
            c.set(i, j, c.get(i, j).mul(beta));
            for k in 0..NK
                invariant
                    i < NI,
                    j < NJ,
                    forall|p: int, q: int|
                        0 <= p < NI && 0 <= q < NJ ==> (#[trigger] c@[p][q]) == (if p < i || (p
                            == i && q < j) {
                            gemm_cell(alpha, beta, old(c)@[p][q], a@[p], b@, q, NK as nat)
                        } else if p == i && q == j {
                            gemm_cell(alpha, beta, old(c)@[p][q], a@[p], b@, q, k as nat)
                        } else {
                            old(c)@[p][q]
                        }),
            {
                let term = alpha.mul(*a.get(i, k)).mul(*b.get(k, j));
                c.set(i, j, c.get(i, j).add(term));
            }
        }
    }
}

/// Generates the inputs, times one run of the kernel with the given time
/// source, and returns the time between its two readings.
pub fn bench<T: Scalar, const NI: usize, const NJ: usize, const NK: usize, C: Fn() -> u64>(
    timing_function: &C,
) -> (r: Result<Duration, TimerError>)
    requires
        NI * NJ < usize::MAX,
        NI * NK < usize::MAX,
        NK * (NJ + 1) < usize::MAX,
        timing_function.requires(()),
    ensures
        measured_by(timing_function, r),
{
    let mut alpha = T::zero();
    let mut beta = T::zero();
    let mut c = Array2D::<T, NI, NJ>::maybe_uninit();
    let mut a = Array2D::<T, NI, NK>::maybe_uninit();
    let mut b = Array2D::<T, NK, NJ>::maybe_uninit();
    init_array(&mut alpha, &mut beta, &mut c, &mut a, &mut b);
    let a = a.assume_init();
    let b = b.assume_init();
    let c = c.assume_init();
    let (elapsed, c) = benchmark_with_timing_function(
        move || -> (c: Box<Array2D<T, NI, NJ>>)
            {
                let mut c = c;
                kernel_gemm(alpha, beta, &mut *c, &*a, &*b);
                c
            },
        timing_function,
    );
    consume(c);
    elapsed
}

} // verus!
