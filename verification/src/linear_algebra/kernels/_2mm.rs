//! Two matrix products: `D = alpha * A * B * C + beta * D`.
use crate::linear_algebra::products::{dot_column, scaled_dot_column};
use crate::ndarray::{Array2D, ArrayAlloc, Uninit};
use crate::scalar::{ratio, ratio_of, Scalar};
use crate::util::{benchmark_with_timing_function, consume, measured_by, TimerError};
use core::time::Duration;
use vstd::prelude::*;

verus! {

/// The generated entry of `A` at row `i`, column `j`.
pub open spec fn a_entry<T: Scalar>(ni: usize, i: int, j: int) -> T {
    ratio_of::<T>(((i * j + 1) % (ni as int)) as usize, ni)
}

/// The generated entry of `B` at row `i`, column `j`.
pub open spec fn b_entry<T: Scalar>(nj: usize, i: int, j: int) -> T {
    ratio_of::<T>(((i * (j + 1)) % (nj as int)) as usize, nj)
}

/// The generated entry of `C` at row `i`, column `j`.
pub open spec fn c_entry<T: Scalar>(nl: usize, i: int, j: int) -> T {
    ratio_of::<T>(((i * (j + 3) + 1) % (nl as int)) as usize, nl)
}

/// The generated entry of `D` at row `i`, column `j`.
pub open spec fn d_entry<T: Scalar>(nk: usize, i: int, j: int) -> T {
    ratio_of::<T>(((i * (j + 2)) % (nk as int)) as usize, nk)
}

/// The first product, scaled: `alpha * A * B`, of `ni` rows and `nj` columns.
pub open spec fn scaled_product<T: Scalar>(
    alpha: T,
    a: Seq<Seq<T>>,
    b: Seq<Seq<T>>,
    ni: usize,
    nj: usize,
    nk: usize,
) -> Seq<Seq<T>> {
    Seq::new(
        ni as nat,
        |i: int|
            Seq::new(
                nj as nat,
                |j: int| scaled_dot_column(T::zero_value(), alpha, a[i], b, j, nk as nat),
            ),
    )
}

/// Computes the generated entry of `A` at row `i`, column `j`.
pub fn a_value<T: Scalar, const NI: usize, const NK: usize>(i: usize, j: usize) -> (v: T)
    requires
        i < NI,
        j < NK,
        NI * (NK + 3) <= usize::MAX,
    ensures
        v == a_entry::<T>(NI, i as int, j as int),
{
    assert(i * j + 1 <= NI * (NK + 3)) by (nonlinear_arith)
        requires
            i < NI,
            j < NK,
    ;
    ratio((i * j + 1) % NI, NI)
}

/// Computes the generated entry of `B` at row `i`, column `j`.
pub fn b_value<T: Scalar, const NK: usize, const NJ: usize>(i: usize, j: usize) -> (v: T)
    requires
        i < NK,
        j < NJ,
        NK * (NJ + 3) <= usize::MAX,
    ensures
        v == b_entry::<T>(NJ, i as int, j as int),
{
    assert(i * (j + 1) <= NK * (NJ + 3) && j + 1 <= NK * (NJ + 3)) by (nonlinear_arith)
        requires
            i < NK,
            j < NJ,
    ;
    ratio(i * (j + 1) % NJ, NJ)
}

/// Computes the generated entry of `C` at row `i`, column `j`.
pub fn c_value<T: Scalar, const NJ: usize, const NL: usize>(i: usize, j: usize) -> (v: T)
    requires
        i < NJ,
        j < NL,
        NJ * (NL + 3) <= usize::MAX,
    ensures
        v == c_entry::<T>(NL, i as int, j as int),
{
    assert(i * (j + 3) + 1 <= NJ * (NL + 3) && j + 3 <= NJ * (NL + 3)) by (nonlinear_arith)
        requires
            i < NJ,
            j < NL,
    ;
    ratio((i * (j + 3) + 1) % NL, NL)
}

/// Computes the generated entry of `D` at row `i`, column `j`.
pub fn d_value<T: Scalar, const NI: usize, const NL: usize, const NK: usize>(
    i: usize,
    j: usize,
) -> (v: T)
    requires
        i < NI,
        j < NL,
        NK > 0,
        NI * (NL + 3) <= usize::MAX,
    ensures
        v == d_entry::<T>(NK, i as int, j as int),
{
    assert(i * (j + 2) <= NI * (NL + 3) && j + 2 <= NI * (NL + 3)) by (nonlinear_arith)
        requires
            i < NI,
            j < NL,
    ;
    ratio(i * (j + 2) % NK, NK)
}

/// The limits that index arithmetic puts on the shape.
pub open spec fn shape_fits(ni: usize, nj: usize, nk: usize, nl: usize) -> bool {
    &&& nk > 0
    &&& ni * (nk + 3) <= usize::MAX
    &&& nk * (nj + 3) <= usize::MAX
    &&& nj * (nl + 3) <= usize::MAX
    &&& ni * (nl + 3) <= usize::MAX
}

/// Sets the two factors and fills the four matrices, each cell with a fixed
/// function of its indices and the shape.
pub fn init_array<T: Scalar, const NI: usize, const NJ: usize, const NK: usize, const NL: usize>(
    alpha: &mut T,
    beta: &mut T,
    a: &mut Uninit<Array2D<T, NI, NK>>,
    b: &mut Uninit<Array2D<T, NK, NJ>>,
    c: &mut Uninit<Array2D<T, NJ, NL>>,
    d: &mut Uninit<Array2D<T, NI, NL>>,
)
    requires
        shape_fits(NI, NJ, NK, NL),
    ensures
        *final(alpha) == ratio_of::<T>(3, 2),
        *final(beta) == ratio_of::<T>(6, 5),
        forall|i: int, j: int|
            0 <= i < NI && 0 <= j < NK ==> (#[trigger] final(a)@[i][j]) == Some(
                a_entry::<T>(NI, i, j),
            ),
        forall|i: int, j: int|
            0 <= i < NK && 0 <= j < NJ ==> (#[trigger] final(b)@[i][j]) == Some(
                b_entry::<T>(NJ, i, j),
            ),
        forall|i: int, j: int|
            0 <= i < NJ && 0 <= j < NL ==> (#[trigger] final(c)@[i][j]) == Some(
                c_entry::<T>(NL, i, j),
            ),
        forall|i: int, j: int|
            0 <= i < NI && 0 <= j < NL ==> (#[trigger] final(d)@[i][j]) == Some(
                d_entry::<T>(NK, i, j),
            ),
{
    *alpha = ratio(3, 2);
    *beta = ratio(6, 5);
    a.fill_with(a_value::<T, NI, NK>);
    b.fill_with(b_value::<T, NK, NJ>);
    c.fill_with(c_value::<T, NJ, NL>);
    d.fill_with(d_value::<T, NI, NL, NK>);
}

/// Two runs of the generator leave the same values behind: what it writes
/// depends on the indices and the shape alone, on nothing that was there
/// before and on nothing from outside.
pub proof fn init_array_is_deterministic<T: Scalar, const NI: usize, const NJ: usize, const NK: usize, const NL: usize>(
    alpha_1: T,
    beta_1: T,
    a_1: Uninit<Array2D<T, NI, NK>>,
    b_1: Uninit<Array2D<T, NK, NJ>>,
    c_1: Uninit<Array2D<T, NJ, NL>>,
    d_1: Uninit<Array2D<T, NI, NL>>,
    alpha_2: T,
    beta_2: T,
    a_2: Uninit<Array2D<T, NI, NK>>,
    b_2: Uninit<Array2D<T, NK, NJ>>,
    c_2: Uninit<Array2D<T, NJ, NL>>,
    d_2: Uninit<Array2D<T, NI, NL>>,
)
    requires
        alpha_1 == ratio_of::<T>(3, 2),
        beta_1 == ratio_of::<T>(6, 5),
        forall|i: int, j: int|
            0 <= i < NI && 0 <= j < NK ==> (#[trigger] a_1@[i][j]) == Some(
                a_entry::<T>(NI, i, j),
            ),
        forall|i: int, j: int|
            0 <= i < NK && 0 <= j < NJ ==> (#[trigger] b_1@[i][j]) == Some(
                b_entry::<T>(NJ, i, j),
            ),
        forall|i: int, j: int|
            0 <= i < NJ && 0 <= j < NL ==> (#[trigger] c_1@[i][j]) == Some(
                c_entry::<T>(NL, i, j),
            ),
        forall|i: int, j: int|
            0 <= i < NI && 0 <= j < NL ==> (#[trigger] d_1@[i][j]) == Some(
                d_entry::<T>(NK, i, j),
            ),
        alpha_2 == ratio_of::<T>(3, 2),
        beta_2 == ratio_of::<T>(6, 5),
        forall|i: int, j: int|
            0 <= i < NI && 0 <= j < NK ==> (#[trigger] a_2@[i][j]) == Some(
                a_entry::<T>(NI, i, j),
            ),
        forall|i: int, j: int|
            0 <= i < NK && 0 <= j < NJ ==> (#[trigger] b_2@[i][j]) == Some(
                b_entry::<T>(NJ, i, j),
            ),
        forall|i: int, j: int|
            0 <= i < NJ && 0 <= j < NL ==> (#[trigger] c_2@[i][j]) == Some(
                c_entry::<T>(NL, i, j),
            ),
        forall|i: int, j: int|
            0 <= i < NI && 0 <= j < NL ==> (#[trigger] d_2@[i][j]) == Some(
                d_entry::<T>(NK, i, j),
            ),
    ensures
        alpha_1 == alpha_2,
        beta_1 == beta_2,
        a_1@ == a_2@,
        b_1@ == b_2@,
        c_1@ == c_2@,
        d_1@ == d_2@,
{
    assert(a_1@ =~~= a_2@);
    assert(b_1@ =~~= b_2@);
    assert(c_1@ =~~= c_2@);
    assert(d_1@ =~~= d_2@);
}

/// `tmp = alpha * A * B`, then `D = beta * D + tmp * C`.
#[verifier::loop_isolation(false)]
pub fn kernel_2mm<T: Scalar, const NI: usize, const NJ: usize, const NK: usize, const NL: usize>(
    alpha: T,
    beta: T,
    tmp: &mut Array2D<T, NI, NJ>,
    a: &Array2D<T, NI, NK>,
    b: &Array2D<T, NK, NJ>,
    c: &Array2D<T, NJ, NL>,
    d: &mut Array2D<T, NI, NL>,
)
    ensures
        final(tmp)@ == scaled_product(alpha, a@, b@, NI, NJ, NK),
        forall|i: int, j: int|
            0 <= i < NI && 0 <= j < NL ==> (#[trigger] final(d)@[i][j]) == dot_column(
                old(d)@[i][j].times(beta),
                final(tmp)@[i],
                c@,
                j,
                NJ as nat,
            ),
{
    for i in 0..NI
        invariant
            forall|p: int, q: int|
                0 <= p < i && 0 <= q < NJ ==> (#[trigger] tmp@[p][q]) == scaled_dot_column(
                    T::zero_value(),
                    alpha,
                    a@[p],
                    b@,
                    q,
                    NK as nat,
                ),
    {
        for j in 0..NJ
            invariant
                forall|p: int, q: int|
                    0 <= p < NI && 0 <= q < NJ && (p < i || (p == i && q < j)) ==> (
                    #[trigger] tmp@[p][q]) == scaled_dot_column(
                        T::zero_value(),
                        alpha,
                        a@[p],
                        b@,
                        q,
                        NK as nat,
                    ),
        {
            tmp.set(i, j, T::zero());
            for k in 0..NK
                invariant
                    tmp@[i as int][j as int] == scaled_dot_column(
                        T::zero_value(),
                        alpha,
                        a@[i as int],
                        b@,
                        j as int,
                        k as nat,
                    ),
                    forall|p: int, q: int|
                        0 <= p < NI && 0 <= q < NJ && (p < i || (p == i && q < j)) ==> (
                        #[trigger] tmp@[p][q]) == scaled_dot_column(
                            T::zero_value(),
                            alpha,
                            a@[p],
                            b@,
                            q,
                            NK as nat,
                        ),
            {
                tmp.set(i, j, tmp.get(i, j).add(alpha.mul(*a.get(i, k)).mul(*b.get(k, j))));
            }
        }
    }
    assert(tmp@ =~~= scaled_product(alpha, a@, b@, NI, NJ, NK));
    let ghost t = tmp@;
    for i in 0..NI
        invariant
            tmp@ == t,
            forall|p: int, q: int|
                0 <= p < NI && 0 <= q < NL ==> (#[trigger] d@[p][q]) == (if p < i {
                    dot_column(old(d)@[p][q].times(beta), t[p], c@, q, NJ as nat)
                } else {
                    old(d)@[p][q]
                }),
    {
        for j in 0..NL
            invariant
                tmp@ == t,
                forall|p: int, q: int|
                    0 <= p < NI && 0 <= q < NL ==> (#[trigger] d@[p][q]) == (if p < i || (p == i
                        && q < j) {
                        dot_column(old(d)@[p][q].times(beta), t[p], c@, q, NJ as nat)
                    } else {
                        old(d)@[p][q]
                    }),
        {
            d.set(i, j, d.get(i, j).mul(beta));
            for k in 0..NJ
                invariant
                    tmp@ == t,
                    forall|p: int, q: int|
                        0 <= p < NI && 0 <= q < NL ==> (#[trigger] d@[p][q]) == (if p < i || (p
                            == i && q < j) {
                            dot_column(old(d)@[p][q].times(beta), t[p], c@, q, NJ as nat)
                        } else if p == i && q == j {
                            dot_column(old(d)@[p][q].times(beta), t[p], c@, q, k as nat)
                        } else {
                            old(d)@[p][q]
                        }),
            {
                d.set(i, j, d.get(i, j).add(tmp.get(i, k).mul(*c.get(k, j))));
            }
        }
    }
}

/// Generates the inputs, times one run of the kernel with the given time
/// source, and returns the time between its two readings.
pub fn bench<
    T: Scalar,
    const NI: usize,
    const NJ: usize,
    const NK: usize,
    const NL: usize,
    C: Fn() -> u64,
>(timing_function: &C) -> (r: Result<Duration, TimerError>)
    requires
        shape_fits(NI, NJ, NK, NL),
        timing_function.requires(()),
    ensures
        measured_by(timing_function, r),
{
    let mut alpha = T::zero();
    let mut beta = T::zero();
    let tmp = Array2D::<T, NI, NJ>::maybe_uninit_zeroed();
    let mut a = Array2D::<T, NI, NK>::maybe_uninit();
    let mut b = Array2D::<T, NK, NJ>::maybe_uninit();
    let mut c = Array2D::<T, NJ, NL>::maybe_uninit();
    let mut d = Array2D::<T, NI, NL>::maybe_uninit();
    init_array(&mut alpha, &mut beta, &mut a, &mut b, &mut c, &mut d);
    let a = a.assume_init();
    let b = b.assume_init();
    let c = c.assume_init();
    let d = d.assume_init();
    let (elapsed, d) = benchmark_with_timing_function(
        move || -> (d: Box<Array2D<T, NI, NL>>)
            {
                let mut tmp = tmp;
                let mut d = d;
                kernel_2mm(alpha, beta, &mut *tmp, &*a, &*b, &*c, &mut *d);
                d
            },
        timing_function,
    );
    consume(d);
    elapsed
}

} // verus!
