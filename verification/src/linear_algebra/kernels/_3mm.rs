//! Three matrix products: `G = (A * B) * (C * D)`.
use crate::linear_algebra::products::{dot_column, matmul};
use crate::ndarray::{Array2D, ArrayAlloc, Uninit};
use crate::scalar::{ratio, ratio_of, Scalar};
use crate::util::{benchmark_with_timing_function, consume, measured_by, TimerError};
use core::time::Duration;
use vstd::prelude::*;

verus! {

/// The generated entry of `A` at row `i`, column `j`.
pub open spec fn a_entry<T: Scalar>(ni: usize, i: int, j: int) -> T {
    ratio_of::<T>(((i * j + 1) % (ni as int)) as usize, (5 * ni) as usize)
}

/// The generated entry of `B` at row `i`, column `j`.
pub open spec fn b_entry<T: Scalar>(nj: usize, i: int, j: int) -> T {
    ratio_of::<T>(((i * (j + 1) + 2) % (nj as int)) as usize, (5 * nj) as usize)
}

/// The generated entry of `C` at row `i`, column `j`.
pub open spec fn c_entry<T: Scalar>(nl: usize, i: int, j: int) -> T {
    ratio_of::<T>(((i * (j + 3)) % (nl as int)) as usize, (5 * nl) as usize)
}

/// The generated entry of `D` at row `i`, column `j`.
pub open spec fn d_entry<T: Scalar>(nk: usize, i: int, j: int) -> T {
    ratio_of::<T>(((i * (j + 2) + 2) % (nk as int)) as usize, (5 * nk) as usize)
}

/// Computes the generated entry of `A` at row `i`, column `j`.
pub fn a_value<T: Scalar, const NI: usize, const NK: usize>(i: usize, j: usize) -> (v: T)
    requires
        i < NI,
        j < NK,
        NI * (NK + 5) <= usize::MAX,
    ensures
        v == a_entry::<T>(NI, i as int, j as int),
{
    assert(i * j + 1 <= NI * (NK + 5) && 5 * NI <= NI * (NK + 5)) by (nonlinear_arith)
        requires
            i < NI,
            j < NK,
    ;
    ratio((i * j + 1) % NI, 5 * NI)
}

/// Computes the generated entry of `B` at row `i`, column `j`.
pub fn b_value<T: Scalar, const NK: usize, const NJ: usize>(i: usize, j: usize) -> (v: T)
    requires
        i < NK,
        j < NJ,
        (NK + 5) * (NJ + 2) <= usize::MAX,
    ensures
        v == b_entry::<T>(NJ, i as int, j as int),
{
    assert(i * (j + 1) + 2 <= (NK + 5) * (NJ + 2) && 5 * NJ <= (NK + 5) * (NJ + 2) && j + 1 <= (NK
        + 5) * (NJ + 2)) by (nonlinear_arith)
        requires
            i < NK,
            j < NJ,
    ;
    ratio((i * (j + 1) + 2) % NJ, 5 * NJ)
}

/// Computes the generated entry of `C` at row `i`, column `j`.
pub fn c_value<T: Scalar, const NJ: usize, const NM: usize, const NL: usize>(
    i: usize,
    j: usize,
) -> (v: T)
    requires
        i < NJ,
        j < NM,
        NL > 0,
        NJ * (NM + 3) <= usize::MAX,
        5 * NL <= usize::MAX,
    ensures
        v == c_entry::<T>(NL, i as int, j as int),
{
    assert(i * (j + 3) <= NJ * (NM + 3) && j + 3 <= NJ * (NM + 3)) by (nonlinear_arith)
        requires
            i < NJ,
            j < NM,
    ;
    ratio(i * (j + 3) % NL, 5 * NL)
}

/// Computes the generated entry of `D` at row `i`, column `j`.
pub fn d_value<T: Scalar, const NM: usize, const NL: usize, const NK: usize>(
    i: usize,
    j: usize,
) -> (v: T)
    requires
        i < NM,
        j < NL,
        NK > 0,
        NM * (NL + 3) <= usize::MAX,
        5 * NK <= usize::MAX,
    ensures
        v == d_entry::<T>(NK, i as int, j as int),
{
    assert(i * (j + 2) + 2 <= NM * (NL + 3) && j + 2 <= NM * (NL + 3)) by (nonlinear_arith)
        requires
            i < NM,
            j < NL,
    ;
    ratio((i * (j + 2) + 2) % NK, 5 * NK)
}

/// The limits that index arithmetic puts on the shape.
pub open spec fn shape_fits(ni: usize, nj: usize, nk: usize, nl: usize, nm: usize) -> bool {
    &&& nk > 0
    &&& nl > 0
    &&& ni * (nk + 5) <= usize::MAX
    &&& (nk + 5) * (nj + 2) <= usize::MAX
    &&& nj * (nm + 3) <= usize::MAX
    &&& nm * (nl + 3) <= usize::MAX
    &&& 5 * nl <= usize::MAX
    &&& 5 * nk <= usize::MAX
}

/// Fills the four factors, each cell with a fixed function of its indices and
/// the shape.
pub fn init_array<
    T: Scalar,
    const NI: usize,
    const NJ: usize,
    const NK: usize,
    const NL: usize,
    const NM: usize,
>(
    a: &mut Uninit<Array2D<T, NI, NK>>,
    b: &mut Uninit<Array2D<T, NK, NJ>>,
    c: &mut Uninit<Array2D<T, NJ, NM>>,
    d: &mut Uninit<Array2D<T, NM, NL>>,
)
    requires
        shape_fits(NI, NJ, NK, NL, NM),
    ensures
        forall|i: int, j: int|
            0 <= i < NI && 0 <= j < NK ==> (#[trigger] final(a)@[i][j]) == Some(
                a_entry::<T>(NI, i, j),
            ),
        forall|i: int, j: int|
            0 <= i < NK && 0 <= j < NJ ==> (#[trigger] final(b)@[i][j]) == Some(
                b_entry::<T>(NJ, i, j),
            ),
        forall|i: int, j: int|
            0 <= i < NJ && 0 <= j < NM ==> (#[trigger] final(c)@[i][j]) == Some(
                c_entry::<T>(NL, i, j),
            ),
        forall|i: int, j: int|
            0 <= i < NM && 0 <= j < NL ==> (#[trigger] final(d)@[i][j]) == Some(
                d_entry::<T>(NK, i, j),
            ),
{
    a.fill_with(a_value::<T, NI, NK>);
    b.fill_with(b_value::<T, NK, NJ>);
    c.fill_with(c_value::<T, NJ, NM, NL>);
    d.fill_with(d_value::<T, NM, NL, NK>);
}

/// Two runs of the generator leave the same values behind: what it writes
/// depends on the indices and the shape alone, on nothing that was there
/// before and on nothing from outside.
pub proof fn init_array_is_deterministic<T: Scalar, const NI: usize, const NJ: usize, const NK: usize, const NL: usize, const NM: usize>(
    a_1: Uninit<Array2D<T, NI, NK>>,
    b_1: Uninit<Array2D<T, NK, NJ>>,
    c_1: Uninit<Array2D<T, NJ, NM>>,
    d_1: Uninit<Array2D<T, NM, NL>>,
    a_2: Uninit<Array2D<T, NI, NK>>,
    b_2: Uninit<Array2D<T, NK, NJ>>,
    c_2: Uninit<Array2D<T, NJ, NM>>,
    d_2: Uninit<Array2D<T, NM, NL>>,
)
    requires
        forall|i: int, j: int|
            0 <= i < NI && 0 <= j < NK ==> (#[trigger] a_1@[i][j]) == Some(
                a_entry::<T>(NI, i, j),
            ),
        forall|i: int, j: int|
            0 <= i < NK && 0 <= j < NJ ==> (#[trigger] b_1@[i][j]) == Some(
                b_entry::<T>(NJ, i, j),
            ),
        forall|i: int, j: int|
            0 <= i < NJ && 0 <= j < NM ==> (#[trigger] c_1@[i][j]) == Some(
                c_entry::<T>(NL, i, j),
            ),
        forall|i: int, j: int|
            0 <= i < NM && 0 <= j < NL ==> (#[trigger] d_1@[i][j]) == Some(
                d_entry::<T>(NK, i, j),
            ),
        forall|i: int, j: int|
            0 <= i < NI && 0 <= j < NK ==> (#[trigger] a_2@[i][j]) == Some(
                a_entry::<T>(NI, i, j),
            ),
        forall|i: int, j: int|
            0 <= i < NK && 0 <= j < NJ ==> (#[trigger] b_2@[i][j]) == Some(
                b_entry::<T>(NJ, i, j),
            ),
        forall|i: int, j: int|
            0 <= i < NJ && 0 <= j < NM ==> (#[trigger] c_2@[i][j]) == Some(
                c_entry::<T>(NL, i, j),
            ),
        forall|i: int, j: int|
            0 <= i < NM && 0 <= j < NL ==> (#[trigger] d_2@[i][j]) == Some(
                d_entry::<T>(NK, i, j),
            ),
    ensures
        a_1@ == a_2@,
        b_1@ == b_2@,
        c_1@ == c_2@,
        d_1@ == d_2@,
{
    assert(a_1@ =~~= a_2@);
    assert(b_1@ =~~= b_2@);
    assert(c_1@ =~~= c_2@);
    assert(d_1@ =~~= d_2@);
}

/// Writes into `out` the product of `a` and `b`.
pub fn multiply<T: Scalar, const R: usize, const C: usize, const K: usize>(
    out: &mut Array2D<T, R, C>,
    a: &Array2D<T, R, K>,
    b: &Array2D<T, K, C>,
)
    ensures
        final(out)@ == matmul(a@, b@, R, C, K),
{
    for i in 0..R
        invariant
            forall|p: int, q: int|
                0 <= p < i && 0 <= q < C ==> (#[trigger] out@[p][q]) == dot_column(
                    T::zero_value(),
                    a@[p],
                    b@,
                    q,
                    K as nat,
                ),
    {
        for j in 0..C
            invariant
                i < R,
                forall|p: int, q: int|
                    0 <= p < R && 0 <= q < C && (p < i || (p == i && q < j)) ==> (
                    #[trigger] out@[p][q]) == dot_column(T::zero_value(), a@[p], b@, q, K as nat),
        {
            out.set(i, j, T::zero());
            for k in 0..K
                invariant
                    i < R,
                    j < C,
                    out@[i as int][j as int] == dot_column(
                        T::zero_value(),
                        a@[i as int],
                        b@,
                        j as int,
                        k as nat,
                    ),
                    forall|p: int, q: int|
                        0 <= p < R && 0 <= q < C && (p < i || (p == i && q < j)) ==> (
                        #[trigger] out@[p][q]) == dot_column(
                            T::zero_value(),
                            a@[p],
                            b@,
                            q,
                            K as nat,
                        ),
            {
                out.set(i, j, out.get(i, j).add(a.get(i, k).mul(*b.get(k, j))));
            }
        }
    }
    assert(out@ =~~= matmul(a@, b@, R, C, K));
}

/// `E = A * B`, `F = C * D`, `G = E * F`.
pub fn kernel_3mm<
    T: Scalar,
    const NI: usize,
    const NJ: usize,
    const NK: usize,
    const NL: usize,
    const NM: usize,
>(
    e: &mut Array2D<T, NI, NJ>,
    a: &Array2D<T, NI, NK>,
    b: &Array2D<T, NK, NJ>,
    f: &mut Array2D<T, NJ, NL>,
    c: &Array2D<T, NJ, NM>,
    d: &Array2D<T, NM, NL>,
    g: &mut Array2D<T, NI, NL>,
)
    ensures
        final(e)@ == matmul(a@, b@, NI, NJ, NK),
        final(f)@ == matmul(c@, d@, NJ, NL, NM),
        final(g)@ == matmul(final(e)@, final(f)@, NI, NL, NJ),
{
    multiply(e, a, b);
    multiply(f, c, d);
    multiply(g, e, f);
}

/// Generates the factors, times one run of the kernel with the given time
/// source, and returns the time between its two readings.
pub fn bench<
    T: Scalar,
    const NI: usize,
    const NJ: usize,
    const NK: usize,
    const NL: usize,
    const NM: usize,
    C: Fn() -> u64,
>(timing_function: &C) -> (r: Result<Duration, TimerError>)
    requires
        shape_fits(NI, NJ, NK, NL, NM),
        timing_function.requires(()),
    ensures
        measured_by(timing_function, r),
{
    let mut a = Array2D::<T, NI, NK>::maybe_uninit();
    let mut b = Array2D::<T, NK, NJ>::maybe_uninit();
    let mut c = Array2D::<T, NJ, NM>::maybe_uninit();
    let mut d = Array2D::<T, NM, NL>::maybe_uninit();
    let e = Array2D::<T, NI, NJ>::maybe_uninit_zeroed();
    let f = Array2D::<T, NJ, NL>::maybe_uninit_zeroed();
    let g = Array2D::<T, NI, NL>::maybe_uninit_zeroed();
    init_array::<T, NI, NJ, NK, NL, NM>(&mut a, &mut b, &mut c, &mut d);
    let a = a.assume_init();
    let b = b.assume_init();
    let c = c.assume_init();
    let d = d.assume_init();
    let (elapsed, g) = benchmark_with_timing_function(
        move || -> (g: Box<Array2D<T, NI, NL>>)
            {
                let mut e = e;
                let mut f = f;
                let mut g = g;
                kernel_3mm(&mut *e, &*a, &*b, &mut *f, &*c, &*d, &mut *g);
                g
            },
        timing_function,
    );
    consume(g);
    elapsed
}

} // verus!
