//! Multiresolution analysis kernel: every row of a three-dimensional array is
//! replaced by its product with a square matrix.
use crate::linear_algebra::products::dot_column;
use crate::ndarray::{Array1D, Array2D, Array3D, ArrayAlloc, Uninit};
use crate::scalar::{ratio, ratio_of, Scalar};
use crate::util::{benchmark_with_timing_function, consume, measured_by, TimerError};
use core::time::Duration;
use vstd::prelude::*;

verus! {

/// The generated entry of `A` at `(i, j, k)`.
pub open spec fn a_entry<T: Scalar>(np: usize, i: int, j: int, k: int) -> T {
    ratio_of::<T>(((i * j + k) % (np as int)) as usize, np)
}

/// The generated entry of `C4` at row `i`, column `j`.
pub open spec fn c4_entry<T: Scalar>(np: usize, i: int, j: int) -> T {
    ratio_of::<T>(((i * j) % (np as int)) as usize, np)
}

/// The entry of the result at `(r, q, p)`: row `(r, q)` of `a` times column
/// `p` of `c4`, accumulated from zero.
pub open spec fn product_entry<T: Scalar>(
    a: Seq<Seq<Seq<T>>>,
    c4: Seq<Seq<T>>,
    r: int,
    q: int,
    p: int,
    np: nat,
) -> T {
    dot_column(T::zero_value(), a[r][q], c4, p, np)
}

/// Computes the generated entry of `A` at `(i, j, k)`.
pub fn a_value<T: Scalar, const NP: usize, const NQ: usize, const NR: usize>(
    i: usize,
    j: usize,
    k: usize,
) -> (v: T)
    requires
        i < NR,
        j < NQ,
        k < NP,
        NR * NQ + NP <= usize::MAX,
    ensures
        v == a_entry::<T>(NP, i as int, j as int, k as int),
{
    assert(i * j <= NR * NQ) by (nonlinear_arith)
        requires
            i < NR,
            j < NQ,
    ;
    ratio((i * j + k) % NP, NP)
}

/// Computes the generated entry of `C4` at row `i`, column `j`.
pub fn c4_value<T: Scalar, const NP: usize>(i: usize, j: usize) -> (v: T)
    requires
        i < NP,
        j < NP,
        NP * NP <= usize::MAX,
    ensures
        v == c4_entry::<T>(NP, i as int, j as int),
{
    assert(i * j <= NP * NP) by (nonlinear_arith)
        requires
            i < NP,
            j < NP,
    ;
    ratio(i * j % NP, NP)
}

/// Fills the array and the matrix, each entry with a fixed function of its
/// indices and the shape.
pub fn init_array<T: Scalar, const NP: usize, const NQ: usize, const NR: usize>(
    a: &mut Uninit<Array3D<T, NR, NQ, NP>>,
    c4: &mut Uninit<Array2D<T, NP, NP>>,
)
    requires
        NR * NQ + NP <= usize::MAX,
        NP * NP <= usize::MAX,
    ensures
        forall|i: int, j: int, k: int|
            0 <= i < NR && 0 <= j < NQ && 0 <= k < NP ==> (#[trigger] final(a)@[i][j][k]) == Some(
                a_entry::<T>(NP, i, j, k),
            ),
        forall|i: int, j: int|
            0 <= i < NP && 0 <= j < NP ==> (#[trigger] final(c4)@[i][j]) == Some(
                c4_entry::<T>(NP, i, j),
            ),
{
    a.fill_with(a_value::<T, NP, NQ, NR>);
    c4.fill_with(c4_value::<T, NP>);
}

/// Two runs of the generator leave the same values behind: what it writes
/// depends on the indices and the shape alone, on nothing that was there
/// before and on nothing from outside.
pub proof fn init_array_is_deterministic<T: Scalar, const NP: usize, const NQ: usize, const NR: usize>(
    a_1: Uninit<Array3D<T, NR, NQ, NP>>,
    c4_1: Uninit<Array2D<T, NP, NP>>,
    a_2: Uninit<Array3D<T, NR, NQ, NP>>,
    c4_2: Uninit<Array2D<T, NP, NP>>,
)
    requires
        forall|i: int, j: int, k: int|
            0 <= i < NR && 0 <= j < NQ && 0 <= k < NP ==> (#[trigger] a_1@[i][j][k]) == Some(
                a_entry::<T>(NP, i, j, k),
            ),
        forall|i: int, j: int|
            0 <= i < NP && 0 <= j < NP ==> (#[trigger] c4_1@[i][j]) == Some(
                c4_entry::<T>(NP, i, j),
            ),
        forall|i: int, j: int, k: int|
            0 <= i < NR && 0 <= j < NQ && 0 <= k < NP ==> (#[trigger] a_2@[i][j][k]) == Some(
                a_entry::<T>(NP, i, j, k),
            ),
        forall|i: int, j: int|
            0 <= i < NP && 0 <= j < NP ==> (#[trigger] c4_2@[i][j]) == Some(
                c4_entry::<T>(NP, i, j),
            ),
    ensures
        a_1@ == a_2@,
        c4_1@ == c4_2@,
{
    assert(a_1@ =~~= a_2@);
    assert(c4_1@ =~~= c4_2@);
}

/// Replaces every row of `a` by its product with `c4`; `sum` is scratch
/// space, and holds the last row written at the end.
#[verifier::loop_isolation(false)]
pub fn kernel_doitgen<T: Scalar, const NP: usize, const NQ: usize, const NR: usize>(
    a: &mut Array3D<T, NR, NQ, NP>,
    c4: &Array2D<T, NP, NP>,
    sum: &mut Array1D<T, NP>,
)
    ensures
        forall|r: int, q: int, p: int|
            0 <= r < NR && 0 <= q < NQ && 0 <= p < NP ==> (#[trigger] final(a)@[r][q][p])
                == product_entry(old(a)@, c4@, r, q, p, NP as nat),
        NR > 0 && NQ > 0 ==> forall|p: int|
            0 <= p < NP ==> (#[trigger] final(sum)@[p]) == final(a)@[NR - 1][NQ - 1][p],
        NR == 0 || NQ == 0 ==> final(sum)@ == old(sum)@,
{
    let ghost a0 = a@;
    for r in 0..NR
        invariant
            forall|i: int, j: int, k: int|
                0 <= i < NR && 0 <= j < NQ && 0 <= k < NP ==> (#[trigger] a@[i][j][k]) == (if i
                    < r {
                    product_entry(a0, c4@, i, j, k, NP as nat)
                } else {
                    a0[i][j][k]
                }),
            r > 0 && NQ > 0 ==> forall|p: int|
                0 <= p < NP ==> (#[trigger] sum@[p]) == a@[r - 1][NQ - 1][p],
            r == 0 || NQ == 0 ==> sum@ == old(sum)@,
    {
        for q in 0..NQ
            invariant
                forall|i: int, j: int, k: int|
                    0 <= i < NR && 0 <= j < NQ && 0 <= k < NP ==> (#[trigger] a@[i][j][k]) == (
                    if i < r || (i == r && j < q) {
                        product_entry(a0, c4@, i, j, k, NP as nat)
                    } else {
                        a0[i][j][k]
                    }),
                q > 0 ==> forall|p: int|
                    0 <= p < NP ==> (#[trigger] sum@[p]) == a@[r as int][q - 1][p],
                q == 0 && r > 0 && NQ > 0 ==> forall|p: int|
                    0 <= p < NP ==> (#[trigger] sum@[p]) == a@[r - 1][NQ - 1][p],
                q == 0 && (r == 0 || NQ == 0) ==> sum@ == old(sum)@,
        {
            let ghost a_here = a@;
            for p in 0..NP
                invariant
                    a@ == a_here,
                    forall|k: int|
                        0 <= k < p ==> (#[trigger] sum@[k]) == product_entry(
                            a0,
                            c4@,
                            r as int,
                            q as int,
                            k,
                            NP as nat,
                        ),
            {
                sum.set(p, T::zero());
                for s in 0..NP
                    invariant
                        a@ == a_here,
                        sum@[p as int] == product_entry(
                            a0,
                            c4@,
                            r as int,
                            q as int,
                            p as int,
                            s as nat,
                        ),
                        forall|k: int|
                            0 <= k < p ==> (#[trigger] sum@[k]) == product_entry(
                                a0,
                                c4@,
                                r as int,
                                q as int,
                                k,
                                NP as nat,
                            ),
                {
                    sum.set(p, sum.get(p).add(a.get(r, q, s).mul(*c4.get(s, p))));
                }
            }
            for p in 0..NP
                invariant
                    forall|i: int, j: int, k: int|
                        0 <= i < NR && 0 <= j < NQ && 0 <= k < NP ==> (#[trigger] a@[i][j][k])
                            == (if i < r || (i == r && j < q) || (i == r && j == q && k < p) {
                            product_entry(a0, c4@, i, j, k, NP as nat)
                        } else {
                            a0[i][j][k]
                        }),
            {
                a.set(r, q, p, *sum.get(p));
            }
        }
    }
}

/// Generates the inputs, times one run of the kernel with the given time
/// source, and returns the time between its two readings.
pub fn bench<T: Scalar, const NP: usize, const NQ: usize, const NR: usize, C: Fn() -> u64>(
    timing_function: &C,
) -> (r: Result<Duration, TimerError>)
    requires
        NR * NQ + NP <= usize::MAX,
        NP * NP <= usize::MAX,
        timing_function.requires(()),
    ensures
        measured_by(timing_function, r),
{
    let mut a = Array3D::<T, NR, NQ, NP>::maybe_uninit();
    let mut c4 = Array2D::<T, NP, NP>::maybe_uninit();
    let sum = Array1D::<T, NP>::maybe_uninit_zeroed();
    init_array(&mut a, &mut c4);
    let a = a.assume_init();
    let c4 = c4.assume_init();
    let (elapsed, a) = benchmark_with_timing_function(
        move || -> (a: Box<Array3D<T, NR, NQ, NP>>)
            {
                let mut a = a;
                let mut sum = sum;
                kernel_doitgen(&mut *a, &*c4, &mut *sum);
                a
            },
        timing_function,
    );
    consume(a);
    elapsed
}

} // verus!
