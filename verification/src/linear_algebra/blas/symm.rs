//! Symmetric matrix multiply: `C = beta * C + alpha * A * B`, with `A`
//! symmetric and read on and under its diagonal only.
use crate::ndarray::{Array2D, ArrayAlloc, Uninit};
use crate::scalar::{ratio, ratio_of, Scalar};
use crate::util::{benchmark_with_timing_function, consume, measured_by, TimerError};
use core::time::Duration;
use vstd::prelude::*;

verus! {

/// The generated entry of `C` at row `i`, column `j`.
pub open spec fn c_entry<T: Scalar>(m: usize, i: int, j: int) -> T {
    ratio_of::<T>(((i + j) % 100) as usize, m)
}

/// The generated entry of `B` at row `i`, column `j`.
pub open spec fn b_entry<T: Scalar>(m: usize, n: usize, i: int, j: int) -> T {
    ratio_of::<T>(((n + i - j) % 100) as usize, m)
}

/// The generated entry of `A` at row `i`, column `j`: above the diagonal, a
/// value that no result may depend on.
pub open spec fn a_entry<T: Scalar>(m: usize, i: int, j: int) -> T {
    if j <= i {
        ratio_of::<T>(((i + j) % 100) as usize, m)
    } else {
        T::of_usize(999).negated()
    }
}

/// The products `b[s][j] * a[i][s]` for `s < k`, added one after the other
/// from zero: the part of row `i` of the product that comes from the rows
/// above it.
pub open spec fn upper_part<T: Scalar>(a: Seq<Seq<T>>, b: Seq<Seq<T>>, i: int, j: int, k: nat) -> T
    decreases k,
{
    if k == 0 {
        T::zero_value()
    } else {
        upper_part(a, b, i, j, (k - 1) as nat).plus(b[k - 1][j].times(a[i][k - 1]))
    }
}

/// The entry at row `i`, column `j` as it is written when row `i` is
/// processed.
pub open spec fn own_part<T: Scalar>(
    alpha: T,
    beta: T,
    c: Seq<Seq<T>>,
    a: Seq<Seq<T>>,
    b: Seq<Seq<T>>,
    i: int,
    j: int,
) -> T {
    beta.times(c[i][j]).plus(alpha.times(b[i][j]).times(a[i][i])).plus(
        alpha.times(upper_part(a, b, i, j, i as nat)),
    )
}

/// The entry at row `i`, column `j` once the rows up to `upto - 1` have been
/// processed: its own part, then the products `alpha * b[s][j] * a[s][i]` for
/// the rows `i < s < upto` under it, added one after the other.
pub open spec fn symm_cell<T: Scalar>(
    alpha: T,
    beta: T,
    c: Seq<Seq<T>>,
    a: Seq<Seq<T>>,
    b: Seq<Seq<T>>,
    i: int,
    j: int,
    upto: int,
) -> T
    decreases upto - i,
{
    if upto <= i + 1 {
        own_part(alpha, beta, c, a, b, i, j)
    } else {
        symm_cell(alpha, beta, c, a, b, i, j, upto - 1).plus(
            alpha.times(b[upto - 1][j]).times(a[upto - 1][i]),
        )
    }
}

/// Computes the generated entry of `C` at row `i`, column `j`.
pub fn c_value<T: Scalar, const M: usize, const N: usize>(i: usize, j: usize) -> (v: T)
    requires
        i < M,
        j < N,
        M + N <= usize::MAX,
    ensures
        v == c_entry::<T>(M, i as int, j as int),
{
    ratio((i + j) % 100, M)
}

/// Computes the generated entry of `B` at row `i`, column `j`.
pub fn b_value<T: Scalar, const M: usize, const N: usize>(i: usize, j: usize) -> (v: T)
    requires
        i < M,
        j < N,
        M + N <= usize::MAX,
    ensures
        v == b_entry::<T>(M, N, i as int, j as int),
{
    ratio((N + i - j) % 100, M)
}

/// Computes the generated entry of `A` at row `i`, column `j`.
pub fn a_value<T: Scalar, const M: usize>(i: usize, j: usize) -> (v: T)
    requires
        i < M,
        j < M,
        2 * M <= usize::MAX,
    ensures
        v == a_entry::<T>(M, i as int, j as int),
{
    if j <= i {
        ratio((i + j) % 100, M)
    } else {
        T::from_usize(999).neg()
    }
}

/// Sets the two factors and fills the three matrices, each cell with a fixed
/// function of its indices and the shape.
pub fn init_array<T: Scalar, const M: usize, const N: usize>(
    alpha: &mut T,
    beta: &mut T,
    c: &mut Uninit<Array2D<T, M, N>>,
    a: &mut Uninit<Array2D<T, M, M>>,
    b: &mut Uninit<Array2D<T, M, N>>,
)
    requires
        M + N <= usize::MAX,
        2 * M <= usize::MAX,
    ensures
        *final(alpha) == ratio_of::<T>(3, 2),
        *final(beta) == ratio_of::<T>(6, 5),
        forall|i: int, j: int|
            0 <= i < M && 0 <= j < N ==> (#[trigger] final(c)@[i][j]) == Some(
                c_entry::<T>(M, i, j),
            ),
        forall|i: int, j: int|
            0 <= i < M && 0 <= j < N ==> (#[trigger] final(b)@[i][j]) == Some(
                b_entry::<T>(M, N, i, j),
            ),
        forall|i: int, j: int|
            0 <= i < M && 0 <= j < M ==> (#[trigger] final(a)@[i][j]) == Some(
                a_entry::<T>(M, i, j),
            ),
{
    *alpha = ratio(3, 2);
    *beta = ratio(6, 5);
    c.fill_with(c_value::<T, M, N>);
    b.fill_with(b_value::<T, M, N>);
    a.fill_with(a_value::<T, M>);
}

/// Two runs of the generator leave the same values behind: what it writes
/// depends on the indices and the shape alone, on nothing that was there
/// before and on nothing from outside.
pub proof fn init_array_is_deterministic<T: Scalar, const M: usize, const N: usize>(
    alpha_1: T,
    beta_1: T,
    c_1: Uninit<Array2D<T, M, N>>,
    a_1: Uninit<Array2D<T, M, M>>,
    b_1: Uninit<Array2D<T, M, N>>,
    alpha_2: T,
    beta_2: T,
    c_2: Uninit<Array2D<T, M, N>>,
    a_2: Uninit<Array2D<T, M, M>>,
    b_2: Uninit<Array2D<T, M, N>>,
)
    requires
        alpha_1 == ratio_of::<T>(3, 2),
        beta_1 == ratio_of::<T>(6, 5),
        forall|i: int, j: int|
            0 <= i < M && 0 <= j < N ==> (#[trigger] c_1@[i][j]) == Some(
                c_entry::<T>(M, i, j),
            ),
        forall|i: int, j: int|
            0 <= i < M && 0 <= j < N ==> (#[trigger] b_1@[i][j]) == Some(
                b_entry::<T>(M, N, i, j),
            ),
        forall|i: int, j: int|
            0 <= i < M && 0 <= j < M ==> (#[trigger] a_1@[i][j]) == Some(
                a_entry::<T>(M, i, j),
            ),
        alpha_2 == ratio_of::<T>(3, 2),
        beta_2 == ratio_of::<T>(6, 5),
        forall|i: int, j: int|
            0 <= i < M && 0 <= j < N ==> (#[trigger] c_2@[i][j]) == Some(
                c_entry::<T>(M, i, j),
            ),
        forall|i: int, j: int|
            0 <= i < M && 0 <= j < N ==> (#[trigger] b_2@[i][j]) == Some(
                b_entry::<T>(M, N, i, j),
            ),
        forall|i: int, j: int|
            0 <= i < M && 0 <= j < M ==> (#[trigger] a_2@[i][j]) == Some(
                a_entry::<T>(M, i, j),
            ),
    ensures
        alpha_1 == alpha_2,
        beta_1 == beta_2,
        c_1@ == c_2@,
        a_1@ == a_2@,
        b_1@ == b_2@,
{
    assert(c_1@ =~~= c_2@);
    assert(a_1@ =~~= a_2@);
    assert(b_1@ =~~= b_2@);
}

/// Updates `c` row by row: processing a row writes its own entries and adds
/// its share to the entries of every row above it.
#[verifier::loop_isolation(false)]
pub fn kernel_symm<T: Scalar, const M: usize, const N: usize>(
    alpha: T,
    beta: T,
    c: &mut Array2D<T, M, N>,
    a: &Array2D<T, M, M>,
    b: &Array2D<T, M, N>,
)
    ensures
        forall|i: int, j: int|
            0 <= i < M && 0 <= j < N ==> (#[trigger] final(c)@[i][j]) == symm_cell(
                alpha,
                beta,
                old(c)@,
                a@,
                b@,
                i,
                j,
                M as int,
            ),
{
    let ghost c0 = c@;
    for i in 0..M
        invariant
            forall|p: int, q: int|
                0 <= p < M && 0 <= q < N ==> (#[trigger] c@[p][q]) == (if p < i {
                    symm_cell(alpha, beta, c0, a@, b@, p, q, i as int)
                } else {
                    c0[p][q]
                }),
    {
        for j in 0..N
            invariant
                forall|p: int, q: int|
                    0 <= p < M && 0 <= q < N ==> (#[trigger] c@[p][q]) == (if p < i {
                        symm_cell(
                            alpha,
                            beta,
                            c0,
                            a@,
                            b@,
                            p,
                            q,
                            if q < j {
                                i + 1
                            } else {
                                i as int
                            },
                        )
                    } else if p == i && q < j {
                        own_part(alpha, beta, c0, a@, b@, p, q)
                    } else {
                        c0[p][q]
                    }),
        {
            let mut temp2 = T::zero();
            for k in 0..i
                invariant
                    temp2 == upper_part(a@, b@, i as int, j as int, k as nat),
                    forall|p: int, q: int|
                        0 <= p < M && 0 <= q < N ==> (#[trigger] c@[p][q]) == (if p < i {
                            symm_cell(
                                alpha,
                                beta,
                                c0,
                                a@,
                                b@,
                                p,
                                q,
                                if q < j || (q == j && p < k) {
                                    i + 1
                                } else {
                                    i as int
                                },
                            )
                        } else if p == i && q < j {
                            own_part(alpha, beta, c0, a@, b@, p, q)
                        } else {
                            c0[p][q]
                        }),
            {
                c.set(k, j, c.get(k, j).add(alpha.mul(*b.get(i, j)).mul(*a.get(i, k))));
                temp2 = temp2.add(b.get(k, j).mul(*a.get(i, k)));
            }
            let own = beta.mul(*c.get(i, j)).add(alpha.mul(*b.get(i, j)).mul(*a.get(i, i))).add(
                alpha.mul(temp2),
            );
            c.set(i, j, own);
        }
    }
}

/// Generates the inputs, times one run of the kernel with the given time
/// source, and returns the time between its two readings.
pub fn bench<T: Scalar, const M: usize, const N: usize, C: Fn() -> u64>(timing_function: &C) -> (r:
    Result<Duration, TimerError>)
    requires
        M + N <= usize::MAX,
        2 * M <= usize::MAX,
        timing_function.requires(()),
    ensures
        measured_by(timing_function, r),
{
    let mut alpha = T::zero();
    let mut beta = T::zero();
    let mut c = Array2D::<T, M, N>::maybe_uninit();
    let mut a = Array2D::<T, M, M>::maybe_uninit();
    let mut b = Array2D::<T, M, N>::maybe_uninit();
    init_array(&mut alpha, &mut beta, &mut c, &mut a, &mut b);
    let a = a.assume_init();
    let b = b.assume_init();
    let c = c.assume_init();
    let (elapsed, c) = benchmark_with_timing_function(
        move || -> (c: Box<Array2D<T, M, N>>)
            {
                let mut c = c;
                kernel_symm(alpha, beta, &mut *c, &*a, &*b);
                c
            },
        timing_function,
    );
    consume(c);
    elapsed
}

} // verus!
