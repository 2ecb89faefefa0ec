//! A rank-two update of a matrix, followed by two matrix-vector products.
use crate::ndarray::{Array1D, Array2D, ArrayAlloc, Uninit};
use crate::scalar::{ratio, ratio_of, Scalar};
use crate::util::{benchmark_with_timing_function, consume, measured_by, TimerError};
use core::time::Duration;
use vstd::prelude::*;

verus! {

/// The generated entry at `i` of a vector with divisor `d`.
pub open spec fn vector_entry<T: Scalar>(n: usize, d: usize, i: int) -> T {
    T::of_usize((i + 1) as usize).over(T::of_usize(n)).over(T::of_usize(d))
}

/// The generated entry of `A` at row `i`, column `j`.
pub open spec fn a_entry<T: Scalar>(n: usize, i: int, j: int) -> T {
    ratio_of::<T>(((i * j) % (n as int)) as usize, n)
}

/// The matrix after the rank-two update: `a + u1 * v1 + u2 * v2`, of `n` rows.
pub open spec fn updated<T: Scalar>(
    a: Seq<Seq<T>>,
    u1: Seq<T>,
    v1: Seq<T>,
    u2: Seq<T>,
    v2: Seq<T>,
    n: usize,
) -> Seq<Seq<T>> {
    Seq::new(
        n as nat,
        |i: int|
            Seq::new(
                n as nat,
                |j: int| a[i][j].plus(u1[i].times(v1[j])).plus(u2[i].times(v2[j])),
            ),
    )
}

/// `init`, then the products `beta * m[k][i] * y[k]` for `k < n` added one
/// after the other.
pub open spec fn transposed_product<T: Scalar>(
    init: T,
    beta: T,
    m: Seq<Seq<T>>,
    i: int,
    y: Seq<T>,
    n: nat,
) -> T
    decreases n,
{
    if n == 0 {
        init
    } else {
        transposed_product(init, beta, m, i, y, (n - 1) as nat).plus(
            beta.times(m[n - 1][i]).times(y[n - 1]),
        )
    }
}

/// `init`, then the products `alpha * row[k] * x[k]` for `k < n` added one
/// after the other.
pub open spec fn scaled_product<T: Scalar>(init: T, alpha: T, row: Seq<T>, x: Seq<T>, n: nat) -> T
    decreases n,
{
    if n == 0 {
        init
    } else {
        scaled_product(init, alpha, row, x, (n - 1) as nat).plus(
            alpha.times(row[n - 1]).times(x[n - 1]),
        )
    }
}

/// The vector `x` after the kernel: its old value plus the transposed
/// product, plus `z`.
pub open spec fn x_after<T: Scalar>(
    x: Seq<T>,
    beta: T,
    m: Seq<Seq<T>>,
    y: Seq<T>,
    z: Seq<T>,
    n: usize,
) -> Seq<T> {
    Seq::new(n as nat, |i: int| transposed_product(x[i], beta, m, i, y, n as nat).plus(z[i]))
}

/// Computes the generated entry at `i` of a vector with divisor `d`.
pub fn vector_value<T: Scalar, const N: usize>(d: usize, i: usize) -> (v: T)
    requires
        i < N,
    ensures
        v == vector_entry::<T>(N, d, i as int),
{
    T::from_usize(i + 1).div(T::from_usize(N)).div(T::from_usize(d))
}

/// Computes the generated entry of `u1` at `i`.
pub fn u1_value<T: Scalar, const N: usize>(i: usize) -> (v: T)
    ensures
        v == T::of_usize(i),
{
    T::from_usize(i)
}

/// Computes the generated entry of `u2` at `i`.
pub fn u2_value<T: Scalar, const N: usize>(i: usize) -> (v: T)
    requires
        i < N,
    ensures
        v == vector_entry::<T>(N, 2, i as int),
{
    vector_value::<T, N>(2, i)
}

/// Computes the generated entry of `v1` at `i`.
pub fn v1_value<T: Scalar, const N: usize>(i: usize) -> (v: T)
    requires
        i < N,
    ensures
        v == vector_entry::<T>(N, 4, i as int),
{
    vector_value::<T, N>(4, i)
}

/// Computes the generated entry of `v2` at `i`.
pub fn v2_value<T: Scalar, const N: usize>(i: usize) -> (v: T)
    requires
        i < N,
    ensures
        v == vector_entry::<T>(N, 6, i as int),
{
    vector_value::<T, N>(6, i)
}

/// Computes the generated entry of `y` at `i`.
pub fn y_value<T: Scalar, const N: usize>(i: usize) -> (v: T)
    requires
        i < N,
    ensures
        v == vector_entry::<T>(N, 8, i as int),
{
    vector_value::<T, N>(8, i)
}

/// Computes the generated entry of `z` at `i`.
pub fn z_value<T: Scalar, const N: usize>(i: usize) -> (v: T)
    requires
        i < N,
    ensures
        v == vector_entry::<T>(N, 9, i as int),
{
    vector_value::<T, N>(9, i)
}

/// Computes the generated entry of `x` and of `w`, which is zero.
pub fn zero_value<T: Scalar, const N: usize>(i: usize) -> (v: T)
    ensures
        v == T::zero_value(),
{
    T::zero()
}

/// Computes the generated entry of `A` at row `i`, column `j`.
pub fn a_value<T: Scalar, const N: usize>(i: usize, j: usize) -> (v: T)
    requires
        i < N,
        j < N,
        N * N <= usize::MAX,
    ensures
        v == a_entry::<T>(N, i as int, j as int),
{
    assert(i * j <= N * N) by (nonlinear_arith)
        requires
            i < N,
            j < N,
    ;
    ratio(i * j % N, N)
}

/// Sets the two factors and fills the matrix and the eight vectors, each
/// entry with a fixed function of its indices and the shape.
pub fn init_array<T: Scalar, const N: usize>(
    alpha: &mut T,
    beta: &mut T,
    a: &mut Uninit<Array2D<T, N, N>>,
    u1: &mut Uninit<Array1D<T, N>>,
    v1: &mut Uninit<Array1D<T, N>>,
    u2: &mut Uninit<Array1D<T, N>>,
    v2: &mut Uninit<Array1D<T, N>>,
    w: &mut Uninit<Array1D<T, N>>,
    x: &mut Uninit<Array1D<T, N>>,
    y: &mut Uninit<Array1D<T, N>>,
    z: &mut Uninit<Array1D<T, N>>,
)
    requires
        N * N <= usize::MAX,
    ensures
        *final(alpha) == ratio_of::<T>(3, 2),
        *final(beta) == ratio_of::<T>(6, 5),
        forall|i: int| 0 <= i < N ==> (#[trigger] final(u1)@[i]) == Some(T::of_usize(i as usize)),
        forall|i: int|
            0 <= i < N ==> (#[trigger] final(u2)@[i]) == Some(vector_entry::<T>(N, 2, i)),
        forall|i: int|
            0 <= i < N ==> (#[trigger] final(v1)@[i]) == Some(vector_entry::<T>(N, 4, i)),
        forall|i: int|
            0 <= i < N ==> (#[trigger] final(v2)@[i]) == Some(vector_entry::<T>(N, 6, i)),
        forall|i: int| 0 <= i < N ==> (#[trigger] final(y)@[i]) == Some(vector_entry::<T>(N, 8, i)),
        forall|i: int| 0 <= i < N ==> (#[trigger] final(z)@[i]) == Some(vector_entry::<T>(N, 9, i)),
        forall|i: int| 0 <= i < N ==> (#[trigger] final(x)@[i]) == Some(T::zero_value()),
        forall|i: int| 0 <= i < N ==> (#[trigger] final(w)@[i]) == Some(T::zero_value()),
        forall|i: int, j: int|
            0 <= i < N && 0 <= j < N ==> (#[trigger] final(a)@[i][j]) == Some(
                a_entry::<T>(N, i, j),
            ),
{
    *alpha = ratio(3, 2);
    *beta = ratio(6, 5);
    u1.fill_with(u1_value::<T, N>);
    u2.fill_with(u2_value::<T, N>);
    v1.fill_with(v1_value::<T, N>);
    v2.fill_with(v2_value::<T, N>);
    y.fill_with(y_value::<T, N>);
    z.fill_with(z_value::<T, N>);
    x.fill_with(zero_value::<T, N>);
    w.fill_with(zero_value::<T, N>);
    a.fill_with(a_value::<T, N>);
}

/// Two runs of the generator leave the same values behind: what it writes
/// depends on the indices and the shape alone, on nothing that was there
/// before and on nothing from outside.
pub proof fn init_array_is_deterministic<T: Scalar, const N: usize>(
    alpha_1: T,
    beta_1: T,
    a_1: Uninit<Array2D<T, N, N>>,
    u1_1: Uninit<Array1D<T, N>>,
    v1_1: Uninit<Array1D<T, N>>,
    u2_1: Uninit<Array1D<T, N>>,
    v2_1: Uninit<Array1D<T, N>>,
    w_1: Uninit<Array1D<T, N>>,
    x_1: Uninit<Array1D<T, N>>,
    y_1: Uninit<Array1D<T, N>>,
    z_1: Uninit<Array1D<T, N>>,
    alpha_2: T,
    beta_2: T,
    a_2: Uninit<Array2D<T, N, N>>,
    u1_2: Uninit<Array1D<T, N>>,
    v1_2: Uninit<Array1D<T, N>>,
    u2_2: Uninit<Array1D<T, N>>,
    v2_2: Uninit<Array1D<T, N>>,
    w_2: Uninit<Array1D<T, N>>,
    x_2: Uninit<Array1D<T, N>>,
    y_2: Uninit<Array1D<T, N>>,
    z_2: Uninit<Array1D<T, N>>,
)
    requires
        alpha_1 == ratio_of::<T>(3, 2),
        beta_1 == ratio_of::<T>(6, 5),
        forall|i: int| 0 <= i < N ==> (#[trigger] u1_1@[i]) == Some(T::of_usize(i as usize)),
        forall|i: int|
            0 <= i < N ==> (#[trigger] u2_1@[i]) == Some(vector_entry::<T>(N, 2, i)),
        forall|i: int|
            0 <= i < N ==> (#[trigger] v1_1@[i]) == Some(vector_entry::<T>(N, 4, i)),
        forall|i: int|
            0 <= i < N ==> (#[trigger] v2_1@[i]) == Some(vector_entry::<T>(N, 6, i)),
        forall|i: int| 0 <= i < N ==> (#[trigger] y_1@[i]) == Some(vector_entry::<T>(N, 8, i)),
        forall|i: int| 0 <= i < N ==> (#[trigger] z_1@[i]) == Some(vector_entry::<T>(N, 9, i)),
        forall|i: int| 0 <= i < N ==> (#[trigger] x_1@[i]) == Some(T::zero_value()),
        forall|i: int| 0 <= i < N ==> (#[trigger] w_1@[i]) == Some(T::zero_value()),
        forall|i: int, j: int|
            0 <= i < N && 0 <= j < N ==> (#[trigger] a_1@[i][j]) == Some(
                a_entry::<T>(N, i, j),
            ),
        alpha_2 == ratio_of::<T>(3, 2),
        beta_2 == ratio_of::<T>(6, 5),
        forall|i: int| 0 <= i < N ==> (#[trigger] u1_2@[i]) == Some(T::of_usize(i as usize)),
        forall|i: int|
            0 <= i < N ==> (#[trigger] u2_2@[i]) == Some(vector_entry::<T>(N, 2, i)),
        forall|i: int|
            0 <= i < N ==> (#[trigger] v1_2@[i]) == Some(vector_entry::<T>(N, 4, i)),
        forall|i: int|
            0 <= i < N ==> (#[trigger] v2_2@[i]) == Some(vector_entry::<T>(N, 6, i)),
        forall|i: int| 0 <= i < N ==> (#[trigger] y_2@[i]) == Some(vector_entry::<T>(N, 8, i)),
        forall|i: int| 0 <= i < N ==> (#[trigger] z_2@[i]) == Some(vector_entry::<T>(N, 9, i)),
        forall|i: int| 0 <= i < N ==> (#[trigger] x_2@[i]) == Some(T::zero_value()),
        forall|i: int| 0 <= i < N ==> (#[trigger] w_2@[i]) == Some(T::zero_value()),
        forall|i: int, j: int|
            0 <= i < N && 0 <= j < N ==> (#[trigger] a_2@[i][j]) == Some(
                a_entry::<T>(N, i, j),
            ),
    ensures
        alpha_1 == alpha_2,
        beta_1 == beta_2,
        a_1@ == a_2@,
        u1_1@ == u1_2@,
        v1_1@ == v1_2@,
        u2_1@ == u2_2@,
        v2_1@ == v2_2@,
        w_1@ == w_2@,
        x_1@ == x_2@,
        y_1@ == y_2@,
        z_1@ == z_2@,
{
    assert(a_1@ =~~= a_2@);
    assert(u1_1@ =~~= u1_2@);
    assert(v1_1@ =~~= v1_2@);
    assert(u2_1@ =~~= u2_2@);
    assert(v2_1@ =~~= v2_2@);
    assert(w_1@ =~~= w_2@);
    assert(x_1@ =~~= x_2@);
    assert(y_1@ =~~= y_2@);
    assert(z_1@ =~~= z_2@);
}

/// `A = A + u1 * v1 + u2 * v2`, `x = x + beta * transpose(A) * y + z`, and
/// `w = w + alpha * A * x`.
#[verifier::loop_isolation(false)]
pub fn kernel_gemver<T: Scalar, const N: usize>(
    alpha: T,
    beta: T,
    a: &mut Array2D<T, N, N>,
    u1: &Array1D<T, N>,
    v1: &Array1D<T, N>,
    u2: &Array1D<T, N>,
    v2: &Array1D<T, N>,
    w: &mut Array1D<T, N>,
    x: &mut Array1D<T, N>,
    y: &Array1D<T, N>,
    z: &Array1D<T, N>,
)
    ensures
        final(a)@ == updated(old(a)@, u1@, v1@, u2@, v2@, N),
        final(x)@ == x_after(old(x)@, beta, final(a)@, y@, z@, N),
        forall|i: int|
            0 <= i < N ==> (#[trigger] final(w)@[i]) == scaled_product(
                old(w)@[i],
                alpha,
                final(a)@[i],
                final(x)@,
                N as nat,
            ),
{
    let ghost a0 = a@;
    for i in 0..N
        invariant
            forall|p: int, q: int|
                0 <= p < N && 0 <= q < N ==> (#[trigger] a@[p][q]) == (if p < i {
                    a0[p][q].plus(u1@[p].times(v1@[q])).plus(u2@[p].times(v2@[q]))
                } else {
                    a0[p][q]
                }),
    {
        for j in 0..N
            invariant
                forall|p: int, q: int|
                    0 <= p < N && 0 <= q < N ==> (#[trigger] a@[p][q]) == (if p < i || (p == i
                        && q < j) {
                        a0[p][q].plus(u1@[p].times(v1@[q])).plus(u2@[p].times(v2@[q]))
                    } else {
                        a0[p][q]
                    }),
        {
            let first = u1.get(i).mul(*v1.get(j));
            let second = u2.get(i).mul(*v2.get(j));
            a.set(i, j, a.get(i, j).add(first).add(second));
        }
    }
    assert(a@ =~~= updated(a0, u1@, v1@, u2@, v2@, N));
    let ghost a1 = a@;
    let ghost x0 = x@;
    for i in 0..N
        invariant
            forall|p: int|
                0 <= p < N ==> (#[trigger] x@[p]) == (if p < i {
                    transposed_product(x0[p], beta, a1, p, y@, N as nat)
                } else {
                    x0[p]
                }),
    {
        for j in 0..N
            invariant
                forall|p: int|
                    0 <= p < N ==> (#[trigger] x@[p]) == (if p < i {
                        transposed_product(x0[p], beta, a1, p, y@, N as nat)
                    } else if p == i {
                        transposed_product(x0[p], beta, a1, p, y@, j as nat)
                    } else {
                        x0[p]
                    }),
        {
            x.set(i, x.get(i).add(beta.mul(*a.get(j, i)).mul(*y.get(j))));
        }
    }
    for i in 0..N
        invariant
            forall|p: int|
                0 <= p < N ==> (#[trigger] x@[p]) == (if p < i {
                    transposed_product(x0[p], beta, a1, p, y@, N as nat).plus(z@[p])
                } else {
                    transposed_product(x0[p], beta, a1, p, y@, N as nat)
                }),
    {
        x.set(i, x.get(i).add(*z.get(i)));
    }
    let ghost x1 = x@;
    for i in 0..N
        invariant
            forall|p: int|
                0 <= p < N ==> (#[trigger] w@[p]) == (if p < i {
                    scaled_product(old(w)@[p], alpha, a1[p], x1, N as nat)
                } else {
                    old(w)@[p]
                }),
    {
        for j in 0..N
            invariant
                forall|p: int|
                    0 <= p < N ==> (#[trigger] w@[p]) == (if p < i {
                        scaled_product(old(w)@[p], alpha, a1[p], x1, N as nat)
                    } else if p == i {
                        scaled_product(old(w)@[p], alpha, a1[p], x1, j as nat)
                    } else {
                        old(w)@[p]
                    }),
        {
            w.set(i, w.get(i).add(alpha.mul(*a.get(i, j)).mul(*x.get(j))));
        }
    }
}

/// Generates the inputs, times one run of the kernel with the given time
/// source, and returns the time between its two readings.
pub fn bench<T: Scalar, const N: usize, C: Fn() -> u64>(timing_function: &C) -> (r: Result<
    Duration,
    TimerError,
>)
    requires
        N * N <= usize::MAX,
        timing_function.requires(()),
    ensures
        measured_by(timing_function, r),
{
    let mut alpha = T::zero();
    let mut beta = T::zero();
    let mut a = Array2D::<T, N, N>::maybe_uninit();
    let mut u1 = Array1D::<T, N>::maybe_uninit();
    let mut v1 = Array1D::<T, N>::maybe_uninit();
    let mut u2 = Array1D::<T, N>::maybe_uninit();
    let mut v2 = Array1D::<T, N>::maybe_uninit();
    let mut w = Array1D::<T, N>::maybe_uninit();
    let mut x = Array1D::<T, N>::maybe_uninit();
    let mut y = Array1D::<T, N>::maybe_uninit();
    let mut z = Array1D::<T, N>::maybe_uninit();
    init_array(
        &mut alpha,
        &mut beta,
        &mut a,
        &mut u1,
        &mut v1,
        &mut u2,
        &mut v2,
        &mut w,
        &mut x,
        &mut y,
        &mut z,
    );
    let a = a.assume_init();
    let u1 = u1.assume_init();
    let v1 = v1.assume_init();
    let u2 = u2.assume_init();
    let v2 = v2.assume_init();
    let w = w.assume_init();
    let x = x.assume_init();
    let y = y.assume_init();
    let z = z.assume_init();
    let (elapsed, w) = benchmark_with_timing_function(
        move || -> (w: Box<Array1D<T, N>>)
            {
                let mut a = a;
                let mut w = w;
                let mut x = x;
                kernel_gemver(
                    alpha,
                    beta,
                    &mut *a,
                    &*u1,
                    &*v1,
                    &*u2,
                    &*v2,
                    &mut *w,
                    &mut *x,
                    &*y,
                    &*z,
                );
                w
            },
        timing_function,
    );
    consume(w);
    elapsed
}

} // verus!
