//! QR factorization by the classical Gram-Schmidt process.
use crate::datamining::columns::column_dot;
use crate::ndarray::{Array2D, ArrayAlloc, Uninit};
use crate::scalar::{ratio_of, Scalar};
use crate::util::{benchmark_with_timing_function, consume, measured_by, TimerError};
use core::time::Duration;
use vstd::prelude::*;

verus! {

/// The norm of column `k` of `a`, a matrix of `m` rows.
pub open spec fn norm<T: Scalar>(a: Seq<Seq<T>>, k: int, m: nat) -> T {
    column_dot(a, k, k, m).root()
}

/// The entry at row `i` of column `k` of `a` over the norm of that column.
pub open spec fn unit<T: Scalar>(a: Seq<Seq<T>>, k: int, i: int, m: nat) -> T {
    a[i][k].over(norm(a, k, m))
}

/// The products of the unit column `k` with column `j` of `a` over the first
/// `n` rows, added one after the other from zero.
pub open spec fn projection<T: Scalar>(a: Seq<Seq<T>>, k: int, j: int, m: nat, n: nat) -> T
    decreases n,
{
    if n == 0 {
        T::zero_value()
    } else {
        projection(a, k, j, m, (n - 1) as nat).plus(unit(a, k, n - 1, m).times(a[n - 1][j]))
    }
}

/// The matrix after step `k` of the process on `a`: from every column behind
/// column `k`, its projection on the unit column `k` is taken.
pub open spec fn reduced<T: Scalar>(a: Seq<Seq<T>>, k: int, m: usize, n: usize) -> Seq<Seq<T>> {
    Seq::new(
        m as nat,
        |i: int|
            Seq::new(
                n as nat,
                |j: int|
                    if j > k {
                        a[i][j].minus(unit(a, k, i, m as nat).times(projection(a, k, j, m as nat, m as nat)))
                    } else {
                        a[i][j]
                    },
            ),
    )
}

/// The matrix after the first `k` steps of the process.
pub open spec fn after_steps<T: Scalar>(a: Seq<Seq<T>>, m: usize, n: usize, k: nat) -> Seq<Seq<T>>
    decreases k,
{
    if k == 0 {
        a
    } else {
        reduced(after_steps(a, m, n, (k - 1) as nat), k - 1, m, n)
    }
}

/// The entry of the triangular factor at row `k`, column `j`, for `j >= k`.
pub open spec fn r_entry<T: Scalar>(a: Seq<Seq<T>>, m: usize, n: usize, k: int, j: int) -> T {
    let at_k = after_steps(a, m, n, k as nat);
    if j == k {
        norm(at_k, k, m as nat)
    } else {
        projection(at_k, k, j, m as nat, m as nat)
    }
}

/// The entry of the orthogonal factor at row `i`, column `k`.
pub open spec fn q_entry<T: Scalar>(a: Seq<Seq<T>>, m: usize, n: usize, i: int, k: int) -> T {
    unit(after_steps(a, m, n, k as nat), k, i, m as nat)
}

/// The generated entry of `A` at row `i`, column `j`.
pub open spec fn a_entry<T: Scalar>(m: usize, i: int, j: int) -> T {
    ratio_of::<T>(((i * j) % (m as int)) as usize, m).times(T::of_usize(100)).plus(T::of_usize(10))
}

/// Computes the generated entry of `A` at row `i`, column `j`.
pub fn a_value<T: Scalar, const M: usize, const N: usize>(i: usize, j: usize) -> (v: T)
    requires
        i < M,
        j < N,
        M * N <= usize::MAX,
    ensures
        v == a_entry::<T>(M, i as int, j as int),
{
    assert(i * j <= M * N) by (nonlinear_arith)
        requires
            i < M,
            j < N,
    ;
    T::from_usize((i * j) % M).div(T::from_usize(M)).mul(T::from_usize(100)).add(T::from_usize(10))
}

/// Computes the generated entry of the two factors, which is zero.
pub fn zero_value<T: Scalar>(i: usize, j: usize) -> (v: T)
    ensures
        v == T::zero_value(),
{
    T::zero()
}

/// Fills the matrix, each cell with a fixed function of its indices and the
/// shape, and the two factors with zeros.
pub fn init_array<T: Scalar, const M: usize, const N: usize>(
    a: &mut Uninit<Array2D<T, M, N>>,
    r: &mut Uninit<Array2D<T, N, N>>,
    q: &mut Uninit<Array2D<T, M, N>>,
)
    requires
        M * N <= usize::MAX,
    ensures
        forall|i: int, j: int|
            0 <= i < M && 0 <= j < N ==> (#[trigger] final(a)@[i][j]) == Some(
                a_entry::<T>(M, i, j),
            ),
        forall|i: int, j: int|
            0 <= i < M && 0 <= j < N ==> (#[trigger] final(q)@[i][j]) == Some(T::zero_value()),
        forall|i: int, j: int|
            0 <= i < N && 0 <= j < N ==> (#[trigger] final(r)@[i][j]) == Some(T::zero_value()),
{
    a.fill_with(a_value::<T, M, N>);
    q.fill_with(zero_value::<T>);
    r.fill_with(zero_value::<T>);
}

/// Two runs of the generator leave the same values behind: what it writes
/// depends on the indices and the shape alone, on nothing that was there
/// before and on nothing from outside.
pub proof fn init_array_is_deterministic<T: Scalar, const M: usize, const N: usize>(
    a_1: Uninit<Array2D<T, M, N>>,
    r_1: Uninit<Array2D<T, N, N>>,
    q_1: Uninit<Array2D<T, M, N>>,
    a_2: Uninit<Array2D<T, M, N>>,
    r_2: Uninit<Array2D<T, N, N>>,
    q_2: Uninit<Array2D<T, M, N>>,
)
    requires
        forall|i: int, j: int|
            0 <= i < M && 0 <= j < N ==> (#[trigger] a_1@[i][j]) == Some(
                a_entry::<T>(M, i, j),
            ),
        forall|i: int, j: int|
            0 <= i < M && 0 <= j < N ==> (#[trigger] q_1@[i][j]) == Some(T::zero_value()),
        forall|i: int, j: int|
            0 <= i < N && 0 <= j < N ==> (#[trigger] r_1@[i][j]) == Some(T::zero_value()),
        forall|i: int, j: int|
            0 <= i < M && 0 <= j < N ==> (#[trigger] a_2@[i][j]) == Some(
                a_entry::<T>(M, i, j),
            ),
        forall|i: int, j: int|
            0 <= i < M && 0 <= j < N ==> (#[trigger] q_2@[i][j]) == Some(T::zero_value()),
        forall|i: int, j: int|
            0 <= i < N && 0 <= j < N ==> (#[trigger] r_2@[i][j]) == Some(T::zero_value()),
    ensures
        a_1@ == a_2@,
        r_1@ == r_2@,
        q_1@ == q_2@,
{
    assert(a_1@ =~~= a_2@);
    assert(r_1@ =~~= r_2@);
    assert(q_1@ =~~= q_2@);
}

/// Factorizes `a` into `q` with orthogonal columns and the upper triangular
/// `r`, reducing `a` in place. What lies under the diagonal of `r` is left as
/// it is. No norm is tested: a zero norm gives what the element type's
/// division gives.
#[verifier::loop_isolation(false)]
pub fn kernel_gramschmidt<T: Scalar, const M: usize, const N: usize>(
    a: &mut Array2D<T, M, N>,
    r: &mut Array2D<T, N, N>,
    q: &mut Array2D<T, M, N>,
)
    ensures
        final(a)@ == after_steps(old(a)@, M, N, N as nat),
        forall|k: int, j: int|
            0 <= k <= j < N ==> (#[trigger] final(r)@[k][j]) == r_entry(old(a)@, M, N, k, j),
        forall|k: int, j: int| 0 <= j < k < N ==> (#[trigger] final(r)@[k][j]) == old(r)@[k][j],
        forall|i: int, k: int|
            0 <= i < M && 0 <= k < N ==> (#[trigger] final(q)@[i][k]) == q_entry(
                old(a)@,
                M,
                N,
                i,
                k,
            ),
{
    let ghost a0 = a@;
    for k in 0..N
        invariant
            a@ == after_steps(a0, M, N, k as nat),
            forall|s: int, j: int|
                0 <= s < N && 0 <= j < N ==> (#[trigger] r@[s][j]) == (if s < k && s <= j {
                    r_entry(a0, M, N, s, j)
                } else {
                    old(r)@[s][j]
                }),
            forall|i: int, s: int|
                0 <= i < M && 0 <= s < N ==> (#[trigger] q@[i][s]) == (if s < k {
                    q_entry(a0, M, N, i, s)
                } else {
                    old(q)@[i][s]
                }),
    {
        let ghost ak = a@;
        let ghost r_in = r@;
        let ghost q_in = q@;
        let mut nrm = T::zero();
        for i in 0..M
            invariant
                nrm == column_dot(ak, k as int, k as int, i as nat),
        {
            nrm = nrm.add(a.get(i, k).mul(*a.get(i, k)));
        }
        r.set(k, k, nrm.sqrt());
        for i in 0..M
            invariant
                forall|p: int, s: int|
                    0 <= p < M && 0 <= s < N ==> (#[trigger] q@[p][s]) == (if s == k && p < i {
                        unit(ak, k as int, p, M as nat)
                    } else {
                        q_in[p][s]
                    }),
        {
            q.set(i, k, a.get(i, k).div(*r.get(k, k)));
        }
        for j in (k + 1)..N
            invariant
                forall|s: int, c: int|
                    0 <= s < N && 0 <= c < N ==> (#[trigger] r@[s][c]) == (if s == k && c == k {
                        norm(ak, k as int, M as nat)
                    } else if s == k && k < c < j {
                        projection(ak, k as int, c, M as nat, M as nat)
                    } else {
                        r_in[s][c]
                    }),
                forall|p: int, c: int|
                    0 <= p < M && 0 <= c < N ==> (#[trigger] a@[p][c]) == (if k < c < j {
                        ak[p][c].minus(
                            unit(ak, k as int, p, M as nat).times(
                                projection(ak, k as int, c, M as nat, M as nat),
                            ),
                        )
                    } else {
                        ak[p][c]
                    }),
        {
            let ghost r_here = r@;
            let ghost a_here = a@;
            r.set(k, j, T::zero());
            for i in 0..M
                invariant
                    r@[k as int][j as int] == projection(
                        ak,
                        k as int,
                        j as int,
                        M as nat,
                        i as nat,
                    ),
                    forall|s: int, c: int|
                        0 <= s < N && 0 <= c < N && !(s == k && c == j) ==> (#[trigger] r@[s][c])
                            == r_here[s][c],
            {
                r.set(k, j, r.get(k, j).add(q.get(i, k).mul(*a.get(i, j))));
            }
            for i in 0..M
                invariant
                    forall|p: int, c: int|
                        0 <= p < M && 0 <= c < N ==> (#[trigger] a@[p][c]) == (if c == j && p < i {
                            ak[p][c].minus(
                                unit(ak, k as int, p, M as nat).times(
                                    projection(ak, k as int, c, M as nat, M as nat),
                                ),
                            )
                        } else {
                            a_here[p][c]
                        }),
            {
                a.set(i, j, a.get(i, j).sub(q.get(i, k).mul(*r.get(k, j))));
            }
        }
        assert(a@ =~~= reduced(ak, k as int, M, N));
    }
}

/// Generates the matrix, times one run of the kernel with the given time
/// source, and returns the time between its two readings.
pub fn bench<T: Scalar, const M: usize, const N: usize, C: Fn() -> u64>(timing_function: &C) -> (r:
    Result<Duration, TimerError>)
    requires
        M * N <= usize::MAX,
        timing_function.requires(()),
    ensures
        measured_by(timing_function, r),
{
    let mut a = Array2D::<T, M, N>::maybe_uninit();
    let mut r = Array2D::<T, N, N>::maybe_uninit();
    let mut q = Array2D::<T, M, N>::maybe_uninit();
    init_array(&mut a, &mut r, &mut q);
    let a = a.assume_init();
    let r = r.assume_init();
    let q = q.assume_init();
    let (elapsed, out) = benchmark_with_timing_function(
        move || -> (out: (Box<Array2D<T, M, N>>, Box<Array2D<T, N, N>>, Box<Array2D<T, M, N>>))
            {
                let mut a = a;
                let mut r = r;
                let mut q = q;
                kernel_gramschmidt(&mut *a, &mut *r, &mut *q);
                (a, r, q)
            },
        timing_function,
    );
    consume(out.0);
    consume(out.1);
    consume(out.2);
    elapsed
}

} // verus!
