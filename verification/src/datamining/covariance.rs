//! The covariance matrix of the columns of a data matrix.
use crate::datamining::columns::{column_dot, column_sum, mean_of};
use crate::ndarray::{Array1D, Array2D, ArrayAlloc, Uninit};
use crate::scalar::{one_value, ratio, ratio_of, Scalar};
use crate::util::{benchmark_with_timing_function, consume, measured_by, TimerError};
use core::time::Duration;
use vstd::prelude::*;

verus! {

/// The data with the mean of its column taken from every entry: `m` rows of
/// `n` entries.
pub open spec fn centered<T: Scalar>(d: Seq<Seq<T>>, float_n: T, m: nat, n: nat) -> Seq<Seq<T>> {
    Seq::new(m, |i: int| Seq::new(n, |j: int| d[i][j].minus(mean_of(d, float_n, j, m))))
}

/// The covariance of the columns `i` and `j` of the centered data `dc`.
pub open spec fn covariance_of<T: Scalar>(dc: Seq<Seq<T>>, float_n: T, i: int, j: int, m: nat) -> T {
    let lo = if i <= j {
        i
    } else {
        j
    };
    let hi = if i <= j {
        j
    } else {
        i
    };
    column_dot(dc, lo, hi, m).over(float_n.minus(one_value::<T>()))
}

/// The generated entry of the data at row `i`, column `j`.
pub open spec fn data_entry<T: Scalar>(n: usize, i: int, j: int) -> T {
    ratio_of::<T>((i * j) as usize, n)
}

/// Computes the generated entry of the data at row `i`, column `j`.
pub fn data_value<T: Scalar, const M: usize, const N: usize>(i: usize, j: usize) -> (v: T)
    requires
        i < M,
        j < N,
        M * N <= usize::MAX,
    ensures
        v == data_entry::<T>(N, i as int, j as int),
{
    assert(i * j <= M * N) by (nonlinear_arith)
        requires
            i < M,
            j < N,
    ;
    ratio(i * j, N)
}

/// Sets the number of observations and fills the data, each entry with a
/// fixed function of its indices and the shape.
pub fn init_array<T: Scalar, const M: usize, const N: usize>(
    float_n: &mut T,
    data: &mut Uninit<Array2D<T, M, N>>,
)
    requires
        M * N <= usize::MAX,
    ensures
        *final(float_n) == T::of_usize(N),
        forall|i: int, j: int|
            0 <= i < M && 0 <= j < N ==> (#[trigger] final(data)@[i][j]) == Some(
                data_entry::<T>(N, i, j),
            ),
{
    *float_n = T::from_usize(N);
    data.fill_with(data_value::<T, M, N>);
}

/// Two runs of the generator leave the same values behind: what it writes
/// depends on the indices and the shape alone, on nothing that was there
/// before and on nothing from outside.
pub proof fn init_array_is_deterministic<T: Scalar, const M: usize, const N: usize>(
    float_n_1: T,
    data_1: Uninit<Array2D<T, M, N>>,
    float_n_2: T,
    data_2: Uninit<Array2D<T, M, N>>,
)
    requires
        float_n_1 == T::of_usize(N),
        forall|i: int, j: int|
            0 <= i < M && 0 <= j < N ==> (#[trigger] data_1@[i][j]) == Some(
                data_entry::<T>(N, i, j),
            ),
        float_n_2 == T::of_usize(N),
        forall|i: int, j: int|
            0 <= i < M && 0 <= j < N ==> (#[trigger] data_2@[i][j]) == Some(
                data_entry::<T>(N, i, j),
            ),
    ensures
        float_n_1 == float_n_2,
        data_1@ == data_2@,
{
    assert(data_1@ =~~= data_2@);
}

/// Computes the mean of every column, centers the data in place, and fills
/// the symmetric matrix of covariances.
#[verifier::loop_isolation(false)]
pub fn kernel_covariance<T: Scalar, const M: usize, const N: usize>(
    float_n: T,
    data: &mut Array2D<T, M, N>,
    cov: &mut Array2D<T, N, N>,
    mean: &mut Array1D<T, N>,
)
    ensures
        forall|j: int|
            0 <= j < N ==> (#[trigger] final(mean)@[j]) == mean_of(old(data)@, float_n, j, M as nat),
        final(data)@ == centered(old(data)@, float_n, M as nat, N as nat),
        forall|i: int, j: int|
            0 <= i < N && 0 <= j < N ==> (#[trigger] final(cov)@[i][j]) == covariance_of(
                final(data)@,
                float_n,
                i,
                j,
                M as nat,
            ),
{
    let ghost d0 = data@;
    for j in 0..N
        invariant
            data@ == d0,
            forall|q: int| 0 <= q < j ==> (#[trigger] mean@[q]) == mean_of(d0, float_n, q, M as nat),
    {
        mean.set(j, T::zero());
        for i in 0..M
            invariant
                mean@[j as int] == column_sum(d0, j as int, i as nat),
                forall|q: int|
                    0 <= q < j ==> (#[trigger] mean@[q]) == mean_of(d0, float_n, q, M as nat),
        {
            mean.set(j, mean.get(j).add(*data.get(i, j)));
        }
        mean.set(j, mean.get(j).div(float_n));
    }
    let ghost means = mean@;
    for i in 0..M
        invariant
            mean@ == means,
            forall|p: int, q: int|
                0 <= p < M && 0 <= q < N ==> (#[trigger] data@[p][q]) == (if p < i {
                    d0[p][q].minus(mean_of(d0, float_n, q, M as nat))
                } else {
                    d0[p][q]
                }),
    {
        for j in 0..N
            invariant
                mean@ == means,
                forall|p: int, q: int|
                    0 <= p < M && 0 <= q < N ==> (#[trigger] data@[p][q]) == (if p < i || (p == i
                        && q < j) {
                        d0[p][q].minus(mean_of(d0, float_n, q, M as nat))
                    } else {
                        d0[p][q]
                    }),
        {
            data.set(i, j, data.get(i, j).sub(*mean.get(j)));
        }
    }
    assert(data@ =~~= centered(d0, float_n, M as nat, N as nat));
    let ghost dc = data@;
    let one = T::from_usize(1);
    for i in 0..N
        invariant
            data@ == dc,
            forall|p: int, q: int|
                0 <= p < N && 0 <= q < N && (p < i || q < i) ==> (#[trigger] cov@[p][q])
                    == covariance_of(dc, float_n, p, q, M as nat),
    {
        for j in i..N
            invariant
                data@ == dc,
                forall|p: int, q: int|
                    0 <= p < N && 0 <= q < N && (p < i || q < i || (p == i && q < j) || (q == i
                        && p < j)) ==> (#[trigger] cov@[p][q]) == covariance_of(
                        dc,
                        float_n,
                        p,
                        q,
                        M as nat,
                    ),
        {
            let ghost before = cov@;
            cov.set(i, j, T::zero());
            for k in 0..M
                invariant
                    data@ == dc,
                    cov@[i as int][j as int] == column_dot(dc, i as int, j as int, k as nat),
                    forall|p: int, q: int|
                        0 <= p < N && 0 <= q < N && !(p == i && q == j) ==> (
                        #[trigger] cov@[p][q]) == before[p][q],
            {
                let term = data.get(k, i).mul(*data.get(k, j));
                cov.set(i, j, cov.get(i, j).add(term));
            }
            cov.set(i, j, cov.get(i, j).div(float_n.sub(one)));
            cov.set(j, i, *cov.get(i, j));
        }
    }
}

/// Generates the data, times one run of the kernel with the given time
/// source, and returns the time between its two readings.
pub fn bench<T: Scalar, const M: usize, const N: usize, C: Fn() -> u64>(timing_function: &C) -> (r:
    Result<Duration, TimerError>)
    requires
        M * N <= usize::MAX,
        timing_function.requires(()),
    ensures
        measured_by(timing_function, r),
{
    let mut float_n = T::zero();
    let mut data = Array2D::<T, M, N>::maybe_uninit();
    let cov = Array2D::<T, N, N>::maybe_uninit_zeroed();
    let mean = Array1D::<T, N>::maybe_uninit_zeroed();
    init_array(&mut float_n, &mut data);
    let data = data.assume_init();
    let (elapsed, cov) = benchmark_with_timing_function(
        move || -> (cov: Box<Array2D<T, N, N>>)
            {
                let mut data = data;
                let mut cov = cov;
                let mut mean = mean;
                kernel_covariance(float_n, &mut *data, &mut *cov, &mut *mean);
                cov
            },
        timing_function,
    );
    consume(cov);
    elapsed
}

} // verus!
