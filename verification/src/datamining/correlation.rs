//! The correlation matrix of the columns of a data matrix.
use crate::datamining::columns::{column_dot, column_sum, mean_of};
use crate::ndarray::{Array1D, Array2D, ArrayAlloc, Uninit};
use crate::scalar::{one_value, ratio, ratio_of, Scalar};
use crate::util::{benchmark_with_timing_function, consume, measured_by, TimerError};
use core::time::Duration;
use vstd::prelude::*;

verus! {

/// The threshold at or under which a standard deviation counts as zero.
pub open spec fn threshold<T: Scalar>() -> T {
    ratio_of::<T>(1, 10)
}

/// `x`, or one where `x` is at or under the threshold.
pub open spec fn guarded<T: Scalar>(x: T) -> T {
    if x.at_most(threshold::<T>()) {
        one_value::<T>()
    } else {
        x
    }
}

/// The deviation of column `j` after the first `m` rows have been taken in:
/// with every row, the squared distance from the mean is added, and the sum
/// is divided by `float_n`, replaced by its square root, and guarded.
pub open spec fn deviation_of<T: Scalar>(d: Seq<Seq<T>>, float_n: T, mean: T, j: int, m: nat) -> T
    decreases m,
{
    if m == 0 {
        T::zero_value()
    } else {
        guarded(
            deviation_of(d, float_n, mean, j, (m - 1) as nat).plus(
                d[m - 1][j].minus(mean).times(d[m - 1][j].minus(mean)),
            ).over(float_n).root(),
        )
    }
}

/// The entry of the data at row `i`, column `j`, centered by the mean of its
/// column and scaled by the deviation of its column.
pub open spec fn normalized_cell<T: Scalar>(d: Seq<Seq<T>>, float_n: T, i: int, j: int, m: nat) -> T {
    let mean = mean_of(d, float_n, j, m);
    d[i][j].minus(mean).over(float_n.root().times(deviation_of(d, float_n, mean, j, m)))
}

/// The centered and scaled data: `m` rows of `n` entries.
pub open spec fn normalized<T: Scalar>(d: Seq<Seq<T>>, float_n: T, m: nat, n: nat) -> Seq<Seq<T>> {
    Seq::new(m, |i: int| Seq::new(n, |j: int| normalized_cell(d, float_n, i, j, m)))
}

/// The correlation of the columns `i` and `j` of the normalized data `dn`:
/// one on the diagonal.
pub open spec fn correlation_of<T: Scalar>(dn: Seq<Seq<T>>, i: int, j: int, m: nat) -> T {
    if i == j {
        one_value::<T>()
    } else if i < j {
        column_dot(dn, i, j, m)
    } else {
        column_dot(dn, j, i, m)
    }
}

/// The generated entry of the data at row `i`, column `j`.
pub open spec fn data_entry<T: Scalar>(n: usize, i: int, j: int) -> T {
    ratio_of::<T>((i * j) as usize, (n + i) as usize)
}

/// Computes the generated entry of the data at row `i`, column `j`.
pub fn data_value<T: Scalar, const M: usize, const N: usize>(i: usize, j: usize) -> (v: T)
    requires
        i < M,
        j < N,
        M * N <= usize::MAX,
        M + N <= usize::MAX,
    ensures
        v == data_entry::<T>(N, i as int, j as int),
{
    assert(i * j <= M * N) by (nonlinear_arith)
        requires
            i < M,
            j < N,
    ;
    ratio(i * j, N + i)
}

/// Sets the number of observations and fills the data, each entry with a
/// fixed function of its indices and the shape.
pub fn init_array<T: Scalar, const M: usize, const N: usize>(
    float_n: &mut T,
    data: &mut Uninit<Array2D<T, M, N>>,
)
    requires
        M * N <= usize::MAX,
        M + N <= usize::MAX,
    ensures
        *final(float_n) == T::of_usize(N),
        forall|i: int, j: int|
            0 <= i < M && 0 <= j < N ==> (#[trigger] final(data)@[i][j]) == Some(
                data_entry::<T>(N, i, j),
            ),
{
    *float_n = T::from_usize(N);
    data.fill_with(data_value::<T, M, N>);
}

/// Two runs of the generator leave the same values behind: what it writes
/// depends on the indices and the shape alone, on nothing that was there
/// before and on nothing from outside.
pub proof fn init_array_is_deterministic<T: Scalar, const M: usize, const N: usize>(
    float_n_1: T,
    data_1: Uninit<Array2D<T, M, N>>,
    float_n_2: T,
    data_2: Uninit<Array2D<T, M, N>>,
)
    requires
        float_n_1 == T::of_usize(N),
        forall|i: int, j: int|
            0 <= i < M && 0 <= j < N ==> (#[trigger] data_1@[i][j]) == Some(
                data_entry::<T>(N, i, j),
            ),
        float_n_2 == T::of_usize(N),
        forall|i: int, j: int|
            0 <= i < M && 0 <= j < N ==> (#[trigger] data_2@[i][j]) == Some(
                data_entry::<T>(N, i, j),
            ),
    ensures
        float_n_1 == float_n_2,
        data_1@ == data_2@,
{
    assert(data_1@ =~~= data_2@);
}

/// Computes the mean and the deviation of every column, normalizes the data
/// in place, and fills the symmetric matrix of correlations.
#[verifier::loop_isolation(false)]
#[verifier::rlimit(40)]
pub fn kernel_correlation<T: Scalar, const M: usize, const N: usize>(
    float_n: T,
    data: &mut Array2D<T, M, N>,
    corr: &mut Array2D<T, N, N>,
    mean: &mut Array1D<T, N>,
    stddev: &mut Array1D<T, N>,
)
    requires
        N >= 1,
    ensures
        forall|j: int|
            0 <= j < N ==> (#[trigger] final(mean)@[j]) == mean_of(old(data)@, float_n, j, M as nat),
        forall|j: int|
            0 <= j < N ==> (#[trigger] final(stddev)@[j]) == deviation_of(
                old(data)@,
                float_n,
                final(mean)@[j],
                j,
                M as nat,
            ),
        final(data)@ == normalized(old(data)@, float_n, M as nat, N as nat),
        forall|i: int, j: int|
            0 <= i < N && 0 <= j < N ==> (#[trigger] final(corr)@[i][j]) == correlation_of(
                final(data)@,
                i,
                j,
                M as nat,
            ),
{
    let ghost d0 = data@;
    let eps = ratio::<T>(1, 10);
    let one = T::from_usize(1);
    for j in 0..N
        invariant
            data@ == d0,
            forall|q: int| 0 <= q < j ==> (#[trigger] mean@[q]) == mean_of(d0, float_n, q, M as nat),
    {
        mean.set(j, T::zero());
        for i in 0..M
            invariant
                mean@[j as int] == column_sum(d0, j as int, i as nat),
                forall|q: int|
                    0 <= q < j ==> (#[trigger] mean@[q]) == mean_of(d0, float_n, q, M as nat),
        {
            mean.set(j, mean.get(j).add(*data.get(i, j)));
        }
        mean.set(j, mean.get(j).div(float_n));
    }
    let ghost means = mean@;
    for j in 0..N
        invariant
            data@ == d0,
            mean@ == means,
            forall|q: int|
                0 <= q < j ==> (#[trigger] stddev@[q]) == deviation_of(
                    d0,
                    float_n,
                    means[q],
                    q,
                    M as nat,
                ),
    {
        stddev.set(j, T::zero());
        for i in 0..M
            invariant
                stddev@[j as int] == deviation_of(d0, float_n, means[j as int], j as int, i as nat),
                forall|q: int|
                    0 <= q < j ==> (#[trigger] stddev@[q]) == deviation_of(
                        d0,
                        float_n,
                        means[q],
                        q,
                        M as nat,
                    ),
        {
            let dist = data.get(i, j).sub(*mean.get(j));
            stddev.set(j, stddev.get(j).add(dist.mul(dist)));
            stddev.set(j, stddev.get(j).div(float_n));
            stddev.set(j, stddev.get(j).sqrt());
            let guarded = if stddev.get(j).le(eps) {
                one
            } else {
                *stddev.get(j)
            };
            stddev.set(j, guarded);
        }
    }
    let ghost devs = stddev@;
    for i in 0..M
        invariant
            mean@ == means,
            stddev@ == devs,
            forall|p: int, q: int|
                0 <= p < M && 0 <= q < N ==> (#[trigger] data@[p][q]) == (if p < i {
                    normalized_cell(d0, float_n, p, q, M as nat)
                } else {
                    d0[p][q]
                }),
    {
        for j in 0..N
            invariant
                mean@ == means,
                stddev@ == devs,
                forall|p: int, q: int|
                    0 <= p < M && 0 <= q < N ==> (#[trigger] data@[p][q]) == (if p < i || (p == i
                        && q < j) {
                        normalized_cell(d0, float_n, p, q, M as nat)
                    } else {
                        d0[p][q]
                    }),
        {
            data.set(i, j, data.get(i, j).sub(*mean.get(j)));
            data.set(i, j, data.get(i, j).div(float_n.sqrt().mul(*stddev.get(j))));
        }
    }
    assert(data@ =~~= normalized(d0, float_n, M as nat, N as nat));
    let ghost dn = data@;
    for i in 0..(N - 1)
        invariant
            data@ == dn,
            forall|p: int, q: int|
                0 <= p < N && 0 <= q < N && (p < i || q < i) ==> (#[trigger] corr@[p][q])
                    == correlation_of(dn, p, q, M as nat),
    {
        corr.set(i, i, one);
        for j in (i + 1)..N
            invariant
                data@ == dn,
                forall|p: int, q: int|
                    0 <= p < N && 0 <= q < N && (p < i || q < i || (p == i && q < j) || (q == i
                        && p < j)) ==> (#[trigger] corr@[p][q]) == correlation_of(
                        dn,
                        p,
                        q,
                        M as nat,
                    ),
        {
            let ghost before = corr@;
            corr.set(i, j, T::zero());
            for k in 0..M
                invariant
                    data@ == dn,
                    corr@[i as int][j as int] == column_dot(dn, i as int, j as int, k as nat),
                    forall|p: int, q: int|
                        0 <= p < N && 0 <= q < N && !(p == i && q == j) ==> (
                        #[trigger] corr@[p][q]) == before[p][q],
            {
                let term = data.get(k, i).mul(*data.get(k, j));
                corr.set(i, j, corr.get(i, j).add(term));
            }
            corr.set(j, i, *corr.get(i, j));
        }
    }
    corr.set(N - 1, N - 1, one);
}

/// Generates the data, times one run of the kernel with the given time
/// source, and returns the time between its two readings.
pub fn bench<T: Scalar, const M: usize, const N: usize, C: Fn() -> u64>(timing_function: &C) -> (r:
    Result<Duration, TimerError>)
    requires
        N >= 1,
        M * N <= usize::MAX,
        M + N <= usize::MAX,
        timing_function.requires(()),
    ensures
        measured_by(timing_function, r),
{
    let mut float_n = T::zero();
    let mut data = Array2D::<T, M, N>::maybe_uninit();
    let corr = Array2D::<T, N, N>::maybe_uninit_zeroed();
    let mean = Array1D::<T, N>::maybe_uninit_zeroed();
    let stddev = Array1D::<T, N>::maybe_uninit_zeroed();
    init_array(&mut float_n, &mut data);
    let data = data.assume_init();
    let (elapsed, corr) = benchmark_with_timing_function(
        move || -> (corr: Box<Array2D<T, N, N>>)
            {
                let mut data = data;
                let mut corr = corr;
                let mut mean = mean;
                let mut stddev = stddev;
                kernel_correlation(float_n, &mut *data, &mut *corr, &mut *mean, &mut *stddev);
                corr
            },
        timing_function,
    );
    consume(corr);
    elapsed
}

} // verus!
