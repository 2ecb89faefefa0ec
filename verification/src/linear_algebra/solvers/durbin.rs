//! Durbin's recursion for a Toeplitz system.
use crate::ndarray::{Array1D, ArrayAlloc, Uninit};
use crate::scalar::{one_value, Scalar};
use crate::util::{benchmark_with_timing_function, consume, measured_by, TimerError};
use core::time::Duration;
use vstd::prelude::*;

verus! {

/// What the recursion carries from one order to the next.
pub struct Step<T> {
    /// The solution of the current order.
    pub y: Seq<T>,
    pub alpha: T,
    pub beta: T,
}

/// The products `r[k - i - 1] * y[i]` for `i < n`, added one after the other
/// from zero.
pub open spec fn reflected_sum<T: Scalar>(r: Seq<T>, y: Seq<T>, k: int, n: nat) -> T
    decreases n,
{
    if n == 0 {
        T::zero_value()
    } else {
        reflected_sum(r, y, k, (n - 1) as nat).plus(r[k - (n - 1) - 1].times(y[n - 1]))
    }
}

/// The state of the recursion at order `k`: the solution has `k + 1`
/// entries.
pub open spec fn step<T: Scalar>(r: Seq<T>, k: nat) -> Step<T>
    decreases k,
{
    if k == 0 {
        Step { y: seq![r[0].negated()], alpha: r[0].negated(), beta: one_value::<T>() }
    } else {
        let before = step(r, (k - 1) as nat);
        let beta = one_value::<T>().minus(before.alpha.times(before.alpha)).times(before.beta);
        let sum = reflected_sum(r, before.y, k as int, k);
        let alpha = r[k as int].plus(sum).negated().over(beta);
        Step {
            y: Seq::new(
                k + 1,
                |i: int|
                    if i < k {
                        before.y[i].plus(alpha.times(before.y[k - i - 1]))
                    } else {
                        alpha
                    },
            ),
            alpha,
            beta,
        }
    }
}

/// Computes the generated entry of `r` at `i`.
pub fn r_value<T: Scalar, const N: usize>(i: usize) -> (v: T)
    requires
        i < N,
        N < usize::MAX,
    ensures
        v == T::of_usize((N + 1 - i) as usize),
{
    T::from_usize(N + 1 - i)
}

/// Fills the vector `r`, each entry with a fixed function of its index and
/// the shape.
pub fn init_array<T: Scalar, const N: usize>(r: &mut Uninit<Array1D<T, N>>)
    requires
        N < usize::MAX,
    ensures
        forall|i: int|
            0 <= i < N ==> (#[trigger] final(r)@[i]) == Some(T::of_usize((N + 1 - i) as usize)),
{
    r.fill_with(r_value::<T, N>);
}

/// Two runs of the generator leave the same values behind: what it writes
/// depends on the indices and the shape alone, on nothing that was there
/// before and on nothing from outside.
pub proof fn init_array_is_deterministic<T: Scalar, const N: usize>(
    r_1: Uninit<Array1D<T, N>>,
    r_2: Uninit<Array1D<T, N>>,
)
    requires
        forall|i: int|
            0 <= i < N ==> (#[trigger] r_1@[i]) == Some(T::of_usize((N + 1 - i) as usize)),
        forall|i: int|
            0 <= i < N ==> (#[trigger] r_2@[i]) == Some(T::of_usize((N + 1 - i) as usize)),
    ensures
        r_1@ == r_2@,
{
    assert(r_1@ =~~= r_2@);
}

/// Solves the system by raising the order from zero to `N - 1`.
#[verifier::loop_isolation(false)]
pub fn kernel_durbin<T: Scalar, const N: usize>(r: &Array1D<T, N>, y: &mut Array1D<T, N>)
    requires
        N >= 1,
    ensures
        final(y)@ == step(r@, (N - 1) as nat).y,
{
    let mut z = Array1D::<T, N>::maybe_uninit_zeroed();
    let one = T::from_usize(1);
    y.set(0, r.get(0).neg());
    let mut beta = one;
    let mut alpha = r.get(0).neg();
    for k in 1..N
        invariant
            alpha == step(r@, (k - 1) as nat).alpha,
            beta == step(r@, (k - 1) as nat).beta,
            step(r@, (k - 1) as nat).y.len() == k,
            forall|i: int| 0 <= i < k ==> (#[trigger] y@[i]) == step(r@, (k - 1) as nat).y[i],
    {
        let ghost before = step(r@, (k - 1) as nat);
        beta = one.sub(alpha.mul(alpha)).mul(beta);
        let mut sum = T::zero();
        for i in 0..k
            invariant
                sum == reflected_sum(r@, before.y, k as int, i as nat),
        {
            sum = sum.add(r.get(k - i - 1).mul(*y.get(i)));
        }
        alpha = r.get(k).add(sum).neg().div(beta);
        for i in 0..k
            invariant
                forall|p: int|
                    0 <= p < i ==> (#[trigger] z@[p]) == before.y[p].plus(
                        alpha.times(before.y[k - p - 1]),
                    ),
        {
            z.set(i, y.get(i).add(alpha.mul(*y.get(k - i - 1))));
        }
        for i in 0..k
            invariant
                forall|p: int|
                    0 <= p < k ==> (#[trigger] y@[p]) == (if p < i {
                        z@[p]
                    } else {
                        before.y[p]
                    }),
        {
            y.set(i, *z.get(i));
        }
        y.set(k, alpha);
    }
}

/// Generates the vector, times one run of the kernel with the given time
/// source, and returns the time between its two readings.
pub fn bench<T: Scalar, const N: usize, C: Fn() -> u64>(timing_function: &C) -> (r: Result<
    Duration,
    TimerError,
>)
    requires
        1 <= N < usize::MAX,
        timing_function.requires(()),
    ensures
        measured_by(timing_function, r),
{
    let mut r = Array1D::<T, N>::maybe_uninit();
    let y = Array1D::<T, N>::maybe_uninit_zeroed();
    init_array(&mut r);
    let r = r.assume_init();
    let (elapsed, y) = benchmark_with_timing_function(
        move || -> (y: Box<Array1D<T, N>>)
            {
                let mut y = y;
                kernel_durbin(&*r, &mut *y);
                y
            },
        timing_function,
    );
    consume(y);
    elapsed
}

} // verus!
