//! Solution of a linear system: LU factorization without pivoting, then
//! forward and back substitution.
use crate::linear_algebra::solvers::input::{symmetric_input, triangular};
use crate::linear_algebra::solvers::lu::{kernel_lu, lu_of};
use crate::ndarray::{gram, Array1D, Array2D, ArrayAlloc, Uninit};
use crate::scalar::Scalar;
use crate::util::{benchmark_with_timing_function, consume, measured_by, TimerError};
use core::time::Duration;
use vstd::prelude::*;

verus! {

/// The right-hand side at row `i`, less the products of the lower factor's
/// entries `(i, s)` with the intermediate solution at `s` for `s < j`.
pub open spec fn forward_acc<T: Scalar>(lu: Seq<Seq<T>>, b: Seq<T>, i: int, j: int) -> T
    decreases i, 0int, j,
{
    if i < 0 || j <= 0 || j > i {
        b[i]
    } else {
        forward_acc(lu, b, i, j - 1).minus(lu[i][j - 1].times(forward(lu, b, j - 1)))
    }
}

/// The intermediate solution at row `i`: the lower factor has a unit
/// diagonal, so nothing is divided by.
pub open spec fn forward<T: Scalar>(lu: Seq<Seq<T>>, b: Seq<T>, i: int) -> T
    decreases i, 1int, 0int,
{
    forward_acc(lu, b, i, i)
}

/// The intermediate solution of a system of `n` rows.
pub open spec fn forward_of<T: Scalar>(lu: Seq<Seq<T>>, b: Seq<T>, n: usize) -> Seq<T> {
    Seq::new(n as nat, |i: int| forward(lu, b, i))
}

/// The intermediate solution at row `i`, less the products of the upper
/// factor's entries `(i, s)` with the solution at `s` for `i < s < j`, taken
/// off in increasing `s`.
pub open spec fn backward_acc<T: Scalar>(lu: Seq<Seq<T>>, y: Seq<T>, n: int, i: int, j: int) -> T
    decreases n - i, 0int, j - i,
{
    if i < 0 || j <= i + 1 || j > n {
        y[i]
    } else {
        backward_acc(lu, y, n, i, j - 1).minus(lu[i][j - 1].times(backward(lu, y, n, j - 1)))
    }
}

/// The solution at row `i` of a system of `n` rows.
pub open spec fn backward<T: Scalar>(lu: Seq<Seq<T>>, y: Seq<T>, n: int, i: int) -> T
    decreases n - i, 1int, 0int,
{
    if i < 0 || i >= n {
        y[i]
    } else {
        backward_acc(lu, y, n, i, n).over(lu[i][i])
    }
}

/// The solution of a system of `n` rows.
pub open spec fn solution_of<T: Scalar>(lu: Seq<Seq<T>>, y: Seq<T>, n: usize) -> Seq<T> {
    Seq::new(n as nat, |i: int| backward(lu, y, n as int, i))
}

/// The generated entry of the right-hand side at row `i`.
pub open spec fn b_entry<T: Scalar>(n: usize, i: int) -> T {
    T::of_usize((i + 1) as usize).over(T::of_usize(n)).over(T::of_usize(2)).plus(T::of_usize(4))
}

/// Computes the generated entry of the right-hand side at row `i`.
pub fn b_value<T: Scalar, const N: usize>(i: usize) -> (v: T)
    requires
        i < N,
    ensures
        v == b_entry::<T>(N, i as int),
{
    T::from_usize(i + 1).div(T::from_usize(N)).div(T::from_usize(2)).add(T::from_usize(4))
}

/// Computes the generated entry of the two solution vectors, which is zero.
pub fn zero_value<T: Scalar, const N: usize>(i: usize) -> (v: T)
    ensures
        v == T::zero_value(),
{
    T::zero()
}

/// Builds the symmetric input matrix and fills the right-hand side and the
/// two solution vectors.
pub fn init_array<T: Scalar, const N: usize>(
    a: Uninit<Array2D<T, N, N>>,
    b: &mut Uninit<Array1D<T, N>>,
    x: &mut Uninit<Array1D<T, N>>,
    y: &mut Uninit<Array1D<T, N>>,
) -> (r: Box<Array2D<T, N, N>>)
    ensures
        r@ == gram(triangular::<T>(N)),
        forall|i: int| 0 <= i < N ==> (#[trigger] final(b)@[i]) == Some(b_entry::<T>(N, i)),
        forall|i: int| 0 <= i < N ==> (#[trigger] final(x)@[i]) == Some(T::zero_value()),
        forall|i: int| 0 <= i < N ==> (#[trigger] final(y)@[i]) == Some(T::zero_value()),
{
    x.fill_with(zero_value::<T, N>);
    y.fill_with(zero_value::<T, N>);
    b.fill_with(b_value::<T, N>);
    symmetric_input(a)
}

/// Two runs of the generator leave the same values behind: what it writes
/// depends on the indices and the shape alone, on nothing that was there
/// before and on nothing from outside.
pub proof fn init_array_is_deterministic<T: Scalar, const N: usize>(
    b_1: Uninit<Array1D<T, N>>,
    x_1: Uninit<Array1D<T, N>>,
    y_1: Uninit<Array1D<T, N>>,
    r_1: Array2D<T, N, N>,
    b_2: Uninit<Array1D<T, N>>,
    x_2: Uninit<Array1D<T, N>>,
    y_2: Uninit<Array1D<T, N>>,
    r_2: Array2D<T, N, N>,
)
    requires
        r_1@ == gram(triangular::<T>(N)),
        forall|i: int| 0 <= i < N ==> (#[trigger] b_1@[i]) == Some(b_entry::<T>(N, i)),
        forall|i: int| 0 <= i < N ==> (#[trigger] x_1@[i]) == Some(T::zero_value()),
        forall|i: int| 0 <= i < N ==> (#[trigger] y_1@[i]) == Some(T::zero_value()),
        r_2@ == gram(triangular::<T>(N)),
        forall|i: int| 0 <= i < N ==> (#[trigger] b_2@[i]) == Some(b_entry::<T>(N, i)),
        forall|i: int| 0 <= i < N ==> (#[trigger] x_2@[i]) == Some(T::zero_value()),
        forall|i: int| 0 <= i < N ==> (#[trigger] y_2@[i]) == Some(T::zero_value()),
    ensures
        b_1@ == b_2@,
        x_1@ == x_2@,
        y_1@ == y_2@,
        r_1@ == r_2@,
{
    assert(b_1@ =~~= b_2@);
    assert(x_1@ =~~= x_2@);
    assert(y_1@ =~~= y_2@);
}

/// Solves for the intermediate solution `y` from the lower factor held
/// under the diagonal of `lu`.
pub fn forward_substitute<T: Scalar, const N: usize>(
    lu: &Array2D<T, N, N>,
    b: &Array1D<T, N>,
    y: &mut Array1D<T, N>,
)
    ensures
        final(y)@ == forward_of(lu@, b@, N),
{
    for i in 0..N
        invariant
            forall|p: int| 0 <= p < i ==> (#[trigger] y@[p]) == forward(lu@, b@, p),
    {
        let mut w = *b.get(i);
        for j in 0..i
            invariant
                i < N,
                w == forward_acc(lu@, b@, i as int, j as int),
                forall|p: int| 0 <= p < i ==> (#[trigger] y@[p]) == forward(lu@, b@, p),
        {
            w = w.sub(lu.get(i, j).mul(*y.get(j)));
        }
        y.set(i, w);
    }
}

/// Solves for the solution `x` from the upper factor held on and above the
/// diagonal of `lu`, from the last row to the first.
pub fn back_substitute<T: Scalar, const N: usize>(
    lu: &Array2D<T, N, N>,
    y: &Array1D<T, N>,
    x: &mut Array1D<T, N>,
)
    ensures
        final(x)@ == solution_of(lu@, y@, N),
{
    let mut i: usize = N;
    while i > 0
        invariant
            i <= N,
            forall|p: int| i <= p < N ==> (#[trigger] x@[p]) == backward(lu@, y@, N as int, p),
        decreases i,
    {
        i -= 1;
        let mut w = *y.get(i);
        for j in (i + 1)..N
            invariant
                i < N,
                w == backward_acc(lu@, y@, N as int, i as int, j as int),
                forall|p: int| i < p < N ==> (#[trigger] x@[p]) == backward(lu@, y@, N as int, p),
        {
            w = w.sub(lu.get(i, j).mul(*x.get(j)));
        }
        x.set(i, w.div(*lu.get(i, i)));
    }
}

/// Factorizes `a` in place, then solves `a * x = b` through the intermediate
/// solution `y`. No pivot is tested.
pub fn kernel_ludcmp<T: Scalar, const N: usize>(
    a: &mut Array2D<T, N, N>,
    b: &Array1D<T, N>,
    x: &mut Array1D<T, N>,
    y: &mut Array1D<T, N>,
)
    ensures
        final(a)@ == lu_of(old(a)@, N),
        final(y)@ == forward_of(final(a)@, b@, N),
        final(x)@ == solution_of(final(a)@, final(y)@, N),
{
    kernel_lu(a);
    forward_substitute(a, b, y);
    back_substitute(a, y, x);
}

/// Generates the system, times one run of the kernel with the given time
/// source, and returns the time between its two readings.
pub fn bench<T: Scalar, const N: usize, C: Fn() -> u64>(timing_function: &C) -> (r: Result<
    Duration,
    TimerError,
>)
    requires
        timing_function.requires(()),
    ensures
        measured_by(timing_function, r),
{
    let mut b = Array1D::<T, N>::maybe_uninit();
    let mut x = Array1D::<T, N>::maybe_uninit();
    let mut y = Array1D::<T, N>::maybe_uninit();
    let a = init_array(Array2D::<T, N, N>::maybe_uninit(), &mut b, &mut x, &mut y);
    let b = b.assume_init();
    let x = x.assume_init();
    let y = y.assume_init();
    let (elapsed, x) = benchmark_with_timing_function(
        move || -> (x: Box<Array1D<T, N>>)
            {
                let mut a = a;
                let mut x = x;
                let mut y = y;
                kernel_ludcmp(&mut *a, &*b, &mut *x, &mut *y);
                x
            },
        timing_function,
    );
    consume(x);
    elapsed
}

} // verus!
