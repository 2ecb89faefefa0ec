//! Solution of a lower triangular system by forward substitution.
use crate::ndarray::{Array1D, Array2D, ArrayAlloc, Uninit};
use crate::scalar::Scalar;
use crate::util::{benchmark_with_timing_function, consume, measured_by, TimerError};
use core::time::Duration;
use vstd::prelude::*;

verus! {

/// The right-hand side at row `i`, less the products of the matrix's entries
/// `(i, s)` with the solution at `s` for `s < j`, taken off one after the
/// other.
pub open spec fn forward_acc<T: Scalar>(l: Seq<Seq<T>>, b: Seq<T>, i: int, j: int) -> T
    decreases i, 0int, j,
{
    if i < 0 || j <= 0 || j > i {
        b[i]
    } else {
        forward_acc(l, b, i, j - 1).minus(l[i][j - 1].times(solution(l, b, j - 1)))
    }
}

/// The solution of the system at row `i`.
pub open spec fn solution<T: Scalar>(l: Seq<Seq<T>>, b: Seq<T>, i: int) -> T
    decreases i, 1int, 0int,
{
    if i < 0 {
        b[i]
    } else {
        forward_acc(l, b, i, i).over(l[i][i])
    }
}

/// The generated entry of the matrix at row `i`, column `j`: zero above the
/// diagonal.
pub open spec fn l_entry<T: Scalar>(n: usize, i: int, j: int) -> T {
    if j <= i {
        T::of_usize((i + n - j + 1) as usize).times(T::of_usize(2)).over(T::of_usize(n))
    } else {
        T::zero_value()
    }
}

/// The generated entry of the solution vector before it is solved for.
pub open spec fn x_entry<T: Scalar>() -> T {
    T::of_usize(999).negated()
}

/// Computes the generated entry of the matrix at row `i`, column `j`.
pub fn l_value<T: Scalar, const N: usize>(i: usize, j: usize) -> (v: T)
    requires
        i < N,
        j < N,
        2 * N <= usize::MAX,
    ensures
        v == l_entry::<T>(N, i as int, j as int),
{
    if j <= i {
        T::from_usize(i + N - j + 1).mul(T::from_usize(2)).div(T::from_usize(N))
    } else {
        T::zero()
    }
}

/// Computes the generated entry of the solution vector.
pub fn x_value<T: Scalar, const N: usize>(i: usize) -> (v: T)
    ensures
        v == x_entry::<T>(),
{
    T::from_usize(999).neg()
}

/// Computes the generated entry of the right-hand side at row `i`.
pub fn b_value<T: Scalar, const N: usize>(i: usize) -> (v: T)
    ensures
        v == T::of_usize(i),
{
    T::from_usize(i)
}

/// Fills the matrix, the solution vector and the right-hand side, each entry
/// with a fixed function of its indices and the shape.
pub fn init_array<T: Scalar, const N: usize>(
    l: &mut Uninit<Array2D<T, N, N>>,
    x: &mut Uninit<Array1D<T, N>>,
    b: &mut Uninit<Array1D<T, N>>,
)
    requires
        2 * N <= usize::MAX,
    ensures
        forall|i: int, j: int|
            0 <= i < N && 0 <= j < N ==> (#[trigger] final(l)@[i][j]) == Some(
                l_entry::<T>(N, i, j),
            ),
        forall|i: int| 0 <= i < N ==> (#[trigger] final(x)@[i]) == Some(x_entry::<T>()),
        forall|i: int| 0 <= i < N ==> (#[trigger] final(b)@[i]) == Some(T::of_usize(i as usize)),
{
    l.fill_with(l_value::<T, N>);
    x.fill_with(x_value::<T, N>);
    b.fill_with(b_value::<T, N>);
}

/// Two runs of the generator leave the same values behind: what it writes
/// depends on the indices and the shape alone, on nothing that was there
/// before and on nothing from outside.
pub proof fn init_array_is_deterministic<T: Scalar, const N: usize>(
    l_1: Uninit<Array2D<T, N, N>>,
    x_1: Uninit<Array1D<T, N>>,
    b_1: Uninit<Array1D<T, N>>,
    l_2: Uninit<Array2D<T, N, N>>,
    x_2: Uninit<Array1D<T, N>>,
    b_2: Uninit<Array1D<T, N>>,
)
    requires
        forall|i: int, j: int|
            0 <= i < N && 0 <= j < N ==> (#[trigger] l_1@[i][j]) == Some(
                l_entry::<T>(N, i, j),
            ),
        forall|i: int| 0 <= i < N ==> (#[trigger] x_1@[i]) == Some(x_entry::<T>()),
        forall|i: int| 0 <= i < N ==> (#[trigger] b_1@[i]) == Some(T::of_usize(i as usize)),
        forall|i: int, j: int|
            0 <= i < N && 0 <= j < N ==> (#[trigger] l_2@[i][j]) == Some(
                l_entry::<T>(N, i, j),
            ),
        forall|i: int| 0 <= i < N ==> (#[trigger] x_2@[i]) == Some(x_entry::<T>()),
        forall|i: int| 0 <= i < N ==> (#[trigger] b_2@[i]) == Some(T::of_usize(i as usize)),
    ensures
        l_1@ == l_2@,
        x_1@ == x_2@,
        b_1@ == b_2@,
{
    assert(l_1@ =~~= l_2@);
    assert(x_1@ =~~= x_2@);
    assert(b_1@ =~~= b_2@);
}

/// Solves `l * x = b` for `x`, reading `l` on and under its diagonal. No
/// pivot is tested.
pub fn kernel_trisolv<T: Scalar, const N: usize>(
    l: &Array2D<T, N, N>,
    x: &mut Array1D<T, N>,
    b: &Array1D<T, N>,
)
    ensures
        forall|i: int| 0 <= i < N ==> (#[trigger] final(x)@[i]) == solution(l@, b@, i),
{
    for i in 0..N
        invariant
            forall|p: int| 0 <= p < i ==> (#[trigger] x@[p]) == solution(l@, b@, p),
    {
        x.set(i, *b.get(i));
        for j in 0..i
            invariant
                i < N,
                x@[i as int] == forward_acc(l@, b@, i as int, j as int),
                forall|p: int| 0 <= p < i ==> (#[trigger] x@[p]) == solution(l@, b@, p),
        {
            x.set(i, x.get(i).sub(l.get(i, j).mul(*x.get(j))));
        }
        x.set(i, x.get(i).div(*l.get(i, i)));
    }
}

/// Generates the system, times one run of the kernel with the given time
/// source, and returns the time between its two readings.
pub fn bench<T: Scalar, const N: usize, C: Fn() -> u64>(timing_function: &C) -> (r: Result<
    Duration,
    TimerError,
>)
    requires
        2 * N <= usize::MAX,
        timing_function.requires(()),
    ensures
        measured_by(timing_function, r),
{
    let mut l = Array2D::<T, N, N>::maybe_uninit();
    let mut x = Array1D::<T, N>::maybe_uninit();
    let mut b = Array1D::<T, N>::maybe_uninit();
    init_array(&mut l, &mut x, &mut b);
    let l = l.assume_init();
    let x = x.assume_init();
    let b = b.assume_init();
    let (elapsed, x) = benchmark_with_timing_function(
        move || -> (x: Box<Array1D<T, N>>)
            {
                let mut x = x;
                kernel_trisolv(&*l, &mut *x, &*b);
                x
            },
        timing_function,
    );
    consume(x);
    elapsed
}

} // verus!
