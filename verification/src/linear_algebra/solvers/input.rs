//! The input matrix of the factorization kernels: a lower triangular matrix
//! with a unit diagonal, turned into the symmetric matrix of the products of
//! its rows.
use crate::ndarray::{gram, Array2D, Uninit};
use crate::scalar::{one_value, Scalar};
use vstd::prelude::*;

verus! {

/// The entry of the triangular matrix at row `i`, column `j`: one on the
/// diagonal, zero above it, and below it one minus `j / n`.
pub open spec fn triangular_entry<T: Scalar>(n: usize, i: int, j: int) -> T {
    if j < i {
        T::of_usize(j as usize).negated().over(T::of_usize(n)).plus(one_value::<T>())
    } else if j == i {
        one_value::<T>()
    } else {
        T::zero_value()
    }
}

/// The triangular matrix of `n` rows.
pub open spec fn triangular<T: Scalar>(n: usize) -> Seq<Seq<T>> {
    Seq::new(n as nat, |i: int| Seq::new(n as nat, |j: int| triangular_entry::<T>(n, i, j)))
}

/// Computes the entry of the triangular matrix at row `i`, column `j`.
pub fn triangular_value<T: Scalar, const N: usize>(i: usize, j: usize) -> (v: T)
    requires
        i < N,
        j < N,
    ensures
        v == triangular_entry::<T>(N, i as int, j as int),
{
    if j < i {
        T::from_usize(j).neg().div(T::from_usize(N)).add(T::from_usize(1))
    } else if j == i {
        T::from_usize(1)
    } else {
        T::zero()
    }
}

/// Fills the allocation with the triangular matrix and turns it into the
/// symmetric matrix of the products of its rows.
pub fn symmetric_input<T: Scalar, const N: usize>(a: Uninit<Array2D<T, N, N>>) -> (r: Box<
    Array2D<T, N, N>,
>)
    ensures
        r@ == gram(triangular::<T>(N)),
{
    let mut a = a;
    a.fill_with(triangular_value::<T, N>);
    let mut r = a.assume_init();
    assert(r@ =~~= triangular::<T>(N));
    r.make_positive_semi_definite();
    r
}

} // verus!
