//! Sums over the columns of a matrix whose rows are observations.
use crate::scalar::Scalar;
use vstd::prelude::*;

verus! {

/// The sum of column `j` over the first `m` rows, accumulated from zero in
/// increasing row.
pub open spec fn column_sum<T: Scalar>(d: Seq<Seq<T>>, j: int, m: nat) -> T
    decreases m,
{
    if m == 0 {
        T::zero_value()
    } else {
        column_sum(d, j, (m - 1) as nat).plus(d[m - 1][j])
    }
}

/// The mean of column `j` over `m` rows counted as `float_n`.
pub open spec fn mean_of<T: Scalar>(d: Seq<Seq<T>>, float_n: T, j: int, m: nat) -> T {
    column_sum(d, j, m).over(float_n)
}

/// The sum of the products of the columns `i` and `j` over the first `m`
/// rows, accumulated from zero in increasing row.
pub open spec fn column_dot<T: Scalar>(d: Seq<Seq<T>>, i: int, j: int, m: nat) -> T
    decreases m,
{
    if m == 0 {
        T::zero_value()
    } else {
        column_dot(d, i, j, (m - 1) as nat).plus(d[m - 1][i].times(d[m - 1][j]))
    }
}

} // verus!
