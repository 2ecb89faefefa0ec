//! Sums of products, each accumulated term by term in increasing index.
use crate::scalar::Scalar;
use vstd::prelude::*;

verus! {

/// `init`, then the products `row[k] * m[k][j]` for `k < n` added one after
/// the other: a row times column `j` of a matrix.
pub open spec fn dot_column<T: Scalar>(init: T, row: Seq<T>, m: Seq<Seq<T>>, j: int, n: nat) -> T
    decreases n,
{
    if n == 0 {
        init
    } else {
        dot_column(init, row, m, j, (n - 1) as nat).plus(row[n - 1].times(m[n - 1][j]))
    }
}

/// `init`, then the products `alpha * row[k] * m[k][j]` for `k < n` added one
/// after the other.
pub open spec fn scaled_dot_column<T: Scalar>(
    init: T,
    alpha: T,
    row: Seq<T>,
    m: Seq<Seq<T>>,
    j: int,
    n: nat,
) -> T
    decreases n,
{
    if n == 0 {
        init
    } else {
        scaled_dot_column(init, alpha, row, m, j, (n - 1) as nat).plus(
            alpha.times(row[n - 1]).times(m[n - 1][j]),
        )
    }
}

/// `init`, then the products `row[k] * v[k]` for `k < n` added one after the
/// other: a row times a vector.
pub open spec fn dot_vector<T: Scalar>(init: T, row: Seq<T>, v: Seq<T>, n: nat) -> T
    decreases n,
{
    if n == 0 {
        init
    } else {
        dot_vector(init, row, v, (n - 1) as nat).plus(row[n - 1].times(v[n - 1]))
    }
}

/// `init`, then the products `m[k][i] * v[k]` for `k < n` added one after the
/// other: column `i` of a matrix times a vector.
pub open spec fn column_dot_vector<T: Scalar>(
    init: T,
    m: Seq<Seq<T>>,
    i: int,
    v: Seq<T>,
    n: nat,
) -> T
    decreases n,
{
    if n == 0 {
        init
    } else {
        column_dot_vector(init, m, i, v, (n - 1) as nat).plus(m[n - 1][i].times(v[n - 1]))
    }
}

/// The product of `a` and `b`: `rows` rows of `cols` entries, each a sum of
/// `inner` products accumulated from zero.
pub open spec fn matmul<T: Scalar>(
    a: Seq<Seq<T>>,
    b: Seq<Seq<T>>,
    rows: usize,
    cols: usize,
    inner: usize,
) -> Seq<Seq<T>> {
    Seq::new(
        rows as nat,
        |i: int|
            Seq::new(
                cols as nat,
                |j: int| dot_column(T::zero_value(), a[i], b, j, inner as nat),
            ),
    )
}

} // verus!
