//! The matrix of row products over the integers: where no sum wraps, its
//! quadratic form is a sum of squares, and so is never negative.
use crate::ndarray::{dot, gram, has_shape2};
use vstd::prelude::*;

verus! {

/// The sum of `x[k] * y[k]` over `k < t`, over the integers.
pub open spec fn exact_dot(x: Seq<i64>, y: Seq<i64>, t: nat) -> int
    decreases t,
{
    if t == 0 {
        0
    } else {
        exact_dot(x, y, (t - 1) as nat) + x[t - 1] * y[t - 1]
    }
}

/// Every entry of the matrix of row products of `a` is the sum over the
/// integers: nothing wrapped on the way.
pub open spec fn gram_is_exact(a: Seq<Seq<i64>>) -> bool {
    forall|r: int, s: int|
        0 <= r < a.len() && 0 <= s < a.len() ==> (#[trigger] gram(a)[r][s]) == exact_dot(
            a[r],
            a[s],
            a.len(),
        )
}

/// The sum of `v[i] * g[i][j] * v[j]` over `j < m`.
pub open spec fn form_row(g: Seq<Seq<i64>>, v: Seq<int>, i: int, m: nat) -> int
    decreases m,
{
    if m == 0 {
        0
    } else {
        form_row(g, v, i, (m - 1) as nat) + v[i] * g[i][m - 1] * v[m - 1]
    }
}

/// The sum of `v[i] * g[i][j] * v[j]` over `i < k` and `j < n`.
pub open spec fn form_rows(g: Seq<Seq<i64>>, v: Seq<int>, k: nat, n: nat) -> int
    decreases k,
{
    if k == 0 {
        0
    } else {
        form_rows(g, v, (k - 1) as nat, n) + form_row(g, v, k - 1, n)
    }
}

/// The quadratic form of `g` at `v`: the sum of `v[i] * g[i][j] * v[j]` over
/// all `i` and `j`.
pub open spec fn quadratic_form(g: Seq<Seq<i64>>, v: Seq<int>) -> int {
    form_rows(g, v, v.len(), v.len())
}

/// The sum of `v[i] * a[i][t]` over `i < m`: the combination of the rows of
/// `a` with the weights `v`, at the column `t`.
pub open spec fn combination(a: Seq<Seq<i64>>, v: Seq<int>, t: int, m: nat) -> int
    decreases m,
{
    if m == 0 {
        0
    } else {
        combination(a, v, t, (m - 1) as nat) + v[m - 1] * a[m - 1][t]
    }
}

/// The sum of the squares of the combinations at the columns below `t`.
pub open spec fn sum_of_squares(a: Seq<Seq<i64>>, v: Seq<int>, t: nat, n: nat) -> int
    decreases t,
{
    if t == 0 {
        0
    } else {
        sum_of_squares(a, v, (t - 1) as nat, n) + combination(a, v, t - 1, n) * combination(
            a,
            v,
            t - 1,
            n,
        )
    }
}

/// The row of the form with the row products cut off after `t` terms.
spec fn partial_row(a: Seq<Seq<i64>>, v: Seq<int>, t: nat, i: int, m: nat) -> int
    decreases m,
{
    if m == 0 {
        0
    } else {
        partial_row(a, v, t, i, (m - 1) as nat) + v[i] * exact_dot(a[i], a[m - 1], t) * v[m - 1]
    }
}

/// The form with the row products cut off after `t` terms.
spec fn partial_rows(a: Seq<Seq<i64>>, v: Seq<int>, t: nat, k: nat, n: nat) -> int
    decreases k,
{
    if k == 0 {
        0
    } else {
        partial_rows(a, v, t, (k - 1) as nat, n) + partial_row(a, v, t, k - 1, n)
    }
}

/// One more term of the row products adds to a row of the form the product
/// of that term's share of the row with the whole combination.
proof fn partial_row_step(a: Seq<Seq<i64>>, v: Seq<int>, t: nat, i: int, m: nat)
    ensures
        partial_row(a, v, t + 1, i, m) == partial_row(a, v, t, i, m) + (v[i] * a[i][t as int])
            * combination(a, v, t as int, m),
    decreases m,
{
    if m > 0 {
        let before = (m - 1) as nat;
        partial_row_step(a, v, t, i, before);
        let vi = v[i];
        let vj = v[m - 1];
        let ai = a[i][t as int] as int;
        let aj = a[m - 1][t as int] as int;
        let d = exact_dot(a[i], a[m - 1], t);
        let c = combination(a, v, t as int, before);
        let p = ai * aj;
        let x = vi * ai;
        let y = vj * aj;
        assert(vi * (d + p) * vj == vi * d * vj + vi * p * vj) by (nonlinear_arith);
        assert(vi * p * vj == x * y) by (nonlinear_arith)
            requires
                p == ai * aj,
                x == vi * ai,
                y == vj * aj,
        ;
        assert(x * (c + y) == x * c + x * y) by (nonlinear_arith);
    }
}

/// One more term of the row products adds to the form the product of two
/// combinations.
proof fn partial_rows_step(a: Seq<Seq<i64>>, v: Seq<int>, t: nat, k: nat, n: nat)
    ensures
        partial_rows(a, v, t + 1, k, n) == partial_rows(a, v, t, k, n) + combination(
            a,
            v,
            t as int,
            k,
        ) * combination(a, v, t as int, n),
    decreases k,
{
    let whole = combination(a, v, t as int, n);
    if k > 0 {
        let before = (k - 1) as nat;
        partial_rows_step(a, v, t, before, n);
        partial_row_step(a, v, t, k - 1, n);
        let c = combination(a, v, t as int, before);
        let x = v[k - 1] * a[k - 1][t as int];
        assert(c * whole + x * whole == (c + x) * whole) by (nonlinear_arith);
    }
}

/// With no term of the row products, a row of the form is zero.
proof fn partial_row_of_nothing(a: Seq<Seq<i64>>, v: Seq<int>, i: int, m: nat)
    ensures
        partial_row(a, v, 0, i, m) == 0,
    decreases m,
{
    if m > 0 {
        partial_row_of_nothing(a, v, i, (m - 1) as nat);
        assert(v[i] * 0 * v[m - 1] == 0) by (nonlinear_arith);
    }
}

/// With no term of the row products, the form is zero.
proof fn partial_rows_of_nothing(a: Seq<Seq<i64>>, v: Seq<int>, k: nat, n: nat)
    ensures
        partial_rows(a, v, 0, k, n) == 0,
    decreases k,
{
    if k > 0 {
        partial_rows_of_nothing(a, v, (k - 1) as nat, n);
        partial_row_of_nothing(a, v, k - 1, n);
    }
}

/// Cut off after any number of terms, the form is a sum of squares.
proof fn partial_form_is_not_negative(a: Seq<Seq<i64>>, v: Seq<int>, t: nat, n: nat)
    ensures
        partial_rows(a, v, t, n, n) == sum_of_squares(a, v, t, n),
        partial_rows(a, v, t, n, n) >= 0,
    decreases t,
{
    if t > 0 {
        let before = (t - 1) as nat;
        partial_form_is_not_negative(a, v, before, n);
        partial_rows_step(a, v, before, n, n);
        let c = combination(a, v, before as int, n);
        assert(c * c >= 0) by (nonlinear_arith);
    } else {
        partial_rows_of_nothing(a, v, n, n);
    }
}

/// A row of the form of a matrix whose entries are exact row products is the
/// row of the cut-off form.
proof fn form_row_is_partial(g: Seq<Seq<i64>>, a: Seq<Seq<i64>>, v: Seq<int>, t: nat, i: int, m: nat)
    requires
        forall|j: int| 0 <= j < m ==> (#[trigger] g[i][j]) == exact_dot(a[i], a[j], t),
    ensures
        form_row(g, v, i, m) == partial_row(a, v, t, i, m),
    decreases m,
{
    if m > 0 {
        form_row_is_partial(g, a, v, t, i, (m - 1) as nat);
    }
}

/// The form of a matrix whose entries are exact row products is the cut-off
/// form.
proof fn form_rows_are_partial(
    g: Seq<Seq<i64>>,
    a: Seq<Seq<i64>>,
    v: Seq<int>,
    t: nat,
    k: nat,
    n: nat,
)
    requires
        forall|i: int, j: int|
            0 <= i < k && 0 <= j < n ==> (#[trigger] g[i][j]) == exact_dot(a[i], a[j], t),
    ensures
        form_rows(g, v, k, n) == partial_rows(a, v, t, k, n),
    decreases k,
{
    if k > 0 {
        form_rows_are_partial(g, a, v, t, (k - 1) as nat, n);
        form_row_is_partial(g, a, v, t, k - 1, n);
    }
}

/// Where no sum wrapped, the quadratic form of the matrix of row products is
/// a sum of squares, and so is not negative at any integer vector.
pub proof fn gram_is_positive_semi_definite(a: Seq<Seq<i64>>, v: Seq<int>)
    requires
        v.len() == a.len(),
        gram_is_exact(a),
    ensures
        quadratic_form(gram(a), v) == sum_of_squares(a, v, a.len(), a.len()),
        quadratic_form(gram(a), v) >= 0,
{
    let n = a.len();
    form_rows_are_partial(gram(a), a, v, n, n, n);
    partial_form_is_not_negative(a, v, n, n);
}

/// The product of a row with itself over the integers is not negative.
pub proof fn exact_square_is_not_negative(x: Seq<i64>, t: nat)
    ensures
        exact_dot(x, x, t) >= 0,
    decreases t,
{
    if t > 0 {
        exact_square_is_not_negative(x, (t - 1) as nat);
        let e = x[t - 1] as int;
        assert(e * e >= 0) by (nonlinear_arith);
    }
}

/// Where no sum wrapped, no entry on the diagonal of the matrix of row
/// products is negative.
pub proof fn gram_diagonal_is_not_negative(a: Seq<Seq<i64>>, i: int)
    requires
        0 <= i < a.len(),
        gram_is_exact(a),
    ensures
        gram(a)[i][i] >= 0,
{
    exact_square_is_not_negative(a[i], a.len());
}

/// Entries between `-bound` and `bound` give sums of `t` products that do not
/// wrap, as long as `t * bound * bound` fits.
pub proof fn bounded_dot_is_exact(x: Seq<i64>, y: Seq<i64>, t: nat, bound: int)
    requires
        t <= x.len(),
        t <= y.len(),
        forall|k: int| 0 <= k < t ==> -bound <= (#[trigger] x[k]) <= bound,
        forall|k: int| 0 <= k < t ==> -bound <= (#[trigger] y[k]) <= bound,
        t * (bound * bound) <= i64::MAX,
    ensures
        dot::<i64>(x, y, t) == exact_dot(x, y, t),
        -(t * (bound * bound)) <= exact_dot(x, y, t) <= t * (bound * bound),
    decreases t,
{
    if t > 0 {
        let before = (t - 1) as nat;
        let square = bound * bound;
        assert(before * square + square == t * square && before * square <= t * square && 0
            <= square) by (nonlinear_arith)
            requires
                before + 1 == t,
                square == bound * bound,
        ;
        bounded_dot_is_exact(x, y, before, bound);
        let p = x[t - 1] * y[t - 1];
        assert(-square <= p <= square) by (nonlinear_arith)
            requires
                p == x[t - 1] * y[t - 1],
                square == bound * bound,
                -bound <= x[t - 1] <= bound,
                -bound <= y[t - 1] <= bound,
        ;
    } else {
        assert(t * (bound * bound) == 0) by (nonlinear_arith)
            requires
                t == 0,
        ;
    }
}

/// A square matrix with entries between `-bound` and `bound` has an exact
/// matrix of row products, as long as `n * bound * bound` fits.
pub proof fn bounded_gram_is_exact(a: Seq<Seq<i64>>, bound: int)
    requires
        has_shape2(a, a.len() as int, a.len() as int),
        forall|i: int, j: int|
            0 <= i < a.len() && 0 <= j < a.len() ==> -bound <= (#[trigger] a[i][j]) <= bound,
        a.len() * (bound * bound) <= i64::MAX,
    ensures
        gram_is_exact(a),
{
    assert forall|r: int, s: int| 0 <= r < a.len() && 0 <= s < a.len() implies (
    #[trigger] gram(a)[r][s]) == exact_dot(a[r], a[s], a.len()) by {
        bounded_dot_is_exact(a[r], a[s], a.len(), bound);
    }
}

} // verus!
