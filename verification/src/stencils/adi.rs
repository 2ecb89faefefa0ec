//! Alternating direction implicit solver for the heat equation in two
//! dimensions: each time step solves a tridiagonal system along every
//! interior column, then along every interior row, between the boundary
//! values that the grids hold at the ends of the column or row.
use crate::ndarray::{Array2D, ArrayAlloc, Uninit};
use crate::scalar::{one_value, ratio, ratio_of, Scalar};
use crate::util::{benchmark_with_timing_function, consume, measured_by, TimerError};
use core::time::Duration;
use vstd::prelude::*;

verus! {

/// The coefficients of the two tridiagonal systems.
pub struct Coefficients<T> {
    pub a: T,
    pub b: T,
    pub c: T,
    pub d: T,
    pub e: T,
    pub f: T,
}

/// The coefficients for a grid of `n` by `n` points and `tsteps` time steps.
pub open spec fn coefficients_of<T: Scalar>(n: usize, tsteps: usize) -> Coefficients<T> {
    let one = one_value::<T>();
    let two = T::of_usize(2);
    let dx = one.over(T::of_usize(n));
    let dy = one.over(T::of_usize(n));
    let dt = one.over(T::of_usize(tsteps));
    let mul1 = two.times(dt).over(dx.times(dx));
    let mul2 = one.times(dt).over(dy.times(dy));
    let a = mul1.negated().over(two);
    let d = mul2.negated().over(two);
    Coefficients { a, b: one.plus(mul1), c: a, d, e: one.plus(mul2), f: d }
}

/// The point at row `i`, column `j` of `n` by `n` points is not on the
/// boundary.
pub open spec fn interior(n: int, i: int, j: int) -> bool {
    1 <= i < n - 1 && 1 <= j < n - 1
}

/// `now` agrees with `then` on the boundary of the grid.
pub open spec fn same_boundary<T>(now: Seq<Seq<T>>, then: Seq<Seq<T>>, n: int) -> bool {
    forall|i: int, j: int|
        0 <= i < n && 0 <= j < n && !interior(n, i, j) ==> (#[trigger] now[i][j]) == then[i][j]
}

/// The forward elimination factor at position `j` of a system with
/// sub-diagonal `lo`, diagonal `mid` and super-diagonal `hi`: zero at the
/// first position.
pub open spec fn factor<T: Scalar>(lo: T, mid: T, hi: T, j: int) -> T
    decreases j,
{
    if j <= 0 {
        T::zero_value()
    } else {
        hi.negated().over(lo.times(factor(lo, mid, hi, j - 1)).plus(mid))
    }
}

/// The eliminated right-hand side of the system along column `i`, at row `j`,
/// where the column starts with the boundary value `first`.
pub open spec fn column_rhs<T: Scalar>(
    co: Coefficients<T>,
    u: Seq<Seq<T>>,
    first: T,
    i: int,
    j: int,
) -> T
    decreases j,
{
    if j <= 0 {
        first
    } else {
        co.d.negated().times(u[j][i - 1]).plus(
            one_value::<T>().plus(T::of_usize(2).times(co.d)).times(u[j][i]),
        ).minus(co.f.times(u[j][i + 1])).minus(
            co.a.times(column_rhs(co, u, first, i, j - 1)),
        ).over(co.a.times(factor(co.a, co.b, co.c, j - 1)).plus(co.b))
    }
}

/// The solution along column `i`, at row `j`, on a grid of `n` rows: the
/// boundary values `first` and `last` at the two ends, and by back
/// substitution between them.
pub open spec fn column_solution<T: Scalar>(
    co: Coefficients<T>,
    u: Seq<Seq<T>>,
    first: T,
    last: T,
    i: int,
    j: int,
    n: int,
) -> T
    decreases n - j,
{
    if j <= 0 {
        first
    } else if j >= n - 1 {
        last
    } else {
        factor(co.a, co.b, co.c, j).times(column_solution(co, u, first, last, i, j + 1, n)).plus(
            column_rhs(co, u, first, i, j),
        )
    }
}

/// The eliminated right-hand side of the system along row `i`, at column `j`,
/// where the row starts with the boundary value `first`.
pub open spec fn row_rhs<T: Scalar>(
    co: Coefficients<T>,
    v: Seq<Seq<T>>,
    first: T,
    i: int,
    j: int,
) -> T
    decreases j,
{
    if j <= 0 {
        first
    } else {
        co.a.negated().times(v[i - 1][j]).plus(
            one_value::<T>().plus(T::of_usize(2).times(co.a)).times(v[i][j]),
        ).minus(co.c.times(v[i + 1][j])).minus(co.d.times(row_rhs(co, v, first, i, j - 1))).over(
            co.d.times(factor(co.d, co.e, co.f, j - 1)).plus(co.e),
        )
    }
}

/// The solution along row `i`, at column `j`, on a grid of `n` columns: the
/// boundary values `first` and `last` at the two ends, and by back
/// substitution between them.
pub open spec fn row_solution<T: Scalar>(
    co: Coefficients<T>,
    v: Seq<Seq<T>>,
    first: T,
    last: T,
    i: int,
    j: int,
    n: int,
) -> T
    decreases n - j,
{
    if j <= 0 {
        first
    } else if j >= n - 1 {
        last
    } else {
        factor(co.d, co.e, co.f, j).times(row_solution(co, v, first, last, i, j + 1, n)).plus(
            row_rhs(co, v, first, i, j),
        )
    }
}

/// `v` after the sweep over the columns: every interior point holds the
/// solution of the system along its column, between the boundary values that
/// `v` holds at the two ends of the column; the boundary is as it was.
pub open spec fn column_sweep<T: Scalar>(
    co: Coefficients<T>,
    u: Seq<Seq<T>>,
    v: Seq<Seq<T>>,
    n: int,
) -> Seq<Seq<T>> {
    Seq::new(
        n as nat,
        |j: int|
            Seq::new(
                n as nat,
                |i: int|
                    if interior(n, j, i) {
                        column_solution(co, u, v[0][i], v[n - 1][i], i, j, n)
                    } else {
                        v[j][i]
                    },
            ),
    )
}

/// `u` after the sweep over the rows: every interior point holds the solution
/// of the system along its row, between the boundary values that `u` holds at
/// the two ends of the row; the boundary is as it was.
pub open spec fn row_sweep<T: Scalar>(
    co: Coefficients<T>,
    v: Seq<Seq<T>>,
    u: Seq<Seq<T>>,
    n: int,
) -> Seq<Seq<T>> {
    Seq::new(
        n as nat,
        |i: int|
            Seq::new(
                n as nat,
                |j: int|
                    if interior(n, i, j) {
                        row_solution(co, v, u[i][0], u[i][n - 1], i, j, n)
                    } else {
                        u[i][j]
                    },
            ),
    )
}

/// The scratch space `p` after a sweep with sub-diagonal `lo`, diagonal `mid`
/// and super-diagonal `hi`: the factors in the interior, the boundary as it
/// was.
pub open spec fn scratch_factors<T: Scalar>(lo: T, mid: T, hi: T, p: Seq<Seq<T>>, n: int) -> Seq<
    Seq<T>,
> {
    Seq::new(
        n as nat,
        |i: int|
            Seq::new(
                n as nat,
                |j: int|
                    if interior(n, i, j) {
                        factor(lo, mid, hi, j)
                    } else {
                        p[i][j]
                    },
            ),
    )
}

/// The scratch space `q` after the sweep over the columns: the eliminated
/// right-hand sides in the interior, the boundary as it was.
pub open spec fn column_scratch<T: Scalar>(
    co: Coefficients<T>,
    u: Seq<Seq<T>>,
    v: Seq<Seq<T>>,
    q: Seq<Seq<T>>,
    n: int,
) -> Seq<Seq<T>> {
    Seq::new(
        n as nat,
        |i: int|
            Seq::new(
                n as nat,
                |j: int|
                    if interior(n, i, j) {
                        column_rhs(co, u, v[0][i], i, j)
                    } else {
                        q[i][j]
                    },
            ),
    )
}

/// The scratch space `q` after the sweep over the rows: the eliminated
/// right-hand sides in the interior, the boundary as it was.
pub open spec fn row_scratch<T: Scalar>(
    co: Coefficients<T>,
    v: Seq<Seq<T>>,
    u: Seq<Seq<T>>,
    q: Seq<Seq<T>>,
    n: int,
) -> Seq<Seq<T>> {
    Seq::new(
        n as nat,
        |i: int|
            Seq::new(
                n as nat,
                |j: int|
                    if interior(n, i, j) {
                        row_rhs(co, v, u[i][0], i, j)
                    } else {
                        q[i][j]
                    },
            ),
    )
}

/// The grids `(u, v)` after `t` time steps.
pub open spec fn after_steps<T: Scalar>(
    co: Coefficients<T>,
    u: Seq<Seq<T>>,
    v: Seq<Seq<T>>,
    n: int,
    t: nat,
) -> (Seq<Seq<T>>, Seq<Seq<T>>)
    decreases t,
{
    if t == 0 {
        (u, v)
    } else {
        let before = after_steps(co, u, v, n, (t - 1) as nat);
        let next_v = column_sweep(co, before.0, before.1, n);
        let next_u = row_sweep(co, next_v, before.0, n);
        (next_u, next_v)
    }
}

/// The number of time steps that the solver takes for `tsteps`: one fewer,
/// and none for zero.
pub open spec fn steps_taken(tsteps: usize) -> nat {
    if tsteps >= 1 {
        (tsteps - 1) as nat
    } else {
        0
    }
}

/// The generated entry of `u` at row `i`, column `j`.
pub open spec fn u_entry<T: Scalar>(n: usize, i: int, j: int) -> T {
    ratio_of::<T>((i + n - j) as usize, n)
}

/// Computes the generated entry of `u` at row `i`, column `j`.
pub fn u_value<T: Scalar, const N: usize>(i: usize, j: usize) -> (v: T)
    requires
        i < N,
        j < N,
        2 * N <= usize::MAX,
    ensures
        v == u_entry::<T>(N, i as int, j as int),
{
    ratio(i + N - j, N)
}

/// Fills the grid, each point with a fixed function of its indices and the
/// shape.
pub fn init_array<T: Scalar, const N: usize, const TSTEPS: usize>(u: &mut Uninit<Array2D<T, N, N>>)
    requires
        2 * N <= usize::MAX,
    ensures
        forall|i: int, j: int|
            0 <= i < N && 0 <= j < N ==> (#[trigger] final(u)@[i][j]) == Some(
                u_entry::<T>(N, i, j),
            ),
{
    u.fill_with(u_value::<T, N>);
}

/// Two runs of the generator leave the same values behind: what it writes
/// depends on the indices and the shape alone, on nothing that was there
/// before and on nothing from outside.
pub proof fn init_array_is_deterministic<T: Scalar, const N: usize>(
    u_1: Uninit<Array2D<T, N, N>>,
    u_2: Uninit<Array2D<T, N, N>>,
)
    requires
        forall|i: int, j: int|
            0 <= i < N && 0 <= j < N ==> (#[trigger] u_1@[i][j]) == Some(
                u_entry::<T>(N, i, j),
            ),
        forall|i: int, j: int|
            0 <= i < N && 0 <= j < N ==> (#[trigger] u_2@[i][j]) == Some(
                u_entry::<T>(N, i, j),
            ),
    ensures
        u_1@ == u_2@,
{
    assert(u_1@ =~~= u_2@);
}

/// Computes the coefficients of the two systems.
pub fn coefficients<T: Scalar, const N: usize, const TSTEPS: usize>() -> (co: Coefficients<T>)
    ensures
        co == coefficients_of::<T>(N, TSTEPS),
{
    let one = T::from_usize(1);
    let two = T::from_usize(2);
    let dx = one.div(T::from_usize(N));
    let dy = one.div(T::from_usize(N));
    let dt = one.div(T::from_usize(TSTEPS));
    let mul1 = two.mul(dt).div(dx.mul(dx));
    let mul2 = one.mul(dt).div(dy.mul(dy));
    let a = mul1.neg().div(two);
    let d = mul2.neg().div(two);
    Coefficients { a, b: one.add(mul1), c: a, d, e: one.add(mul2), f: d }
}

/// One sweep over the interior columns: solves for the interior of `v` from
/// `u` and from the boundary of `v`, which it reads and leaves as it is.
#[verifier::loop_isolation(false)]
pub fn sweep_columns<T: Scalar, const N: usize>(
    co: &Coefficients<T>,
    u: &Array2D<T, N, N>,
    v: &mut Array2D<T, N, N>,
    p: &mut Array2D<T, N, N>,
    q: &mut Array2D<T, N, N>,
)
    ensures
        final(v)@ == column_sweep(*co, u@, old(v)@, N as int),
        final(p)@ == scratch_factors(co.a, co.b, co.c, old(p)@, N as int),
        final(q)@ == column_scratch(*co, u@, old(v)@, old(q)@, N as int),
{
    let one = T::from_usize(1);
    let two = T::from_usize(2);
    let mut i: usize = 1;
    while i + 1 < N
        invariant
            i == 1 || 1 <= i < N,
            forall|r: int, s: int|
                0 <= r < N && 0 <= s < N ==> (#[trigger] v@[r][s]) == (if interior(N as int, r, s)
                    && s < i {
                    column_solution(*co, u@, old(v)@[0][s], old(v)@[N - 1][s], s, r, N as int)
                } else {
                    old(v)@[r][s]
                }),
            forall|r: int, s: int|
                0 <= r < N && 0 <= s < N ==> (#[trigger] p@[r][s]) == (if interior(N as int, r, s)
                    && r < i {
                    factor(co.a, co.b, co.c, s)
                } else {
                    old(p)@[r][s]
                }),
            forall|r: int, s: int|
                0 <= r < N && 0 <= s < N ==> (#[trigger] q@[r][s]) == (if interior(N as int, r, s)
                    && r < i {
                    column_rhs(*co, u@, old(v)@[0][r], r, s)
                } else {
                    old(q)@[r][s]
                }),
        decreases N - i,
    {
        let ghost v_before = v@;
        let first = *v.get(0, i);
        let ghost last = v@[N - 1][i as int];
        assert(first == old(v)@[0][i as int] && last == old(v)@[N - 1][i as int]);
        let mut factor_before = T::zero();
        let mut rhs_before = first;
        for j in 1..(N - 1)
            invariant
                v@ == v_before,
                factor_before == factor(co.a, co.b, co.c, j - 1),
                rhs_before == column_rhs(*co, u@, first, i as int, j - 1),
                forall|r: int, s: int|
                    0 <= r < N && 0 <= s < N ==> (#[trigger] p@[r][s]) == (if interior(
                        N as int,
                        r,
                        s,
                    ) && (r < i || (r == i && s < j)) {
                        factor(co.a, co.b, co.c, s)
                    } else {
                        old(p)@[r][s]
                    }),
                forall|r: int, s: int|
                    0 <= r < N && 0 <= s < N ==> (#[trigger] q@[r][s]) == (if interior(
                        N as int,
                        r,
                        s,
                    ) && (r < i || (r == i && s < j)) {
                        column_rhs(*co, u@, old(v)@[0][r], r, s)
                    } else {
                        old(q)@[r][s]
                    }),
        {
            let den = co.a.mul(factor_before).add(co.b);
            let num = co.d.neg().mul(*u.get(j, i - 1)).add(
                one.add(two.mul(co.d)).mul(*u.get(j, i)),
            ).sub(co.f.mul(*u.get(j, i + 1))).sub(co.a.mul(rhs_before));
            factor_before = co.c.neg().div(den);
            rhs_before = num.div(den);
            p.set(i, j, factor_before);
            q.set(i, j, rhs_before);
        }
        let mut j: usize = N - 1;
        while j > 1
            invariant
                1 <= j <= N - 1,
                forall|r: int, s: int|
                    0 <= r < N && 0 <= s < N ==> (#[trigger] v@[r][s]) == (if s == i && j <= r
                        < N - 1 {
                        column_solution(*co, u@, first, last, s, r, N as int)
                    } else {
                        v_before[r][s]
                    }),
            decreases j,
        {
            j -= 1;
            assert(p@[i as int][j as int] == factor(co.a, co.b, co.c, j as int));
            assert(q@[i as int][j as int] == column_rhs(*co, u@, first, i as int, j as int));
            assert(v@[j + 1][i as int] == column_solution(
                *co,
                u@,
                first,
                last,
                i as int,
                j + 1,
                N as int,
            ));
            v.set(j, i, p.get(i, j).mul(*v.get(j + 1, i)).add(*q.get(i, j)));
        }
        i += 1;
    }
    assert(v@ =~~= column_sweep(*co, u@, old(v)@, N as int));
    assert(p@ =~~= scratch_factors(co.a, co.b, co.c, old(p)@, N as int));
    assert(q@ =~~= column_scratch(*co, u@, old(v)@, old(q)@, N as int));
}

/// One sweep over the interior rows: solves for the interior of `u` from `v`
/// and from the boundary of `u`, which it reads and leaves as it is.
#[verifier::loop_isolation(false)]
pub fn sweep_rows<T: Scalar, const N: usize>(
    co: &Coefficients<T>,
    u: &mut Array2D<T, N, N>,
    v: &Array2D<T, N, N>,
    p: &mut Array2D<T, N, N>,
    q: &mut Array2D<T, N, N>,
)
    ensures
        final(u)@ == row_sweep(*co, v@, old(u)@, N as int),
        final(p)@ == scratch_factors(co.d, co.e, co.f, old(p)@, N as int),
        final(q)@ == row_scratch(*co, v@, old(u)@, old(q)@, N as int),
{
    let one = T::from_usize(1);
    let two = T::from_usize(2);
    let mut i: usize = 1;
    while i + 1 < N
        invariant
            i == 1 || 1 <= i < N,
            forall|r: int, s: int|
                0 <= r < N && 0 <= s < N ==> (#[trigger] u@[r][s]) == (if interior(N as int, r, s)
                    && r < i {
                    row_solution(*co, v@, old(u)@[r][0], old(u)@[r][N - 1], r, s, N as int)
                } else {
                    old(u)@[r][s]
                }),
            forall|r: int, s: int|
                0 <= r < N && 0 <= s < N ==> (#[trigger] p@[r][s]) == (if interior(N as int, r, s)
                    && r < i {
                    factor(co.d, co.e, co.f, s)
                } else {
                    old(p)@[r][s]
                }),
            forall|r: int, s: int|
                0 <= r < N && 0 <= s < N ==> (#[trigger] q@[r][s]) == (if interior(N as int, r, s)
                    && r < i {
                    row_rhs(*co, v@, old(u)@[r][0], r, s)
                } else {
                    old(q)@[r][s]
                }),
        decreases N - i,
    {
        let ghost u_before = u@;
        let first = *u.get(i, 0);
        let ghost last = u@[i as int][N - 1];
        assert(first == old(u)@[i as int][0] && last == old(u)@[i as int][N - 1]);
        let mut factor_before = T::zero();
        let mut rhs_before = first;
        for j in 1..(N - 1)
            invariant
                u@ == u_before,
                factor_before == factor(co.d, co.e, co.f, j - 1),
                rhs_before == row_rhs(*co, v@, first, i as int, j - 1),
                forall|r: int, s: int|
                    0 <= r < N && 0 <= s < N ==> (#[trigger] p@[r][s]) == (if interior(
                        N as int,
                        r,
                        s,
                    ) && (r < i || (r == i && s < j)) {
                        factor(co.d, co.e, co.f, s)
                    } else {
                        old(p)@[r][s]
                    }),
                forall|r: int, s: int|
                    0 <= r < N && 0 <= s < N ==> (#[trigger] q@[r][s]) == (if interior(
                        N as int,
                        r,
                        s,
                    ) && (r < i || (r == i && s < j)) {
                        row_rhs(*co, v@, old(u)@[r][0], r, s)
                    } else {
                        old(q)@[r][s]
                    }),
        {
            let den = co.d.mul(factor_before).add(co.e);
            let num = co.a.neg().mul(*v.get(i - 1, j)).add(
                one.add(two.mul(co.a)).mul(*v.get(i, j)),
            ).sub(co.c.mul(*v.get(i + 1, j))).sub(co.d.mul(rhs_before));
            factor_before = co.f.neg().div(den);
            rhs_before = num.div(den);
            p.set(i, j, factor_before);
            q.set(i, j, rhs_before);
        }
        let mut j: usize = N - 1;
        while j > 1
            invariant
                1 <= j <= N - 1,
                forall|r: int, s: int|
                    0 <= r < N && 0 <= s < N ==> (#[trigger] u@[r][s]) == (if r == i && j <= s
                        < N - 1 {
                        row_solution(*co, v@, first, last, r, s, N as int)
                    } else {
                        u_before[r][s]
                    }),
            decreases j,
        {
            j -= 1;
            assert(p@[i as int][j as int] == factor(co.d, co.e, co.f, j as int));
            assert(q@[i as int][j as int] == row_rhs(*co, v@, first, i as int, j as int));
            assert(u@[i as int][j + 1] == row_solution(
                *co,
                v@,
                first,
                last,
                i as int,
                j + 1,
                N as int,
            ));
            u.set(i, j, p.get(i, j).mul(*u.get(i, j + 1)).add(*q.get(i, j)));
        }
        i += 1;
    }
    assert(u@ =~~= row_sweep(*co, v@, old(u)@, N as int));
    assert(p@ =~~= scratch_factors(co.d, co.e, co.f, old(p)@, N as int));
    assert(q@ =~~= row_scratch(*co, v@, old(u)@, old(q)@, N as int));
}

/// Takes the time steps on the grid `u`; `v` holds the intermediate grid, `p`
/// and `q` are scratch space, and hold what the last sweep over the rows left
/// in them. No boundary point of any of the four is written: the boundary of
/// `u` and of `v` holds the boundary values of the systems.
pub fn kernel_adi<T: Scalar, const N: usize, const TSTEPS: usize>(
    u: &mut Array2D<T, N, N>,
    v: &mut Array2D<T, N, N>,
    p: &mut Array2D<T, N, N>,
    q: &mut Array2D<T, N, N>,
)
    ensures
        (final(u)@, final(v)@) == after_steps(
            coefficients_of::<T>(N, TSTEPS),
            old(u)@,
            old(v)@,
            N as int,
            steps_taken(TSTEPS),
        ),
        final(p)@ == (if steps_taken(TSTEPS) > 0 {
            scratch_factors(
                coefficients_of::<T>(N, TSTEPS).d,
                coefficients_of::<T>(N, TSTEPS).e,
                coefficients_of::<T>(N, TSTEPS).f,
                old(p)@,
                N as int,
            )
        } else {
            old(p)@
        }),
        final(q)@ == (if steps_taken(TSTEPS) > 0 {
            row_scratch(coefficients_of::<T>(N, TSTEPS), final(v)@, old(u)@, old(q)@, N as int)
        } else {
            old(q)@
        }),
        same_boundary(final(u)@, old(u)@, N as int),
        same_boundary(final(v)@, old(v)@, N as int),
        same_boundary(final(p)@, old(p)@, N as int),
        same_boundary(final(q)@, old(q)@, N as int),
{
    let co = coefficients::<T, N, TSTEPS>();
    let mut t: usize = 1;
    while t < TSTEPS
        invariant
            t == 1 || 1 <= t <= TSTEPS,
            co == coefficients_of::<T>(N, TSTEPS),
            (u@, v@) == after_steps(co, old(u)@, old(v)@, N as int, (t - 1) as nat),
            p@ == (if t > 1 {
                scratch_factors(co.d, co.e, co.f, old(p)@, N as int)
            } else {
                old(p)@
            }),
            q@ == (if t > 1 {
                row_scratch(co, v@, old(u)@, old(q)@, N as int)
            } else {
                old(q)@
            }),
            same_boundary(u@, old(u)@, N as int),
            same_boundary(v@, old(v)@, N as int),
        decreases TSTEPS - t,
    {
        sweep_columns(&co, u, v, p, q);
        sweep_rows(&co, u, v, p, q);
        assert(p@ =~~= scratch_factors(co.d, co.e, co.f, old(p)@, N as int));
        assert(q@ =~~= row_scratch(co, v@, old(u)@, old(q)@, N as int));
        t += 1;
    }
}

/// Generates the grid, times one run of the solver with the given time
/// source, and returns the time between its two readings.
pub fn bench<T: Scalar, const N: usize, const TSTEPS: usize, C: Fn() -> u64>(
    timing_function: &C,
) -> (r: Result<Duration, TimerError>)
    requires
        2 * N <= usize::MAX,
        timing_function.requires(()),
    ensures
        measured_by(timing_function, r),
{
    let mut u = Array2D::<T, N, N>::maybe_uninit();
    let v = Array2D::<T, N, N>::maybe_uninit_zeroed();
    let p = Array2D::<T, N, N>::maybe_uninit_zeroed();
    let q = Array2D::<T, N, N>::maybe_uninit_zeroed();
    init_array::<T, N, TSTEPS>(&mut u);
    let u = u.assume_init();
    let (elapsed, u) = benchmark_with_timing_function(
        move || -> (u: Box<Array2D<T, N, N>>)
            {
                let mut u = u;
                let mut v = v;
                let mut p = p;
                let mut q = q;
                kernel_adi::<T, N, TSTEPS>(&mut *u, &mut *v, &mut *p, &mut *q);
                u
            },
        timing_function,
    );
    consume(u);
    elapsed
}

} // verus!
