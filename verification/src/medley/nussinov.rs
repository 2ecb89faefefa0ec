//! Nussinov's dynamic program for RNA folding: the best number of base pairs
//! of every stretch of a sequence, over a triangular table.
use crate::ndarray::{Array1D, Array2D, ArrayAlloc, Uninit};
use crate::util::{benchmark_with_timing_function, consume, measured_by, TimerError};
use core::time::Duration;
use vstd::prelude::*;

verus! {

/// One if the two bases pair, zero if they do not: bases are numbered from
/// zero to three, and two bases pair when their numbers add up to three.
pub open spec fn pairing(b1: i8, b2: i8) -> int {
    if b1 + b2 == 3 {
        1
    } else {
        0
    }
}

/// The larger of two scores.
pub open spec fn max_score(s1: int, s2: int) -> int {
    if s1 >= s2 {
        s1
    } else {
        s2
    }
}

/// The score of the stretch from `i` to `j`: the best of what the table holds
/// there at the start, of the scores of the stretch without its last base,
/// without its first, and without both (plus one where the two pair and are
/// not neighbours), and of every split of the stretch in two. A cell on or
/// under the diagonal keeps what the table holds.
pub open spec fn score(t: Seq<Seq<i32>>, seq: Seq<i8>, i: int, j: int) -> int
    decreases j - i + 2, 2int, 0int,
{
    if i >= j {
        t[i][j] as int
    } else {
        with_splits(t, seq, i, j, j)
    }
}

/// The score of the stretch from `i` to `j` before any split is tried.
pub open spec fn without_splits(t: Seq<Seq<i32>>, seq: Seq<i8>, i: int, j: int) -> int
    decreases j - i + 2, 0int, 0int,
{
    if i >= j {
        0
    } else {
        let bonus = if i < j - 1 {
            pairing(seq[i], seq[j])
        } else {
            0
        };
        max_score(
            max_score(
                max_score(t[i][j] as int, score(t, seq, i, j - 1)),
                score(t, seq, i + 1, j),
            ),
            score(t, seq, i + 1, j - 1) + bonus,
        )
    }
}

/// The score of the stretch from `i` to `j` once the splits after the
/// positions `i + 1` up to `k - 1` have been tried.
pub open spec fn with_splits(t: Seq<Seq<i32>>, seq: Seq<i8>, i: int, j: int, k: int) -> int
    decreases j - i + 2, 1int, k - i,
{
    if i >= j || k <= i + 1 || k > j {
        without_splits(t, seq, i, j)
    } else {
        max_score(
            with_splits(t, seq, i, j, k - 1),
            score(t, seq, i, k - 1) + score(t, seq, k, j),
        )
    }
}

/// A bound on the score of the stretch from `p` to `q`, where every entry of
/// the table lies between `-c` and `c` at the start.
pub open spec fn room(p: int, q: int, c: int) -> int {
    if q > p {
        (q - p + 1) * c
    } else {
        c
    }
}

/// A number whose product with `n` is at most `m` is at most the quotient of
/// `m` by `n`.
proof fn at_most_the_quotient(x: int, n: int, m: int)
    requires
        n > 0,
        m >= 0,
        x * n <= m,
    ensures
        x <= m / n,
        (m / n) * n <= m,
{
    vstd::arithmetic::div_mod::lemma_fundamental_div_mod(m, n);
    vstd::arithmetic::div_mod::lemma_div_pos_is_pos(m, n);
    assert((m / n) * n == n * (m / n)) by (nonlinear_arith);
    if x > 0 {
        vstd::arithmetic::div_mod::lemma_div_is_ordered(x * n, m, n);
        vstd::arithmetic::div_mod::lemma_div_by_multiple(x, n);
    }
}

/// A longer stretch has more room, and every stretch has room for one entry.
proof fn room_grows(p: int, q: int, p2: int, q2: int, c: int)
    requires
        c >= 1,
        q - p <= q2 - p2,
    ensures
        room(p, q, c) <= room(p2, q2, c),
        room(p, q, c) >= c,
{
    assert(room(p, q, c) <= room(p2, q2, c) && room(p, q, c) >= c) by (nonlinear_arith)
        requires
            c >= 1,
            q - p <= q2 - p2,
            room(p, q, c) == (if q > p {
                (q - p + 1) * c
            } else {
                c
            }),
            room(p2, q2, c) == (if q2 > p2 {
                (q2 - p2 + 1) * c
            } else {
                c
            }),
    ;
}

/// The rooms of the two parts of a split add up to the room of the whole.
proof fn room_of_split(i: int, k: int, j: int, c: int)
    requires
        c >= 1,
        i <= k < j,
    ensures
        room(i, k, c) + room(k + 1, j, c) == room(i, j, c),
        room(i, j, c) >= 2 * c,
{
    assert(room(i, k, c) + room(k + 1, j, c) == (j - i + 1) * c && (j - i + 1) * c >= 2 * c)
        by (nonlinear_arith)
        requires
            c >= 1,
            i <= k < j,
            room(i, k, c) == (if k > i {
                (k - i + 1) * c
            } else {
                c
            }),
            room(k + 1, j, c) == (if j > k + 1 {
                (j - (k + 1) + 1) * c
            } else {
                c
            }),
    ;
}

/// The room of any stretch of a sequence of `n` bases fits in an `i32`.
proof fn room_fits(p: int, q: int, c: int, n: int)
    requires
        c >= 1,
        0 <= p < n,
        0 <= q < n,
        c * n <= i32::MAX,
    ensures
        room(p, q, c) <= i32::MAX,
{
    assert(room(p, q, c) <= c * n) by (nonlinear_arith)
        requires
            c >= 1,
            0 <= p < n,
            0 <= q < n,
            room(p, q, c) == (if q > p {
                (q - p + 1) * c
            } else {
                c
            }),
    ;
}

/// The generated base at position `i`.
pub open spec fn base_entry(i: int) -> i8 {
    ((i + 1) % 4) as i8
}

/// Computes the generated base at position `i`.
pub fn base_value<const N: usize>(i: usize) -> (v: i8)
    requires
        i < N,
    ensures
        v == base_entry(i as int),
{
    ((i + 1) % 4) as i8
}

/// The entry of the generated table, which is zero throughout.
pub fn table_value<const N: usize>(i: usize, j: usize) -> (v: i32)
    ensures
        v == 0,
{
    0
}

/// Fills the sequence with bases that depend on their position alone, and
/// the table with zeros.
pub fn init_array<const N: usize>(
    seq: &mut Uninit<Array1D<i8, N>>,
    table: &mut Uninit<Array2D<i32, N, N>>,
)
    ensures
        forall|i: int| 0 <= i < N ==> (#[trigger] final(seq)@[i]) == Some(base_entry(i)),
        forall|i: int, j: int|
            0 <= i < N && 0 <= j < N ==> (#[trigger] final(table)@[i][j]) == Some(0i32),
{
    seq.fill_with(base_value::<N>);
    table.fill_with(table_value::<N>);
}

/// Two runs of the generator leave the same values behind: what it writes
/// depends on the indices and the shape alone, on nothing that was there
/// before and on nothing from outside.
pub proof fn init_array_is_deterministic<const N: usize>(
    seq_1: Uninit<Array1D<i8, N>>,
    table_1: Uninit<Array2D<i32, N, N>>,
    seq_2: Uninit<Array1D<i8, N>>,
    table_2: Uninit<Array2D<i32, N, N>>,
)
    requires
        forall|i: int| 0 <= i < N ==> (#[trigger] seq_1@[i]) == Some(base_entry(i)),
        forall|i: int, j: int|
            0 <= i < N && 0 <= j < N ==> (#[trigger] table_1@[i][j]) == Some(0i32),
        forall|i: int| 0 <= i < N ==> (#[trigger] seq_2@[i]) == Some(base_entry(i)),
        forall|i: int, j: int|
            0 <= i < N && 0 <= j < N ==> (#[trigger] table_2@[i][j]) == Some(0i32),
    ensures
        seq_1@ == seq_2@,
        table_1@ == table_2@,
{
    assert(seq_1@ =~~= seq_2@);
    assert(table_1@ =~~= table_2@);
}

/// Whether two bases pair, as a score.
pub fn match_base(b1: i8, b2: i8) -> (r: i32)
    requires
        0 <= b1 <= 3,
        0 <= b2 <= 3,
    ensures
        r == pairing(b1, b2),
{
    if b1 + b2 == 3 {
        1
    } else {
        0
    }
}

/// The larger of two scores.
pub fn larger(s1: i32, s2: i32) -> (r: i32)
    ensures
        r == max_score(s1 as int, s2 as int),
{
    if s1 >= s2 {
        s1
    } else {
        s2
    }
}

/// Fills the table above its diagonal, from the last row to the first and in
/// each row from the diagonal outwards.
#[verifier::loop_isolation(false)]
pub fn kernel_nussinov<const N: usize>(seq: &Array1D<i8, N>, table: &mut Array2D<i32, N, N>)
    requires
        forall|i: int| 0 <= i < N ==> 0 <= (#[trigger] seq@[i]) <= 3,
        forall|i: int, j: int|
            0 <= i < N && 0 <= j < N ==> (1 + #[trigger] old(table)@[i][j]) * N <= i32::MAX && (1
                - old(table)@[i][j]) * N <= i32::MAX,
    ensures
        forall|i: int, j: int|
            0 <= i < N && 0 <= j < N ==> (#[trigger] final(table)@[i][j]) == score(
                old(table)@,
                seq@,
                i,
                j,
            ),
{
    if N == 0 {
        return ;
    }
    let ghost t0 = table@;
    let ghost c = i32::MAX as int / (N as int);
    proof {
        assert forall|i: int, j: int| 0 <= i < N && 0 <= j < N implies -c < (
        #[trigger] t0[i][j]) < c by {
            let e = t0[i][j] as int;
            at_most_the_quotient(1 + e, N as int, i32::MAX as int);
            at_most_the_quotient(1 - e, N as int, i32::MAX as int);
        }
        assert(c >= 1 && c * N <= i32::MAX) by {
            assert(-c < t0[0][0] < c);
            at_most_the_quotient(1 + t0[0][0], N as int, i32::MAX as int);
        }
        assert forall|p: int, q: int| 0 <= p < N && 0 <= q < N implies -c < (
        #[trigger] table@[p][q]) < room(p, q, c) by {
            room_grows(p, q, p, q, c);
            assert(-c < t0[p][q] < c);
        }
    }
    let mut i: usize = N;
    while i > 0
        invariant
            i <= N,
            forall|p: int, q: int|
                0 <= p < N && 0 <= q < N ==> (#[trigger] table@[p][q]) == (if p >= i {
                    score(t0, seq@, p, q)
                } else {
                    t0[p][q] as int
                }),
            forall|p: int, q: int|
                0 <= p < N && 0 <= q < N ==> -c < (#[trigger] table@[p][q]) < room(p, q, c),
        decreases i,
    {
        i -= 1;
        for j in (i + 1)..N
            invariant
                forall|p: int, q: int|
                    0 <= p < N && 0 <= q < N ==> (#[trigger] table@[p][q]) == (if p > i || (p == i
                        && q < j) {
                        score(t0, seq@, p, q)
                    } else {
                        t0[p][q] as int
                    }),
                forall|p: int, q: int|
                    0 <= p < N && 0 <= q < N ==> -c < (#[trigger] table@[p][q]) < room(p, q, c),
        {
            proof {
                room_grows(i as int, j - 1, i as int, j as int, c);
                room_grows(i + 1, j - 1, i as int, j - 1, c);
                room_of_split(i as int, j - 1, j as int, c);
                room_fits(i as int, j as int, c, N as int);
            }
            let mut best = larger(*table.get(i, j), *table.get(i, j - 1));
            best = larger(best, *table.get(i + 1, j));
            if i < j - 1 {
                best = larger(
                    best,
                    *table.get(i + 1, j - 1) + match_base(*seq.get(i), *seq.get(j)),
                );
            } else {
                best = larger(best, *table.get(i + 1, j - 1));
            }
            assert(best == without_splits(t0, seq@, i as int, j as int));
            table.set(i, j, best);
            for k in (i + 1)..j
                invariant
                    -c < best < room(i as int, j as int, c),
                    best == with_splits(t0, seq@, i as int, j as int, k as int),
                    forall|p: int, q: int|
                        0 <= p < N && 0 <= q < N && !(p == i && q == j) ==> (
                        #[trigger] table@[p][q]) == (if p > i || (p == i && q < j) {
                            score(t0, seq@, p, q)
                        } else {
                            t0[p][q] as int
                        }),
                    forall|p: int, q: int|
                        0 <= p < N && 0 <= q < N ==> -c < (#[trigger] table@[p][q]) < room(
                            p,
                            q,
                            c,
                        ),
                    table@[i as int][j as int] == best,
            {
                proof {
                    room_of_split(i as int, k as int, j as int, c);
                }
                best = larger(best, *table.get(i, k) + *table.get(k + 1, j));
                table.set(i, j, best);
            }
        }
    }
}

/// Generates the inputs, times one run of the kernel with the given time
/// source, and returns the time between its two readings.
pub fn bench<const N: usize, C: Fn() -> u64>(timing_function: &C) -> (r: Result<
    Duration,
    TimerError,
>)
    requires
        N <= i32::MAX,
        timing_function.requires(()),
    ensures
        measured_by(timing_function, r),
{
    let mut seq = Array1D::<i8, N>::maybe_uninit();
    let mut table = Array2D::<i32, N, N>::maybe_uninit();
    init_array(&mut seq, &mut table);
    let seq = seq.assume_init();
    let table = table.assume_init();
    assert forall|i: int, j: int| 0 <= i < N && 0 <= j < N implies (1 + #[trigger] table@[i][j])
        * N <= i32::MAX && (1 - table@[i][j]) * N <= i32::MAX by {
        assert(Some(table@[i][j]) == Some(0i32));
    }
    let (elapsed, table) = benchmark_with_timing_function(
        move || -> (table: Box<Array2D<i32, N, N>>)
            {
                let mut table = table;
                kernel_nussinov(&*seq, &mut *table);
                table
            },
        timing_function,
    );
    consume(table);
    elapsed
}

} // verus!
