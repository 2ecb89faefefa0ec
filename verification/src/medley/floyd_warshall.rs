//! Floyd and Warshall's shortest paths between all pairs of nodes, in place.
use crate::ndarray::{Array2D, ArrayAlloc, Uninit};
use crate::util::{benchmark_with_timing_function, consume, measured_by, TimerError};
use core::time::Duration;
use vstd::prelude::*;

verus! {

/// The largest length that the kernel takes: the sum of two such lengths is
/// still an `i32`.
pub const MAX_LENGTH: i32 = 1073741823;

/// The length from `i` to `j` after the round that lets paths run through
/// node `k`: the shorter of the length before the round and the length
/// through `k`. The two legs through `k` are taken after the round where the
/// round has reached them before `(i, j)` in row order, and before the round
/// elsewhere.
pub open spec fn relaxed_length(p: Seq<Seq<i32>>, k: int, i: int, j: int) -> int
    decreases
            (if i != k {
                1int
            } else {
                0int
            }) + (if j != k {
                1int
            } else {
                0int
            }),
{
    let first = if k < j {
        relaxed_length(p, k, i, k)
    } else {
        p[i][k] as int
    };
    let second = if k < i {
        relaxed_length(p, k, k, j)
    } else {
        p[k][j] as int
    };
    if p[i][j] < first + second {
        p[i][j] as int
    } else {
        first + second
    }
}

/// The lengths after the round through node `k`, between `n` nodes.
pub open spec fn round(p: Seq<Seq<i32>>, k: int, n: usize) -> Seq<Seq<i32>> {
    Seq::new(n as nat, |i: int| Seq::new(n as nat, |j: int| relaxed_length(p, k, i, j) as i32))
}

/// The lengths after the rounds through the nodes `0` to `k - 1`.
pub open spec fn after_rounds(p: Seq<Seq<i32>>, n: usize, k: nat) -> Seq<Seq<i32>>
    decreases k,
{
    if k == 0 {
        p
    } else {
        round(after_rounds(p, n, (k - 1) as nat), k - 1, n)
    }
}

/// Every length lies between zero and `MAX_LENGTH`.
pub open spec fn lengths_in_range(p: Seq<Seq<i32>>, n: usize) -> bool {
    forall|i: int, j: int| 0 <= i < n && 0 <= j < n ==> 0 <= (#[trigger] p[i][j]) <= MAX_LENGTH
}

/// The generated length from `i` to `j`.
pub open spec fn length_entry(i: int, j: int) -> i32 {
    if (i + j) % 13 == 0 || (i + j) % 7 == 0 || (i + j) % 11 == 0 {
        999
    } else {
        ((i * j) % 7 + 1) as i32
    }
}

/// Computes the generated length from `i` to `j`.
pub fn length_value<const N: usize>(i: usize, j: usize) -> (v: i32)
    requires
        i < N,
        j < N,
        N * N <= usize::MAX,
        2 * N <= usize::MAX,
    ensures
        v == length_entry(i as int, j as int),
        0 <= v <= 999,
{
    assert(i * j <= N * N) by (nonlinear_arith)
        requires
            i < N,
            j < N,
    ;
    if (i + j) % 13 == 0 || (i + j) % 7 == 0 || (i + j) % 11 == 0 {
        999
    } else {
        (i * j % 7 + 1) as i32
    }
}

/// Fills the lengths, each with a fixed function of its two nodes.
pub fn init_array<const N: usize>(path: &mut Uninit<Array2D<i32, N, N>>)
    requires
        N * N <= usize::MAX,
        2 * N <= usize::MAX,
    ensures
        forall|i: int, j: int|
            0 <= i < N && 0 <= j < N ==> (#[trigger] final(path)@[i][j]) == Some(
                length_entry(i, j),
            ),
{
    path.fill_with(length_value::<N>);
}

/// Two runs of the generator leave the same values behind: what it writes
/// depends on the indices and the shape alone, on nothing that was there
/// before and on nothing from outside.
pub proof fn init_array_is_deterministic<const N: usize>(
    path_1: Uninit<Array2D<i32, N, N>>,
    path_2: Uninit<Array2D<i32, N, N>>,
)
    requires
        forall|i: int, j: int|
            0 <= i < N && 0 <= j < N ==> (#[trigger] path_1@[i][j]) == Some(
                length_entry(i, j),
            ),
        forall|i: int, j: int|
            0 <= i < N && 0 <= j < N ==> (#[trigger] path_2@[i][j]) == Some(
                length_entry(i, j),
            ),
    ensures
        path_1@ == path_2@,
{
    assert(path_1@ =~~= path_2@);
}

/// Runs the rounds through every node, with the node of the round in the
/// outermost loop.
#[verifier::loop_isolation(false)]
pub fn kernel_floyd_warshall<const N: usize>(path: &mut Array2D<i32, N, N>)
    requires
        lengths_in_range(old(path)@, N),
    ensures
        final(path)@ == after_rounds(old(path)@, N, N as nat),
        lengths_in_range(final(path)@, N),
        forall|i: int, j: int|
            0 <= i < N && 0 <= j < N ==> (#[trigger] final(path)@[i][j]) <= old(path)@[i][j],
{
    for k in 0..N
        invariant
            path@ == after_rounds(old(path)@, N, k as nat),
            lengths_in_range(path@, N),
            forall|i: int, j: int|
                0 <= i < N && 0 <= j < N ==> (#[trigger] path@[i][j]) <= old(path)@[i][j],
    {
        let ghost before = path@;
        for i in 0..N
            invariant
                lengths_in_range(path@, N),
                forall|p: int, q: int|
                    0 <= p < N && 0 <= q < N ==> (#[trigger] path@[p][q]) == (if p < i {
                        relaxed_length(before, k as int, p, q)
                    } else {
                        before[p][q] as int
                    }),
        {
            for j in 0..N
                invariant
                    lengths_in_range(path@, N),
                    forall|p: int, q: int|
                        0 <= p < N && 0 <= q < N ==> (#[trigger] path@[p][q]) == (if p < i || (p
                            == i && q < j) {
                            relaxed_length(before, k as int, p, q)
                        } else {
                            before[p][q] as int
                        }),
            {
                let through = *path.get(i, k) + *path.get(k, j);
                let shorter = if *path.get(i, j) < through {
                    *path.get(i, j)
                } else {
                    through
                };
                path.set(i, j, shorter);
            }
        }
        assert(path@ =~~= round(before, k as int, N));
    }
}

/// Generates the lengths, times one run of the kernel with the given time
/// source, and returns the time between its two readings.
pub fn bench<const N: usize, C: Fn() -> u64>(timing_function: &C) -> (r: Result<
    Duration,
    TimerError,
>)
    requires
        N * N <= usize::MAX,
        2 * N <= usize::MAX,
        timing_function.requires(()),
    ensures
        measured_by(timing_function, r),
{
    let mut path = Array2D::<i32, N, N>::maybe_uninit();
    init_array(&mut path);
    let path = path.assume_init();
    let (elapsed, path) = benchmark_with_timing_function(
        move || -> (path: Box<Array2D<i32, N, N>>)
            {
                let mut path = path;
                kernel_floyd_warshall(&mut *path);
                path
            },
        timing_function,
    );
    consume(path);
    elapsed
}

} // verus!
