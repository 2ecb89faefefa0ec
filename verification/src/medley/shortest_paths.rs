//! What the rounds of Floyd and Warshall compute: the lengths of the shortest
//! walks between all pairs of nodes.
use crate::medley::floyd_warshall::{after_rounds, lengths_in_range, relaxed_length, round};
use vstd::prelude::*;

verus! {

/// The smaller of two lengths.
pub open spec fn shorter(a: int, b: int) -> int {
    if a < b {
        a
    } else {
        b
    }
}

/// `w` lists the nodes of a walk from `from` to `to` between `n` nodes: at
/// least the two ends.
pub open spec fn is_walk(w: Seq<int>, n: usize, from: int, to: int) -> bool {
    &&& w.len() >= 2
    &&& w[0] == from
    &&& w[w.len() - 1] == to
    &&& forall|t: int| 0 <= t < w.len() ==> 0 <= #[trigger] w[t] < n
}

/// Every node of the walk between its two ends is below `k`.
pub open spec fn inner_below(w: Seq<int>, k: int) -> bool {
    forall|t: int| 0 < t < w.len() - 1 ==> #[trigger] w[t] < k
}

/// The sum of the lengths `p` of the steps of the walk.
pub open spec fn walk_length(p: Seq<Seq<i32>>, w: Seq<int>) -> int
    decreases w.len(),
{
    if w.len() < 2 {
        0
    } else {
        walk_length(p, w.drop_last()) + p[w[w.len() - 2]][w[w.len() - 1]]
    }
}

/// With lengths that are not negative, a round leaves the two legs through
/// its node as they were: every length becomes the shorter of itself and the
/// sum of the two legs before the round.
pub proof fn round_is_pure(p: Seq<Seq<i32>>, n: usize, k: int, i: int, j: int)
    requires
        lengths_in_range(p, n),
        0 <= k < n,
        0 <= i < n,
        0 <= j < n,
    ensures
        relaxed_length(p, k, i, j) == shorter(p[i][j] as int, p[i][k] + p[k][j]),
        round(p, k, n)[i][j] == relaxed_length(p, k, i, j),
        0 <= round(p, k, n)[i][j] <= p[i][j],
{
    reveal_with_fuel(relaxed_length, 3);
}

/// The lengths stay in range through the rounds.
pub proof fn rounds_keep_the_range(p: Seq<Seq<i32>>, n: usize, k: nat)
    requires
        lengths_in_range(p, n),
        k <= n,
    ensures
        lengths_in_range(after_rounds(p, n, k), n),
    decreases k,
{
    if k > 0 {
        let before = after_rounds(p, n, (k - 1) as nat);
        rounds_keep_the_range(p, n, (k - 1) as nat);
        assert forall|i: int, j: int| 0 <= i < n && 0 <= j < n implies 0 <= (#[trigger] round(
            before,
            k - 1,
            n,
        )[i][j]) <= crate::medley::floyd_warshall::MAX_LENGTH by {
            round_is_pure(before, n, k - 1, i, j);
        }
    }
}

/// A walk is as long as its part up to a node and its part from that node on
/// together.
pub proof fn walk_length_splits(p: Seq<Seq<i32>>, w: Seq<int>, t: int)
    requires
        0 <= t < w.len(),
    ensures
        walk_length(p, w) == walk_length(p, w.subrange(0, t + 1)) + walk_length(
            p,
            w.subrange(t, w.len() as int),
        ),
    decreases w.len(),
{
    let tail = w.subrange(t, w.len() as int);
    if t == w.len() - 1 {
        assert(w.subrange(0, t + 1) =~= w);
    } else {
        let shorter_walk = w.drop_last();
        walk_length_splits(p, shorter_walk, t);
        assert(shorter_walk.subrange(0, t + 1) =~= w.subrange(0, t + 1));
        assert(tail.drop_last() =~= shorter_walk.subrange(t, shorter_walk.len() as int));
    }
}

/// After the rounds through the nodes below `k`, no walk whose inner nodes
/// are below `k` is shorter than the length that the table holds.
pub proof fn no_walk_below_is_shorter(
    p: Seq<Seq<i32>>,
    n: usize,
    k: nat,
    w: Seq<int>,
    i: int,
    j: int,
)
    requires
        lengths_in_range(p, n),
        k <= n,
        is_walk(w, n, i, j),
        inner_below(w, k as int),
    ensures
        after_rounds(p, n, k)[i][j] <= walk_length(p, w),
    decreases k, w.len(),
{
    if k == 0 {
        assert(w.len() == 2) by {
            if w.len() > 2 {
                assert(w[1] < 0);
            }
        }
        assert(walk_length(p, w.drop_last()) == 0);
    } else {
        let node = k - 1;
        let before = after_rounds(p, n, (k - 1) as nat);
        rounds_keep_the_range(p, n, (k - 1) as nat);
        round_is_pure(before, n, node, i, j);
        if inner_below(w, node) {
            no_walk_below_is_shorter(p, n, (k - 1) as nat, w, i, j);
        } else {
            let t = choose|t: int| 0 < t < w.len() - 1 && !(#[trigger] w[t] < node);
            let head = w.subrange(0, t + 1);
            let tail = w.subrange(t, w.len() as int);
            walk_length_splits(p, w, t);
            no_walk_below_is_shorter(p, n, k, head, i, node);
            no_walk_below_is_shorter(p, n, k, tail, node, j);
            round_is_pure(before, n, node, i, node);
            round_is_pure(before, n, node, node, j);
        }
    }
}

/// After all the rounds, no walk is shorter than the length that the table
/// holds.
pub proof fn no_walk_is_shorter(p: Seq<Seq<i32>>, n: usize, w: Seq<int>, i: int, j: int)
    requires
        lengths_in_range(p, n),
        is_walk(w, n, i, j),
    ensures
        after_rounds(p, n, n as nat)[i][j] <= walk_length(p, w),
{
    no_walk_below_is_shorter(p, n, n as nat, w, i, j);
}

/// After any number of rounds, the length that the table holds is the length
/// of a walk: the one returned.
pub proof fn some_walk_is_as_short(p: Seq<Seq<i32>>, n: usize, k: nat, i: int, j: int) -> (w: Seq<
    int,
>)
    requires
        lengths_in_range(p, n),
        k <= n,
        0 <= i < n,
        0 <= j < n,
    ensures
        is_walk(w, n, i, j),
        walk_length(p, w) == after_rounds(p, n, k)[i][j],
    decreases k,
{
    if k == 0 {
        let w = seq![i, j];
        assert(walk_length(p, w.drop_last()) == 0);
        w
    } else {
        let node = k - 1;
        let before = after_rounds(p, n, (k - 1) as nat);
        rounds_keep_the_range(p, n, (k - 1) as nat);
        round_is_pure(before, n, node, i, j);
        if before[i][j] < before[i][node] + before[node][j] {
            some_walk_is_as_short(p, n, (k - 1) as nat, i, j)
        } else {
            let head = some_walk_is_as_short(p, n, (k - 1) as nat, i, node);
            let tail = some_walk_is_as_short(p, n, (k - 1) as nat, node, j);
            let w = head + tail.subrange(1, tail.len() as int);
            let t = head.len() - 1;
            walk_length_splits(p, w, t);
            assert(w.subrange(0, t + 1) =~= head);
            assert(w.subrange(t, w.len() as int) =~= tail);
            w
        }
    }
}

} // verus!
