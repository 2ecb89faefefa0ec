//! Fixed-shape arrays of one, two and three dimensions, and their allocation
//! lifecycle: a handle whose cells are not yet valid, the writes that fill it,
//! and the one transition that turns it into an array.
use crate::scalar::{Scalar, Zero};
use vstd::prelude::*;

verus! {

/// `M` elements in a row.
pub struct Array1D<T, const M: usize>(pub [T; M]);

/// `M` rows of `N` elements.
pub struct Array2D<T, const M: usize, const N: usize>(pub [Array1D<T, N>; M]);

/// `M` planes of `N` rows of `P` elements.
pub struct Array3D<T, const M: usize, const N: usize, const P: usize>(pub [Array2D<T, N, P>; M]);

impl<T: Copy, const M: usize> Clone for Array1D<T, M> {
    fn clone(&self) -> (r: Self)
        ensures
            r == *self,
    {
        *self
    }
}

impl<T: Copy, const M: usize> Copy for Array1D<T, M> {

}

impl<T: Copy, const M: usize, const N: usize> Clone for Array2D<T, M, N> {
    fn clone(&self) -> (r: Self)
        ensures
            r == *self,
    {
        *self
    }
}

impl<T: Copy, const M: usize, const N: usize> Copy for Array2D<T, M, N> {

}

impl<T: Copy, const M: usize, const N: usize, const P: usize> Clone for Array3D<T, M, N, P> {
    fn clone(&self) -> (r: Self)
        ensures
            r == *self,
    {
        *self
    }
}

impl<T: Copy, const M: usize, const N: usize, const P: usize> Copy for Array3D<T, M, N, P> {

}

/// `s` with the element at row `i`, column `j` replaced by `v`.
pub open spec fn put2<T>(s: Seq<Seq<T>>, i: int, j: int, v: T) -> Seq<Seq<T>> {
    s.update(i, s[i].update(j, v))
}

/// `s` with the element at plane `i`, row `j`, column `k` replaced by `v`.
pub open spec fn put3<T>(s: Seq<Seq<Seq<T>>>, i: int, j: int, k: int, v: T) -> Seq<Seq<Seq<T>>> {
    s.update(i, put2(s[i], j, k, v))
}

/// `s` has `m` elements.
pub open spec fn has_shape1<T>(s: Seq<T>, m: int) -> bool {
    s.len() == m
}

/// `s` has `m` rows of `n` elements each.
pub open spec fn has_shape2<T>(s: Seq<Seq<T>>, m: int, n: int) -> bool {
    &&& s.len() == m
    &&& forall|i: int| 0 <= i < m ==> (#[trigger] s[i]).len() == n
}

/// `s` has `m` planes of `n` rows of `p` elements each.
pub open spec fn has_shape3<T>(s: Seq<Seq<Seq<T>>>, m: int, n: int, p: int) -> bool {
    &&& s.len() == m
    &&& forall|i: int| 0 <= i < m ==> has_shape2(#[trigger] s[i], n, p)
}

/// The number of elements in the first `n` rows of `s`.
pub open spec fn count_rows<T>(s: Seq<Seq<T>>, n: nat) -> nat
    decreases n,
{
    if n == 0 {
        0
    } else {
        count_rows(s, (n - 1) as nat) + s[n - 1].len()
    }
}

/// The number of elements in the first `n` planes of `s`.
pub open spec fn count_planes<T>(s: Seq<Seq<Seq<T>>>, n: nat) -> nat
    decreases n,
{
    if n == 0 {
        0
    } else {
        count_planes(s, (n - 1) as nat) + count_rows(s[n - 1], s[n - 1].len())
    }
}

/// Rows of `n` elements each hold `n` elements apiece.
pub proof fn count_of_rows<T>(s: Seq<Seq<T>>, k: nat, n: nat)
    requires
        k <= s.len(),
        forall|i: int| 0 <= i < k ==> (#[trigger] s[i]).len() == n,
    ensures
        count_rows(s, k) == k * n,
    decreases k,
{
    if k > 0 {
        let before = (k - 1) as nat;
        count_of_rows(s, before, n);
        assert(before * n + n == k * n) by (nonlinear_arith)
            requires
                before + 1 == k,
        ;
    } else {
        assert(k * n == 0) by (nonlinear_arith)
            requires
                k == 0,
        ;
    }
}

/// Planes of `n` rows of `p` elements each hold `n * p` elements apiece.
pub proof fn count_of_planes<T>(s: Seq<Seq<Seq<T>>>, k: nat, n: nat, p: nat)
    requires
        k <= s.len(),
        forall|i: int| 0 <= i < k ==> has_shape2(#[trigger] s[i], n as int, p as int),
    ensures
        count_planes(s, k) == k * (n * p),
    decreases k,
{
    if k > 0 {
        let before = (k - 1) as nat;
        count_of_planes(s, before, n, p);
        count_of_rows(s[k - 1], n, p);
        assert(before * (n * p) + n * p == k * (n * p)) by (nonlinear_arith)
            requires
                before + 1 == k,
        ;
    } else {
        assert(k * (n * p) == 0) by (nonlinear_arith)
            requires
                k == 0,
        ;
    }
}

impl<T, const M: usize> Array1D<T, M> {
    /// The elements, in order.
    pub open spec fn view(&self) -> Seq<T> {
        self.0@
    }

    /// The view has exactly `M` elements.
    pub proof fn shape(&self)
        ensures
            has_shape1(self@, M as int),
    {
    }

    /// The element at the given index, which lies within the shape.
    pub fn get(&self, i: usize) -> (r: &T)
        requires
            i < M,
        ensures
            *r == self@[i as int],
    {
        &self.0[i]
    }

    /// Replaces the element at the given index, which lies within the shape.
    pub fn set(&mut self, i: usize, v: T)
        requires
            i < M,
        ensures
            final(self)@ == old(self)@.update(i as int, v),
    {
        self.0[i] = v;
    }
}

impl<T, const M: usize, const N: usize> Array2D<T, M, N> {
    /// The rows, each a sequence of `N` elements.
    pub open spec fn view(&self) -> Seq<Seq<T>> {
        Seq::new(M as nat, |i: int| self.0@[i]@)
    }

    /// The view has exactly `M` rows of `N` elements.
    pub proof fn shape(&self)
        ensures
            has_shape2(self@, M as int, N as int),
    {
    }

    /// The array holds exactly `M * N` elements.
    pub proof fn element_count(&self)
        ensures
            count_rows(self@, self@.len()) == M * N,
    {
        count_of_rows(self@, M as nat, N as nat);
    }

    /// The element at the given index, which lies within the shape.
    pub fn get(&self, i: usize, j: usize) -> (r: &T)
        requires
            i < M,
            j < N,
        ensures
            *r == self@[i as int][j as int],
    {
        &self.0[i].0[j]
    }

    /// Replaces the element at the given index, which lies within the shape.
    pub fn set(&mut self, i: usize, j: usize, v: T)
        requires
            i < M,
            j < N,
        ensures
            final(self)@ == put2(old(self)@, i as int, j as int, v),
    {
        self.0[i].0[j] = v;
    }
}

impl<T, const M: usize, const N: usize, const P: usize> Array3D<T, M, N, P> {
    /// The planes, each a sequence of `N` rows of `P` elements.
    pub open spec fn view(&self) -> Seq<Seq<Seq<T>>> {
        Seq::new(M as nat, |i: int| self.0@[i]@)
    }

    /// The view has exactly `M` planes of `N` rows of `P` elements.
    pub proof fn shape(&self)
        ensures
            has_shape3(self@, M as int, N as int, P as int),
    {
    }

    /// The array holds exactly `M * N * P` elements.
    pub proof fn element_count(&self)
        ensures
            count_planes(self@, self@.len()) == M * (N * P),
    {
        count_of_planes(self@, M as nat, N as nat, P as nat);
    }

    /// The element at the given index, which lies within the shape.
    pub fn get(&self, i: usize, j: usize, k: usize) -> (r: &T)
        requires
            i < M,
            j < N,
            k < P,
        ensures
            *r == self@[i as int][j as int][k as int],
    {
        &self.0[i].0[j].0[k]
    }

    /// Replaces the element at the given index, which lies within the shape.
    pub fn set(&mut self, i: usize, j: usize, k: usize, v: T)
        requires
            i < M,
            j < N,
            k < P,
        ensures
            final(self)@ == put3(old(self)@, i as int, j as int, k as int, v),
    {
        self.0[i].0[j].0[k] = v;
        assert(self.0@[i as int]@ =~= put2(old(self).0@[i as int]@, j as int, k as int, v));
    }
}

/// An owned allocation whose cells are not yet valid. A cell becomes valid
/// when it is written; no cell can be read. Once every cell has been written,
/// `assume_init` turns the handle into the array.
pub struct Uninit<A> {
    slot: Box<A>,
    written: Ghost<Set<(int, int, int)>>,
}

impl<A> Uninit<A> {
    /// The cells written so far, by their indices; an index that the shape
    /// does not have is zero.
    pub closed spec fn written(&self) -> Set<(int, int, int)> {
        self.written@
    }

    /// What the allocation holds at this moment, valid or not.
    pub closed spec fn slot(&self) -> A {
        *self.slot
    }
}

impl<T: Copy, const M: usize> Uninit<Array1D<T, M>> {
    /// For each cell, the value written to it last, if it was written.
    pub open spec fn view(&self) -> Seq<Option<T>> {
        Seq::new(
            M as nat,
            |i: int|
                if self.written().contains((i, 0, 0)) {
                    Some(self.slot()@[i])
                } else {
                    None
                },
        )
    }

    /// Every cell has been written.
    pub open spec fn is_init(&self) -> bool {
        forall|i: int| 0 <= i < M ==> (#[trigger] self@[i]) is Some
    }

    /// Writes one cell, which is valid from then on.
    pub fn write(&mut self, i: usize, v: T)
        requires
            i < M,
        ensures
            final(self)@ == old(self)@.update(i as int, Some(v)),
    {
        self.slot.set(i, v);
        proof {
            self.written@ = self.written@.insert((i as int, 0, 0));
        }
    }

    /// Every cell holds a value that `f` gives for its index.
    pub open spec fn filled_by<F: Fn(usize) -> T>(&self, f: F) -> bool {
        forall|i: int|
            0 <= i < M ==> (#[trigger] self@[i]) is Some && f.ensures((i as usize,), self@[i]->0)
    }

    /// A generator that gives one value for every index fills every
    /// allocation alike.
    pub proof fn fill_is_determined<F: Fn(usize) -> T>(a: Self, b: Self, f: F)
        requires
            a.filled_by(f),
            b.filled_by(f),
            forall|i: usize, v: T, w: T| f.ensures((i,), v) && f.ensures((i,), w) ==> v == w,
        ensures
            a@ == b@,
    {
    }

    /// Writes every cell once, each with what `f` gives for its index.
    pub fn fill_with<F: Fn(usize) -> T>(&mut self, f: F)
        requires
            forall|i: usize| i < M ==> f.requires((i,)),
        ensures
            final(self).filled_by(f),
    {
        for i in 0..M
            invariant
                forall|i: usize| i < M ==> f.requires((i,)),
                forall|p: int|
                    0 <= p < i ==> (#[trigger] self@[p]) is Some && f.ensures(
                        (p as usize,),
                        self@[p]->0,
                    ),
        {
            let v = f(i);
            self.write(i, v);
        }
    }

    /// The one transition from the pending state to the array.
    pub fn assume_init(self) -> (r: Box<Array1D<T, M>>)
        requires
            self.is_init(),
        ensures
            forall|i: int| 0 <= i < M ==> Some(#[trigger] r@[i]) == self@[i],
    {
        self.slot
    }
}

impl<T: Copy, const M: usize, const N: usize> Uninit<Array2D<T, M, N>> {
    /// For each cell, the value written to it last, if it was written.
    pub open spec fn view(&self) -> Seq<Seq<Option<T>>> {
        Seq::new(
            M as nat,
            |i: int|
                Seq::new(
                    N as nat,
                    |j: int|
                        if self.written().contains((i, j, 0)) {
                            Some(self.slot()@[i][j])
                        } else {
                            None
                        },
                ),
        )
    }

    /// Every cell has been written.
    pub open spec fn is_init(&self) -> bool {
        forall|i: int, j: int| 0 <= i < M && 0 <= j < N ==> (#[trigger] self@[i][j]) is Some
    }

    /// Writes one cell, which is valid from then on.
    pub fn write(&mut self, i: usize, j: usize, v: T)
        requires
            i < M,
            j < N,
        ensures
            final(self)@ == put2(old(self)@, i as int, j as int, Some(v)),
    {
        self.slot.set(i, j, v);
        proof {
            self.written@ = self.written@.insert((i as int, j as int, 0));
        }
        assert(self@ =~~= put2(old(self)@, i as int, j as int, Some(v)));
    }

    /// Every cell holds a value that `f` gives for its indices.
    pub open spec fn filled_by<F: Fn(usize, usize) -> T>(&self, f: F) -> bool {
        forall|i: int, j: int|
            0 <= i < M && 0 <= j < N ==> (#[trigger] self@[i][j]) is Some && f.ensures(
                (i as usize, j as usize),
                self@[i][j]->0,
            )
    }

    /// A generator that gives one value for every pair of indices fills every
    /// allocation alike.
    pub proof fn fill_is_determined<F: Fn(usize, usize) -> T>(a: Self, b: Self, f: F)
        requires
            a.filled_by(f),
            b.filled_by(f),
            forall|i: usize, j: usize, v: T, w: T|
                f.ensures((i, j), v) && f.ensures((i, j), w) ==> v == w,
        ensures
            a@ == b@,
    {
        assert(a@ =~~= b@);
    }

    /// Writes every cell once, each with what `f` gives for its indices.
    pub fn fill_with<F: Fn(usize, usize) -> T>(&mut self, f: F)
        requires
            forall|i: usize, j: usize| i < M && j < N ==> f.requires((i, j)),
        ensures
            final(self).filled_by(f),
    {
        for i in 0..M
            invariant
                forall|i: usize, j: usize| i < M && j < N ==> f.requires((i, j)),
                forall|p: int, q: int|
                    0 <= p < i && 0 <= q < N ==> (#[trigger] self@[p][q]) is Some && f.ensures(
                        (p as usize, q as usize),
                        self@[p][q]->0,
                    ),
        {
            for j in 0..N
                invariant
                    i < M,
                    forall|i: usize, j: usize| i < M && j < N ==> f.requires((i, j)),
                    forall|p: int, q: int|
                        0 <= p < M && 0 <= q < N && (p < i || (p == i && q < j)) ==> (
                        #[trigger] self@[p][q]) is Some && f.ensures(
                            (p as usize, q as usize),
                            self@[p][q]->0,
                        ),
            {
                let v = f(i, j);
                self.write(i, j, v);
            }
        }
    }

    /// The one transition from the pending state to the array.
    pub fn assume_init(self) -> (r: Box<Array2D<T, M, N>>)
        requires
            self.is_init(),
        ensures
            forall|i: int, j: int|
                0 <= i < M && 0 <= j < N ==> Some(#[trigger] r@[i][j]) == self@[i][j],
    {
        self.slot
    }
}

impl<T: Copy, const M: usize, const N: usize, const P: usize> Uninit<Array3D<T, M, N, P>> {
    /// For each cell, the value written to it last, if it was written.
    pub open spec fn view(&self) -> Seq<Seq<Seq<Option<T>>>> {
        Seq::new(
            M as nat,
            |i: int|
                Seq::new(
                    N as nat,
                    |j: int|
                        Seq::new(
                            P as nat,
                            |k: int|
                                if self.written().contains((i, j, k)) {
                                    Some(self.slot()@[i][j][k])
                                } else {
                                    None
                                },
                        ),
                ),
        )
    }

    /// Every cell has been written.
    pub open spec fn is_init(&self) -> bool {
        forall|i: int, j: int, k: int|
            0 <= i < M && 0 <= j < N && 0 <= k < P ==> (#[trigger] self@[i][j][k]) is Some
    }

    /// Writes one cell, which is valid from then on.
    pub fn write(&mut self, i: usize, j: usize, k: usize, v: T)
        requires
            i < M,
            j < N,
            k < P,
        ensures
            final(self)@ == put3(old(self)@, i as int, j as int, k as int, Some(v)),
    {
        self.slot.set(i, j, k, v);
        proof {
            self.written@ = self.written@.insert((i as int, j as int, k as int));
        }
        assert(self@ =~~= put3(old(self)@, i as int, j as int, k as int, Some(v)));
    }

    /// Every cell holds a value that `f` gives for its indices.
    pub open spec fn filled_by<F: Fn(usize, usize, usize) -> T>(&self, f: F) -> bool {
        forall|i: int, j: int, k: int|
            0 <= i < M && 0 <= j < N && 0 <= k < P ==> (#[trigger] self@[i][j][k]) is Some
                && f.ensures((i as usize, j as usize, k as usize), self@[i][j][k]->0)
    }

    /// A generator that gives one value for every triple of indices fills
    /// every allocation alike.
    pub proof fn fill_is_determined<F: Fn(usize, usize, usize) -> T>(a: Self, b: Self, f: F)
        requires
            a.filled_by(f),
            b.filled_by(f),
            forall|i: usize, j: usize, k: usize, v: T, w: T|
                f.ensures((i, j, k), v) && f.ensures((i, j, k), w) ==> v == w,
        ensures
            a@ == b@,
    {
        assert(a@ =~~= b@);
    }

    /// Writes every cell once, each with what `f` gives for its indices.
    pub fn fill_with<F: Fn(usize, usize, usize) -> T>(&mut self, f: F)
        requires
            forall|i: usize, j: usize, k: usize| i < M && j < N && k < P ==> f.requires((i, j, k)),
        ensures
            final(self).filled_by(f),
    {
        for i in 0..M
            invariant
                forall|i: usize, j: usize, k: usize|
                    i < M && j < N && k < P ==> f.requires((i, j, k)),
                forall|p: int, q: int, r: int|
                    0 <= p < i && 0 <= q < N && 0 <= r < P ==> (#[trigger] self@[p][q][r])
                        is Some && f.ensures(
                        (p as usize, q as usize, r as usize),
                        self@[p][q][r]->0,
                    ),
        {
            for j in 0..N
                invariant
                    i < M,
                    forall|i: usize, j: usize, k: usize|
                        i < M && j < N && k < P ==> f.requires((i, j, k)),
                    forall|p: int, q: int, r: int|
                        0 <= p < M && 0 <= q < N && 0 <= r < P && (p < i || (p == i && q < j))
                            ==> (#[trigger] self@[p][q][r]) is Some && f.ensures(
                            (p as usize, q as usize, r as usize),
                            self@[p][q][r]->0,
                        ),
            {
                for k in 0..P
                    invariant
                        i < M,
                        j < N,
                        forall|i: usize, j: usize, k: usize|
                            i < M && j < N && k < P ==> f.requires((i, j, k)),
                        forall|p: int, q: int, r: int|
                            0 <= p < M && 0 <= q < N && 0 <= r < P && (p < i || (p == i && (q < j
                                || (q == j && r < k)))) ==> (#[trigger] self@[p][q][r]) is Some
                                && f.ensures(
                                (p as usize, q as usize, r as usize),
                                self@[p][q][r]->0,
                            ),
                {
                    let v = f(i, j, k);
                    self.write(i, j, k, v);
                }
            }
        }
    }

    /// The one transition from the pending state to the array.
    pub fn assume_init(self) -> (r: Box<Array3D<T, M, N, P>>)
        requires
            self.is_init(),
        ensures
            forall|i: int, j: int, k: int|
                0 <= i < M && 0 <= j < N && 0 <= k < P ==> Some(#[trigger] r@[i][j][k])
                    == self@[i][j][k],
    {
        self.slot
    }
}

/// Allocation of a fixed-shape array on the heap.
pub trait ArrayAlloc: Sized {
    /// Every element is the zero of the element type.
    spec fn is_zeroed(&self) -> bool;

    /// An allocation with no valid cell.
    fn maybe_uninit() -> (r: Uninit<Self>)
        ensures
            r.written() == Set::<(int, int, int)>::empty(),
    ;

    /// An array whose every element is zero.
    fn maybe_uninit_zeroed() -> (r: Box<Self>)
        ensures
            r.is_zeroed(),
    ;

    /// An array whose every element is zero.
    fn zeroed() -> (r: Box<Self>)
        ensures
            r.is_zeroed(),
    ;
}

impl<T: Zero, const M: usize> ArrayAlloc for Array1D<T, M> {
    open spec fn is_zeroed(&self) -> bool {
        forall|i: int| 0 <= i < M ==> (#[trigger] self@[i]) == T::zero_value()
    }

    fn maybe_uninit() -> (r: Uninit<Self>) {
        Uninit { slot: Self::maybe_uninit_zeroed(), written: Ghost(Set::empty()) }
    }

    fn maybe_uninit_zeroed() -> (r: Box<Self>) {
        Box::new(Array1D([T::zero();M]))
    }

    fn zeroed() -> (r: Box<Self>) {
        Self::maybe_uninit_zeroed()
    }
}

impl<T: Zero, const M: usize, const N: usize> ArrayAlloc for Array2D<T, M, N> {
    open spec fn is_zeroed(&self) -> bool {
        forall|i: int, j: int|
            0 <= i < M && 0 <= j < N ==> (#[trigger] self@[i][j]) == T::zero_value()
    }

    fn maybe_uninit() -> (r: Uninit<Self>) {
        Uninit { slot: Self::maybe_uninit_zeroed(), written: Ghost(Set::empty()) }
    }

    fn maybe_uninit_zeroed() -> (r: Box<Self>) {
        Box::new(Array2D([Array1D([T::zero();N]);M]))
    }

    fn zeroed() -> (r: Box<Self>) {
        Self::maybe_uninit_zeroed()
    }
}

impl<T: Zero, const M: usize, const N: usize, const P: usize> ArrayAlloc for Array3D<T, M, N, P> {
    open spec fn is_zeroed(&self) -> bool {
        forall|i: int, j: int, k: int|
            0 <= i < M && 0 <= j < N && 0 <= k < P ==> (#[trigger] self@[i][j][k])
                == T::zero_value()
    }

    fn maybe_uninit() -> (r: Uninit<Self>) {
        Uninit { slot: Self::maybe_uninit_zeroed(), written: Ghost(Set::empty()) }
    }

    fn maybe_uninit_zeroed() -> (r: Box<Self>) {
        Box::new(Array3D([Array2D([Array1D([T::zero();P]);N]);M]))
    }

    fn zeroed() -> (r: Box<Self>) {
        Self::maybe_uninit_zeroed()
    }
}

/// The sum of `a[t] * b[t]` over `t < n`, accumulated from zero in increasing
/// `t`.
pub open spec fn dot<T: Scalar>(a: Seq<T>, b: Seq<T>, n: nat) -> T
    decreases n,
{
    if n == 0 {
        T::zero_value()
    } else {
        dot(a, b, (n - 1) as nat).plus(a[n - 1].times(b[n - 1]))
    }
}

/// The matrix of the products of the rows of `a` with one another: at row
/// `r`, column `s`, the sum of `a[r][t] * a[s][t]` over all `t`.
pub open spec fn gram<T: Scalar>(a: Seq<Seq<T>>) -> Seq<Seq<T>> {
    Seq::new(a.len(), |r: int| Seq::new(a.len(), |s: int| dot(a[r], a[s], a.len())))
}

/// `a` equals its transpose.
pub open spec fn is_symmetric<T>(a: Seq<Seq<T>>) -> bool {
    forall|i: int, j: int| 0 <= i < a.len() && 0 <= j < a.len() ==> a[i][j] == a[j][i]
}

/// The product of two rows does not depend on their order.
pub proof fn dot_commutes<T: Scalar>(a: Seq<T>, b: Seq<T>, n: nat)
    ensures
        dot(a, b, n) == dot(b, a, n),
    decreases n,
{
    if n > 0 {
        dot_commutes(a, b, (n - 1) as nat);
        T::mul_commutes(a[n - 1], b[n - 1]);
    }
}

/// The matrix of row products is symmetric, exactly.
pub proof fn gram_is_symmetric<T: Scalar>(a: Seq<Seq<T>>)
    ensures
        is_symmetric(gram(a)),
{
    assert forall|i: int, j: int| 0 <= i < a.len() && 0 <= j < a.len() implies gram(a)[i][j]
        == gram(a)[j][i] by {
        dot_commutes(a[i], a[j], a.len());
    }
}

impl<T: Scalar, const N: usize> Array2D<T, N, N> {
    /// Replaces the matrix by the matrix of the products of its rows with one
    /// another, which is symmetric.
    pub fn make_positive_semi_definite(&mut self)
        ensures
            final(self)@ == gram(old(self)@),
            is_symmetric(final(self)@),
    {
        let mut b = Array2D::<T, N, N>::maybe_uninit_zeroed();
        for t in 0..N
            invariant
                self@ == old(self)@,
                forall|r: int, s: int|
                    0 <= r < N && 0 <= s < N ==> (#[trigger] b@[r][s]) == dot(
                        self@[r],
                        self@[s],
                        t as nat,
                    ),
        {
            for r in 0..N
                invariant
                    t < N,
                    self@ == old(self)@,
                    forall|p: int, s: int|
                        0 <= p < N && 0 <= s < N ==> (#[trigger] b@[p][s]) == dot(
                            self@[p],
                            self@[s],
                            if p < r {
                                (t + 1) as nat
                            } else {
                                t as nat
                            },
                        ),
            {
                for s in 0..N
                    invariant
                        t < N,
                        r < N,
                        self@ == old(self)@,
                        forall|p: int, q: int|
                            0 <= p < N && 0 <= q < N ==> (#[trigger] b@[p][q]) == dot(
                                self@[p],
                                self@[q],
                                if p < r || (p == r && q < s) {
                                    (t + 1) as nat
                                } else {
                                    t as nat
                                },
                            ),
                {
                    let v = b.get(r, s).add(self.get(r, t).mul(*self.get(s, t)));
                    b.set(r, s, v);
                }
            }
        }
        for r in 0..N
            invariant
                forall|p: int, s: int|
                    0 <= p < N && 0 <= s < N ==> (#[trigger] b@[p][s]) == dot(
                        old(self)@[p],
                        old(self)@[s],
                        N as nat,
                    ),
                forall|p: int, s: int|
                    0 <= p < r && 0 <= s < N ==> (#[trigger] self@[p][s]) == b@[p][s],
        {
            for s in 0..N
                invariant
                    r < N,
                    forall|p: int, q: int|
                        0 <= p < N && 0 <= q < N ==> (#[trigger] b@[p][q]) == dot(
                            old(self)@[p],
                            old(self)@[q],
                            N as nat,
                        ),
                    forall|p: int, q: int|
                        0 <= p < N && 0 <= q < N && (p < r || (p == r && q < s)) ==> (
                        #[trigger] self@[p][q]) == b@[p][q],
            {
                self.set(r, s, *b.get(r, s));
            }
        }
        proof {
            assert(self@ =~~= gram(old(self)@));
            gram_is_symmetric(old(self)@);
        }
    }
}

} // verus!
