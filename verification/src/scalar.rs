//! Numeric element types.
//!
//! Arrays and kernels are generic over their element type. An element type
//! says, through spec functions, what each of its operations computes; the
//! kernels' contracts are stated over those spec functions, in the order in
//! which the operations are applied. No algebraic law beyond commutativity of
//! multiplication is assumed, so the contracts hold as they stand of rounding
//! arithmetic as well as of exact arithmetic.
//!
//! An element type from outside of verified code writes the spec functions as
//! ordinary functions beside the operations; a floating point type gives both
//! the same IEEE 754 operation. What the kernels' contracts say of such a
//! type holds as far as its operations are the functions it names.
use vstd::prelude::*;

verus! {

/// A copyable element with a distinguished zero: what allocation needs.
pub trait Zero: Copy {
    /// The zero of the type.
    spec fn zero_value() -> Self;

    /// The zero of the type.
    fn zero() -> (r: Self)
        ensures
            r == Self::zero_value(),
    ;
}

/// A numeric element type. Every operation is total and is a function of its
/// operands alone.
pub trait Scalar: Zero {
    /// The element that stands for the natural number `n`.
    spec fn of_usize(n: usize) -> Self;

    /// What addition gives.
    spec fn plus(self, rhs: Self) -> Self;

    /// What subtraction gives.
    spec fn minus(self, rhs: Self) -> Self;

    /// What multiplication gives.
    spec fn times(self, rhs: Self) -> Self;

    /// What division gives, whatever the divisor.
    spec fn over(self, rhs: Self) -> Self;

    /// What negation gives.
    spec fn negated(self) -> Self;

    /// What the square root gives, whatever the sign.
    spec fn root(self) -> Self;

    /// The order used where a kernel compares two elements.
    spec fn at_most(self, rhs: Self) -> bool;

    /// The element that stands for `n`.
    fn from_usize(n: usize) -> (r: Self)
        ensures
            r == Self::of_usize(n),
    ;

    /// `self + rhs`.
    fn add(self, rhs: Self) -> (r: Self)
        ensures
            r == self.plus(rhs),
    ;

    /// `self - rhs`.
    fn sub(self, rhs: Self) -> (r: Self)
        ensures
            r == self.minus(rhs),
    ;

    /// `self * rhs`.
    fn mul(self, rhs: Self) -> (r: Self)
        ensures
            r == self.times(rhs),
    ;

    /// `self / rhs`; total.
    fn div(self, rhs: Self) -> (r: Self)
        ensures
            r == self.over(rhs),
    ;

    /// `-self`.
    fn neg(self) -> (r: Self)
        ensures
            r == self.negated(),
    ;

    /// The square root of `self`; total.
    fn sqrt(self) -> (r: Self)
        ensures
            r == self.root(),
    ;

    /// `self <= rhs`.
    fn le(self, rhs: Self) -> (r: bool)
        ensures
            r == self.at_most(rhs),
    ;

    /// Multiplication does not depend on the order of its operands.
    proof fn mul_commutes(a: Self, b: Self)
        ensures
            a.times(b) == b.times(a),
    ;
}

/// The quotient of the elements that stand for `num` and `den`.
pub open spec fn ratio_of<T: Scalar>(num: usize, den: usize) -> T {
    T::of_usize(num).over(T::of_usize(den))
}

/// The element `num / den`, as the element type divides.
pub fn ratio<T: Scalar>(num: usize, den: usize) -> (r: T)
    ensures
        r == ratio_of::<T>(num, den),
{
    T::from_usize(num).div(T::from_usize(den))
}

/// The element that stands for one.
pub open spec fn one_value<T: Scalar>() -> T {
    T::of_usize(1)
}

/// `r` is the integer part of the square root of `x`.
pub open spec fn is_floor_sqrt(x: int, r: int) -> bool {
    0 <= r && r * r <= x < (r + 1) * (r + 1)
}

/// The integer part of the square root of a non-negative `x`; zero for a
/// negative one.
pub open spec fn floor_sqrt(x: i64) -> i64 {
    if x < 0 {
        0
    } else {
        choose|r: i64| is_floor_sqrt(x as int, r as int)
    }
}

/// At most one integer is the integer part of the square root of `x`.
pub proof fn floor_sqrt_unique(x: int, r1: int, r2: int)
    requires
        is_floor_sqrt(x, r1),
        is_floor_sqrt(x, r2),
    ensures
        r1 == r2,
{
    if r1 < r2 {
        assert((r1 + 1) * (r1 + 1) <= r2 * r2) by (nonlinear_arith)
            requires
                0 <= r1 + 1 <= r2,
        ;
    }
    if r2 < r1 {
        assert((r2 + 1) * (r2 + 1) <= r1 * r1) by (nonlinear_arith)
            requires
                0 <= r2 + 1 <= r1,
        ;
    }
}

/// The integer part of the square root, by bisection.
pub fn integer_sqrt(x: i64) -> (r: i64)
    ensures
        r == floor_sqrt(x),
        x >= 0 ==> is_floor_sqrt(x as int, r as int),
{
    if x < 0 {
        return 0;
    }
    let mut lo: i64 = 0;
    let mut hi: i64 = 3037000500;
    while hi - lo > 1
        invariant
            0 <= lo < hi <= 3037000500,
            lo * lo <= x < hi * hi,
        decreases hi - lo,
    {
        let mid: i64 = lo + (hi - lo) / 2;
        assert(mid * mid <= 3037000499 * 3037000499) by (nonlinear_arith)
            requires
                0 <= mid <= 3037000499,
        ;
        if mid * mid <= x {
            lo = mid;
        } else {
            hi = mid;
        }
    }
    proof {
        let c = choose|r: i64| is_floor_sqrt(x as int, r as int);
        floor_sqrt_unique(x as int, lo as int, c as int);
    }
    lo
}

impl Zero for i8 {
    open spec fn zero_value() -> Self {
        0
    }

    fn zero() -> (r: Self) {
        0
    }
}

impl Zero for i32 {
    open spec fn zero_value() -> Self {
        0
    }

    fn zero() -> (r: Self) {
        0
    }
}

impl Zero for i64 {
    open spec fn zero_value() -> Self {
        0
    }

    fn zero() -> (r: Self) {
        0
    }
}

/// Integers as elements: addition, subtraction, multiplication and negation
/// wrap; a quotient that `i64` cannot hold (a zero divisor, or the least value
/// over minus one) is zero; the square root is its integer part.
impl Scalar for i64 {
    open spec fn of_usize(n: usize) -> Self {
        n as i64
    }

    open spec fn plus(self, rhs: Self) -> Self {
        vstd::wrapping::i64_specs::wrapping_add(self, rhs)
    }

    open spec fn minus(self, rhs: Self) -> Self {
        vstd::wrapping::i64_specs::wrapping_sub(self, rhs)
    }

    open spec fn times(self, rhs: Self) -> Self {
        vstd::wrapping::i64_specs::wrapping_mul(self, rhs)
    }

    open spec fn over(self, rhs: Self) -> Self {
        match self.checked_div(rhs) {
            Some(q) => q,
            None => 0,
        }
    }

    open spec fn negated(self) -> Self {
        vstd::wrapping::i64_specs::wrapping_sub(0, self)
    }

    open spec fn root(self) -> Self {
        floor_sqrt(self)
    }

    open spec fn at_most(self, rhs: Self) -> bool {
        self <= rhs
    }

    fn from_usize(n: usize) -> (r: Self) {
        #[verifier::truncate]
        (n as i64)
    }

    fn add(self, rhs: Self) -> (r: Self) {
        self.wrapping_add(rhs)
    }

    fn sub(self, rhs: Self) -> (r: Self) {
        self.wrapping_sub(rhs)
    }

    fn mul(self, rhs: Self) -> (r: Self) {
        self.wrapping_mul(rhs)
    }

    fn div(self, rhs: Self) -> (r: Self) {
        match self.checked_div(rhs) {
            Some(q) => q,
            None => 0,
        }
    }

    fn neg(self) -> (r: Self) {
        0i64.wrapping_sub(self)
    }

    fn sqrt(self) -> (r: Self) {
        integer_sqrt(self)
    }

    fn le(self, rhs: Self) -> (r: bool) {
        self <= rhs
    }

    proof fn mul_commutes(a: Self, b: Self) {
    }
}

} // verus!
