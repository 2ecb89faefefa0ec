//! Deriche's recursive edge filter: a causal and an anticausal recurrence
//! along each row, their sum, then the same along each column.
use crate::ndarray::{Array2D, ArrayAlloc, Uninit};
use crate::scalar::{ratio, ratio_of, one_value, Scalar};
use crate::util::{benchmark_with_timing_function, consume, measured_by, TimerError};
use core::time::Duration;
use vstd::prelude::*;

verus! {

/// The exponentials of the decay parameter that the filter's coefficients are
/// made of.
pub struct Exponentials<T> {
    /// `exp(-alpha)`
    pub exp_neg_alpha: T,
    /// `exp(2 * alpha)`
    pub exp_two_alpha: T,
    /// `exp(-2 * alpha)`
    pub exp_neg_two_alpha: T,
    /// `2` to the power `-alpha`
    pub two_pow_neg_alpha: T,
}

/// The coefficients of the four recurrences and of the two sums.
pub struct Coefficients<T> {
    pub a1: T,
    pub a2: T,
    pub a3: T,
    pub a4: T,
    pub a5: T,
    pub a6: T,
    pub a7: T,
    pub a8: T,
    pub b1: T,
    pub b2: T,
    pub c1: T,
    pub c2: T,
}

/// The normalisation factor `k` of the filter.
pub open spec fn gain<T: Scalar>(alpha: T, e: Exponentials<T>) -> T {
    let one = one_value::<T>();
    let two = T::of_usize(2);
    one.minus(e.exp_neg_alpha).times(one.minus(e.exp_neg_alpha)).over(
        one.plus(two.times(alpha).times(e.exp_neg_alpha)).minus(e.exp_two_alpha),
    )
}

/// The coefficients that belong to the decay parameter `alpha`.
pub open spec fn coefficients_of<T: Scalar>(alpha: T, e: Exponentials<T>) -> Coefficients<T> {
    let one = one_value::<T>();
    let k = gain(alpha, e);
    let a2 = k.times(e.exp_neg_alpha).times(alpha.minus(one));
    let a3 = k.times(e.exp_neg_alpha).times(alpha.plus(one));
    let a4 = k.negated().times(e.exp_neg_two_alpha);
    Coefficients {
        a1: k,
        a2,
        a3,
        a4,
        a5: k,
        a6: a2,
        a7: a3,
        a8: a4,
        b1: e.two_pow_neg_alpha,
        b2: e.exp_neg_two_alpha.negated(),
        c1: one,
        c2: one,
    }
}

/// The element of `s` at `j`, and zero outside of `s`.
pub open spec fn at<T: Scalar>(s: Seq<T>, j: int) -> T {
    if 0 <= j < s.len() {
        s[j]
    } else {
        T::zero_value()
    }
}

/// The causal recurrence along `s`, at `j`: it looks one input and two
/// outputs back, and takes what lies before the start as zero.
pub open spec fn causal<T: Scalar>(k0: T, k1: T, b1: T, b2: T, s: Seq<T>, j: int) -> T
    decreases j + 2,
{
    if j < 0 {
        T::zero_value()
    } else {
        k0.times(at(s, j)).plus(k1.times(at(s, j - 1))).plus(
            b1.times(causal(k0, k1, b1, b2, s, j - 1)),
        ).plus(b2.times(causal(k0, k1, b1, b2, s, j - 2)))
    }
}

/// The anticausal recurrence along `s`, at `j`: it looks two inputs and two
/// outputs ahead, and takes what lies behind the end as zero.
pub open spec fn anticausal<T: Scalar>(k0: T, k1: T, b1: T, b2: T, s: Seq<T>, j: int) -> T
    decreases s.len() + 2 - j,
{
    if j >= s.len() {
        T::zero_value()
    } else {
        k0.times(at(s, j + 1)).plus(k1.times(at(s, j + 2))).plus(
            b1.times(anticausal(k0, k1, b1, b2, s, j + 1)),
        ).plus(b2.times(anticausal(k0, k1, b1, b2, s, j + 2)))
    }
}

/// Column `j` of `m`, from the first row to the last.
pub open spec fn column<T>(m: Seq<Seq<T>>, j: int) -> Seq<T> {
    Seq::new(m.len(), |i: int| m[i][j])
}

/// The result of the two recurrences along row `i` of `x`, at column `j`.
pub open spec fn horizontal_cell<T: Scalar>(c: Coefficients<T>, x: Seq<Seq<T>>, i: int, j: int) -> T {
    c.c1.times(
        causal(c.a1, c.a2, c.b1, c.b2, x[i], j).plus(anticausal(c.a3, c.a4, c.b1, c.b2, x[i], j)),
    )
}

/// The image after the pass along the rows: `w` rows of `h` cells.
pub open spec fn horizontal<T: Scalar>(c: Coefficients<T>, x: Seq<Seq<T>>, w: nat, h: nat) -> Seq<
    Seq<T>,
> {
    Seq::new(w, |i: int| Seq::new(h, |j: int| horizontal_cell(c, x, i, j)))
}

/// The result of the two recurrences along column `j` of `m`, at row `i`.
pub open spec fn vertical_cell<T: Scalar>(c: Coefficients<T>, m: Seq<Seq<T>>, i: int, j: int) -> T {
    c.c2.times(
        causal(c.a5, c.a6, c.b1, c.b2, column(m, j), i).plus(
            anticausal(c.a7, c.a8, c.b1, c.b2, column(m, j), i),
        ),
    )
}

/// The decay parameter that the generator sets.
pub open spec fn decay_of<T: Scalar>() -> T {
    ratio_of::<T>(1, 4)
}

/// The generated pixel at row `i`, column `j`.
pub open spec fn pixel<T: Scalar>(i: int, j: int) -> T {
    ratio_of::<T>(((313 * i + 991 * j) % 65536) as usize, 65535)
}

/// The coefficients of the filter, from the decay parameter and its
/// exponentials.
pub fn coefficients<T: Scalar>(alpha: T, e: &Exponentials<T>) -> (c: Coefficients<T>)
    ensures
        c == coefficients_of(alpha, *e),
{
    let one = T::from_usize(1);
    let two = T::from_usize(2);
    let k = one.sub(e.exp_neg_alpha).mul(one.sub(e.exp_neg_alpha)).div(
        one.add(two.mul(alpha).mul(e.exp_neg_alpha)).sub(e.exp_two_alpha),
    );
    let a2 = k.mul(e.exp_neg_alpha).mul(alpha.sub(one));
    let a3 = k.mul(e.exp_neg_alpha).mul(alpha.add(one));
    let a4 = k.neg().mul(e.exp_neg_two_alpha);
    Coefficients {
        a1: k,
        a2,
        a3,
        a4,
        a5: k,
        a6: a2,
        a7: a3,
        a8: a4,
        b1: e.two_pow_neg_alpha,
        b2: e.exp_neg_two_alpha.neg(),
        c1: one,
        c2: one,
    }
}

/// The decay parameter that the generator sets; its exponentials are what
/// `bench` asks of its caller.
pub fn decay<T: Scalar>() -> (alpha: T)
    ensures
        alpha == decay_of::<T>(),
{
    ratio(1, 4)
}

/// Computes the generated pixel at row `i`, column `j`.
pub fn pixel_value<T: Scalar, const H: usize, const W: usize>(i: usize, j: usize) -> (v: T)
    requires
        i < W,
        j < H,
        313 * W + 991 * H <= usize::MAX,
    ensures
        v == pixel::<T>(i as int, j as int),
{
    ratio((313 * i + 991 * j) % 65536, 65535)
}

/// Sets the decay parameter and fills the input image, each pixel with a
/// fixed function of its indices.
pub fn init_array<T: Scalar, const H: usize, const W: usize>(
    alpha: &mut T,
    img_in: &mut Uninit<Array2D<T, W, H>>,
)
    requires
        313 * W + 991 * H <= usize::MAX,
    ensures
        *final(alpha) == decay_of::<T>(),
        forall|i: int, j: int|
            0 <= i < W && 0 <= j < H ==> (#[trigger] final(img_in)@[i][j]) == Some(
                pixel::<T>(i, j),
            ),
{
    *alpha = decay();
    img_in.fill_with(pixel_value::<T, H, W>);
}

/// Two runs of the generator leave the same values behind: what it writes
/// depends on the indices and the shape alone, on nothing that was there
/// before and on nothing from outside.
pub proof fn init_array_is_deterministic<T: Scalar, const H: usize, const W: usize>(
    alpha_1: T,
    img_in_1: Uninit<Array2D<T, W, H>>,
    alpha_2: T,
    img_in_2: Uninit<Array2D<T, W, H>>,
)
    requires
        alpha_1 == decay_of::<T>(),
        forall|i: int, j: int|
            0 <= i < W && 0 <= j < H ==> (#[trigger] img_in_1@[i][j]) == Some(
                pixel::<T>(i, j),
            ),
        alpha_2 == decay_of::<T>(),
        forall|i: int, j: int|
            0 <= i < W && 0 <= j < H ==> (#[trigger] img_in_2@[i][j]) == Some(
                pixel::<T>(i, j),
            ),
    ensures
        alpha_1 == alpha_2,
        img_in_1@ == img_in_2@,
{
    assert(img_in_1@ =~~= img_in_2@);
}

/// Filters `img_in` into `img_out`; `y1` and `y2` are scratch space, and
/// hold the two recurrences along the columns at the end.
pub fn kernel_deriche<T: Scalar, const H: usize, const W: usize>(
    c: &Coefficients<T>,
    img_in: &Array2D<T, W, H>,
    img_out: &mut Array2D<T, W, H>,
    y1: &mut Array2D<T, W, H>,
    y2: &mut Array2D<T, W, H>,
)
    ensures
        forall|i: int, j: int|
            0 <= i < W && 0 <= j < H ==> (#[trigger] final(img_out)@[i][j]) == vertical_cell(
                *c,
                horizontal(*c, img_in@, W as nat, H as nat),
                i,
                j,
            ),
        forall|i: int, j: int|
            0 <= i < W && 0 <= j < H ==> (#[trigger] final(y1)@[i][j]) == causal(
                c.a5,
                c.a6,
                c.b1,
                c.b2,
                column(horizontal(*c, img_in@, W as nat, H as nat), j),
                i,
            ),
        forall|i: int, j: int|
            0 <= i < W && 0 <= j < H ==> (#[trigger] final(y2)@[i][j]) == anticausal(
                c.a7,
                c.a8,
                c.b1,
                c.b2,
                column(horizontal(*c, img_in@, W as nat, H as nat), j),
                i,
            ),
{
    let zero = T::zero();
    for i in 0..W
        invariant
            zero == T::zero_value(),
            forall|p: int, q: int|
                0 <= p < i && 0 <= q < H ==> (#[trigger] y1@[p][q]) == causal(
                    c.a1,
                    c.a2,
                    c.b1,
                    c.b2,
                    img_in@[p],
                    q,
                ),
    {
        let mut ym1 = zero;
        let mut ym2 = zero;
        let mut xm1 = zero;
        for j in 0..H
            invariant
                i < W,
                zero == T::zero_value(),
                xm1 == at(img_in@[i as int], j - 1),
                ym1 == causal(c.a1, c.a2, c.b1, c.b2, img_in@[i as int], j - 1),
                ym2 == causal(c.a1, c.a2, c.b1, c.b2, img_in@[i as int], j - 2),
                forall|p: int, q: int|
                    0 <= p < W && 0 <= q < H && (p < i || (p == i && q < j)) ==> (
                    #[trigger] y1@[p][q]) == causal(c.a1, c.a2, c.b1, c.b2, img_in@[p], q),
        {
            let x = *img_in.get(i, j);
            let y = c.a1.mul(x).add(c.a2.mul(xm1)).add(c.b1.mul(ym1)).add(c.b2.mul(ym2));
            y1.set(i, j, y);
            xm1 = x;
            ym2 = ym1;
            ym1 = y;
        }
    }
    for i in 0..W
        invariant
            zero == T::zero_value(),
            forall|p: int, q: int|
                0 <= p < W && 0 <= q < H ==> (#[trigger] y1@[p][q]) == causal(
                    c.a1,
                    c.a2,
                    c.b1,
                    c.b2,
                    img_in@[p],
                    q,
                ),
            forall|p: int, q: int|
                0 <= p < i && 0 <= q < H ==> (#[trigger] y2@[p][q]) == anticausal(
                    c.a3,
                    c.a4,
                    c.b1,
                    c.b2,
                    img_in@[p],
                    q,
                ),
    {
        let mut yp1 = zero;
        let mut yp2 = zero;
        let mut xp1 = zero;
        let mut xp2 = zero;
        let mut j: usize = H;
        while j > 0
            invariant
                i < W,
                j <= H,
                zero == T::zero_value(),
                xp1 == at(img_in@[i as int], j as int),
                xp2 == at(img_in@[i as int], j + 1),
                yp1 == anticausal(c.a3, c.a4, c.b1, c.b2, img_in@[i as int], j as int),
                yp2 == anticausal(c.a3, c.a4, c.b1, c.b2, img_in@[i as int], j + 1),
                forall|p: int, q: int|
                    0 <= p < W && 0 <= q < H ==> (#[trigger] y1@[p][q]) == causal(
                        c.a1,
                        c.a2,
                        c.b1,
                        c.b2,
                        img_in@[p],
                        q,
                    ),
                forall|p: int, q: int|
                    0 <= p < W && 0 <= q < H && (p < i || (p == i && q >= j)) ==> (
                    #[trigger] y2@[p][q]) == anticausal(c.a3, c.a4, c.b1, c.b2, img_in@[p], q),
            decreases j,
        {
            j -= 1;
            let y = c.a3.mul(xp1).add(c.a4.mul(xp2)).add(c.b1.mul(yp1)).add(c.b2.mul(yp2));
            y2.set(i, j, y);
            xp2 = xp1;
            xp1 = *img_in.get(i, j);
            yp2 = yp1;
            yp1 = y;
        }
    }
    for i in 0..W
        invariant
            forall|p: int, q: int|
                0 <= p < W && 0 <= q < H ==> (#[trigger] y1@[p][q]) == causal(
                    c.a1,
                    c.a2,
                    c.b1,
                    c.b2,
                    img_in@[p],
                    q,
                ),
            forall|p: int, q: int|
                0 <= p < W && 0 <= q < H ==> (#[trigger] y2@[p][q]) == anticausal(
                    c.a3,
                    c.a4,
                    c.b1,
                    c.b2,
                    img_in@[p],
                    q,
                ),
            forall|p: int, q: int|
                0 <= p < i && 0 <= q < H ==> (#[trigger] img_out@[p][q]) == horizontal_cell(
                    *c,
                    img_in@,
                    p,
                    q,
                ),
    {
        for j in 0..H
            invariant
                i < W,
                forall|p: int, q: int|
                    0 <= p < W && 0 <= q < H ==> (#[trigger] y1@[p][q]) == causal(
                        c.a1,
                        c.a2,
                        c.b1,
                        c.b2,
                        img_in@[p],
                        q,
                    ),
                forall|p: int, q: int|
                    0 <= p < W && 0 <= q < H ==> (#[trigger] y2@[p][q]) == anticausal(
                        c.a3,
                        c.a4,
                        c.b1,
                        c.b2,
                        img_in@[p],
                        q,
                    ),
                forall|p: int, q: int|
                    0 <= p < W && 0 <= q < H && (p < i || (p == i && q < j)) ==> (
                    #[trigger] img_out@[p][q]) == horizontal_cell(*c, img_in@, p, q),
        {
            img_out.set(i, j, c.c1.mul(y1.get(i, j).add(*y2.get(i, j))));
        }
    }
    let ghost mid = img_out@;
    assert(mid =~~= horizontal(*c, img_in@, W as nat, H as nat));
    for j in 0..H
        invariant
            zero == T::zero_value(),
            img_out@ == mid,
            mid.len() == W,
            forall|p: int, q: int|
                0 <= p < W && 0 <= q < j ==> (#[trigger] y1@[p][q]) == causal(
                    c.a5,
                    c.a6,
                    c.b1,
                    c.b2,
                    column(mid, q),
                    p,
                ),
    {
        let mut tm1 = zero;
        let mut ym1 = zero;
        let mut ym2 = zero;
        for i in 0..W
            invariant
                j < H,
                zero == T::zero_value(),
                img_out@ == mid,
                mid.len() == W,
                tm1 == at(column(mid, j as int), i - 1),
                ym1 == causal(c.a5, c.a6, c.b1, c.b2, column(mid, j as int), i - 1),
                ym2 == causal(c.a5, c.a6, c.b1, c.b2, column(mid, j as int), i - 2),
                forall|p: int, q: int|
                    0 <= p < W && 0 <= q < H && (q < j || (q == j && p < i)) ==> (
                    #[trigger] y1@[p][q]) == causal(c.a5, c.a6, c.b1, c.b2, column(mid, q), p),
        {
            let t = *img_out.get(i, j);
            let y = c.a5.mul(t).add(c.a6.mul(tm1)).add(c.b1.mul(ym1)).add(c.b2.mul(ym2));
            y1.set(i, j, y);
            tm1 = t;
            ym2 = ym1;
            ym1 = y;
        }
    }
    for j in 0..H
        invariant
            zero == T::zero_value(),
            img_out@ == mid,
            mid.len() == W,
            forall|p: int, q: int|
                0 <= p < W && 0 <= q < H ==> (#[trigger] y1@[p][q]) == causal(
                    c.a5,
                    c.a6,
                    c.b1,
                    c.b2,
                    column(mid, q),
                    p,
                ),
            forall|p: int, q: int|
                0 <= p < W && 0 <= q < j ==> (#[trigger] y2@[p][q]) == anticausal(
                    c.a7,
                    c.a8,
                    c.b1,
                    c.b2,
                    column(mid, q),
                    p,
                ),
    {
        let mut tp1 = zero;
        let mut tp2 = zero;
        let mut yp1 = zero;
        let mut yp2 = zero;
        let mut i: usize = W;
        while i > 0
            invariant
                j < H,
                i <= W,
                zero == T::zero_value(),
                img_out@ == mid,
                mid.len() == W,
                tp1 == at(column(mid, j as int), i as int),
                tp2 == at(column(mid, j as int), i + 1),
                yp1 == anticausal(c.a7, c.a8, c.b1, c.b2, column(mid, j as int), i as int),
                yp2 == anticausal(c.a7, c.a8, c.b1, c.b2, column(mid, j as int), i + 1),
                forall|p: int, q: int|
                    0 <= p < W && 0 <= q < H ==> (#[trigger] y1@[p][q]) == causal(
                        c.a5,
                        c.a6,
                        c.b1,
                        c.b2,
                        column(mid, q),
                        p,
                    ),
                forall|p: int, q: int|
                    0 <= p < W && 0 <= q < H && (q < j || (q == j && p >= i)) ==> (
                    #[trigger] y2@[p][q]) == anticausal(
                        c.a7,
                        c.a8,
                        c.b1,
                        c.b2,
                        column(mid, q),
                        p,
                    ),
            decreases i,
        {
            i -= 1;
            let y = c.a7.mul(tp1).add(c.a8.mul(tp2)).add(c.b1.mul(yp1)).add(c.b2.mul(yp2));
            y2.set(i, j, y);
            tp2 = tp1;
            tp1 = *img_out.get(i, j);
            yp2 = yp1;
            yp1 = y;
        }
    }
    for i in 0..W
        invariant
            forall|p: int, q: int|
                0 <= p < W && 0 <= q < H ==> (#[trigger] y1@[p][q]) == causal(
                    c.a5,
                    c.a6,
                    c.b1,
                    c.b2,
                    column(mid, q),
                    p,
                ),
            forall|p: int, q: int|
                0 <= p < W && 0 <= q < H ==> (#[trigger] y2@[p][q]) == anticausal(
                    c.a7,
                    c.a8,
                    c.b1,
                    c.b2,
                    column(mid, q),
                    p,
                ),
            forall|p: int, q: int|
                0 <= p < i && 0 <= q < H ==> (#[trigger] img_out@[p][q]) == vertical_cell(
                    *c,
                    mid,
                    p,
                    q,
                ),
    {
        for j in 0..H
            invariant
                i < W,
                forall|p: int, q: int|
                    0 <= p < W && 0 <= q < H ==> (#[trigger] y1@[p][q]) == causal(
                        c.a5,
                        c.a6,
                        c.b1,
                        c.b2,
                        column(mid, q),
                        p,
                    ),
                forall|p: int, q: int|
                    0 <= p < W && 0 <= q < H ==> (#[trigger] y2@[p][q]) == anticausal(
                        c.a7,
                        c.a8,
                        c.b1,
                        c.b2,
                        column(mid, q),
                        p,
                    ),
                forall|p: int, q: int|
                    0 <= p < W && 0 <= q < H && (p < i || (p == i && q < j)) ==> (
                    #[trigger] img_out@[p][q]) == vertical_cell(*c, mid, p, q),
        {
            img_out.set(i, j, c.c2.mul(y1.get(i, j).add(*y2.get(i, j))));
        }
    }
}

/// Generates the image and the decay parameter, times one run that computes
/// the coefficients from the parameter and its exponentials and filters the
/// image, and returns the time between the two readings of the time source.
pub fn bench<T: Scalar, const H: usize, const W: usize, C: Fn() -> u64>(
    exponentials: Exponentials<T>,
    timing_function: &C,
) -> (r: Result<Duration, TimerError>)
    requires
        313 * W + 991 * H <= usize::MAX,
        timing_function.requires(()),
    ensures
        measured_by(timing_function, r),
{
    let mut alpha = T::zero();
    let mut img_in = Array2D::<T, W, H>::maybe_uninit();
    let img_out = Array2D::<T, W, H>::maybe_uninit_zeroed();
    let y1 = Array2D::<T, W, H>::maybe_uninit_zeroed();
    let y2 = Array2D::<T, W, H>::maybe_uninit_zeroed();
    init_array(&mut alpha, &mut img_in);
    let img_in = img_in.assume_init();
    let (elapsed, img_out) = benchmark_with_timing_function(
        move || -> (img_out: Box<Array2D<T, W, H>>)
            {
                let mut img_out = img_out;
                let mut y1 = y1;
                let mut y2 = y2;
                let c = coefficients(alpha, &exponentials);
                kernel_deriche(&c, &*img_in, &mut *img_out, &mut *y1, &mut *y2);
                img_out
            },
        timing_function,
    );
    consume(img_out);
    elapsed
}

} // verus!
