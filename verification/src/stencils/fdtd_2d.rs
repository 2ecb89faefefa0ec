//! Finite-difference time-domain method in two dimensions: in each time step
//! the two electric fields are updated from the magnetic field, then the
//! magnetic field from the two electric fields, each in its interior only.
use crate::ndarray::{Array1D, Array2D, ArrayAlloc, Uninit};
use crate::scalar::{ratio, ratio_of, Scalar};
use crate::util::{benchmark_with_timing_function, consume, measured_by, TimerError};
use core::time::Duration;
use vstd::prelude::*;

verus! {

/// The point at row `i`, column `j` of `nx` by `ny` points is not on the
/// boundary.
pub open spec fn interior(nx: usize, ny: usize, i: int, j: int) -> bool {
    1 <= i < nx - 1 && 1 <= j < ny - 1
}

/// `now` agrees with `then` on the boundary of the grid.
pub open spec fn same_boundary<T>(now: Seq<Seq<T>>, then: Seq<Seq<T>>, nx: usize, ny: usize) -> bool {
    forall|i: int, j: int|
        0 <= i < nx && 0 <= j < ny && !interior(nx, ny, i, j) ==> (#[trigger] now[i][j])
            == then[i][j]
}

/// The field `ey` after its update: every interior point moves by half the
/// difference of `hz` along the rows; the boundary is as it was.
pub open spec fn next_ey<T: Scalar>(ey: Seq<Seq<T>>, hz: Seq<Seq<T>>, nx: usize, ny: usize) -> Seq<
    Seq<T>,
> {
    Seq::new(
        nx as nat,
        |i: int|
            Seq::new(
                ny as nat,
                |j: int|
                    if interior(nx, ny, i, j) {
                        ey[i][j].minus(ratio_of::<T>(1, 2).times(hz[i][j].minus(hz[i - 1][j])))
                    } else {
                        ey[i][j]
                    },
            ),
    )
}

/// The field `ex` after its update: every interior point moves by half the
/// difference of `hz` along the columns; the boundary is as it was.
pub open spec fn next_ex<T: Scalar>(ex: Seq<Seq<T>>, hz: Seq<Seq<T>>, nx: usize, ny: usize) -> Seq<
    Seq<T>,
> {
    Seq::new(
        nx as nat,
        |i: int|
            Seq::new(
                ny as nat,
                |j: int|
                    if interior(nx, ny, i, j) {
                        ex[i][j].minus(ratio_of::<T>(1, 2).times(hz[i][j].minus(hz[i][j - 1])))
                    } else {
                        ex[i][j]
                    },
            ),
    )
}

/// The field `hz` after its update from the updated electric fields: every
/// interior point moves by the weighted curl of the electric fields; the
/// boundary is as it was.
pub open spec fn next_hz<T: Scalar>(
    hz: Seq<Seq<T>>,
    ex: Seq<Seq<T>>,
    ey: Seq<Seq<T>>,
    nx: usize,
    ny: usize,
) -> Seq<Seq<T>> {
    Seq::new(
        nx as nat,
        |i: int|
            Seq::new(
                ny as nat,
                |j: int|
                    if interior(nx, ny, i, j) {
                        hz[i][j].minus(
                            ratio_of::<T>(7, 10).times(
                                ex[i][j + 1].minus(ex[i][j]).plus(ey[i + 1][j]).minus(ey[i][j]),
                            ),
                        )
                    } else {
                        hz[i][j]
                    },
            ),
    )
}

/// The three fields `(ex, ey, hz)` after `t` time steps.
pub open spec fn after_steps<T: Scalar>(
    ex: Seq<Seq<T>>,
    ey: Seq<Seq<T>>,
    hz: Seq<Seq<T>>,
    nx: usize,
    ny: usize,
    t: nat,
) -> (Seq<Seq<T>>, Seq<Seq<T>>, Seq<Seq<T>>)
    decreases t,
{
    if t == 0 {
        (ex, ey, hz)
    } else {
        let before = after_steps(ex, ey, hz, nx, ny, (t - 1) as nat);
        let new_ey = next_ey(before.1, before.2, nx, ny);
        let new_ex = next_ex(before.0, before.2, nx, ny);
        let new_hz = next_hz(before.2, new_ex, new_ey, nx, ny);
        (new_ex, new_ey, new_hz)
    }
}

/// The generated entry at row `i`, column `j` of the field with offset
/// `shift` and divisor `d`.
pub open spec fn field_entry<T: Scalar>(d: usize, shift: int, i: int, j: int) -> T {
    ratio_of::<T>((i * (j + shift)) as usize, d)
}

/// Computes the generated source at time `i`.
pub fn fict_value<T: Scalar, const TMAX: usize>(i: usize) -> (v: T)
    ensures
        v == T::of_usize(i),
{
    T::from_usize(i)
}

/// Computes the generated entry of `ex` at row `i`, column `j`.
pub fn ex_value<T: Scalar, const NX: usize, const NY: usize>(i: usize, j: usize) -> (v: T)
    requires
        i < NX,
        j < NY,
        NX * (NY + 3) <= usize::MAX,
    ensures
        v == field_entry::<T>(NX, 1, i as int, j as int),
{
    assert(i * (j + 1) <= NX * (NY + 3) && j + 1 <= NX * (NY + 3)) by (nonlinear_arith)
        requires
            i < NX,
            j < NY,
    ;
    ratio(i * (j + 1), NX)
}

/// Computes the generated entry of `ey` at row `i`, column `j`.
pub fn ey_value<T: Scalar, const NX: usize, const NY: usize>(i: usize, j: usize) -> (v: T)
    requires
        i < NX,
        j < NY,
        NX * (NY + 3) <= usize::MAX,
    ensures
        v == field_entry::<T>(NY, 2, i as int, j as int),
{
    assert(i * (j + 2) <= NX * (NY + 3) && j + 2 <= NX * (NY + 3)) by (nonlinear_arith)
        requires
            i < NX,
            j < NY,
    ;
    ratio(i * (j + 2), NY)
}

/// Computes the generated entry of `hz` at row `i`, column `j`.
pub fn hz_value<T: Scalar, const NX: usize, const NY: usize>(i: usize, j: usize) -> (v: T)
    requires
        i < NX,
        j < NY,
        NX * (NY + 3) <= usize::MAX,
    ensures
        v == field_entry::<T>(NX, 3, i as int, j as int),
{
    assert(i * (j + 3) <= NX * (NY + 3) && j + 3 <= NX * (NY + 3)) by (nonlinear_arith)
        requires
            i < NX,
            j < NY,
    ;
    ratio(i * (j + 3), NX)
}

/// Fills the three fields and the sources, each entry with a fixed function
/// of its indices and the shape.
pub fn init_array<T: Scalar, const NX: usize, const NY: usize, const TMAX: usize>(
    ex: &mut Uninit<Array2D<T, NX, NY>>,
    ey: &mut Uninit<Array2D<T, NX, NY>>,
    hz: &mut Uninit<Array2D<T, NX, NY>>,
    fict: &mut Uninit<Array1D<T, TMAX>>,
)
    requires
        NX * (NY + 3) <= usize::MAX,
    ensures
        forall|i: int|
            0 <= i < TMAX ==> (#[trigger] final(fict)@[i]) == Some(T::of_usize(i as usize)),
        forall|i: int, j: int|
            0 <= i < NX && 0 <= j < NY ==> (#[trigger] final(ex)@[i][j]) == Some(
                field_entry::<T>(NX, 1, i, j),
            ),
        forall|i: int, j: int|
            0 <= i < NX && 0 <= j < NY ==> (#[trigger] final(ey)@[i][j]) == Some(
                field_entry::<T>(NY, 2, i, j),
            ),
        forall|i: int, j: int|
            0 <= i < NX && 0 <= j < NY ==> (#[trigger] final(hz)@[i][j]) == Some(
                field_entry::<T>(NX, 3, i, j),
            ),
{
    fict.fill_with(fict_value::<T, TMAX>);
    ex.fill_with(ex_value::<T, NX, NY>);
    ey.fill_with(ey_value::<T, NX, NY>);
    hz.fill_with(hz_value::<T, NX, NY>);
}

/// Two runs of the generator leave the same values behind: what it writes
/// depends on the indices and the shape alone, on nothing that was there
/// before and on nothing from outside.
pub proof fn init_array_is_deterministic<T: Scalar, const NX: usize, const NY: usize, const TMAX: usize>(
    ex_1: Uninit<Array2D<T, NX, NY>>,
    ey_1: Uninit<Array2D<T, NX, NY>>,
    hz_1: Uninit<Array2D<T, NX, NY>>,
    fict_1: Uninit<Array1D<T, TMAX>>,
    ex_2: Uninit<Array2D<T, NX, NY>>,
    ey_2: Uninit<Array2D<T, NX, NY>>,
    hz_2: Uninit<Array2D<T, NX, NY>>,
    fict_2: Uninit<Array1D<T, TMAX>>,
)
    requires
        forall|i: int|
            0 <= i < TMAX ==> (#[trigger] fict_1@[i]) == Some(T::of_usize(i as usize)),
        forall|i: int, j: int|
            0 <= i < NX && 0 <= j < NY ==> (#[trigger] ex_1@[i][j]) == Some(
                field_entry::<T>(NX, 1, i, j),
            ),
        forall|i: int, j: int|
            0 <= i < NX && 0 <= j < NY ==> (#[trigger] ey_1@[i][j]) == Some(
                field_entry::<T>(NY, 2, i, j),
            ),
        forall|i: int, j: int|
            0 <= i < NX && 0 <= j < NY ==> (#[trigger] hz_1@[i][j]) == Some(
                field_entry::<T>(NX, 3, i, j),
            ),
        forall|i: int|
            0 <= i < TMAX ==> (#[trigger] fict_2@[i]) == Some(T::of_usize(i as usize)),
        forall|i: int, j: int|
            0 <= i < NX && 0 <= j < NY ==> (#[trigger] ex_2@[i][j]) == Some(
                field_entry::<T>(NX, 1, i, j),
            ),
        forall|i: int, j: int|
            0 <= i < NX && 0 <= j < NY ==> (#[trigger] ey_2@[i][j]) == Some(
                field_entry::<T>(NY, 2, i, j),
            ),
        forall|i: int, j: int|
            0 <= i < NX && 0 <= j < NY ==> (#[trigger] hz_2@[i][j]) == Some(
                field_entry::<T>(NX, 3, i, j),
            ),
    ensures
        ex_1@ == ex_2@,
        ey_1@ == ey_2@,
        hz_1@ == hz_2@,
        fict_1@ == fict_2@,
{
    assert(ex_1@ =~~= ex_2@);
    assert(ey_1@ =~~= ey_2@);
    assert(hz_1@ =~~= hz_2@);
    assert(fict_1@ =~~= fict_2@);
}

/// Updates the interior of `ey` from `hz`.
#[verifier::loop_isolation(false)]
pub fn update_ey<T: Scalar, const NX: usize, const NY: usize>(
    ey: &mut Array2D<T, NX, NY>,
    hz: &Array2D<T, NX, NY>,
)
    ensures
        final(ey)@ == next_ey(old(ey)@, hz@, NX, NY),
{
    let w = ratio::<T>(1, 2);
    let mut i: usize = 1;
    while i + 1 < NX
        invariant
            i == 1 || 1 <= i < NX,
            forall|p: int, q: int|
                0 <= p < NX && 0 <= q < NY ==> (#[trigger] ey@[p][q]) == (if interior(
                    NX,
                    NY,
                    p,
                    q,
                ) && p < i {
                    old(ey)@[p][q].minus(w.times(hz@[p][q].minus(hz@[p - 1][q])))
                } else {
                    old(ey)@[p][q]
                }),
        decreases NX - i,
    {
        let mut j: usize = 1;
        while j + 1 < NY
            invariant
                j == 1 || 1 <= j < NY,
                forall|p: int, q: int|
                    0 <= p < NX && 0 <= q < NY ==> (#[trigger] ey@[p][q]) == (if interior(
                        NX,
                        NY,
                        p,
                        q,
                    ) && (p < i || (p == i && q < j)) {
                        old(ey)@[p][q].minus(w.times(hz@[p][q].minus(hz@[p - 1][q])))
                    } else {
                        old(ey)@[p][q]
                    }),
            decreases NY - j,
        {
            let diff = hz.get(i, j).sub(*hz.get(i - 1, j));
            ey.set(i, j, ey.get(i, j).sub(w.mul(diff)));
            j += 1;
        }
        i += 1;
    }
    assert(ey@ =~~= next_ey(old(ey)@, hz@, NX, NY));
}

/// Updates the interior of `ex` from `hz`.
#[verifier::loop_isolation(false)]
pub fn update_ex<T: Scalar, const NX: usize, const NY: usize>(
    ex: &mut Array2D<T, NX, NY>,
    hz: &Array2D<T, NX, NY>,
)
    ensures
        final(ex)@ == next_ex(old(ex)@, hz@, NX, NY),
{
    let w = ratio::<T>(1, 2);
    let mut i: usize = 1;
    while i + 1 < NX
        invariant
            i == 1 || 1 <= i < NX,
            forall|p: int, q: int|
                0 <= p < NX && 0 <= q < NY ==> (#[trigger] ex@[p][q]) == (if interior(
                    NX,
                    NY,
                    p,
                    q,
                ) && p < i {
                    old(ex)@[p][q].minus(w.times(hz@[p][q].minus(hz@[p][q - 1])))
                } else {
                    old(ex)@[p][q]
                }),
        decreases NX - i,
    {
        let mut j: usize = 1;
        while j + 1 < NY
            invariant
                j == 1 || 1 <= j < NY,
                forall|p: int, q: int|
                    0 <= p < NX && 0 <= q < NY ==> (#[trigger] ex@[p][q]) == (if interior(
                        NX,
                        NY,
                        p,
                        q,
                    ) && (p < i || (p == i && q < j)) {
                        old(ex)@[p][q].minus(w.times(hz@[p][q].minus(hz@[p][q - 1])))
                    } else {
                        old(ex)@[p][q]
                    }),
            decreases NY - j,
        {
            let diff = hz.get(i, j).sub(*hz.get(i, j - 1));
            ex.set(i, j, ex.get(i, j).sub(w.mul(diff)));
            j += 1;
        }
        i += 1;
    }
    assert(ex@ =~~= next_ex(old(ex)@, hz@, NX, NY));
}

/// Updates the interior of `hz` from `ex` and `ey`.
#[verifier::loop_isolation(false)]
pub fn update_hz<T: Scalar, const NX: usize, const NY: usize>(
    hz: &mut Array2D<T, NX, NY>,
    ex: &Array2D<T, NX, NY>,
    ey: &Array2D<T, NX, NY>,
)
    ensures
        final(hz)@ == next_hz(old(hz)@, ex@, ey@, NX, NY),
{
    let w = ratio::<T>(7, 10);
    let mut i: usize = 1;
    while i + 1 < NX
        invariant
            i == 1 || 1 <= i < NX,
            forall|p: int, q: int|
                0 <= p < NX && 0 <= q < NY ==> (#[trigger] hz@[p][q]) == (if interior(
                    NX,
                    NY,
                    p,
                    q,
                ) && p < i {
                    old(hz)@[p][q].minus(
                        w.times(
                            ex@[p][q + 1].minus(ex@[p][q]).plus(ey@[p + 1][q]).minus(ey@[p][q]),
                        ),
                    )
                } else {
                    old(hz)@[p][q]
                }),
        decreases NX - i,
    {
        let mut j: usize = 1;
        while j + 1 < NY
            invariant
                j == 1 || 1 <= j < NY,
                forall|p: int, q: int|
                    0 <= p < NX && 0 <= q < NY ==> (#[trigger] hz@[p][q]) == (if interior(
                        NX,
                        NY,
                        p,
                        q,
                    ) && (p < i || (p == i && q < j)) {
                        old(hz)@[p][q].minus(
                        w.times(
                            ex@[p][q + 1].minus(ex@[p][q]).plus(ey@[p + 1][q]).minus(ey@[p][q]),
                        ),
                    )
                    } else {
                        old(hz)@[p][q]
                    }),
            decreases NY - j,
        {
            let curl = ex.get(i, j + 1).sub(*ex.get(i, j)).add(*ey.get(i + 1, j)).sub(
                *ey.get(i, j),
            );
            hz.set(i, j, hz.get(i, j).sub(w.mul(curl)));
            j += 1;
        }
        i += 1;
    }
    assert(hz@ =~~= next_hz(old(hz)@, ex@, ey@, NX, NY));
}

/// Takes `TMAX` time steps. No boundary point of any field is written. The
/// sources in `fict` belong on the first row of `ey`, which is boundary: the
/// kernel reads none of them, and that row keeps what the caller put there.
pub fn kernel_fdtd_2d<T: Scalar, const NX: usize, const NY: usize, const TMAX: usize>(
    ex: &mut Array2D<T, NX, NY>,
    ey: &mut Array2D<T, NX, NY>,
    hz: &mut Array2D<T, NX, NY>,
    fict: &Array1D<T, TMAX>,
)
    ensures
        (final(ex)@, final(ey)@, final(hz)@) == after_steps(
            old(ex)@,
            old(ey)@,
            old(hz)@,
            NX,
            NY,
            TMAX as nat,
        ),
        same_boundary(final(ex)@, old(ex)@, NX, NY),
        same_boundary(final(ey)@, old(ey)@, NX, NY),
        same_boundary(final(hz)@, old(hz)@, NX, NY),
{
    for t in 0..TMAX
        invariant
            (ex@, ey@, hz@) == after_steps(old(ex)@, old(ey)@, old(hz)@, NX, NY, t as nat),
            same_boundary(ex@, old(ex)@, NX, NY),
            same_boundary(ey@, old(ey)@, NX, NY),
            same_boundary(hz@, old(hz)@, NX, NY),
    {
        update_ey(ey, hz);
        update_ex(ex, hz);
        update_hz(hz, ex, ey);
    }
}

/// Generates the fields, times one run of the kernel with the given time
/// source, and returns the time between its two readings.
pub fn bench<T: Scalar, const NX: usize, const NY: usize, const TMAX: usize, C: Fn() -> u64>(
    timing_function: &C,
) -> (r: Result<Duration, TimerError>)
    requires
        NX * (NY + 3) <= usize::MAX,
        timing_function.requires(()),
    ensures
        measured_by(timing_function, r),
{
    let mut ex = Array2D::<T, NX, NY>::maybe_uninit();
    let mut ey = Array2D::<T, NX, NY>::maybe_uninit();
    let mut hz = Array2D::<T, NX, NY>::maybe_uninit();
    let mut fict = Array1D::<T, TMAX>::maybe_uninit();
    init_array(&mut ex, &mut ey, &mut hz, &mut fict);
    let fict = fict.assume_init();
    let ex = ex.assume_init();
    let ey = ey.assume_init();
    let hz = hz.assume_init();
    let (elapsed, out) = benchmark_with_timing_function(
        move || -> (out: (
            Box<Array2D<T, NX, NY>>,
            Box<Array2D<T, NX, NY>>,
            Box<Array2D<T, NX, NY>>,
        ))
            {
                let mut ex = ex;
                let mut ey = ey;
                let mut hz = hz;
                kernel_fdtd_2d(&mut *ex, &mut *ey, &mut *hz, &*fict);
                (ex, ey, hz)
            },
        timing_function,
    );
    consume(out.0);
    consume(out.1);
    consume(out.2);
    elapsed
}

} // verus!
