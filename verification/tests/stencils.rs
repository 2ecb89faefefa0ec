use core::time::Duration;
use polybench_rs::ndarray::{Array1D, Array2D, Array3D, ArrayAlloc};
use polybench_rs::scalar::{Scalar, Zero};
use polybench_rs::stencils::{adi, fdtd_2d, heat_3d, jacobi_1d, jacobi_2d, seidel_2d};

/// Double precision floating point as an element type.
#[derive(Clone, Copy, Debug, PartialEq)]
struct F(f64);

impl Zero for F {
    fn zero_value() -> Self {
        F(0.0)
    }

    fn zero() -> Self {
        Self::zero_value()
    }
}

impl Scalar for F {
    fn of_usize(n: usize) -> Self {
        F(n as f64)
    }

    fn plus(self, rhs: Self) -> Self {
        F(self.0 + rhs.0)
    }

    fn minus(self, rhs: Self) -> Self {
        F(self.0 - rhs.0)
    }

    fn times(self, rhs: Self) -> Self {
        F(self.0 * rhs.0)
    }

    fn over(self, rhs: Self) -> Self {
        F(self.0 / rhs.0)
    }

    fn negated(self) -> Self {
        F(-self.0)
    }

    fn root(self) -> Self {
        F(self.0.sqrt())
    }

    fn at_most(self, rhs: Self) -> bool {
        self.0 <= rhs.0
    }

    fn from_usize(n: usize) -> Self {
        Self::of_usize(n)
    }

    fn add(self, rhs: Self) -> Self {
        self.plus(rhs)
    }

    fn sub(self, rhs: Self) -> Self {
        self.minus(rhs)
    }

    fn mul(self, rhs: Self) -> Self {
        self.times(rhs)
    }

    fn div(self, rhs: Self) -> Self {
        self.over(rhs)
    }

    fn neg(self) -> Self {
        self.negated()
    }

    fn sqrt(self) -> Self {
        self.root()
    }

    fn le(self, rhs: Self) -> bool {
        self.at_most(rhs)
    }

    fn mul_commutes(_a: Self, _b: Self) {}
}

fn grid<const M: usize, const N: usize>(a: &Array2D<F, M, N>) -> [[f64; N]; M] {
    let mut out = [[0.0f64; N]; M];
    for i in 0..M {
        for j in 0..N {
            out[i][j] = a.get(i, j).0;
        }
    }
    out
}

fn line<const N: usize>(a: &Array1D<F, N>) -> [f64; N] {
    let mut out = [0.0f64; N];
    for i in 0..N {
        out[i] = a.get(i).0;
    }
    out
}

#[test]
fn adi_check() {
    const N: usize = 7;
    const TSTEPS: usize = 4;
    let mut u = Array2D::<F, N, N>::maybe_uninit();
    adi::init_array::<F, N, TSTEPS>(&mut u);
    let mut u = u.assume_init();
    let mut v = Array2D::<F, N, N>::zeroed();
    let mut p = Array2D::<F, N, N>::zeroed();
    let mut q = Array2D::<F, N, N>::zeroed();

    let n = N;
    let tsteps = TSTEPS;
    let mut ru = [[0.0f64; N]; N];
    let mut rv = [[0.0f64; N]; N];
    let mut rp = [[0.0f64; N]; N];
    let mut rq = [[0.0f64; N]; N];
    for i in 0..n {
        for j in 0..n {
            ru[i][j] = (i + n - j) as f64 / n as f64;
        }
    }
    assert_eq!(grid(&u), ru);
    for i in 0..n {
        for j in 0..n {
            let edge = i == 0 || j == 0 || i == n - 1 || j == n - 1;
            rv[i][j] = if edge { 1.0 + (i + 2 * j) as f64 } else { 0.0 };
            rp[i][j] = if edge { 3.5 } else { 0.0 };
            rq[i][j] = if edge { -2.25 } else { 0.0 };
            v.set(i, j, F(rv[i][j]));
            p.set(i, j, F(rp[i][j]));
            q.set(i, j, F(rq[i][j]));
        }
    }
    let (u0, v0, p0, q0) = (ru, rv, rp, rq);

    let dx = 1.0 / n as f64;
    let dy = 1.0 / n as f64;
    let dt = 1.0 / tsteps as f64;
    let b1 = 2.0;
    let b2 = 1.0;
    let mul1 = b1 * dt / (dx * dx);
    let mul2 = b2 * dt / (dy * dy);
    let a = -mul1 / 2.0;
    let b = 1.0 + mul1;
    let c = a;
    let d = -mul2 / 2.0;
    let e = 1.0 + mul2;
    let f = d;
    for _ in 1..tsteps {
        for i in 1..(n - 1) {
            let mut factor = 0.0;
            let mut rhs = rv[0][i];
            for j in 1..(n - 1) {
                let den = a * factor + b;
                let num = -d * ru[j][i - 1] + (1.0 + 2.0 * d) * ru[j][i]
                    - f * ru[j][i + 1]
                    - a * rhs;
                factor = -c / den;
                rhs = num / den;
                rp[i][j] = factor;
                rq[i][j] = rhs;
            }
            for j in (1..(n - 1)).rev() {
                rv[j][i] = rp[i][j] * rv[j + 1][i] + rq[i][j];
            }
        }
        for i in 1..(n - 1) {
            let mut factor = 0.0;
            let mut rhs = ru[i][0];
            for j in 1..(n - 1) {
                let den = d * factor + e;
                let num = -a * rv[i - 1][j] + (1.0 + 2.0 * a) * rv[i][j]
                    - c * rv[i + 1][j]
                    - d * rhs;
                factor = -f / den;
                rhs = num / den;
                rp[i][j] = factor;
                rq[i][j] = rhs;
            }
            for j in (1..(n - 1)).rev() {
                ru[i][j] = rp[i][j] * ru[i][j + 1] + rq[i][j];
            }
        }
    }
    adi::kernel_adi::<F, N, TSTEPS>(&mut u, &mut v, &mut p, &mut q);
    assert_eq!(grid(&u), ru);
    assert_eq!(grid(&v), rv);
    assert_eq!(grid(&p), rp);
    assert_eq!(grid(&q), rq);
    let mut moved = false;
    for i in 0..N {
        for j in 0..N {
            if i == 0 || j == 0 || i == N - 1 || j == N - 1 {
                assert_eq!(u.get(i, j).0, u0[i][j]);
                assert_eq!(v.get(i, j).0, v0[i][j]);
                assert_eq!(p.get(i, j).0, p0[i][j]);
                assert_eq!(q.get(i, j).0, q0[i][j]);
            } else if u.get(i, j).0 != u0[i][j] {
                moved = true;
            }
        }
    }
    assert!(moved);
}

#[test]
fn adi_solves_between_the_boundary_values() {
    let mut u = Array2D::<i64, 3, 3>::zeroed();
    let mut v = Array2D::<i64, 3, 3>::zeroed();
    let mut p = Array2D::<i64, 3, 3>::zeroed();
    let mut q = Array2D::<i64, 3, 3>::zeroed();
    let mut n = 0;
    for i in 0..3 {
        for j in 0..3 {
            n += 1;
            u.set(i, j, 10 * n);
            v.set(i, j, n);
        }
    }
    adi::sweep_columns(&adi::coefficients::<i64, 3, 2>(), &u, &mut v, &mut p, &mut q);
    let co = adi::coefficients::<i64, 3, 2>();
    let den = co.a * 0 + co.b;
    let rhs = (-co.d * 40 + (1 + 2 * co.d) * 50 - co.f * 60 - co.a * 2) / den;
    let factor = -co.c / den;
    assert_eq!(*p.get(1, 1), factor);
    assert_eq!(*q.get(1, 1), rhs);
    assert_eq!(*v.get(1, 1), factor * 8 + rhs);
    assert_eq!(v.0[0].0, [1, 2, 3]);
    assert_eq!(v.0[2].0, [7, 8, 9]);
    assert_eq!((*v.get(1, 0), *v.get(1, 2)), (4, 6));
}

#[test]
fn adi_with_one_step_or_a_tiny_grid_changes_nothing() {
    let mut u = Array2D::<i64, 5, 5>::zeroed();
    let mut v = Array2D::<i64, 5, 5>::zeroed();
    let mut p = Array2D::<i64, 5, 5>::zeroed();
    let mut q = Array2D::<i64, 5, 5>::zeroed();
    u.set(2, 2, 7);
    adi::kernel_adi::<i64, 5, 1>(&mut u, &mut v, &mut p, &mut q);
    assert_eq!(*u.get(2, 2), 7);
    assert_eq!(*v.get(0, 1), 0);
    adi::kernel_adi::<i64, 5, 0>(&mut u, &mut v, &mut p, &mut q);
    assert_eq!(*u.get(2, 2), 7);

    let mut u = Array2D::<i64, 2, 2>::zeroed();
    let mut v = Array2D::<i64, 2, 2>::zeroed();
    let mut p = Array2D::<i64, 2, 2>::zeroed();
    let mut q = Array2D::<i64, 2, 2>::zeroed();
    u.set(1, 1, 3);
    adi::kernel_adi::<i64, 2, 9>(&mut u, &mut v, &mut p, &mut q);
    assert_eq!(u.0[1].0, [0, 3]);
    assert_eq!(v.0[1].0, [0, 0]);

    let mut u = Array2D::<i64, 0, 0>::zeroed();
    let mut v = Array2D::<i64, 0, 0>::zeroed();
    let mut p = Array2D::<i64, 0, 0>::zeroed();
    let mut q = Array2D::<i64, 0, 0>::zeroed();
    adi::kernel_adi::<i64, 0, 9>(&mut u, &mut v, &mut p, &mut q);
}

#[test]
fn fdtd_2d_check() {
    const NX: usize = 6;
    const NY: usize = 7;
    const TMAX: usize = 5;
    let mut ex = Array2D::<F, NX, NY>::maybe_uninit();
    let mut ey = Array2D::<F, NX, NY>::maybe_uninit();
    let mut hz = Array2D::<F, NX, NY>::maybe_uninit();
    let mut fict = Array1D::<F, TMAX>::maybe_uninit();
    fdtd_2d::init_array(&mut ex, &mut ey, &mut hz, &mut fict);
    let (mut ex, mut ey, mut hz) = (ex.assume_init(), ey.assume_init(), hz.assume_init());
    let fict = fict.assume_init();

    let (nx, ny, tmax) = (NX, NY, TMAX);
    let mut rex = [[0.0f64; NY]; NX];
    let mut rey = [[0.0f64; NY]; NX];
    let mut rhz = [[0.0f64; NY]; NX];
    let mut rfict = [0.0f64; TMAX];
    for i in 0..tmax {
        rfict[i] = i as f64;
    }
    for i in 0..nx {
        for j in 0..ny {
            rex[i][j] = (i * (j + 1)) as f64 / nx as f64;
            rey[i][j] = (i * (j + 2)) as f64 / ny as f64;
            rhz[i][j] = (i * (j + 3)) as f64 / nx as f64;
        }
    }
    assert_eq!(grid(&ex), rex);
    assert_eq!(grid(&ey), rey);
    assert_eq!(grid(&hz), rhz);
    assert_eq!(line(&fict), rfict);
    let (ex0, ey0, hz0) = (rex, rey, rhz);

    for _ in 0..tmax {
        for i in 1..(nx - 1) {
            for j in 1..(ny - 1) {
                rey[i][j] = rey[i][j] - 0.5 * (rhz[i][j] - rhz[i - 1][j]);
            }
        }
        for i in 1..(nx - 1) {
            for j in 1..(ny - 1) {
                rex[i][j] = rex[i][j] - 0.5 * (rhz[i][j] - rhz[i][j - 1]);
            }
        }
        for i in 1..(nx - 1) {
            for j in 1..(ny - 1) {
                rhz[i][j] =
                    rhz[i][j] - 0.7 * (rex[i][j + 1] - rex[i][j] + rey[i + 1][j] - rey[i][j]);
            }
        }
    }
    fdtd_2d::kernel_fdtd_2d(&mut ex, &mut ey, &mut hz, &fict);
    assert_eq!(grid(&ex), rex);
    assert_eq!(grid(&ey), rey);
    assert_eq!(grid(&hz), rhz);
    let mut moved = false;
    for i in 0..NX {
        for j in 0..NY {
            if i == 0 || j == 0 || i == NX - 1 || j == NY - 1 {
                assert_eq!(ex.get(i, j).0, ex0[i][j]);
                assert_eq!(ey.get(i, j).0, ey0[i][j]);
                assert_eq!(hz.get(i, j).0, hz0[i][j]);
            } else if hz.get(i, j).0 != hz0[i][j] {
                moved = true;
            }
        }
    }
    assert!(moved);
}

#[test]
fn fdtd_keeps_the_first_row_of_ey_whatever_the_sources_hold() {
    let mut ex = Array2D::<i64, 3, 3>::zeroed();
    let mut ey = Array2D::<i64, 3, 3>::zeroed();
    let mut hz = Array2D::<i64, 3, 3>::zeroed();
    let mut fict = Array1D::<i64, 2>::zeroed();
    fict.set(0, 70);
    fict.set(1, 80);
    for j in 0..3 {
        ey.set(0, j, 5 + j as i64);
    }
    hz.set(1, 1, 9);
    fdtd_2d::kernel_fdtd_2d(&mut ex, &mut ey, &mut hz, &fict);
    assert_eq!(ey.0[0].0, [5, 6, 7]);
    assert_eq!(ex.0[1].0, [0, 0, 0]);
    assert_eq!(*hz.get(1, 1), 9);
}

#[test]
fn heat_3d_check() {
    const N: usize = 6;
    const TSTEPS: usize = 4;
    let mut a = Array3D::<F, N, N, N>::maybe_uninit();
    let mut b = Array3D::<F, N, N, N>::maybe_uninit();
    heat_3d::init_array::<F, N, TSTEPS>(&mut a, &mut b);
    let (mut a, mut b) = (a.assume_init(), b.assume_init());

    let n = N;
    let mut ra = [[[0.0f64; N]; N]; N];
    let mut rb = [[[0.0f64; N]; N]; N];
    for i in 0..n {
        for j in 0..n {
            for k in 0..n {
                rb[i][j][k] = (i + j + (n - k)) as f64 * (10 as f64) / n as f64;
                ra[i][j][k] = rb[i][j][k];
                assert_eq!(a.get(i, j, k).0, ra[i][j][k]);
                assert_eq!(b.get(i, j, k).0, rb[i][j][k]);
            }
        }
    }
    ra[2][3][1] = 5.0;
    a.set(2, 3, 1, F(5.0));
    let before = ra;
    let b_before = rb;
    for _ in 1..TSTEPS {
        for i in 1..(n - 1) {
            for j in 1..(n - 1) {
                for k in 1..(n - 1) {
                    rb[i][j][k] = 0.125 * (ra[i + 1][j][k] - 2.0 * ra[i][j][k] + ra[i - 1][j][k])
                        + 0.125 * (ra[i][j + 1][k] - 2.0 * ra[i][j][k] + ra[i][j - 1][k])
                        + 0.125 * (ra[i][j][k + 1] - 2.0 * ra[i][j][k] + ra[i][j][k - 1])
                        + ra[i][j][k];
                }
            }
        }
        for i in 1..(n - 1) {
            for j in 1..(n - 1) {
                for k in 1..(n - 1) {
                    ra[i][j][k] = 0.125 * (rb[i + 1][j][k] - 2.0 * rb[i][j][k] + rb[i - 1][j][k])
                        + 0.125 * (rb[i][j + 1][k] - 2.0 * rb[i][j][k] + rb[i][j - 1][k])
                        + 0.125 * (rb[i][j][k + 1] - 2.0 * rb[i][j][k] + rb[i][j][k - 1])
                        + rb[i][j][k];
                }
            }
        }
    }
    heat_3d::kernel_heat_3d::<F, N, TSTEPS>(&mut a, &mut b);
    let mut moved = false;
    for i in 0..n {
        for j in 0..n {
            for k in 0..n {
                assert_eq!(a.get(i, j, k).0, ra[i][j][k]);
                assert_eq!(b.get(i, j, k).0, rb[i][j][k]);
                let edge = |x: usize| x == 0 || x == N - 1;
                if edge(i) || edge(j) || edge(k) {
                    assert_eq!(a.get(i, j, k).0, before[i][j][k]);
                    assert_eq!(b.get(i, j, k).0, b_before[i][j][k]);
                } else if a.get(i, j, k).0 != before[i][j][k] {
                    moved = true;
                }
            }
        }
    }
    assert!(moved);
}

#[test]
fn jacobi_1d_check() {
    const N: usize = 9;
    const TSTEPS: usize = 5;
    let mut a = Array1D::<F, N>::maybe_uninit();
    let mut b = Array1D::<F, N>::maybe_uninit();
    jacobi_1d::init_array::<F, N, TSTEPS>(&mut a, &mut b);
    let (mut a, mut b) = (a.assume_init(), b.assume_init());

    let n = N;
    let mut ra = [0.0f64; N];
    let mut rb = [0.0f64; N];
    for i in 0..n {
        ra[i] = (i + 2) as f64 / n as f64;
        rb[i] = (i + 3) as f64 / n as f64;
    }
    assert_eq!(line(&a), ra);
    assert_eq!(line(&b), rb);
    let (a0, b0) = (ra, rb);
    for _ in 0..TSTEPS {
        for i in 1..(n - 1) {
            rb[i] = 0.33333 * (ra[i - 1] + ra[i] + ra[i + 1]);
        }
        for i in 1..(n - 1) {
            ra[i] = 0.33333 * (rb[i - 1] + rb[i] + rb[i + 1]);
        }
    }
    jacobi_1d::kernel_jacobi_1d::<F, N, TSTEPS>(&mut a, &mut b);
    assert_eq!(line(&a), ra);
    assert_eq!(line(&b), rb);
    assert_eq!((a.get(0).0, a.get(N - 1).0), (a0[0], a0[N - 1]));
    assert_eq!((b.get(0).0, b.get(N - 1).0), (b0[0], b0[N - 1]));
    assert_ne!(a.get(1).0, a0[1]);
}

#[test]
fn jacobi_1d_on_short_lines_changes_nothing() {
    let mut a = Array1D::<i64, 2>::zeroed();
    let mut b = Array1D::<i64, 2>::zeroed();
    a.set(0, 3);
    a.set(1, 4);
    jacobi_1d::kernel_jacobi_1d::<i64, 2, 6>(&mut a, &mut b);
    assert_eq!(a.0, [3, 4]);
    assert_eq!(b.0, [0, 0]);
    let mut a = Array1D::<i64, 0>::zeroed();
    let mut b = Array1D::<i64, 0>::zeroed();
    jacobi_1d::kernel_jacobi_1d::<i64, 0, 6>(&mut a, &mut b);
}

#[test]
fn jacobi_2d_check() {
    const N: usize = 7;
    const TSTEPS: usize = 4;
    let mut a = Array2D::<F, N, N>::maybe_uninit();
    let mut b = Array2D::<F, N, N>::maybe_uninit();
    jacobi_2d::init_array::<F, N, TSTEPS>(&mut a, &mut b);
    let (mut a, mut b) = (a.assume_init(), b.assume_init());

    let n = N;
    let mut ra = [[0.0f64; N]; N];
    let mut rb = [[0.0f64; N]; N];
    for i in 0..n {
        for j in 0..n {
            ra[i][j] = (i * (j + 2) + 2) as f64 / n as f64;
            rb[i][j] = (i * (j + 3) + 3) as f64 / n as f64;
        }
    }
    assert_eq!(grid(&a), ra);
    assert_eq!(grid(&b), rb);
    let (a0, b0) = (ra, rb);
    for _ in 0..TSTEPS {
        for i in 1..(n - 1) {
            for j in 1..(n - 1) {
                rb[i][j] = 0.2
                    * (ra[i][j] + ra[i][j - 1] + ra[i][1 + j] + ra[1 + i][j] + ra[i - 1][j]);
            }
        }
        for i in 1..(n - 1) {
            for j in 1..(n - 1) {
                ra[i][j] = 0.2
                    * (rb[i][j] + rb[i][j - 1] + rb[i][1 + j] + rb[1 + i][j] + rb[i - 1][j]);
            }
        }
    }
    jacobi_2d::kernel_jacobi_2d::<F, N, TSTEPS>(&mut a, &mut b);
    assert_eq!(grid(&a), ra);
    assert_eq!(grid(&b), rb);
    for i in 0..N {
        for j in 0..N {
            if i == 0 || j == 0 || i == N - 1 || j == N - 1 {
                assert_eq!(a.get(i, j).0, a0[i][j]);
                assert_eq!(b.get(i, j).0, b0[i][j]);
            }
        }
    }
}

#[test]
fn seidel_2d_check() {
    const N: usize = 7;
    const TSTEPS: usize = 3;
    let mut a = Array2D::<F, N, N>::maybe_uninit();
    seidel_2d::init_array::<F, N, TSTEPS>(&mut a);
    let mut a = a.assume_init();

    let n = N;
    let mut ra = [[0.0f64; N]; N];
    for i in 0..n {
        for j in 0..n {
            ra[i][j] = (i * (j + 2) + 2) as f64 / n as f64;
        }
    }
    assert_eq!(grid(&a), ra);
    let a0 = ra;
    for _ in 0..TSTEPS {
        for i in 1..(n - 1) {
            for j in 1..(n - 1) {
                ra[i][j] = (ra[i - 1][j - 1]
                    + ra[i - 1][j]
                    + ra[i - 1][j + 1]
                    + ra[i][j - 1]
                    + ra[i][j]
                    + ra[i][j + 1]
                    + ra[i + 1][j - 1]
                    + ra[i + 1][j]
                    + ra[i + 1][j + 1])
                    / 9.0;
            }
        }
    }
    seidel_2d::kernel_seidel_2d::<F, N, TSTEPS>(&mut a);
    assert_eq!(grid(&a), ra);
    for i in 0..N {
        for j in 0..N {
            if i == 0 || j == 0 || i == N - 1 || j == N - 1 {
                assert_eq!(a.get(i, j).0, a0[i][j]);
            }
        }
    }
}

#[test]
fn seidel_sweep_on_integers_uses_the_new_values_behind_it() {
    let mut a = Array2D::<i64, 4, 4>::zeroed();
    for i in 0..4 {
        for j in 0..4 {
            a.set(i, j, 9);
        }
    }
    a.set(1, 1, 90);
    seidel_2d::sweep(&mut a);
    assert_eq!(*a.get(1, 1), (8 * 9 + 90) / 9);
    assert_eq!(*a.get(1, 2), (8 * 9 + 18) / 9);
    assert_eq!(*a.get(2, 1), (7 * 9 + 18 + 10) / 9);
    assert_eq!(*a.get(0, 0), 9);
    assert_eq!(*a.get(3, 2), 9);
}

#[test]
fn stencil_benches_report_the_clock_difference() {
    let clock = || 3;
    assert_eq!(adi::bench::<F, 6, 3, _>(&clock), Ok(Duration::from_nanos(0)));
    assert_eq!(fdtd_2d::bench::<F, 4, 5, 3, _>(&clock), Ok(Duration::from_nanos(0)));
    assert_eq!(heat_3d::bench::<F, 5, 3, _>(&clock), Ok(Duration::from_nanos(0)));
    assert_eq!(jacobi_1d::bench::<F, 8, 3, _>(&clock), Ok(Duration::from_nanos(0)));
    assert_eq!(jacobi_2d::bench::<F, 6, 3, _>(&clock), Ok(Duration::from_nanos(0)));
    assert_eq!(seidel_2d::bench::<i64, 6, 3, _>(&clock), Ok(Duration::from_nanos(0)));
}
