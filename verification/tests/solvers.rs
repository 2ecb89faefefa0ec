use core::cell::Cell;
use core::time::Duration;
use polybench_rs::linear_algebra::solvers::{
    cholesky, durbin, gramschmidt, input, lu, ludcmp, trisolv,
};
use polybench_rs::ndarray::{Array1D, Array2D, ArrayAlloc};
use polybench_rs::scalar::{Scalar, Zero};
use polybench_rs::util::TimerError;

/// Double precision floating point as an element type.
#[derive(Clone, Copy, Debug, PartialEq)]
struct F(f64);

impl Zero for F {
    fn zero_value() -> Self {
        F(0.0)
    }

    fn zero() -> Self {
        Self::zero_value()
    }
}

impl Scalar for F {
    fn of_usize(n: usize) -> Self {
        F(n as f64)
    }

    fn plus(self, rhs: Self) -> Self {
        F(self.0 + rhs.0)
    }

    fn minus(self, rhs: Self) -> Self {
        F(self.0 - rhs.0)
    }

    fn times(self, rhs: Self) -> Self {
        F(self.0 * rhs.0)
    }

    fn over(self, rhs: Self) -> Self {
        F(self.0 / rhs.0)
    }

    fn negated(self) -> Self {
        F(-self.0)
    }

    fn root(self) -> Self {
        F(self.0.sqrt())
    }

    fn at_most(self, rhs: Self) -> bool {
        self.0 <= rhs.0
    }

    fn from_usize(n: usize) -> Self {
        Self::of_usize(n)
    }

    fn add(self, rhs: Self) -> Self {
        self.plus(rhs)
    }

    fn sub(self, rhs: Self) -> Self {
        self.minus(rhs)
    }

    fn mul(self, rhs: Self) -> Self {
        self.times(rhs)
    }

    fn div(self, rhs: Self) -> Self {
        self.over(rhs)
    }

    fn neg(self) -> Self {
        self.negated()
    }

    fn sqrt(self) -> Self {
        self.root()
    }

    fn le(self, rhs: Self) -> bool {
        self.at_most(rhs)
    }

    fn mul_commutes(_a: Self, _b: Self) {}
}

fn grid<const M: usize, const N: usize>(a: &Array2D<F, M, N>) -> [[f64; N]; M] {
    let mut out = [[0.0f64; N]; M];
    for i in 0..M {
        for j in 0..N {
            out[i][j] = a.get(i, j).0;
        }
    }
    out
}

fn line<const N: usize>(a: &Array1D<F, N>) -> [f64; N] {
    let mut out = [0.0f64; N];
    for i in 0..N {
        out[i] = a.get(i).0;
    }
    out
}

fn symmetric_reference<const N: usize>() -> [[f64; N]; N] {
    let mut a = [[0.0f64; N]; N];
    for i in 0..N {
        for j in 0..=i {
            a[i][j] = (-(j as isize) % N as isize) as f64 / N as f64 + 1.0;
        }
        for j in (i + 1)..N {
            a[i][j] = 0.0;
        }
        a[i][i] = 1.0;
    }
    let mut b = [[0.0f64; N]; N];
    for t in 0..N {
        for r in 0..N {
            for s in 0..N {
                b[r][s] += a[r][t] * a[s][t];
            }
        }
    }
    b
}

#[test]
fn symmetric_input_is_the_gram_matrix_of_the_triangle() {
    const N: usize = 6;
    let a = input::symmetric_input(Array2D::<F, N, N>::maybe_uninit());
    let want = symmetric_reference::<N>();
    assert_eq!(grid(&a), want);
    for i in 0..N {
        for j in 0..N {
            assert_eq!(want[i][j], want[j][i]);
        }
    }
}

#[test]
fn cholesky_check() {
    const N: usize = 6;
    let mut a = cholesky::init_array(Array2D::<F, N, N>::maybe_uninit());
    let mut want = symmetric_reference::<N>();
    assert_eq!(grid(&a), want);
    for i in 0..N {
        for j in 0..i {
            for k in 0..j {
                want[i][j] -= want[i][k] * want[j][k];
            }
            want[i][j] /= want[j][j];
        }
        for k in 0..i {
            want[i][i] -= want[i][k] * want[i][k];
        }
        want[i][i] = want[i][i].sqrt();
    }
    cholesky::kernel_cholesky(&mut a);
    assert_eq!(grid(&a), want);
}

#[test]
fn cholesky_factor_gives_the_matrix_back() {
    const N: usize = 5;
    let mut a = cholesky::init_array(Array2D::<F, N, N>::maybe_uninit());
    let before = grid(&a);
    cholesky::kernel_cholesky(&mut a);
    let l = grid(&a);
    for i in 0..N {
        for j in 0..=i {
            let mut sum = 0.0;
            for k in 0..=j {
                sum += l[i][k] * l[j][k];
            }
            assert!((sum - before[i][j]).abs() < 1e-12);
        }
        for j in (i + 1)..N {
            assert_eq!(l[i][j], before[i][j]);
        }
    }
}

#[test]
fn lu_check() {
    const N: usize = 6;
    let mut a = lu::init_array(Array2D::<F, N, N>::maybe_uninit());
    let mut want = symmetric_reference::<N>();
    assert_eq!(grid(&a), want);
    for i in 0..N {
        for j in 0..i {
            for k in 0..j {
                want[i][j] -= want[i][k] * want[k][j];
            }
            want[i][j] /= want[j][j];
        }
        for j in i..N {
            for k in 0..i {
                want[i][j] -= want[i][k] * want[k][j];
            }
        }
    }
    lu::kernel_lu(&mut a);
    assert_eq!(grid(&a), want);
}

#[test]
fn lu_of_a_small_integer_matrix() {
    let mut a = Array2D::<i64, 2, 2>::zeroed();
    a.set(0, 0, 2);
    a.set(0, 1, 3);
    a.set(1, 0, 4);
    a.set(1, 1, 10);
    lu::kernel_lu(&mut a);
    assert_eq!(a.0[0].0, [2, 3]);
    assert_eq!(a.0[1].0, [2, 4]);
}

#[test]
fn lu_with_a_zero_pivot_divides_as_the_element_type_does() {
    let mut a = Array2D::<i64, 2, 2>::zeroed();
    a.set(0, 1, 3);
    a.set(1, 0, 4);
    a.set(1, 1, 10);
    lu::kernel_lu(&mut a);
    assert_eq!(a.0[0].0, [0, 3]);
    assert_eq!(a.0[1].0, [0, 10]);
}

#[test]
fn ludcmp_check() {
    const N: usize = 6;
    let mut b = Array1D::<F, N>::maybe_uninit();
    let mut x = Array1D::<F, N>::maybe_uninit();
    let mut y = Array1D::<F, N>::maybe_uninit();
    let mut a = ludcmp::init_array(Array2D::<F, N, N>::maybe_uninit(), &mut b, &mut x, &mut y);
    let (b, mut x, mut y) = (b.assume_init(), x.assume_init(), y.assume_init());

    let mut ra = symmetric_reference::<N>();
    let mut rb = [0.0f64; N];
    let mut rx = [1.0f64; N];
    let mut ry = [1.0f64; N];
    let float_n = N as f64;
    for i in 0..N {
        rx[i] = 0.0;
        ry[i] = 0.0;
        rb[i] = (i + 1) as f64 / float_n / 2.0 + 4.0;
    }
    assert_eq!(grid(&a), ra);
    assert_eq!(line(&b), rb);
    assert_eq!(line(&x), rx);
    assert_eq!(line(&y), ry);

    let mut w;
    for i in 0..N {
        for j in 0..i {
            w = ra[i][j];
            for k in 0..j {
                w -= ra[i][k] * ra[k][j];
            }
            ra[i][j] = w / ra[j][j];
        }
        for j in i..N {
            w = ra[i][j];
            for k in 0..i {
                w -= ra[i][k] * ra[k][j];
            }
            ra[i][j] = w;
        }
    }
    for i in 0..N {
        w = rb[i];
        for j in 0..i {
            w -= ra[i][j] * ry[j];
        }
        ry[i] = w;
    }
    for i in (0..N).rev() {
        w = ry[i];
        for j in (i + 1)..N {
            w -= ra[i][j] * rx[j];
        }
        rx[i] = w / ra[i][i];
    }
    let system = symmetric_reference::<N>();
    ludcmp::kernel_ludcmp(&mut a, &b, &mut x, &mut y);
    assert_eq!(grid(&a), ra);
    assert_eq!(line(&y), ry);
    assert_eq!(line(&x), rx);
    for i in 0..N {
        let mut sum = 0.0;
        for j in 0..N {
            sum += system[i][j] * x.get(j).0;
        }
        assert!((sum - rb[i]).abs() < 1e-9);
    }
}

#[test]
fn trisolv_check() {
    const N: usize = 7;
    let mut l = Array2D::<F, N, N>::maybe_uninit();
    let mut x = Array1D::<F, N>::maybe_uninit();
    let mut b = Array1D::<F, N>::maybe_uninit();
    trisolv::init_array(&mut l, &mut x, &mut b);
    let (l, mut x, b) = (l.assume_init(), x.assume_init(), b.assume_init());

    let mut rl = [[0.0f64; N]; N];
    let mut rx = [0.0f64; N];
    let mut rb = [0.0f64; N];
    for i in 0..N {
        rx[i] = -999.0;
        rb[i] = i as f64;
        for j in 0..=i {
            rl[i][j] = (i + N - j + 1) as f64 * 2.0 / N as f64;
        }
    }
    assert_eq!(grid(&l), rl);
    assert_eq!(line(&x), rx);
    assert_eq!(line(&b), rb);

    for i in 0..N {
        rx[i] = rb[i];
        for j in 0..i {
            rx[i] -= rl[i][j] * rx[j];
        }
        rx[i] = rx[i] / rl[i][i];
    }
    trisolv::kernel_trisolv(&l, &mut x, &b);
    assert_eq!(line(&x), rx);
}

#[test]
fn trisolv_on_integers() {
    let mut l = Array2D::<i64, 3, 3>::zeroed();
    let mut b = Array1D::<i64, 3>::zeroed();
    let mut x = Array1D::<i64, 3>::zeroed();
    l.set(0, 0, 2);
    l.set(1, 0, 1);
    l.set(1, 1, 3);
    l.set(2, 0, 4);
    l.set(2, 1, 5);
    l.set(2, 2, 1);
    l.set(0, 2, 77);
    b.set(0, 4);
    b.set(1, 11);
    b.set(2, 30);
    trisolv::kernel_trisolv(&l, &mut x, &b);
    assert_eq!(x.0, [2, 3, 7]);
}

#[test]
fn durbin_check() {
    const N: usize = 8;
    let mut r = Array1D::<F, N>::maybe_uninit();
    durbin::init_array(&mut r);
    let r = r.assume_init();
    let mut y = Array1D::<F, N>::zeroed();

    let mut rr = [0.0f64; N];
    for i in 0..N {
        rr[i] = (N + 1 - i) as f64;
    }
    assert_eq!(line(&r), rr);

    let mut ry = [0.0f64; N];
    let mut z = [0.0f64; N];
    ry[0] = -rr[0];
    let mut beta = 1.0;
    let mut alpha = -rr[0];
    for k in 1..N {
        beta = (1.0 - alpha * alpha) * beta;
        let mut sum = 0.0;
        for i in 0..k {
            sum += rr[k - i - 1] * ry[i];
        }
        alpha = -(rr[k] + sum) / beta;
        for i in 0..k {
            z[i] = ry[i] + alpha * ry[k - i - 1];
        }
        for i in 0..k {
            ry[i] = z[i];
        }
        ry[k] = alpha;
    }
    durbin::kernel_durbin(&r, &mut y);
    assert_eq!(line(&y), ry);
}

#[test]
fn durbin_of_one_entry() {
    let mut r = Array1D::<i64, 1>::zeroed();
    r.set(0, 5);
    let mut y = Array1D::<i64, 1>::zeroed();
    durbin::kernel_durbin(&r, &mut y);
    assert_eq!(y.0, [-5]);
}

#[test]
fn gramschmidt_check() {
    const M: usize = 6;
    const N: usize = 5;
    let mut a = Array2D::<F, M, N>::maybe_uninit();
    let mut r = Array2D::<F, N, N>::maybe_uninit();
    let mut q = Array2D::<F, M, N>::maybe_uninit();
    gramschmidt::init_array(&mut a, &mut r, &mut q);
    let (mut a, mut r, mut q) = (a.assume_init(), r.assume_init(), q.assume_init());

    let mut ra = [[0.0f64; N]; M];
    let mut rr = [[0.0f64; N]; N];
    let mut rq = [[1.0f64; N]; M];
    for i in 0..M {
        for j in 0..N {
            ra[i][j] = ((((i * j) % M) as f64 / M as f64) * 100.0) + 10.0;
            rq[i][j] = 0.0;
        }
    }
    assert_eq!(grid(&a), ra);
    assert_eq!(grid(&r), rr);
    assert_eq!(grid(&q), rq);

    for k in 0..N {
        let mut nrm = 0.0;
        for i in 0..M {
            nrm += ra[i][k] * ra[i][k];
        }
        rr[k][k] = nrm.sqrt();
        for i in 0..M {
            rq[i][k] = ra[i][k] / rr[k][k];
        }
        for j in (k + 1)..N {
            rr[k][j] = 0.0;
            for i in 0..M {
                rr[k][j] += rq[i][k] * ra[i][j];
            }
            for i in 0..M {
                ra[i][j] = ra[i][j] - rq[i][k] * rr[k][j];
            }
        }
    }
    gramschmidt::kernel_gramschmidt(&mut a, &mut r, &mut q);
    assert_eq!(grid(&a), ra);
    assert_eq!(grid(&r), rr);
    assert_eq!(grid(&q), rq);
}

#[test]
fn solver_benches_report_the_clock_difference() {
    let readings = Cell::new(0u64);
    let clock = || {
        readings.set(readings.get() + 1);
        readings.get() * 1000
    };
    assert_eq!(cholesky::bench::<F, 5, _>(&clock), Ok(Duration::from_nanos(1000)));
    assert_eq!(durbin::bench::<F, 5, _>(&clock), Ok(Duration::from_nanos(1000)));
    assert_eq!(gramschmidt::bench::<F, 5, 4, _>(&clock), Ok(Duration::from_nanos(1000)));
    assert_eq!(lu::bench::<F, 5, _>(&clock), Ok(Duration::from_nanos(1000)));
    assert_eq!(ludcmp::bench::<F, 5, _>(&clock), Ok(Duration::from_nanos(1000)));
    assert_eq!(trisolv::bench::<F, 5, _>(&clock), Ok(Duration::from_nanos(1000)));
    assert_eq!(readings.get(), 12);
}

#[test]
fn solver_bench_surfaces_a_clock_that_went_backwards() {
    let readings = Cell::new(10u64);
    let clock = || {
        readings.set(readings.get() - 1);
        readings.get()
    };
    assert_eq!(lu::bench::<F, 3, _>(&clock), Err(TimerError { begin: 9, end: 8 }));
}
