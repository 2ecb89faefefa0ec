use polybench_rs::linear_algebra::blas::{gemm, gemver, gesummv, symm, syr2k, syrk, trmm};
use polybench_rs::ndarray::{Array1D, Array2D, ArrayAlloc};
use polybench_rs::scalar::{Scalar, Zero};

/// Double precision floating point as an element type.
#[derive(Clone, Copy, Debug, PartialEq)]
struct F(f64);

impl Zero for F {
    fn zero_value() -> Self {
        F(0.0)
    }

    fn zero() -> Self {
        Self::zero_value()
    }
}

impl Scalar for F {
    fn of_usize(n: usize) -> Self {
        F(n as f64)
    }

    fn plus(self, rhs: Self) -> Self {
        F(self.0 + rhs.0)
    }

    fn minus(self, rhs: Self) -> Self {
        F(self.0 - rhs.0)
    }

    fn times(self, rhs: Self) -> Self {
        F(self.0 * rhs.0)
    }

    fn over(self, rhs: Self) -> Self {
        F(self.0 / rhs.0)
    }

    fn negated(self) -> Self {
        F(-self.0)
    }

    fn root(self) -> Self {
        F(self.0.sqrt())
    }

    fn at_most(self, rhs: Self) -> bool {
        self.0 <= rhs.0
    }

    fn from_usize(n: usize) -> Self {
        Self::of_usize(n)
    }

    fn add(self, rhs: Self) -> Self {
        self.plus(rhs)
    }

    fn sub(self, rhs: Self) -> Self {
        self.minus(rhs)
    }

    fn mul(self, rhs: Self) -> Self {
        self.times(rhs)
    }

    fn div(self, rhs: Self) -> Self {
        self.over(rhs)
    }

    fn neg(self) -> Self {
        self.negated()
    }

    fn sqrt(self) -> Self {
        self.root()
    }

    fn le(self, rhs: Self) -> bool {
        self.at_most(rhs)
    }

    fn mul_commutes(_a: Self, _b: Self) {}
}

fn grid<const M: usize, const N: usize>(a: &Array2D<F, M, N>) -> [[f64; N]; M] {
    let mut out = [[0.0f64; N]; M];
    for i in 0..M {
        for j in 0..N {
            out[i][j] = a.get(i, j).0;
        }
    }
    out
}

fn line<const N: usize>(a: &Array1D<F, N>) -> [f64; N] {
    let mut out = [0.0f64; N];
    for i in 0..N {
        out[i] = a.get(i).0;
    }
    out
}

#[test]
fn gemm_check() {
    const NI: usize = 5;
    const NJ: usize = 6;
    const NK: usize = 7;
    let mut alpha = F(0.0);
    let mut beta = F(0.0);
    let mut c = Array2D::<F, NI, NJ>::maybe_uninit();
    let mut a = Array2D::<F, NI, NK>::maybe_uninit();
    let mut b = Array2D::<F, NK, NJ>::maybe_uninit();
    gemm::init_array(&mut alpha, &mut beta, &mut c, &mut a, &mut b);
    let (a, b, mut c) = (a.assume_init(), b.assume_init(), c.assume_init());
    assert_eq!((alpha.0, beta.0), (1.5, 1.2));

    let mut wc = [[0.0f64; NJ]; NI];
    let mut wa = [[0.0f64; NK]; NI];
    let mut wb = [[0.0f64; NJ]; NK];
    for i in 0..NI {
        for j in 0..NJ {
            wc[i][j] = ((i * j + 1) % NI) as f64 / NI as f64;
        }
    }
    for i in 0..NI {
        for j in 0..NK {
            wa[i][j] = (i * (j + 1) % NK) as f64 / NK as f64;
        }
    }
    for i in 0..NK {
        for j in 0..NJ {
            wb[i][j] = (i * (j + 2) % NJ) as f64 / NJ as f64;
        }
    }
    assert_eq!(grid(&c), wc);
    assert_eq!(grid(&a), wa);
    assert_eq!(grid(&b), wb);

    for i in 0..NI {
        for j in 0..NJ {
            wc[i][j] *= 1.2;
            for k in 0..NK {
                wc[i][j] += 1.5 * wa[i][k] * wb[k][j];
            }
        }
    }
    gemm::kernel_gemm(alpha, beta, &mut c, &a, &b);
    assert_eq!(grid(&c), wc);
}

#[test]
fn gemm_of_four_by_four_generated_inputs() {
    let mut alpha = F(0.0);
    let mut beta = F(0.0);
    let mut c = Array2D::<F, 4, 4>::maybe_uninit();
    let mut a = Array2D::<F, 4, 4>::maybe_uninit();
    let mut b = Array2D::<F, 4, 4>::maybe_uninit();
    gemm::init_array(&mut alpha, &mut beta, &mut c, &mut a, &mut b);
    let (a, b, mut c) = (a.assume_init(), b.assume_init(), c.assume_init());
    assert_eq!(
        grid(&a),
        [[0.0, 0.0, 0.0, 0.0], [0.25, 0.5, 0.75, 0.0], [0.5, 0.0, 0.5, 0.0], [0.75, 0.5, 0.25, 0.0]]
    );
    assert_eq!(
        grid(&b),
        [[0.0, 0.0, 0.0, 0.0], [0.5, 0.75, 0.0, 0.25], [0.0, 0.5, 0.0, 0.5], [0.5, 0.25, 0.0, 0.75]]
    );
    gemm::kernel_gemm(alpha, beta, &mut c, &a, &b);
    let want = [
        [0.3, 0.3, 0.3, 0.3],
        [0.675, 1.725, 0.9, 0.75],
        [0.3, 1.275, 0.3, 1.275],
        [0.675, 0.75, 0.9, 0.975],
    ];
    let got = grid(&c);
    for i in 0..4 {
        for j in 0..4 {
            assert!((got[i][j] - want[i][j]).abs() <= 1e-9 * want[i][j].abs());
        }
    }
    assert_eq!(got[1][2], 0.8999999999999999);
}

#[test]
fn gemm_on_integers() {
    let mut c = Array2D::<i64, 2, 2>::zeroed();
    let mut a = Array2D::<i64, 2, 3>::zeroed();
    let mut b = Array2D::<i64, 3, 2>::zeroed();
    let mut n = 0;
    for i in 0..2 {
        for j in 0..3 {
            n += 1;
            a.set(i, j, n);
            b.set(j, i, n + 10);
        }
        for j in 0..2 {
            c.set(i, j, 1);
        }
    }
    gemm::kernel_gemm(2, 3, &mut c, &a, &b);
    assert_eq!(c.0[0].0, [3 + 2 * (11 + 24 + 39), 3 + 2 * (14 + 30 + 48)]);
    assert_eq!(c.0[1].0, [3 + 2 * (44 + 60 + 78), 3 + 2 * (56 + 75 + 96)]);
}

#[test]
fn gemm_generator_gives_the_same_arrays_every_time() {
    let mut first = [[0.0f64; 5]; 3];
    for round in 0..2 {
        let mut alpha = F(0.0);
        let mut beta = F(0.0);
        let mut c = Array2D::<F, 3, 5>::maybe_uninit();
        let mut a = Array2D::<F, 3, 4>::maybe_uninit();
        let mut b = Array2D::<F, 4, 5>::maybe_uninit();
        gemm::init_array(&mut alpha, &mut beta, &mut c, &mut a, &mut b);
        let c = grid(&c.assume_init());
        if round == 0 {
            first = c;
        } else {
            for i in 0..3 {
                for j in 0..5 {
                    assert_eq!(first[i][j].to_bits(), c[i][j].to_bits());
                }
            }
        }
    }
}

#[test]
fn gemver_check() {
    const N: usize = 6;
    let mut alpha = F(0.0);
    let mut beta = F(0.0);
    let mut a = Array2D::<F, N, N>::maybe_uninit();
    let mut u1 = Array1D::<F, N>::maybe_uninit();
    let mut v1 = Array1D::<F, N>::maybe_uninit();
    let mut u2 = Array1D::<F, N>::maybe_uninit();
    let mut v2 = Array1D::<F, N>::maybe_uninit();
    let mut w = Array1D::<F, N>::maybe_uninit();
    let mut x = Array1D::<F, N>::maybe_uninit();
    let mut y = Array1D::<F, N>::maybe_uninit();
    let mut z = Array1D::<F, N>::maybe_uninit();
    gemver::init_array(
        &mut alpha, &mut beta, &mut a, &mut u1, &mut v1, &mut u2, &mut v2, &mut w, &mut x, &mut y,
        &mut z,
    );
    let mut a = a.assume_init();
    let (u1, v1, u2, v2) = (u1.assume_init(), v1.assume_init(), u2.assume_init(), v2.assume_init());
    let (mut w, mut x, y, z) = (w.assume_init(), x.assume_init(), y.assume_init(), z.assume_init());

    let float_n = N as f64;
    let mut ra = [[0.0f64; N]; N];
    let (mut ru1, mut ru2, mut rv1, mut rv2) = ([0.0f64; N], [0.0f64; N], [0.0f64; N], [0.0f64; N]);
    let (mut ry, mut rz, mut rx, mut rw) = ([0.0f64; N], [0.0f64; N], [0.0f64; N], [0.0f64; N]);
    for i in 0..N {
        ru1[i] = i as f64;
        ru2[i] = ((i + 1) as f64 / float_n) / 2.0;
        rv1[i] = ((i + 1) as f64 / float_n) / 4.0;
        rv2[i] = ((i + 1) as f64 / float_n) / 6.0;
        ry[i] = ((i + 1) as f64 / float_n) / 8.0;
        rz[i] = ((i + 1) as f64 / float_n) / 9.0;
        rx[i] = 0.0;
        rw[i] = 0.0;
        for j in 0..N {
            ra[i][j] = (i * j % N) as f64 / N as f64;
        }
    }
    assert_eq!(grid(&a), ra);
    assert_eq!(line(&u1), ru1);
    assert_eq!(line(&u2), ru2);
    assert_eq!(line(&v1), rv1);
    assert_eq!(line(&v2), rv2);
    assert_eq!(line(&y), ry);
    assert_eq!(line(&z), rz);
    assert_eq!(line(&x), rx);
    assert_eq!(line(&w), rw);

    for i in 0..N {
        for j in 0..N {
            ra[i][j] = ra[i][j] + ru1[i] * rv1[j] + ru2[i] * rv2[j];
        }
    }
    for i in 0..N {
        for j in 0..N {
            rx[i] = rx[i] + 1.2 * ra[j][i] * ry[j];
        }
    }
    for i in 0..N {
        rx[i] = rx[i] + rz[i];
    }
    for i in 0..N {
        for j in 0..N {
            rw[i] = rw[i] + 1.5 * ra[i][j] * rx[j];
        }
    }
    gemver::kernel_gemver(alpha, beta, &mut a, &u1, &v1, &u2, &v2, &mut w, &mut x, &y, &z);
    assert_eq!(grid(&a), ra);
    assert_eq!(line(&x), rx);
    assert_eq!(line(&w), rw);
}

#[test]
fn gesummv_check() {
    const N: usize = 7;
    let mut alpha = F(0.0);
    let mut beta = F(0.0);
    let mut a = Array2D::<F, N, N>::maybe_uninit();
    let mut b = Array2D::<F, N, N>::maybe_uninit();
    let mut x = Array1D::<F, N>::maybe_uninit();
    gesummv::init_array(&mut alpha, &mut beta, &mut a, &mut b, &mut x);
    let (a, b, x) = (a.assume_init(), b.assume_init(), x.assume_init());
    let mut tmp = Array1D::<F, N>::zeroed();
    let mut y = Array1D::<F, N>::zeroed();

    let mut ra = [[0.0f64; N]; N];
    let mut rb = [[0.0f64; N]; N];
    let mut rx = [0.0f64; N];
    for i in 0..N {
        rx[i] = (i % N) as f64 / N as f64;
        for j in 0..N {
            ra[i][j] = ((i * j + 1) % N) as f64 / N as f64;
            rb[i][j] = ((i * j + 2) % N) as f64 / N as f64;
        }
    }
    assert_eq!(grid(&a), ra);
    assert_eq!(grid(&b), rb);
    assert_eq!(line(&x), rx);

    let mut rtmp = [0.0f64; N];
    let mut ry = [0.0f64; N];
    for i in 0..N {
        rtmp[i] = 0.0;
        ry[i] = 0.0;
        for j in 0..N {
            rtmp[i] = ra[i][j] * rx[j] + rtmp[i];
            ry[i] = rb[i][j] * rx[j] + ry[i];
        }
        ry[i] = 1.5 * rtmp[i] + 1.2 * ry[i];
    }
    gesummv::kernel_gesummv(alpha, beta, &a, &b, &mut tmp, &x, &mut y);
    assert_eq!(line(&tmp), rtmp);
    assert_eq!(line(&y), ry);
}

#[test]
fn symm_check() {
    const M: usize = 5;
    const N: usize = 6;
    let mut alpha = F(0.0);
    let mut beta = F(0.0);
    let mut c = Array2D::<F, M, N>::maybe_uninit();
    let mut a = Array2D::<F, M, M>::maybe_uninit();
    let mut b = Array2D::<F, M, N>::maybe_uninit();
    symm::init_array(&mut alpha, &mut beta, &mut c, &mut a, &mut b);
    let (a, b, mut c) = (a.assume_init(), b.assume_init(), c.assume_init());

    let mut rc = [[0.0f64; N]; M];
    let mut rb = [[0.0f64; N]; M];
    let mut ra = [[0.0f64; M]; M];
    for i in 0..M {
        for j in 0..N {
            rc[i][j] = ((i + j) % 100) as f64 / M as f64;
            rb[i][j] = ((N + i - j) % 100) as f64 / M as f64;
        }
    }
    for i in 0..M {
        for j in 0..=i {
            ra[i][j] = ((i + j) % 100) as f64 / M as f64;
        }
        for j in (i + 1)..M {
            ra[i][j] = -999 as f64;
        }
    }
    assert_eq!(grid(&c), rc);
    assert_eq!(grid(&b), rb);
    assert_eq!(grid(&a), ra);

    for i in 0..M {
        for j in 0..N {
            let mut temp2 = 0.0;
            for k in 0..i {
                rc[k][j] += 1.5 * rb[i][j] * ra[i][k];
                temp2 += rb[k][j] * ra[i][k];
            }
            rc[i][j] = 1.2 * rc[i][j] + 1.5 * rb[i][j] * ra[i][i] + 1.5 * temp2;
        }
    }
    symm::kernel_symm(alpha, beta, &mut c, &a, &b);
    assert_eq!(grid(&c), rc);
}

#[test]
fn syr2k_check() {
    const M: usize = 5;
    const N: usize = 4;
    let mut alpha = F(0.0);
    let mut beta = F(0.0);
    let mut c = Array2D::<F, M, M>::maybe_uninit();
    let mut a = Array2D::<F, M, N>::maybe_uninit();
    let mut b = Array2D::<F, M, N>::maybe_uninit();
    syr2k::init_array(&mut alpha, &mut beta, &mut c, &mut a, &mut b);
    let (a, b, mut c) = (a.assume_init(), b.assume_init(), c.assume_init());

    let mut rc = [[0.0f64; M]; M];
    let mut ra = [[0.0f64; N]; M];
    let mut rb = [[0.0f64; N]; M];
    for i in 0..M {
        for j in 0..N {
            ra[i][j] = ((i * j + 1) % M) as f64 / M as f64;
            rb[i][j] = ((i * j + 2) % N) as f64 / N as f64;
        }
    }
    for i in 0..M {
        for j in 0..M {
            rc[i][j] = ((i * j + 3) % M) as f64 / N as f64;
        }
    }
    assert_eq!(grid(&c), rc);
    assert_eq!(grid(&a), ra);
    assert_eq!(grid(&b), rb);

    for i in 0..M {
        for j in 0..=i {
            rc[i][j] *= 1.2;
        }
        for k in 0..N {
            for j in 0..=i {
                rc[i][j] += ra[j][k] * 1.5 * rb[i][k] + rb[j][k] * 1.5 * ra[i][k];
            }
        }
    }
    syr2k::kernel_syr2k(alpha, beta, &mut c, &a, &b);
    assert_eq!(grid(&c), rc);
}

#[test]
fn syrk_check() {
    const M: usize = 6;
    const N: usize = 4;
    let mut alpha = F(0.0);
    let mut beta = F(0.0);
    let mut c = Array2D::<F, M, M>::maybe_uninit();
    let mut a = Array2D::<F, M, N>::maybe_uninit();
    syrk::init_array(&mut alpha, &mut beta, &mut c, &mut a);
    let (a, mut c) = (a.assume_init(), c.assume_init());

    let mut rc = [[0.0f64; M]; M];
    let mut ra = [[0.0f64; N]; M];
    for i in 0..M {
        for j in 0..N {
            ra[i][j] = ((i * j + 1) % M) as f64 / M as f64;
        }
    }
    for i in 0..M {
        for j in 0..M {
            rc[i][j] = ((i * j + 2) % N) as f64 / N as f64;
        }
    }
    assert_eq!(grid(&c), rc);
    assert_eq!(grid(&a), ra);

    for i in 0..M {
        for j in 0..=i {
            rc[i][j] *= 1.2;
        }
        for k in 0..N {
            for j in 0..=i {
                rc[i][j] += 1.5 * ra[i][k] * ra[j][k];
            }
        }
    }
    syrk::kernel_syrk(alpha, beta, &mut c, &a);
    assert_eq!(grid(&c), rc);
}

#[test]
fn symmetric_updates_leave_the_upper_half_to_be_mirrored() {
    const M: usize = 5;
    const N: usize = 3;
    let mut c = Array2D::<i64, M, M>::zeroed();
    let mut a = Array2D::<i64, M, N>::zeroed();
    let mut b = Array2D::<i64, M, N>::zeroed();
    for i in 0..M {
        for j in 0..M {
            let (lo, hi) = if i <= j { (i, j) } else { (j, i) };
            c.set(i, j, (10 * lo + hi) as i64);
        }
        for j in 0..N {
            a.set(i, j, (i + 2 * j) as i64 - 3);
            b.set(i, j, (3 * i) as i64 - j as i64);
        }
    }
    let before = *c;

    let mut rank_k = before;
    syrk::kernel_syrk(2, 3, &mut rank_k, &a);
    let mut rank_2k = before;
    syr2k::kernel_syr2k(2, 3, &mut rank_2k, &a, &b);

    for i in 0..M {
        for j in 0..M {
            let mut full_k = 3 * before.get(i, j);
            let mut full_2k = 3 * before.get(i, j);
            for k in 0..N {
                full_k += 2 * a.get(i, k) * a.get(j, k);
                full_2k += 2 * a.get(j, k) * b.get(i, k) + 2 * b.get(j, k) * a.get(i, k);
            }
            if j <= i {
                assert_eq!(*rank_k.get(i, j), full_k);
                assert_eq!(*rank_2k.get(i, j), full_2k);
            } else {
                assert_eq!(rank_k.get(i, j), before.get(i, j));
                assert_eq!(rank_2k.get(i, j), before.get(i, j));
                assert_eq!(*rank_k.get(j, i), full_k);
                assert_eq!(*rank_2k.get(j, i), full_2k);
            }
        }
    }
}

#[test]
fn trmm_check() {
    const M: usize = 6;
    const N: usize = 5;
    let mut alpha = F(0.0);
    let mut a = Array2D::<F, M, M>::maybe_uninit();
    let mut b = Array2D::<F, M, N>::maybe_uninit();
    trmm::init_array(&mut alpha, &mut a, &mut b);
    let (a, mut b) = (a.assume_init(), b.assume_init());
    assert_eq!(alpha.0, 1.5);

    let mut ra = [[0.0f64; M]; M];
    let mut rb = [[0.0f64; N]; M];
    for i in 0..M {
        for j in 0..i {
            ra[i][j] = ((i + j) % M) as f64 / M as f64;
        }
        ra[i][i] = 1.0;
        for j in 0..N {
            rb[i][j] = (((N + i) - j) % N) as f64 / N as f64;
        }
    }
    assert_eq!(grid(&a), ra);
    assert_eq!(grid(&b), rb);

    for i in 0..M {
        for j in 0..N {
            for k in (i + 1)..M {
                rb[i][j] += ra[k][i] * rb[k][j];
            }
            rb[i][j] = 1.5 * rb[i][j];
        }
    }
    trmm::kernel_trmm(alpha, &a, &mut b);
    assert_eq!(grid(&b), rb);
}

#[test]
fn blas_benches_report_the_clock_difference() {
    let clock = || 5;
    assert_eq!(gemm::bench::<F, 3, 4, 5, _>(&clock), Ok(core::time::Duration::from_nanos(0)));
    assert_eq!(gemver::bench::<F, 4, _>(&clock), Ok(core::time::Duration::from_nanos(0)));
    assert_eq!(gesummv::bench::<F, 4, _>(&clock), Ok(core::time::Duration::from_nanos(0)));
    assert_eq!(symm::bench::<F, 3, 4, _>(&clock), Ok(core::time::Duration::from_nanos(0)));
    assert_eq!(syr2k::bench::<F, 3, 4, _>(&clock), Ok(core::time::Duration::from_nanos(0)));
    assert_eq!(syrk::bench::<F, 3, 4, _>(&clock), Ok(core::time::Duration::from_nanos(0)));
    assert_eq!(trmm::bench::<i64, 3, 4, _>(&clock), Ok(core::time::Duration::from_nanos(0)));
}

#[test]
fn timed_kernel_takes_time_that_grows_with_the_problem() {
    let start = std::time::Instant::now();
    let clock = move || start.elapsed().as_nanos() as u64;
    let small = gemm::bench::<F, 8, 8, 8, _>(&clock).unwrap();
    let large = gemm::bench::<F, 96, 96, 96, _>(&clock).unwrap();
    assert!(large > core::time::Duration::from_nanos(0));
    assert!(large > small);
}
