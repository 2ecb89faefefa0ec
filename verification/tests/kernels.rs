use core::time::Duration;
use polybench_rs::linear_algebra::kernels::{_2mm, _3mm, atax, bicg, doitgen, mvt};
use polybench_rs::ndarray::{Array1D, Array2D, Array3D, ArrayAlloc};
use polybench_rs::scalar::{Scalar, Zero};

/// Double precision floating point as an element type.
#[derive(Clone, Copy, Debug, PartialEq)]
struct F(f64);

impl Zero for F {
    fn zero_value() -> Self {
        F(0.0)
    }

    fn zero() -> Self {
        Self::zero_value()
    }
}

impl Scalar for F {
    fn of_usize(n: usize) -> Self {
        F(n as f64)
    }

    fn plus(self, rhs: Self) -> Self {
        F(self.0 + rhs.0)
    }

    fn minus(self, rhs: Self) -> Self {
        F(self.0 - rhs.0)
    }

    fn times(self, rhs: Self) -> Self {
        F(self.0 * rhs.0)
    }

    fn over(self, rhs: Self) -> Self {
        F(self.0 / rhs.0)
    }

    fn negated(self) -> Self {
        F(-self.0)
    }

    fn root(self) -> Self {
        F(self.0.sqrt())
    }

    fn at_most(self, rhs: Self) -> bool {
        self.0 <= rhs.0
    }

    fn from_usize(n: usize) -> Self {
        Self::of_usize(n)
    }

    fn add(self, rhs: Self) -> Self {
        self.plus(rhs)
    }

    fn sub(self, rhs: Self) -> Self {
        self.minus(rhs)
    }

    fn mul(self, rhs: Self) -> Self {
        self.times(rhs)
    }

    fn div(self, rhs: Self) -> Self {
        self.over(rhs)
    }

    fn neg(self) -> Self {
        self.negated()
    }

    fn sqrt(self) -> Self {
        self.root()
    }

    fn le(self, rhs: Self) -> bool {
        self.at_most(rhs)
    }

    fn mul_commutes(_a: Self, _b: Self) {}
}

fn grid<const M: usize, const N: usize>(a: &Array2D<F, M, N>) -> [[f64; N]; M] {
    let mut out = [[0.0f64; N]; M];
    for i in 0..M {
        for j in 0..N {
            out[i][j] = a.get(i, j).0;
        }
    }
    out
}

fn line<const N: usize>(a: &Array1D<F, N>) -> [f64; N] {
    let mut out = [0.0f64; N];
    for i in 0..N {
        out[i] = a.get(i).0;
    }
    out
}

#[test]
fn _2mm_check() {
    const NI: usize = 4;
    const NJ: usize = 5;
    const NK: usize = 6;
    const NL: usize = 7;
    let mut alpha = F(0.0);
    let mut beta = F(0.0);
    let mut a = Array2D::<F, NI, NK>::maybe_uninit();
    let mut b = Array2D::<F, NK, NJ>::maybe_uninit();
    let mut c = Array2D::<F, NJ, NL>::maybe_uninit();
    let mut d = Array2D::<F, NI, NL>::maybe_uninit();
    _2mm::init_array(&mut alpha, &mut beta, &mut a, &mut b, &mut c, &mut d);
    let (a, b, c, mut d) = (a.assume_init(), b.assume_init(), c.assume_init(), d.assume_init());
    let mut tmp = Array2D::<F, NI, NJ>::zeroed();

    let mut ra = [[0.0f64; NK]; NI];
    let mut rb = [[0.0f64; NJ]; NK];
    let mut rc = [[0.0f64; NL]; NJ];
    let mut rd = [[0.0f64; NL]; NI];
    for i in 0..NI {
        for j in 0..NK {
            ra[i][j] = ((i * j + 1) % NI) as f64 / NI as f64;
        }
    }
    for i in 0..NK {
        for j in 0..NJ {
            rb[i][j] = (i * (j + 1) % NJ) as f64 / NJ as f64;
        }
    }
    for i in 0..NJ {
        for j in 0..NL {
            rc[i][j] = ((i * (j + 3) + 1) % NL) as f64 / NL as f64;
        }
    }
    for i in 0..NI {
        for j in 0..NL {
            rd[i][j] = (i * (j + 2) % NK) as f64 / NK as f64;
        }
    }
    assert_eq!(grid(&a), ra);
    assert_eq!(grid(&b), rb);
    assert_eq!(grid(&c), rc);
    assert_eq!(grid(&d), rd);

    let mut rtmp = [[0.0f64; NJ]; NI];
    for i in 0..NI {
        for j in 0..NJ {
            rtmp[i][j] = 0.0;
            for k in 0..NK {
                rtmp[i][j] += 1.5 * ra[i][k] * rb[k][j];
            }
        }
    }
    for i in 0..NI {
        for j in 0..NL {
            rd[i][j] *= 1.2;
            for k in 0..NJ {
                rd[i][j] += rtmp[i][k] * rc[k][j];
            }
        }
    }
    _2mm::kernel_2mm(alpha, beta, &mut tmp, &a, &b, &c, &mut d);
    assert_eq!(grid(&tmp), rtmp);
    assert_eq!(grid(&d), rd);
}

#[test]
fn _3mm_check() {
    const NI: usize = 4;
    const NJ: usize = 5;
    const NK: usize = 6;
    const NL: usize = 7;
    const NM: usize = 3;
    let mut a = Array2D::<F, NI, NK>::maybe_uninit();
    let mut b = Array2D::<F, NK, NJ>::maybe_uninit();
    let mut c = Array2D::<F, NJ, NM>::maybe_uninit();
    let mut d = Array2D::<F, NM, NL>::maybe_uninit();
    _3mm::init_array::<F, NI, NJ, NK, NL, NM>(&mut a, &mut b, &mut c, &mut d);
    let (a, b, c, d) = (a.assume_init(), b.assume_init(), c.assume_init(), d.assume_init());
    let mut e = Array2D::<F, NI, NJ>::zeroed();
    let mut f = Array2D::<F, NJ, NL>::zeroed();
    let mut g = Array2D::<F, NI, NL>::zeroed();

    let mut ra = [[0.0f64; NK]; NI];
    let mut rb = [[0.0f64; NJ]; NK];
    let mut rc = [[0.0f64; NM]; NJ];
    let mut rd = [[0.0f64; NL]; NM];
    for i in 0..NI {
        for j in 0..NK {
            ra[i][j] = ((i * j + 1) % NI) as f64 / (5 * NI) as f64;
        }
    }
    for i in 0..NK {
        for j in 0..NJ {
            rb[i][j] = ((i * (j + 1) + 2) % NJ) as f64 / (5 * NJ) as f64;
        }
    }
    for i in 0..NJ {
        for j in 0..NM {
            rc[i][j] = (i * (j + 3) % NL) as f64 / (5 * NL) as f64;
        }
    }
    for i in 0..NM {
        for j in 0..NL {
            rd[i][j] = ((i * (j + 2) + 2) % NK) as f64 / (5 * NK) as f64;
        }
    }
    assert_eq!(grid(&a), ra);
    assert_eq!(grid(&b), rb);
    assert_eq!(grid(&c), rc);
    assert_eq!(grid(&d), rd);

    let mut re = [[0.0f64; NJ]; NI];
    let mut rf = [[0.0f64; NL]; NJ];
    let mut rg = [[0.0f64; NL]; NI];
    for i in 0..NI {
        for j in 0..NJ {
            re[i][j] = 0.0;
            for k in 0..NK {
                re[i][j] += ra[i][k] * rb[k][j];
            }
        }
    }
    for i in 0..NJ {
        for j in 0..NL {
            rf[i][j] = 0.0;
            for k in 0..NM {
                rf[i][j] += rc[i][k] * rd[k][j];
            }
        }
    }
    for i in 0..NI {
        for j in 0..NL {
            rg[i][j] = 0.0;
            for k in 0..NJ {
                rg[i][j] += re[i][k] * rf[k][j];
            }
        }
    }
    _3mm::kernel_3mm(&mut e, &a, &b, &mut f, &c, &d, &mut g);
    assert_eq!(grid(&e), re);
    assert_eq!(grid(&f), rf);
    assert_eq!(grid(&g), rg);
}

#[test]
fn multiply_on_integers() {
    let mut a = Array2D::<i64, 2, 3>::zeroed();
    let mut b = Array2D::<i64, 3, 2>::zeroed();
    let mut out = Array2D::<i64, 2, 2>::zeroed();
    out.set(0, 0, 99);
    let mut n = 0;
    for i in 0..2 {
        for j in 0..3 {
            n += 1;
            a.set(i, j, n);
            b.set(j, i, n + 6);
        }
    }
    _3mm::multiply(&mut out, &a, &b);
    assert_eq!(out.0[0].0, [7 + 16 + 27, 10 + 22 + 36]);
    assert_eq!(out.0[1].0, [28 + 40 + 54, 40 + 55 + 72]);
}

#[test]
fn atax_check() {
    const M: usize = 5;
    const N: usize = 6;
    let mut a = Array2D::<F, M, N>::maybe_uninit();
    let mut x = Array1D::<F, N>::maybe_uninit();
    atax::init_array(&mut a, &mut x);
    let (a, x) = (a.assume_init(), x.assume_init());
    let mut y = Array1D::<F, N>::zeroed();
    let mut tmp = Array1D::<F, M>::zeroed();

    let mut ra = [[0.0f64; N]; M];
    let mut rx = [0.0f64; N];
    let float_n = N as f64;
    for i in 0..N {
        rx[i] = 1.0 + (i as f64 / float_n);
    }
    for i in 0..M {
        for j in 0..N {
            ra[i][j] = ((i + j) % N) as f64 / (5 * M) as f64;
        }
    }
    assert_eq!(grid(&a), ra);
    assert_eq!(line(&x), rx);

    let mut ry = [7.0f64; N];
    let mut rtmp = [7.0f64; M];
    for i in 0..N {
        ry[i] = 0.0;
    }
    for i in 0..M {
        rtmp[i] = 0.0;
        for j in 0..N {
            rtmp[i] = rtmp[i] + ra[i][j] * rx[j];
        }
        for j in 0..N {
            ry[j] = ry[j] + ra[i][j] + rtmp[i];
        }
    }
    y.set(2, F(7.0));
    atax::kernel_atax(&a, &x, &mut y, &mut tmp);
    assert_eq!(line(&tmp), rtmp);
    assert_eq!(line(&y), ry);
}

#[test]
fn bicg_check() {
    const M: usize = 6;
    const N: usize = 5;
    let mut a = Array2D::<F, M, N>::maybe_uninit();
    let mut r = Array1D::<F, M>::maybe_uninit();
    let mut p = Array1D::<F, N>::maybe_uninit();
    bicg::init_array(&mut a, &mut r, &mut p);
    let (a, r, p) = (a.assume_init(), r.assume_init(), p.assume_init());
    let mut s = Array1D::<F, N>::zeroed();
    let mut q = Array1D::<F, M>::zeroed();

    let mut ra = [[0.0f64; N]; M];
    let mut rr = [0.0f64; M];
    let mut rp = [0.0f64; N];
    for i in 0..N {
        rp[i] = (i % N) as f64 / N as f64;
    }
    for i in 0..M {
        rr[i] = (i % M) as f64 / M as f64;
        for j in 0..N {
            ra[i][j] = (i * (j + 1) % M) as f64 / M as f64;
        }
    }
    assert_eq!(grid(&a), ra);
    assert_eq!(line(&r), rr);
    assert_eq!(line(&p), rp);

    let mut rs = [0.0f64; N];
    let mut rq = [0.0f64; M];
    for i in 0..N {
        rs[i] = 0.0;
    }
    for i in 0..M {
        rq[i] = 0.0;
        for j in 0..N {
            rs[j] = rs[j] + rr[i] * ra[i][j];
            rq[i] = rq[i] + ra[i][j] * rp[j];
        }
    }
    s.set(1, F(3.0));
    q.set(1, F(3.0));
    bicg::kernel_bicg(&a, &mut s, &mut q, &p, &r);
    assert_eq!(line(&s), rs);
    assert_eq!(line(&q), rq);
}

#[test]
fn doitgen_check() {
    const NP: usize = 4;
    const NQ: usize = 3;
    const NR: usize = 5;
    let mut a = Array3D::<F, NR, NQ, NP>::maybe_uninit();
    let mut c4 = Array2D::<F, NP, NP>::maybe_uninit();
    doitgen::init_array(&mut a, &mut c4);
    let (mut a, c4) = (a.assume_init(), c4.assume_init());
    let mut sum = Array1D::<F, NP>::zeroed();

    let mut ra = [[[0.0f64; NP]; NQ]; NR];
    let mut rc4 = [[0.0f64; NP]; NP];
    for i in 0..NR {
        for j in 0..NQ {
            for k in 0..NP {
                ra[i][j][k] = ((i * j + k) % NP) as f64 / NP as f64;
                assert_eq!(a.get(i, j, k).0, ra[i][j][k]);
            }
        }
    }
    for i in 0..NP {
        for j in 0..NP {
            rc4[i][j] = (i * j % NP) as f64 / NP as f64;
        }
    }
    assert_eq!(grid(&c4), rc4);

    let mut rsum = [0.0f64; NP];
    for r in 0..NR {
        for q in 0..NQ {
            for p in 0..NP {
                rsum[p] = 0.0;
                for s in 0..NP {
                    rsum[p] += ra[r][q][s] * rc4[s][p];
                }
            }
            for p in 0..NP {
                ra[r][q][p] = rsum[p];
            }
        }
    }
    doitgen::kernel_doitgen(&mut a, &c4, &mut sum);
    for i in 0..NR {
        for j in 0..NQ {
            for k in 0..NP {
                assert_eq!(a.get(i, j, k).0, ra[i][j][k]);
            }
        }
    }
    assert_eq!(line(&sum), rsum);
}

#[test]
fn mvt_check() {
    const N: usize = 7;
    let mut x1 = Array1D::<F, N>::maybe_uninit();
    let mut x2 = Array1D::<F, N>::maybe_uninit();
    let mut y_1 = Array1D::<F, N>::maybe_uninit();
    let mut y_2 = Array1D::<F, N>::maybe_uninit();
    let mut a = Array2D::<F, N, N>::maybe_uninit();
    mvt::init_array(&mut x1, &mut x2, &mut y_1, &mut y_2, &mut a);
    let (mut x1, mut x2) = (x1.assume_init(), x2.assume_init());
    let (y_1, y_2, a) = (y_1.assume_init(), y_2.assume_init(), a.assume_init());

    let mut rx1 = [0.0f64; N];
    let mut rx2 = [0.0f64; N];
    let mut ry1 = [0.0f64; N];
    let mut ry2 = [0.0f64; N];
    let mut ra = [[0.0f64; N]; N];
    for i in 0..N {
        rx1[i] = (i % N) as f64 / N as f64;
        rx2[i] = ((i + 1) % N) as f64 / N as f64;
        ry1[i] = ((i + 3) % N) as f64 / N as f64;
        ry2[i] = ((i + 4) % N) as f64 / N as f64;
        for j in 0..N {
            ra[i][j] = (i * j % N) as f64 / N as f64;
        }
    }
    assert_eq!(line(&x1), rx1);
    assert_eq!(line(&x2), rx2);
    assert_eq!(line(&y_1), ry1);
    assert_eq!(line(&y_2), ry2);
    assert_eq!(grid(&a), ra);

    for i in 0..N {
        for j in 0..N {
            rx1[i] = rx1[i] + ra[i][j] * ry1[j];
        }
    }
    for i in 0..N {
        for j in 0..N {
            rx2[i] = rx2[i] + ra[j][i] * ry2[j];
        }
    }
    mvt::kernel_mvt(&mut x1, &mut x2, &y_1, &y_2, &a);
    assert_eq!(line(&x1), rx1);
    assert_eq!(line(&x2), rx2);
}

#[test]
fn product_benches_report_the_clock_difference() {
    let clock = || 9;
    assert_eq!(_2mm::bench::<F, 3, 4, 5, 6, _>(&clock), Ok(Duration::from_nanos(0)));
    assert_eq!(_3mm::bench::<F, 3, 4, 5, 6, 2, _>(&clock), Ok(Duration::from_nanos(0)));
    assert_eq!(atax::bench::<F, 3, 4, _>(&clock), Ok(Duration::from_nanos(0)));
    assert_eq!(bicg::bench::<F, 3, 4, _>(&clock), Ok(Duration::from_nanos(0)));
    assert_eq!(doitgen::bench::<F, 3, 4, 5, _>(&clock), Ok(Duration::from_nanos(0)));
    assert_eq!(mvt::bench::<i64, 4, _>(&clock), Ok(Duration::from_nanos(0)));
}
