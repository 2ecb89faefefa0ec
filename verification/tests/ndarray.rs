use core::mem::size_of;
use polybench_rs::ndarray::{Array1D, Array2D, Array3D, ArrayAlloc};
use polybench_rs::scalar::{Scalar, Zero};

/// Double precision floating point as an element type.
#[derive(Clone, Copy, Debug, PartialEq)]
struct F(f64);

impl Zero for F {
    fn zero_value() -> Self {
        F(0.0)
    }

    fn zero() -> Self {
        Self::zero_value()
    }
}

impl Scalar for F {
    fn of_usize(n: usize) -> Self {
        F(n as f64)
    }

    fn plus(self, rhs: Self) -> Self {
        F(self.0 + rhs.0)
    }

    fn minus(self, rhs: Self) -> Self {
        F(self.0 - rhs.0)
    }

    fn times(self, rhs: Self) -> Self {
        F(self.0 * rhs.0)
    }

    fn over(self, rhs: Self) -> Self {
        F(self.0 / rhs.0)
    }

    fn negated(self) -> Self {
        F(-self.0)
    }

    fn root(self) -> Self {
        F(self.0.sqrt())
    }

    fn at_most(self, rhs: Self) -> bool {
        self.0 <= rhs.0
    }

    fn from_usize(n: usize) -> Self {
        Self::of_usize(n)
    }

    fn add(self, rhs: Self) -> Self {
        self.plus(rhs)
    }

    fn sub(self, rhs: Self) -> Self {
        self.minus(rhs)
    }

    fn mul(self, rhs: Self) -> Self {
        self.times(rhs)
    }

    fn div(self, rhs: Self) -> Self {
        self.over(rhs)
    }

    fn neg(self) -> Self {
        self.negated()
    }

    fn sqrt(self) -> Self {
        self.root()
    }

    fn le(self, rhs: Self) -> bool {
        self.at_most(rhs)
    }

    fn mul_commutes(_a: Self, _b: Self) {}
}

#[test]
fn check_array_sizes() {
    assert_eq!(1024, size_of::<Array1D<u8, 1024>>());
    assert_eq!(8388608, size_of::<Array2D<f64, 1024, 1024>>());
    assert_eq!(67108864, size_of::<Array3D<f32, 256, 256, 256>>());
}

#[test]
fn element_count_is_the_product_of_the_extents() {
    assert_eq!(size_of::<Array1D<u8, 7>>(), 7);
    assert_eq!(size_of::<Array2D<u8, 3, 5>>(), 15);
    assert_eq!(size_of::<Array3D<u8, 2, 3, 4>>(), 24);
    assert_eq!(size_of::<Array3D<i64, 2, 3, 4>>(), 24 * 8);
    let a = Array3D::<i64, 2, 3, 4>::zeroed();
    assert_eq!(a.0.len(), 2);
    assert_eq!(a.0[0].0.len(), 3);
    assert_eq!(a.0[0].0[0].0.len(), 4);
}

#[test]
fn zeroed_arrays_hold_zeros() {
    let a = Array1D::<i64, 5>::maybe_uninit_zeroed();
    let b = Array2D::<i32, 2, 3>::zeroed();
    let c = Array3D::<i8, 2, 2, 2>::maybe_uninit_zeroed();
    let d = Array2D::<F, 2, 2>::zeroed();
    for i in 0..5 {
        assert_eq!(*a.get(i), 0);
    }
    for i in 0..2 {
        for j in 0..3 {
            assert_eq!(*b.get(i, j), 0);
        }
        for j in 0..2 {
            assert_eq!(*d.get(i, j), F(0.0));
            for k in 0..2 {
                assert_eq!(*c.get(i, j, k), 0);
            }
        }
    }
}

#[test]
fn set_then_get_reads_what_was_written() {
    let mut a = Array1D::<i64, 3>::zeroed();
    a.set(1, 7);
    assert_eq!((*a.get(0), *a.get(1), *a.get(2)), (0, 7, 0));
    let mut b = Array2D::<i64, 2, 3>::zeroed();
    b.set(1, 2, 9);
    b.set(0, 1, 4);
    assert_eq!(*b.get(1, 2), 9);
    assert_eq!(*b.get(0, 1), 4);
    assert_eq!(*b.get(1, 1), 0);
    let mut c = Array3D::<i64, 2, 2, 2>::zeroed();
    c.set(1, 0, 1, 5);
    assert_eq!(*c.get(1, 0, 1), 5);
    assert_eq!(*c.get(0, 0, 1), 0);
    assert_eq!(*c.get(1, 1, 1), 0);
}

#[test]
fn pending_array_becomes_the_array_once_every_cell_is_written() {
    let mut p = Array2D::<i64, 2, 2>::maybe_uninit();
    p.write(0, 0, 1);
    p.write(0, 1, 2);
    p.write(1, 0, 3);
    p.write(1, 1, 4);
    p.write(1, 1, 5);
    let a = p.assume_init();
    assert_eq!(a.0[0].0, [1, 2]);
    assert_eq!(a.0[1].0, [3, 5]);
}

#[test]
fn fill_with_writes_every_cell_from_its_indices() {
    let mut p = Array1D::<i64, 4>::maybe_uninit();
    p.fill_with(|i| (i * i) as i64);
    assert_eq!(p.assume_init().0, [0, 1, 4, 9]);
    let mut q = Array2D::<i64, 2, 3>::maybe_uninit();
    q.fill_with(|i, j| (10 * i + j) as i64);
    let q = q.assume_init();
    assert_eq!(q.0[0].0, [0, 1, 2]);
    assert_eq!(q.0[1].0, [10, 11, 12]);
    let mut r = Array3D::<i64, 2, 2, 2>::maybe_uninit();
    r.fill_with(|i, j, k| (100 * i + 10 * j + k) as i64);
    let r = r.assume_init();
    assert_eq!(*r.get(1, 0, 1), 101);
    assert_eq!(*r.get(0, 1, 0), 10);
    assert_eq!(*r.get(1, 1, 1), 111);
}

#[test]
fn gram_of_an_integer_matrix() {
    let mut a = Array2D::<i64, 2, 2>::zeroed();
    a.set(0, 0, 1);
    a.set(0, 1, 2);
    a.set(1, 0, 3);
    a.set(1, 1, 4);
    a.make_positive_semi_definite();
    assert_eq!(a.0[0].0, [5, 11]);
    assert_eq!(a.0[1].0, [11, 25]);
}

#[test]
fn gram_of_a_float_matrix_is_symmetric_and_positive_semi_definite() {
    const N: usize = 4;
    let mut a = Array2D::<F, N, N>::maybe_uninit_zeroed();
    let mut raw = [[0.0f64; N]; N];
    let mut n = 1.0f64;
    for i in 0..N {
        for j in 0..N {
            raw[i][j] = (n * 0.37).sin();
            a.set(i, j, F(raw[i][j]));
            n += 1.0;
        }
    }
    a.make_positive_semi_definite();
    for r in 0..N {
        for s in 0..N {
            let mut want = 0.0f64;
            for t in 0..N {
                want += raw[r][t] * raw[s][t];
            }
            assert_eq!(a.get(r, s).0, want);
            assert_eq!(a.get(r, s).0, a.get(s, r).0);
        }
    }
    for v in [[1.0, 0.0, 0.0, 0.0], [1.0, -1.0, 1.0, -1.0], [0.3, 2.0, -5.0, 0.1], [-2.0, 0.5, 0.5, 7.0]] {
        let mut form = 0.0f64;
        for i in 0..N {
            for j in 0..N {
                form += v[i] * a.get(i, j).0 * v[j];
            }
        }
        assert!(form >= -1e-12);
    }
}

#[test]
fn gram_of_an_integer_matrix_has_a_quadratic_form_that_is_not_negative() {
    const N: usize = 3;
    let mut a = Array2D::<i64, N, N>::zeroed();
    let raw = [[2i64, -7, 1], [0, 3, -5], [-4, 4, 6]];
    for i in 0..N {
        for j in 0..N {
            a.set(i, j, raw[i][j]);
        }
    }
    a.make_positive_semi_definite();
    assert_eq!(a.0[0].0, [54, -26, -30]);
    assert_eq!(a.0[1].0, [-26, 34, -18]);
    assert_eq!(a.0[2].0, [-30, -18, 68]);
    for v in [[1i64, 0, 0], [1, 1, 1], [-3, 5, 2], [7, 7, -9], [0, 0, 0], [1, 1, 0]] {
        let mut form = 0i64;
        let mut squares = 0i64;
        for i in 0..N {
            for j in 0..N {
                form += v[i] * a.get(i, j) * v[j];
            }
        }
        for t in 0..N {
            let mut c = 0i64;
            for i in 0..N {
                c += v[i] * raw[i][t];
            }
            squares += c * c;
        }
        assert!(form >= 0);
        assert_eq!(form, squares);
    }
}
