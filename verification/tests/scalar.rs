use polybench_rs::scalar::{integer_sqrt, ratio, Scalar, Zero};

#[test]
fn integer_sqrt_is_the_integer_part() {
    assert_eq!(integer_sqrt(0), 0);
    assert_eq!(integer_sqrt(1), 1);
    assert_eq!(integer_sqrt(3), 1);
    assert_eq!(integer_sqrt(4), 2);
    assert_eq!(integer_sqrt(99), 9);
    assert_eq!(integer_sqrt(100), 10);
    assert_eq!(integer_sqrt(i64::MAX), 3037000499);
    assert_eq!(integer_sqrt(3037000499 * 3037000499), 3037000499);
    assert_eq!(integer_sqrt(3037000499 * 3037000499 - 1), 3037000498);
}

#[test]
fn integer_sqrt_of_a_negative_number_is_zero() {
    assert_eq!(integer_sqrt(-1), 0);
    assert_eq!(integer_sqrt(i64::MIN), 0);
}

#[test]
fn integer_sqrt_brackets_its_argument() {
    for x in 0..2000i64 {
        let r = integer_sqrt(x);
        assert!(r * r <= x && x < (r + 1) * (r + 1));
    }
}

#[test]
fn integers_wrap() {
    assert_eq!(Scalar::add(i64::MAX, 1), i64::MIN);
    assert_eq!(Scalar::sub(i64::MIN, 1), i64::MAX);
    assert_eq!(Scalar::mul(i64::MAX, 2), -2);
    assert_eq!(Scalar::neg(i64::MIN), i64::MIN);
    assert_eq!(Scalar::neg(5i64), -5);
    assert_eq!(Scalar::add(2i64, 3), 5);
    assert_eq!(Scalar::sub(2i64, 3), -1);
    assert_eq!(Scalar::mul(-4i64, 3), -12);
}

#[test]
fn integer_division_is_total() {
    assert_eq!(Scalar::div(7i64, 2), 3);
    assert_eq!(Scalar::div(-7i64, 2), -3);
    assert_eq!(Scalar::div(7i64, -2), -3);
    assert_eq!(Scalar::div(7i64, 0), 0);
    assert_eq!(Scalar::div(i64::MIN, -1), 0);
}

#[test]
fn integer_order_and_conversion() {
    assert!(Scalar::le(3i64, 3));
    assert!(Scalar::le(-3i64, 3));
    assert!(!Scalar::le(4i64, 3));
    assert_eq!(<i64 as Scalar>::from_usize(12), 12);
    assert_eq!(<i64 as Scalar>::sqrt(17), 4);
}

#[test]
fn zero_is_zero() {
    assert_eq!(<i8 as Zero>::zero(), 0);
    assert_eq!(<i32 as Zero>::zero(), 0);
    assert_eq!(<i64 as Zero>::zero(), 0);
}

#[test]
fn ratio_divides_as_the_element_type_does() {
    assert_eq!(ratio::<i64>(7, 2), 3);
    assert_eq!(ratio::<i64>(3, 2), 1);
    assert_eq!(ratio::<i64>(1, 0), 0);
}

#[test]
fn integer_multiplication_commutes() {
    for (a, b) in [(3i64, 5i64), (i64::MAX, 7), (-9, i64::MIN), (0, 4)] {
        assert_eq!(Scalar::mul(a, b), Scalar::mul(b, a));
    }
}
