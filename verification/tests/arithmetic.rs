use dense_matrix::math::Matrix;
use dense_matrix::math::MatrixError;
use dense_matrix::math::Scalar;
use dense_matrix::random::RngBase;

#[derive(Clone, Copy, Debug, PartialEq)]
struct Real(f64);

impl Scalar for Real {
    fn zero_value() -> Real {
        Real(0.0)
    }

    fn sum(self, rhs: Real) -> Real {
        Real(self.0 + rhs.0)
    }

    fn difference(self, rhs: Real) -> Real {
        Real(self.0 - rhs.0)
    }

    fn product(self, rhs: Real) -> Real {
        Real(self.0 * rhs.0)
    }

    fn sum_commutes(_a: Real, _b: Real) {
    }

    fn zero() -> Real {
        Real::zero_value()
    }

    fn add(self, rhs: Real) -> Real {
        self.sum(rhs)
    }

    fn sub(self, rhs: Real) -> Real {
        self.difference(rhs)
    }

    fn mul(self, rhs: Real) -> Real {
        self.product(rhs)
    }
}

fn reals(values: &[f64]) -> Vec<Real> {
    values.iter().map(|v| Real(*v)).collect()
}

fn floats(values: &[Real]) -> Vec<f64> {
    values.iter().map(|v| v.0).collect()
}

#[test]
fn add_float() {
    let mut m: Matrix<Real> = Matrix::zeros(&[3, 3]).unwrap();
    m = m.add_scalar(Real(1.));
    m = Matrix::scalar_add(Real(2.), &m);
    assert_eq!(floats(m.data()), vec![3.; 9]);
}

#[test]
fn sub_float() {
    let mut m = Matrix::new(&reals(&[0., 1., 2., 3., 4., 5., 6., 7., 8.]), &[3, 3]).unwrap();
    m = m.sub_scalar(Real(1.));
    assert_eq!(floats(m.data()), &[-1., 0., 1., 2., 3., 4., 5., 6., 7.]);
}

#[test]
fn add_matrix() {
    let m1 = Matrix::new(&reals(&[0., 1., 2., 3., 4., 5., 6., 7., 8.]), &[3, 3]).unwrap();
    let m2 = Matrix::new(&reals(&[0., 1., 2., 3., 4., 5., 6., 7., 8.]), &[3, 3]).unwrap();
    let out = m1.add_matrix(&m2).unwrap();
    assert_eq!(floats(out.data()), &[0., 2., 4., 6., 8., 10., 12., 14., 16.]);
}

#[test]
fn add_matrix_ref() {
    let m1 = Matrix::new(&reals(&[0., 1., 2., 3., 4., 5., 6., 7., 8.]), &[3, 3]).unwrap();
    let m2 = Matrix::new(&reals(&[0., 1., 2., 3., 4., 5., 6., 7., 8.]), &[3, 3]).unwrap();
    let out = (&m1).add_matrix(&m2).unwrap();
    assert_eq!(floats(out.data()), &[0., 2., 4., 6., 8., 10., 12., 14., 16.]);
    assert_eq!(floats(m1.data()), &[0., 1., 2., 3., 4., 5., 6., 7., 8.]);
    assert_eq!(floats(m2.data()), &[0., 1., 2., 3., 4., 5., 6., 7., 8.]);
}

#[test]
#[should_panic]
fn panic_when_adding_matrix_of_diff_size() {
    let m1: Matrix<Real> = Matrix::zeros(&[1, 2]).unwrap();
    let m2: Matrix<Real> = Matrix::zeros(&[2, 3]).unwrap();
    let _ = m1.add_matrix(&m2).unwrap();
}

#[test]
fn adding_matrices_of_different_extent_is_refused() {
    let m: Matrix<Real> = Matrix::zeros(&[2, 3]).unwrap();
    let more_columns: Matrix<Real> = Matrix::zeros(&[2, 4]).unwrap();
    let more_rows: Matrix<Real> = Matrix::zeros(&[3, 3]).unwrap();
    let flipped: Matrix<Real> = Matrix::zeros(&[3, 2]).unwrap();
    for other in [&more_columns, &more_rows, &flipped] {
        assert_eq!(m.add_matrix(other).err(), Some(MatrixError::DimensionIncompatibility));
        assert_eq!(other.add_matrix(&m).err(), Some(MatrixError::DimensionIncompatibility));
    }
    let same: Matrix<Real> = Matrix::zeros(&[2, 3]).unwrap();
    assert!(m.add_matrix(&same).is_ok());
}

#[test]
fn a_scalar_is_added_alike_from_either_side() {
    let m = Matrix::new(&reals(&[0.1, -2.5, 1e300, 4., 0., -0.75]), &[2, 3]).unwrap();
    let right = m.add_scalar(Real(0.2));
    let left = Matrix::scalar_add(Real(0.2), &m);
    assert_eq!(right.data(), left.data());
    assert_eq!(right.dim().rows(), 2);
    assert_eq!(right.dim().columns(), 3);
    assert_eq!(floats(right.data()), vec![0.1 + 0.2, -2.5 + 0.2, 1e300 + 0.2, 4.2, 0.2, -0.75 + 0.2]);
}

#[test]
fn scalar_arithmetic_keeps_the_extent() {
    let m: Matrix<i64> = Matrix::new(&[1, 2, 3, 4, 5, 6], &[3, 2]).unwrap();
    let plus = m.add_scalar(10);
    let minus = m.sub_scalar(10);
    assert_eq!((plus.dim().rows(), plus.dim().columns()), (3, 2));
    assert_eq!((minus.dim().rows(), minus.dim().columns()), (3, 2));
    assert_eq!(plus.data(), &[11, 12, 13, 14, 15, 16]);
    assert_eq!(minus.data(), &[-9, -8, -7, -6, -5, -4]);
    assert_eq!(m.data(), &[1, 2, 3, 4, 5, 6]);
}

#[test]
fn adding_then_subtracting_a_scalar_recovers_the_matrix() {
    let mut rng = RngBase::from_seed(11);
    let cells: Vec<f64> = (0..24).map(|_| (rng.next() % 2001) as f64 / 10. - 100.).collect();
    let m = Matrix::new(&reals(&cells), &[4, 6]).unwrap();
    for s in [0., 1., -3.25, 1e-3, 12345.678] {
        let back = m.add_scalar(Real(s)).sub_scalar(Real(s));
        for (a, b) in floats(back.data()).iter().zip(cells.iter()) {
            assert!((a - b).abs() <= 1e-9 * (1. + b.abs().max(s.abs())), "{} {}", a, b);
        }
    }
}

#[test]
fn adding_then_subtracting_a_scalar_is_exact_over_wrapping_integers() {
    let m: Matrix<i64> = Matrix::new(&[i64::MAX, i64::MIN, 0, -1, 1, 42], &[2, 3]).unwrap();
    for s in [0, 1, -1, i64::MAX, i64::MIN, 99] {
        let back = m.add_scalar(s).sub_scalar(s);
        assert_eq!(back.data(), m.data());
    }
}

#[test]
fn integer_scalars_wrap() {
    assert_eq!(Scalar::add(i64::MAX, 1i64), i64::MIN);
    assert_eq!(Scalar::sub(i64::MIN, 1i64), i64::MAX);
    assert_eq!(Scalar::mul(i64::MAX, 2i64), -2);
    assert_eq!(<i64 as Scalar>::zero(), 0);
}

#[test]
fn matrix_addition_commutes() {
    let mut rng = RngBase::from_seed(3);
    let a: Vec<f64> = (0..12).map(|_| (rng.next() % 1000) as f64 / 7.).collect();
    let b: Vec<f64> = (0..12).map(|_| (rng.next() % 1000) as f64 / 13.).collect();
    let ma = Matrix::new(&reals(&a), &[3, 4]).unwrap();
    let mb = Matrix::new(&reals(&b), &[3, 4]).unwrap();
    let ab = ma.add_matrix(&mb).unwrap();
    let ba = mb.add_matrix(&ma).unwrap();
    assert_eq!(ab.data(), ba.data());
    assert_eq!((ab.dim().rows(), ab.dim().columns()), (3, 4));
    let ia: Matrix<i64> = Matrix::new(&[1, 2, 3, 4], &[2, 2]).unwrap();
    let ib: Matrix<i64> = Matrix::new(&[10, 20, 30, i64::MAX], &[2, 2]).unwrap();
    assert_eq!(ia.add_matrix(&ib).unwrap().data(), &[11, 22, 33, i64::MIN + 3]);
    assert_eq!(ib.add_matrix(&ia).unwrap().data(), &[11, 22, 33, i64::MIN + 3]);
}
