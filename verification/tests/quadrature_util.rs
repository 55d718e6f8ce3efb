use ngdl_rust::definitions::{Point2D, SampleableFunction};
use ngdl_rust::scalar::{Elementary, Scalar};

/// Double precision numbers as the scalars of the library.
#[derive(Clone, Copy, Debug, PartialEq, PartialOrd)]
pub struct Real(pub f64);

impl Scalar for Real {
    fn plus_spec(self, rhs: Self) -> Self {
        self.plus(rhs)
    }
    fn minus_spec(self, rhs: Self) -> Self {
        self.minus(rhs)
    }
    fn times_spec(self, rhs: Self) -> Self {
        self.times(rhs)
    }
    fn over_spec(self, rhs: Self) -> Self {
        self.over(rhs)
    }
    fn abs_spec(self) -> Self {
        self.abs()
    }
    fn neg_spec(self) -> Self {
        self.neg()
    }
    fn lt_spec(self, rhs: Self) -> bool {
        self.lt(rhs)
    }
    fn le_spec(self, rhs: Self) -> bool {
        self.le(rhs)
    }
    fn ratio_spec(num: i64, den: i64) -> Self {
        Self::ratio(num, den)
    }
    fn count_spec(n: usize) -> Self {
        Self::count(n)
    }
    fn ceil_spec(self) -> usize {
        self.ceil()
    }
    fn plus(self, rhs: Self) -> Self {
        Real(self.0 + rhs.0)
    }
    fn minus(self, rhs: Self) -> Self {
        Real(self.0 - rhs.0)
    }
    fn times(self, rhs: Self) -> Self {
        Real(self.0 * rhs.0)
    }
    fn over(self, rhs: Self) -> Self {
        Real(self.0 / rhs.0)
    }
    fn abs(self) -> Self {
        Real(self.0.abs())
    }
    fn neg(self) -> Self {
        Real(-self.0)
    }
    fn lt(self, rhs: Self) -> bool {
        self.0 < rhs.0
    }
    fn le(self, rhs: Self) -> bool {
        self.0 <= rhs.0
    }
    fn ratio(num: i64, den: i64) -> Self {
        Real(num as f64 / den as f64)
    }
    fn count(n: usize) -> Self {
        Real(n as f64)
    }
    fn ceil(self) -> usize {
        self.0.ceil() as usize
    }
}

impl Elementary for Real {
    fn powf_spec(self, exponent: Self) -> Self {
        self.powf(exponent)
    }
    fn powi_spec(self, exponent: i32) -> Self {
        self.powi(exponent)
    }
    fn sqrt_spec(self) -> Self {
        self.sqrt()
    }
    fn ln_spec(self) -> Self {
        self.ln()
    }
    fn exp_spec(self) -> Self {
        self.exp()
    }
    fn cos_spec(self) -> Self {
        self.cos()
    }
    fn powf(self, exponent: Self) -> Self {
        Real(self.0.powf(exponent.0))
    }
    fn powi(self, exponent: i32) -> Self {
        Real(self.0.powi(exponent))
    }
    fn sqrt(self) -> Self {
        Real(self.0.sqrt())
    }
    fn ln(self) -> Self {
        Real(self.0.ln())
    }
    fn exp(self) -> Self {
        Real(std::f64::consts::E.powf(self.0))
    }
    fn cos(self) -> Self {
        Real(self.0.cos())
    }
}

/// A right-hand side of a system, given by a plain function.
#[derive(Clone, Copy)]
pub struct System(pub fn(f64, &[f64]) -> f64);

impl SampleableFunction<(Real, Vec<Real>), Real> for System {
    fn accepts(&self, _input: (Real, Vec<Real>)) -> bool {
        true
    }
    fn value_spec(&self, input: (Real, Vec<Real>)) -> Real {
        self.value_at(input)
    }
    fn value_at(&self, input: (Real, Vec<Real>)) -> Real {
        let state: Vec<f64> = input.1.iter().map(|v| v.0).collect();
        Real((self.0)(input.0 .0, &state))
    }
}

/// A function of a time and a value, given by a plain function.
#[derive(Clone, Copy)]
pub struct Plain2D(pub fn(f64, f64) -> f64);

impl SampleableFunction<(Real, Real), Real> for Plain2D {
    fn accepts(&self, _input: (Real, Real)) -> bool {
        true
    }
    fn value_spec(&self, input: (Real, Real)) -> Real {
        self.value_at(input)
    }
    fn value_at(&self, input: (Real, Real)) -> Real {
        Real((self.0)(input.0 .0, input.1 .0))
    }
}

/// A function of one number, given by a plain function.
#[derive(Clone, Copy)]
pub struct Plain1D(pub fn(f64) -> f64);

impl SampleableFunction<Real, Real> for Plain1D {
    fn accepts(&self, _input: Real) -> bool {
        true
    }
    fn value_spec(&self, input: Real) -> Real {
        self.value_at(input)
    }
    fn value_at(&self, input: Real) -> Real {
        Real((self.0)(input.0))
    }
}

#[allow(dead_code)]
fn reals(values: &[f64]) -> Vec<Real> {
    values.iter().map(|v| Real(*v)).collect()
}

#[allow(dead_code)]
fn floats(values: &[Real]) -> Vec<f64> {
    values.iter().map(|v| v.0).collect()
}

#[allow(dead_code)]
fn close(a: f64, b: f64, tolerance: f64) -> bool {
    (a - b).abs() <= tolerance
}

#[allow(dead_code)]
fn pair(point: &Point2D<Real>) -> (f64, f64) {
    (point.x.0, point.y.0)
}

use ngdl_rust::definitions::{BoundaryValueProblem, Interval};
use ngdl_rust::finite_differences_method::{assemble_bvp, difference_matrix};
use ngdl_rust::quadrature::{
    quadrature, quadrature_test_run, KeplerFormula, NewtonThreeEightFormula, QuadratureFormula,
    TrapezoidFormula,
};
use ngdl_rust::stability_area::sample_stability_area;
use ngdl_rust::util::{
    euclidean_norm, get_all_convergence_orders, get_convergence_order, make_supporting_points,
    make_zero_vec, sample_function, sample_function_generic, sse, sum,
};

fn interval(start: f64, end: f64) -> Interval<Real> {
    Interval::new(Real(start), Real(end))
}

#[test]
fn interval_bounds_and_span() {
    let i = interval(1.0, 10.0);
    assert_eq!(i.start(), Real(1.0));
    assert_eq!(i.end(), Real(10.0));
    assert_eq!(i.span(), Real(9.0));
    let reversed = interval(10.0, 1.0);
    assert_eq!(reversed.start(), Real(10.0));
    assert_eq!(reversed.span(), Real(9.0));
    assert_eq!(interval(2.0, 2.0).span(), Real(0.0));
}

#[test]
fn supporting_points() {
    let points = make_supporting_points(4, interval(1.0, 3.0));
    assert_eq!(floats(&points), vec![1.0, 1.5, 2.0, 2.5, 3.0]);
    let points = make_supporting_points(3, interval(0.0, 1.0));
    assert_eq!(floats(&points), vec![0.0, 1.0 / 3.0, 2.0 * (1.0 / 3.0), 1.0]);
    // the width is the absolute distance of the bounds
    let points = make_supporting_points(2, interval(3.0, 1.0));
    assert_eq!(floats(&points), vec![3.0, 4.0, 1.0]);
    let points = make_supporting_points(0, interval(3.0, 1.0));
    assert_eq!(floats(&points), vec![1.0]);
}

#[test]
fn zero_vector() {
    assert_eq!(floats(&make_zero_vec::<Real>(3)), vec![0.0, 0.0, 0.0]);
    assert!(make_zero_vec::<Real>(0).is_empty());
}

#[test]
fn sums_and_norms() {
    assert_eq!(sum(&reals(&[1.0, 2.5, -0.5])), Real(3.0));
    assert_eq!(sum(&reals(&[])), Real(0.0));
    assert_eq!(euclidean_norm(reals(&[3.0, 4.0])), Real(5.0));
    assert_eq!(euclidean_norm(reals(&[])), Real(0.0));
    let a = vec![Point2D::new(Real(0.0), Real(1.0)), Point2D::new(Real(1.0), Real(3.0))];
    let b = vec![Point2D::new(Real(0.5), Real(1.0)), Point2D::new(Real(1.0), Real(1.0)), Point2D::new(Real(9.0), Real(9.0))];
    assert_eq!(sse(&a, &b), Real(0.25 + 4.0));
}

#[test]
fn convergence_orders() {
    let hs = reals(&[0.5, 0.25, 0.125]);
    let errors = reals(&[0.04, 0.01, 0.0025]);
    let orders = get_all_convergence_orders(&errors, &hs);
    assert_eq!(orders.len(), 2);
    assert!(close(orders[0].0, 2.0, 1e-12));
    assert!(close(orders[1].0, 2.0, 1e-12));
    assert!(close(get_convergence_order(&errors, &hs).0, 2.0, 1e-12));
    assert_eq!(get_all_convergence_orders(&errors[..1], &hs).len(), 0);
    assert_eq!(get_all_convergence_orders(&reals(&[]), &hs).len(), 0);
    assert_eq!(get_all_convergence_orders(&errors, &hs[..2]).len(), 1);
}

#[test]
fn samples_of_functions() {
    let points = sample_function(&Plain1D(|x| x * x), interval(0.0, 2.0), 4);
    let pairs: Vec<(f64, f64)> = points.iter().map(pair).collect();
    assert_eq!(pairs, vec![(0.0, 0.0), (0.5, 0.25), (1.0, 1.0), (1.5, 2.25), (2.0, 4.0)]);
    let values = sample_function_generic(&Plain1D(|x| x + 1.0), interval(0.0, 1.0), 2);
    assert_eq!(floats(&values), vec![1.0, 1.5, 2.0]);
}

#[test]
fn formulas_on_one_interval() {
    let square = Plain1D(|x| x * x);
    let i = interval(1.0, 3.0);
    assert_eq!(TrapezoidFormula.apply(&square, &i), Real((2.0 / 2.0) * (1.0 + 9.0)));
    assert_eq!(KeplerFormula.apply(&square, &i), Real((2.0 / 6.0) * (1.0 + 4.0 * 4.0 + 9.0)));
    let mid1 = 1.0 + (1.0 / 3.0) * 2.0;
    let mid2 = 1.0 + (2.0 / 3.0) * 2.0;
    assert_eq!(
        NewtonThreeEightFormula.apply(&square, &i),
        Real((2.0 / 8.0) * (1.0 + 3.0 * (mid1 * mid1) + 3.0 * (mid2 * mid2) + 9.0))
    );
}

#[test]
fn quadrature_of_polynomials() {
    let line = Plain1D(|x| x);
    let cubic = Plain1D(|x| x * x * x);
    assert!(close(quadrature(&TrapezoidFormula, &line, interval(0.0, 1.0), 7).0, 0.5, 1e-15));
    assert!(close(quadrature(&KeplerFormula, &cubic, interval(0.0, 2.0), 3).0, 4.0, 1e-14));
    assert!(close(quadrature(&NewtonThreeEightFormula, &cubic, interval(0.0, 2.0), 3).0, 4.0, 1e-14));
    assert!(!close(quadrature(&TrapezoidFormula, &cubic, interval(0.0, 2.0), 3).0, 4.0, 1e-3));
    // without parts there is nothing to add up
    assert_eq!(quadrature(&TrapezoidFormula, &line, interval(0.0, 1.0), 0), Real(0.0));
}

#[test]
fn quadrature_runs_show_the_order() {
    let f = Plain1D(|x| x.ln());
    let exact = 10.0 * (10.0f64).ln() - 9.0;
    let runs = quadrature_test_run(&TrapezoidFormula, f, Real(exact), interval(1.0, 10.0), 200);
    assert_eq!(runs.len(), 200);
    for (i, run) in runs.iter().enumerate() {
        assert_eq!(run.splits_n, i + 1);
        assert_eq!(run.h, Real(9.0 / (i + 1) as f64));
        assert_eq!(run.abs_error, Real((exact - run.value.0).abs()));
    }
    assert_eq!(runs[6].value, quadrature(&TrapezoidFormula, &f, interval(1.0, 10.0), 7));
    let order = ngdl_rust::quadrature::get_convergence_order(&runs[198], &runs[199]);
    assert!(close(order.0, 2.0, 0.01));
    let runs = quadrature_test_run(&KeplerFormula, f, Real(exact), interval(1.0, 10.0), 40);
    let order = ngdl_rust::quadrature::get_convergence_order(&runs[38], &runs[39]);
    assert!(close(order.0, 4.0, 0.1));
    assert!(quadrature_test_run(&KeplerFormula, f, Real(exact), interval(1.0, 10.0), 0).is_empty());
}

#[test]
fn matrix_of_second_differences() {
    let matrix = difference_matrix::<Real>(3);
    assert_eq!(floats(&matrix), vec![-2.0, 1.0, 0.0, 1.0, -2.0, 1.0, 0.0, 1.0, -2.0]);
    assert_eq!(floats(&difference_matrix::<Real>(1)), vec![-2.0]);
    assert!(difference_matrix::<Real>(0).is_empty());
}

#[test]
fn system_of_a_boundary_value_problem() {
    let problem = BoundaryValueProblem::new(Plain1D(|x| 6.0 * x), interval(0.0, 1.0), Real(2.0), Real(5.0));
    let system = assemble_bvp(problem, 3);
    let h = 1.0 / (3.0 + 1.0);
    let expected = vec![
        6.0 * (0.0 + 1.0 * h) * h * h - 2.0,
        6.0 * (0.0 + 2.0 * h) * h * h,
        6.0 * (0.0 + 3.0 * h) * h * h - 5.0,
    ];
    assert_eq!(floats(&system.right_side), expected);
    assert_eq!(system.matrix.len(), 9);
    let one = assemble_bvp(problem, 1);
    assert_eq!(floats(&one.right_side), vec![6.0 * 0.5 * 0.5 * 0.5 - 2.0 - 5.0]);
}

#[test]
fn stability_area_of_the_explicit_euler_method() {
    // |1 + z| <= 1
    let f = Plain2D(|re, im| ((1.0 + re) * (1.0 + re) + im * im).sqrt());
    let points = sample_stability_area(f, 4, interval(-2.0, 0.0), interval(-1.0, 1.0));
    let pairs: Vec<(f64, f64)> = points.iter().map(pair).collect();
    assert_eq!(
        pairs,
        vec![(-2.0, 0.0), (-1.5, -0.5), (-1.5, 0.0), (-1.5, 0.5), (-1.0, -1.0), (-1.0, -0.5), (-1.0, 0.0),
            (-1.0, 0.5), (-1.0, 1.0), (-0.5, -0.5), (-0.5, 0.0), (-0.5, 0.5), (0.0, 0.0)]
    );
    let none = sample_stability_area(Plain2D(|_, _| 2.0), 4, interval(-2.0, 0.0), interval(-1.0, 1.0));
    assert!(none.is_empty());
    let all = sample_stability_area(Plain2D(|_, _| 1.0), 4, interval(-2.0, 0.0), interval(-1.0, 1.0));
    assert_eq!(all.len(), 25);
}
