use ngdl_rust::definitions::{Point2D, SampleableFunction};
use ngdl_rust::scalar::{Elementary, Scalar};

/// Double precision numbers as the scalars of the library.
#[derive(Clone, Copy, Debug, PartialEq, PartialOrd)]
pub struct Real(pub f64);

impl Scalar for Real {
    fn plus_spec(self, rhs: Self) -> Self {
        self.plus(rhs)
    }
    fn minus_spec(self, rhs: Self) -> Self {
        self.minus(rhs)
    }
    fn times_spec(self, rhs: Self) -> Self {
        self.times(rhs)
    }
    fn over_spec(self, rhs: Self) -> Self {
        self.over(rhs)
    }
    fn abs_spec(self) -> Self {
        self.abs()
    }
    fn neg_spec(self) -> Self {
        self.neg()
    }
    fn lt_spec(self, rhs: Self) -> bool {
        self.lt(rhs)
    }
    fn le_spec(self, rhs: Self) -> bool {
        self.le(rhs)
    }
    fn ratio_spec(num: i64, den: i64) -> Self {
        Self::ratio(num, den)
    }
    fn count_spec(n: usize) -> Self {
        Self::count(n)
    }
    fn ceil_spec(self) -> usize {
        self.ceil()
    }
    fn plus(self, rhs: Self) -> Self {
        Real(self.0 + rhs.0)
    }
    fn minus(self, rhs: Self) -> Self {
        Real(self.0 - rhs.0)
    }
    fn times(self, rhs: Self) -> Self {
        Real(self.0 * rhs.0)
    }
    fn over(self, rhs: Self) -> Self {
        Real(self.0 / rhs.0)
    }
    fn abs(self) -> Self {
        Real(self.0.abs())
    }
    fn neg(self) -> Self {
        Real(-self.0)
    }
    fn lt(self, rhs: Self) -> bool {
        self.0 < rhs.0
    }
    fn le(self, rhs: Self) -> bool {
        self.0 <= rhs.0
    }
    fn ratio(num: i64, den: i64) -> Self {
        Real(num as f64 / den as f64)
    }
    fn count(n: usize) -> Self {
        Real(n as f64)
    }
    fn ceil(self) -> usize {
        self.0.ceil() as usize
    }
}

impl Elementary for Real {
    fn powf_spec(self, exponent: Self) -> Self {
        self.powf(exponent)
    }
    fn powi_spec(self, exponent: i32) -> Self {
        self.powi(exponent)
    }
    fn sqrt_spec(self) -> Self {
        self.sqrt()
    }
    fn ln_spec(self) -> Self {
        self.ln()
    }
    fn exp_spec(self) -> Self {
        self.exp()
    }
    fn cos_spec(self) -> Self {
        self.cos()
    }
    fn powf(self, exponent: Self) -> Self {
        Real(self.0.powf(exponent.0))
    }
    fn powi(self, exponent: i32) -> Self {
        Real(self.0.powi(exponent))
    }
    fn sqrt(self) -> Self {
        Real(self.0.sqrt())
    }
    fn ln(self) -> Self {
        Real(self.0.ln())
    }
    fn exp(self) -> Self {
        Real(std::f64::consts::E.powf(self.0))
    }
    fn cos(self) -> Self {
        Real(self.0.cos())
    }
}

/// A right-hand side of a system, given by a plain function.
#[derive(Clone, Copy)]
pub struct System(pub fn(f64, &[f64]) -> f64);

impl SampleableFunction<(Real, Vec<Real>), Real> for System {
    fn accepts(&self, _input: (Real, Vec<Real>)) -> bool {
        true
    }
    fn value_spec(&self, input: (Real, Vec<Real>)) -> Real {
        self.value_at(input)
    }
    fn value_at(&self, input: (Real, Vec<Real>)) -> Real {
        let state: Vec<f64> = input.1.iter().map(|v| v.0).collect();
        Real((self.0)(input.0 .0, &state))
    }
}

/// A function of a time and a value, given by a plain function.
#[derive(Clone, Copy)]
pub struct Plain2D(pub fn(f64, f64) -> f64);

impl SampleableFunction<(Real, Real), Real> for Plain2D {
    fn accepts(&self, _input: (Real, Real)) -> bool {
        true
    }
    fn value_spec(&self, input: (Real, Real)) -> Real {
        self.value_at(input)
    }
    fn value_at(&self, input: (Real, Real)) -> Real {
        Real((self.0)(input.0 .0, input.1 .0))
    }
}

/// A function of one number, given by a plain function.
#[derive(Clone, Copy)]
pub struct Plain1D(pub fn(f64) -> f64);

impl SampleableFunction<Real, Real> for Plain1D {
    fn accepts(&self, _input: Real) -> bool {
        true
    }
    fn value_spec(&self, input: Real) -> Real {
        self.value_at(input)
    }
    fn value_at(&self, input: Real) -> Real {
        Real((self.0)(input.0))
    }
}

#[allow(dead_code)]
fn reals(values: &[f64]) -> Vec<Real> {
    values.iter().map(|v| Real(*v)).collect()
}

#[allow(dead_code)]
fn floats(values: &[Real]) -> Vec<f64> {
    values.iter().map(|v| v.0).collect()
}

#[allow(dead_code)]
fn close(a: f64, b: f64, tolerance: f64) -> bool {
    (a - b).abs() <= tolerance
}

#[allow(dead_code)]
fn pair(point: &Point2D<Real>) -> (f64, f64) {
    (point.x.0, point.y.0)
}

use ngdl_rust::definitions::{
    ClosureDifferentiableFunction, ClosureSampleableFunction, ComposeSampleableFunction,
    DifferentiableFunction, InitialValueProblem, Interval, MultSampleableFunction, PointwiseAdd,
    PointwiseSub, SampleableVectorFunction, SampledDerivative, ScalarMul,
    SimpleDifferentiableFunction, SubSampleableFunction,
};
use ngdl_rust::euler_explicit::{
    explicit_euler, explicit_euler_interval, explicit_euler_interval_test_run,
    explicit_euler_system_interval, explicit_euler_test_run, get_residual_function,
};
use ngdl_rust::implicit_euler::{
    implicit_euler, implicit_euler_interval, implicit_euler_interval_test_run,
};
use ngdl_rust::modified_explicit_euler::{modified_explicit_euler, modified_explicit_euler_interval};
use ngdl_rust::newton_method::newton_method;
use ngdl_rust::scalar::{larger, smaller, zero};
use ngdl_rust::util::sample_closure;

/// A function of a point and a factor, given by a plain function.
#[derive(Clone, Copy)]
struct Scaled(fn(f64) -> f64);

impl SampleableFunction<(Real, Real), Real> for Scaled {
    fn accepts(&self, _input: (Real, Real)) -> bool {
        true
    }
    fn value_spec(&self, input: (Real, Real)) -> Real {
        self.value_at(input)
    }
    fn value_at(&self, input: (Real, Real)) -> Real {
        Real((self.0)(input.0 .0) * input.1 .0)
    }
}

#[test]
fn test_simple() {
    let func = SimpleDifferentiableFunction::new(Plain2D(|_, x| x * x), Plain2D(|_, x| 2.0 * x));
    let eps = 0.001;

    let func_val = func.value_at((Real(0.0), newton_method(func, Real(0.0), Real(2.0), Real(eps))));
    assert!(eps > func_val.0.abs());
}

#[test]
fn newton_method_steps() {
    let func = SimpleDifferentiableFunction::new(Plain2D(|_, x| x * x - 2.0), Plain2D(|_, x| 2.0 * x));
    let root = newton_method(func, Real(0.0), Real(1.0), Real(1e-12));
    assert!(close(root.0, 2.0f64.sqrt(), 1e-12));
    // a start that is good enough is returned as it is
    assert_eq!(newton_method(func, Real(0.0), Real(1.4142), Real(0.01)), Real(1.4142));
    // else at least one step is taken: 1.5 - 0.25 / 3
    assert_eq!(newton_method(func, Real(0.0), Real(1.5), Real(0.25)), Real(1.5 - 0.25 / 3.0));
    // the time is handed to the function
    let func = SimpleDifferentiableFunction::new(Plain2D(|t, x| x - t), Plain2D(|_, _| 1.0));
    assert_eq!(newton_method(func, Real(3.0), Real(0.0), Real(1e-9)), Real(3.0));
}

#[test]
fn scalar_helpers() {
    assert_eq!(zero::<Real>(), Real(0.0));
    assert_eq!(larger(Real(1.0), Real(2.0)), Real(2.0));
    assert_eq!(larger(Real(2.0), Real(1.0)), Real(2.0));
    assert_eq!(smaller(Real(1.0), Real(2.0)), Real(1.0));
    assert_eq!(smaller(Real(2.0), Real(1.0)), Real(1.0));
    // what is not a number is never taken for the first
    assert_eq!(larger(Real(0.5), Real(f64::NAN)), Real(0.5));
    assert_eq!(smaller(Real(2.0), Real(f64::NAN)), Real(2.0));
}

#[test]
fn vector_operations() {
    assert_eq!(floats(&reals(&[1.0, 2.0]).pointwise_add(reals(&[0.5, -2.0]))), vec![1.5, 0.0]);
    assert_eq!(floats(&reals(&[1.0, 2.0]).pointwise_sub(reals(&[0.5, -2.0]))), vec![0.5, 4.0]);
    assert_eq!(floats(&reals(&[1.0, 2.0]).scalar_mul(Real(3.0))), vec![3.0, 6.0]);
    // the shorter vector decides
    assert_eq!(floats(&reals(&[1.0, 2.0, 3.0]).pointwise_add(reals(&[1.0]))), vec![2.0]);
    assert_eq!(floats(&reals(&[1.0]).pointwise_sub(reals(&[1.0, 5.0]))), vec![0.0]);
    assert!(reals(&[]).scalar_mul(Real(3.0)).is_empty());
}

#[test]
fn functions_from_functions() {
    let square = Plain1D(|x| x * x);
    let shift = Plain1D(|x| x + 1.0);
    let composed = ComposeSampleableFunction::new(square, shift);
    assert_eq!(composed.value_at(Real(3.0)), Real(10.0));
    let difference = SubSampleableFunction::new(square, shift);
    assert_eq!(difference.value_at(Real(3.0)), Real(5.0));
    let product = MultSampleableFunction::new(square, shift);
    assert_eq!(product.value_at(Real(3.0)), Real(36.0));
    let differentiable = SimpleDifferentiableFunction::new(square, Plain1D(|x| 2.0 * x));
    assert_eq!(differentiable.value_at(Real(3.0)), Real(9.0));
    assert_eq!(differentiable.derivative_at(Real(3.0)), Real(6.0));
    assert_eq!(SampledDerivative::new(differentiable).value_at(Real(3.0)), Real(6.0));
    let with_data = ClosureSampleableFunction::new(Real(4.0), Scaled(|x| x + 1.0));
    assert_eq!(with_data.value_at(Real(2.0)), Real(12.0));
    let both = ClosureDifferentiableFunction::new(Real(4.0), Scaled(|x| x * x), Scaled(|x| 2.0 * x));
    assert_eq!(both.value_at(Real(3.0)), Real(36.0));
    assert_eq!(both.derivative_at(Real(3.0)), Real(24.0));
    let points = sample_closure(&Scaled(|x| x), Interval::new(Real(0.0), Real(1.0)), 3, Real(2.0));
    let pairs: Vec<(f64, f64)> = points.iter().map(pair).collect();
    assert_eq!(pairs, vec![(0.0, 0.0), (0.5, 1.0), (1.0, 2.0)]);
}

#[test]
fn one_equation_as_a_system() {
    let ivp = InitialValueProblem::new(Real(0.5), Real(2.0), Plain2D(|t, x| t * x));
    let system = ivp.to_system_problem();
    assert_eq!(system.start_time, Real(0.5));
    assert_eq!(floats(&system.start_values), vec![2.0]);
    assert_eq!(system.dfs.len(), 1);
    assert_eq!(system.dfs[0].value_at((Real(3.0), reals(&[4.0, 9.0]))), Real(12.0));
    let rows = explicit_euler_system_interval(&system, Real(0.25), Real(1.0), 0);
    let samples = explicit_euler_interval(ivp, Real(0.25), Real(1.0), 0);
    assert_eq!(rows.len(), samples.len());
    for (row, sample) in rows.iter().zip(&samples) {
        assert_eq!(pair(&row[0]), pair(sample));
    }
}

#[test]
fn explicit_euler_for_one_equation() {
    let ivp = InitialValueProblem::new(Real(0.0), Real(1.0), Plain2D(|_, x| x * x));
    let samples = explicit_euler_interval(ivp, Real(0.25), Real(0.5), 0);
    let pairs: Vec<(f64, f64)> = samples.iter().map(pair).collect();
    assert_eq!(pairs, vec![(0.0, 1.0), (0.25, 1.25), (0.5, 1.25 + 0.25 * 1.25 * 1.25)]);
    assert_eq!(explicit_euler(ivp, Real(0.25), Real(0.5)), Real(1.25 + 0.25 * 1.25 * 1.25));
    assert!(close(explicit_euler(ivp, Real(0.0001), Real(0.5)).0, 2.0, 1e-3));
}

#[test]
fn runs_side_by_side_keep_the_order() {
    let ivp = InitialValueProblem::new(Real(0.0), Real(1.0), Plain2D(|_, x| x * x));
    let hs: Vec<Real> = (1..=12).map(|e| Real(0.5f64.powi(e))).collect();
    let values = explicit_euler_test_run(ivp, &hs, Real(0.5));
    assert_eq!(values.len(), hs.len());
    for (h, value) in hs.iter().zip(&values) {
        assert_eq!(*value, explicit_euler(ivp, *h, Real(0.5)));
    }
    assert!(values[0] != values[1]);
    let runs = explicit_euler_interval_test_run(ivp, &hs, Real(0.5), 1);
    assert_eq!(runs.len(), hs.len());
    for (h, run) in hs.iter().zip(&runs) {
        let alone = explicit_euler_interval(ivp, *h, Real(0.5), 1);
        assert_eq!(run.iter().map(pair).collect::<Vec<_>>(), alone.iter().map(pair).collect::<Vec<_>>());
    }
    assert!(explicit_euler_test_run(ivp, &[], Real(0.5)).is_empty());
    let stiff = InitialValueProblem::new(
        Real(0.0),
        Real(1.0),
        SimpleDifferentiableFunction::new(Plain2D(|_, x| -1000.0 * x), Plain2D(|_, _| -1000.0)),
    );
    let runs = implicit_euler_interval_test_run(stiff, &hs, Real(0.5), 0);
    assert_eq!(runs.len(), hs.len());
    for (h, run) in hs.iter().zip(&runs) {
        let alone = implicit_euler_interval(stiff, *h, Real(0.5), 0);
        assert_eq!(run.iter().map(pair).collect::<Vec<_>>(), alone.iter().map(pair).collect::<Vec<_>>());
    }
}

#[test]
fn modified_explicit_euler_uses_the_derivative() {
    // x' = x with the total derivative x'' = x
    let df = SimpleDifferentiableFunction::new(Plain2D(|_, x| x), Plain2D(|_, x| x));
    let ivp = InitialValueProblem::new(Real(0.0), Real(1.0), df);
    let samples = modified_explicit_euler_interval(ivp, Real(0.5), Real(1.0), 0);
    let factor = 1.0 + 0.5 + 0.5 * 0.5 / 2.0;
    let pairs: Vec<(f64, f64)> = samples.iter().map(pair).collect();
    assert_eq!(pairs, vec![(0.0, 1.0), (0.5, factor), (1.0, factor + 0.5 * factor + (0.5 * 0.5 / 2.0) * factor)]);
    assert_eq!(modified_explicit_euler(ivp, Real(0.5), Real(1.0)), samples[2].y);
    let fine = modified_explicit_euler(ivp, Real(0.001), Real(1.0));
    assert!(close(fine.0, 1.0f64.exp(), 1e-6));
    // the last step is shortened to land on the target
    let samples = modified_explicit_euler_interval(ivp, Real(0.4), Real(1.0), 0);
    assert_eq!(samples.len(), 4);
    assert_eq!(samples[3].x, Real(1.0));
    // the sums of 0.1 stay just below 0.9 after nine steps, so there are ten full steps
    let samples = modified_explicit_euler_interval(ivp, Real(0.1), Real(1.0), 4);
    assert_eq!(samples.len(), 1 + 2 + 1);
    assert!(close(samples[1].x.0, 0.5, 1e-12));
    assert!(close(samples[2].x.0, 1.0, 1e-12));
    assert_eq!(samples[3].x, Real(1.0));
}

#[test]
fn implicit_euler_is_stable_for_stiff_equations() {
    let df = SimpleDifferentiableFunction::new(Plain2D(|_, x| -1000.0 * x), Plain2D(|_, _| -1000.0));
    let ivp = InitialValueProblem::new(Real(0.0), Real(1.0), df);
    let samples = implicit_euler_interval(ivp, Real(0.1), Real(1.0), 0);
    assert_eq!(samples.first().map(pair), Some((0.0, 1.0)));
    assert_eq!(samples.last().unwrap().x, Real(1.0));
    for two in samples.windows(2) {
        assert!(two[1].y.0.abs() <= two[0].y.0.abs());
    }
    assert!(samples.last().unwrap().y.0.abs() < 1e-3);
    // one step solves x = 1 + h * (-1000 x)
    assert!(close(samples[1].y.0, 1.0 / 101.0, 1e-4));
    assert_eq!(implicit_euler(ivp, Real(0.1), Real(1.0)), samples.last().unwrap().y);
    // the explicit method explodes with this step size
    let explicit = explicit_euler(InitialValueProblem::new(Real(0.0), Real(1.0), Plain2D(|_, x| -1000.0 * x)), Real(0.1), Real(1.0));
    assert!(explicit.0.abs() > 1e10);
}

#[test]
fn residual_of_the_euler_polygon() {
    let problem = ngdl_rust::definitions::InitialValueSystemProblem::new(
        Real(0.0),
        reals(&[1.0, 0.0]),
        vec![System(|_, v| -v[0] + v[1]), System(|_, v| v[0] - v[1])],
    );
    let residual = get_residual_function(problem, Real(0.25));
    // at the start the slope of the first segment is the right-hand side itself
    assert!(close(residual.value_at(Real(0.0)).0, 0.0, 1e-12));
    // at a later row the segment before it is taken
    let before = residual.method.value_at(Real(0.25));
    let here = residual.method.value_at(Real(0.5));
    let jump = (-before[0].0 + before[1].0) - (-here[0].0 + here[1].0);
    assert!(close(residual.value_at(Real(0.5)).0, (2.0 * jump * jump).sqrt(), 1e-12));
    // inside a segment the slope is that of its left end, the state is not
    let state = residual.method.value_at(Real(0.6));
    let slope = residual.method.derivative_at(Real(0.6)).unwrap();
    let f = [-state[0].0 + state[1].0, state[0].0 - state[1].0];
    let expected = ((slope[0].0 - f[0]).powi(2) + (slope[1].0 - f[1]).powi(2)).sqrt();
    assert!(expected > 1e-3);
    assert!(close(residual.value_at(Real(0.6)).0, expected, 1e-15));
}

#[test]
fn difference_of_vector_valued_functions() {
    let problem = || {
        ngdl_rust::definitions::InitialValueSystemProblem::new(
            Real(0.0),
            reals(&[1.0, 0.0]),
            vec![System(|_, v| -v[0] + v[1]), System(|_, v| v[0] - v[1])],
        )
    };
    let fine = ngdl_rust::explicit_runge_kutta::make_classic_runge_kutta(problem(), Real(0.1));
    let coarse = ngdl_rust::euler_explicit::make_explicit_euler_method_system(problem(), Real(0.1));
    let expected: Vec<f64> = fine
        .value_at(Real(1.0))
        .iter()
        .zip(coarse.value_at(Real(1.0)))
        .map(|(a, b)| a.0 - b.0)
        .collect();
    assert_eq!(floats(&fine.values_at(Real(1.0))), floats(&fine.value_at(Real(1.0))));
    let difference = SubSampleableFunction::new(fine, coarse);
    let got = difference.values_at(Real(1.0));
    assert_eq!(floats(&got), expected);
    assert!(got[0].0 > 1e-3);
    assert!(close(got[0].0 + got[1].0, 0.0, 1e-12));
    // differences of differences
    let twice = SubSampleableFunction::new(
        difference,
        ngdl_rust::euler_explicit::make_explicit_euler_method_system(problem(), Real(0.1)),
    );
    let coarse_value = ngdl_rust::euler_explicit::make_explicit_euler_method_system(problem(), Real(0.1))
        .value_at(Real(1.0));
    assert_eq!(twice.values_at(Real(1.0))[0].0, expected[0] - coarse_value[0].0);
}
