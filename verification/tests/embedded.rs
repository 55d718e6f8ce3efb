use ngdl_rust::definitions::{Point2D, SampleableFunction};
use ngdl_rust::scalar::{Elementary, Scalar};

/// Double precision numbers as the scalars of the library.
#[derive(Clone, Copy, Debug, PartialEq, PartialOrd)]
pub struct Real(pub f64);

impl Scalar for Real {
    fn plus_spec(self, rhs: Self) -> Self {
        self.plus(rhs)
    }
    fn minus_spec(self, rhs: Self) -> Self {
        self.minus(rhs)
    }
    fn times_spec(self, rhs: Self) -> Self {
        self.times(rhs)
    }
    fn over_spec(self, rhs: Self) -> Self {
        self.over(rhs)
    }
    fn abs_spec(self) -> Self {
        self.abs()
    }
    fn neg_spec(self) -> Self {
        self.neg()
    }
    fn lt_spec(self, rhs: Self) -> bool {
        self.lt(rhs)
    }
    fn le_spec(self, rhs: Self) -> bool {
        self.le(rhs)
    }
    fn ratio_spec(num: i64, den: i64) -> Self {
        Self::ratio(num, den)
    }
    fn count_spec(n: usize) -> Self {
        Self::count(n)
    }
    fn ceil_spec(self) -> usize {
        self.ceil()
    }
    fn plus(self, rhs: Self) -> Self {
        Real(self.0 + rhs.0)
    }
    fn minus(self, rhs: Self) -> Self {
        Real(self.0 - rhs.0)
    }
    fn times(self, rhs: Self) -> Self {
        Real(self.0 * rhs.0)
    }
    fn over(self, rhs: Self) -> Self {
        Real(self.0 / rhs.0)
    }
    fn abs(self) -> Self {
        Real(self.0.abs())
    }
    fn neg(self) -> Self {
        Real(-self.0)
    }
    fn lt(self, rhs: Self) -> bool {
        self.0 < rhs.0
    }
    fn le(self, rhs: Self) -> bool {
        self.0 <= rhs.0
    }
    fn ratio(num: i64, den: i64) -> Self {
        Real(num as f64 / den as f64)
    }
    fn count(n: usize) -> Self {
        Real(n as f64)
    }
    fn ceil(self) -> usize {
        self.0.ceil() as usize
    }
}

impl Elementary for Real {
    fn powf_spec(self, exponent: Self) -> Self {
        self.powf(exponent)
    }
    fn powi_spec(self, exponent: i32) -> Self {
        self.powi(exponent)
    }
    fn sqrt_spec(self) -> Self {
        self.sqrt()
    }
    fn ln_spec(self) -> Self {
        self.ln()
    }
    fn exp_spec(self) -> Self {
        self.exp()
    }
    fn cos_spec(self) -> Self {
        self.cos()
    }
    fn powf(self, exponent: Self) -> Self {
        Real(self.0.powf(exponent.0))
    }
    fn powi(self, exponent: i32) -> Self {
        Real(self.0.powi(exponent))
    }
    fn sqrt(self) -> Self {
        Real(self.0.sqrt())
    }
    fn ln(self) -> Self {
        Real(self.0.ln())
    }
    fn exp(self) -> Self {
        Real(std::f64::consts::E.powf(self.0))
    }
    fn cos(self) -> Self {
        Real(self.0.cos())
    }
}

/// A right-hand side of a system, given by a plain function.
#[derive(Clone, Copy)]
pub struct System(pub fn(f64, &[f64]) -> f64);

impl SampleableFunction<(Real, Vec<Real>), Real> for System {
    fn accepts(&self, _input: (Real, Vec<Real>)) -> bool {
        true
    }
    fn value_spec(&self, input: (Real, Vec<Real>)) -> Real {
        self.value_at(input)
    }
    fn value_at(&self, input: (Real, Vec<Real>)) -> Real {
        let state: Vec<f64> = input.1.iter().map(|v| v.0).collect();
        Real((self.0)(input.0 .0, &state))
    }
}

/// A function of a time and a value, given by a plain function.
#[derive(Clone, Copy)]
pub struct Plain2D(pub fn(f64, f64) -> f64);

impl SampleableFunction<(Real, Real), Real> for Plain2D {
    fn accepts(&self, _input: (Real, Real)) -> bool {
        true
    }
    fn value_spec(&self, input: (Real, Real)) -> Real {
        self.value_at(input)
    }
    fn value_at(&self, input: (Real, Real)) -> Real {
        Real((self.0)(input.0 .0, input.1 .0))
    }
}

/// A function of one number, given by a plain function.
#[derive(Clone, Copy)]
pub struct Plain1D(pub fn(f64) -> f64);

impl SampleableFunction<Real, Real> for Plain1D {
    fn accepts(&self, _input: Real) -> bool {
        true
    }
    fn value_spec(&self, input: Real) -> Real {
        self.value_at(input)
    }
    fn value_at(&self, input: Real) -> Real {
        Real((self.0)(input.0))
    }
}

#[allow(dead_code)]
fn reals(values: &[f64]) -> Vec<Real> {
    values.iter().map(|v| Real(*v)).collect()
}

#[allow(dead_code)]
fn floats(values: &[Real]) -> Vec<f64> {
    values.iter().map(|v| v.0).collect()
}

#[allow(dead_code)]
fn close(a: f64, b: f64, tolerance: f64) -> bool {
    (a - b).abs() <= tolerance
}

#[allow(dead_code)]
fn pair(point: &Point2D<Real>) -> (f64, f64) {
    (point.x.0, point.y.0)
}

use ngdl_rust::definitions::InitialValueSystemProblem;
use ngdl_rust::embedded_rk::{
    adapted_step_size, error_estimate, make_dopri5, make_embedded_explicit_runge_kutta_with_tableau,
    make_embedded_rk_1st_order,
};
use ngdl_rust::explicit_runge_kutta::{make_explicit_runge_kutta_with_tableau, ExplicitRungeKuttaMethod};
use ngdl_rust::generalized_explicit_one_step_method::one_step_value_at;

fn relaxation() -> InitialValueSystemProblem<Real, System> {
    InitialValueSystemProblem::new(
        Real(0.0),
        reals(&[1.0, 0.0]),
        vec![System(|_, v| -v[0] + v[1]), System(|_, v| v[0] - v[1])],
    )
}

fn oscillator() -> InitialValueSystemProblem<Real, System> {
    InitialValueSystemProblem::new(
        Real(0.0),
        reals(&[1.0, 0.0]),
        vec![System(|_, v| v[1]), System(|_, v| -v[0])],
    )
}

#[test]
fn error_estimate_formula() {
    let err = error_estimate(&reals(&[1.0, 2.0, -3.0]), &reals(&[1.5, 2.0, -1.0]), &reals(&[3.0, 0.0, -1.0]));
    // |1 - 1.5| / (1 + 3), 0, |-3 + 1| / (1 + 1)
    assert_eq!(err, Real(1.0));
    let err = error_estimate(&reals(&[1.0]), &reals(&[1.5]), &reals(&[3.0]));
    assert_eq!(err, Real(0.125));
    let none = error_estimate(&reals(&[]), &reals(&[]), &reals(&[]));
    assert_eq!(none, Real(0.0));
}

#[test]
fn adapted_step_size_formula() {
    // 0.9 * (tol / err) ^ (1 / 5)
    let h = adapted_step_size(Real(0.1), Real(1e-6), Real(32e-6), 4);
    assert!(close(h.0, 0.9 * 2.0 * 0.1, 1e-15));
    let h = adapted_step_size(Real(0.1), Real(1e-6), Real(1e-6), 4);
    assert!(close(h.0, 0.9 * 0.1, 1e-15));
    // 0.9 * (tol / err) ^ (1 / 2)
    let h = adapted_step_size(Real(0.1), Real(4e-6), Real(1e-6), 1);
    assert!(close(h.0, 0.5 * 0.1, 1e-15));
    let h = adapted_step_size(Real(0.1), Real(1e-6), Real(2.25e-6), 1);
    assert!(close(h.0, 0.9 * 1.5 * 0.1, 1e-15));
    // the factor is at most 2
    assert_eq!(adapted_step_size(Real(0.1), Real(1e-12), Real(1.0), 4), Real(2.0 * 0.1));
    // and at least 1/2
    assert_eq!(adapted_step_size(Real(0.1), Real(1.0), Real(1e-12), 4), Real(0.5 * 0.1));
    // no difference between the two results doubles the step size
    assert_eq!(adapted_step_size(Real(0.1), Real(0.0), Real(1e-6), 1), Real(0.2));
}

#[test]
fn accepted_steps_meet_the_tolerance() {
    let tolerance = 1e-8;
    let mut method = make_dopri5(oscillator(), Real(0.5), Real(tolerance));
    let high = ExplicitRungeKuttaMethod::new(ngdl_rust::butcher::dopri5_fifth_order_tableau());
    let low = ExplicitRungeKuttaMethod::new(ngdl_rust::butcher::dopri5_fourth_order_tableau());
    let problem = oscillator();
    let mut t = 0.0;
    let mut state = reals(&[1.0, 0.0]);
    let mut rejected = 0;
    for _ in 0..60 {
        // follow the attempts by hand
        let mut h = method.current_step_size();
        let (expected, used_error) = loop {
            let val1 = one_step_value_at(&high, &problem, h, Real(t + h.0));
            let val2 = one_step_value_at(&low, &problem, h, Real(t + h.0));
            let err = error_estimate(&val1, &val2, &state);
            h = adapted_step_size(h, err, Real(tolerance), 4);
            if err.0 <= tolerance {
                break (val1, err);
            }
            rejected += 1;
        };
        let next = method.step(Real(t), &state).unwrap();
        assert_eq!(next, expected);
        assert!(used_error.0 <= tolerance);
        assert_eq!(method.current_step_size(), h);
        t += method.current_step_size().0;
        state = next;
    }
    assert!(rejected > 0);
}

#[test]
fn attempt_runs_both_methods_from_the_start() {
    let mut method = make_dopri5(oscillator(), Real(0.125), Real(1.0));
    // the state handed in only scales the error
    let next = method.step(Real(0.5), &reals(&[7.0, 7.0])).unwrap();
    let alone = make_explicit_runge_kutta_with_tableau(
        oscillator(),
        Real(0.125),
        ngdl_rust::butcher::dopri5_fifth_order_tableau(),
    );
    assert_eq!(next, alone.value_at(Real(0.625)));
    assert!(close(next[0].0, 0.625f64.cos(), 1e-7));
    assert!(close(next[1].0, -(0.625f64.sin()), 1e-7));
}

#[test]
fn dopri5_follows_the_oscillator() {
    let mut method = make_dopri5(oscillator(), Real(0.01), Real(1e-10));
    let rows = method.interval(Real(1.0), 0).unwrap();
    assert_eq!(pair(&rows[0][0]), (0.0, 1.0));
    assert_eq!(pair(&rows[0][1]), (0.0, 0.0));
    // the last step passes the target
    let last = rows.last().unwrap();
    assert!(last[0].x.0 >= 1.0);
    let before = &rows[rows.len() - 2];
    assert!(before[0].x.0 < 1.0);
    // times grow by the step size after each step, by a factor between 1/2 and 2
    for three in rows.windows(3) {
        let first = three[1][0].x.0 - three[0][0].x.0;
        let second = three[2][0].x.0 - three[1][0].x.0;
        assert!(second >= 0.5 * first * (1.0 - 1e-9));
        assert!(second <= 2.0 * first * (1.0 + 1e-9));
    }
    // the energy of the oscillator is kept
    for row in &rows {
        assert!(close(row[0].y.0 * row[0].y.0 + row[1].y.0 * row[1].y.0, 1.0, 1e-6));
    }
    // the state of a row belongs to the time of the row before it plus the size of the
    // accepted attempt, which is between half and twice the distance of the two rows
    for two in rows.windows(2) {
        let angle = (-two[1][1].y.0).atan2(two[1][0].y.0);
        let distance = two[1][0].x.0 - two[0][0].x.0;
        assert!(angle >= two[0][0].x.0 + 0.5 * distance - 1e-6);
        assert!(angle <= two[0][0].x.0 + 2.0 * distance + 1e-6);
    }
}

#[test]
fn embedded_run_passes_over_rows() {
    let all = make_embedded_rk_1st_order(relaxation(), Real(0.01), Real(1e-4)).interval(Real(1.0), 0).unwrap();
    let third = make_embedded_rk_1st_order(relaxation(), Real(0.01), Real(1e-4)).interval(Real(1.0), 2).unwrap();
    assert_eq!(third.len(), 1 + (all.len() - 1) / 3);
    for (idx, row) in third.iter().enumerate() {
        assert_eq!(pair(&row[0]), pair(&all[3 * idx][0]));
        assert_eq!(pair(&row[1]), pair(&all[3 * idx][1]));
    }
}

#[test]
fn embedded_run_with_target_at_start() {
    let mut method = make_dopri5(relaxation(), Real(0.1), Real(1e-6));
    let rows = method.interval(Real(0.0), 0).unwrap();
    assert_eq!(rows.len(), 1);
    assert_eq!(method.current_step_size(), Real(0.1));
}

#[test]
fn step_is_given_up_at_the_limit_of_attempts() {
    // a tolerance of zero is met by no step of this problem
    let mut method = make_dopri5(oscillator(), Real(0.5), Real(0.0)).with_attempt_limit(3);
    assert!(method.step(Real(0.0), &reals(&[1.0, 0.0])).is_none());
    // each attempt halves the step size
    assert_eq!(method.current_step_size(), Real(0.0625));
    let mut method = make_dopri5(oscillator(), Real(0.5), Real(0.0)).with_attempt_limit(3);
    assert!(method.interval(Real(1.0), 0).is_err());
    let mut method = make_dopri5(oscillator(), Real(0.5), Real(0.0)).with_attempt_limit(0);
    assert!(method.step(Real(0.0), &reals(&[1.0, 0.0])).is_none());
    assert_eq!(method.current_step_size(), Real(0.5));
}

#[test]
fn embedded_pair_of_low_order() {
    let mut method = make_embedded_explicit_runge_kutta_with_tableau(
        relaxation(),
        Real(0.1),
        ngdl_rust::butcher::embedded_second_order_tableau(),
        ngdl_rust::butcher::embedded_first_order_tableau(),
        1,
        Real(0.1),
    );
    let next = method.step(Real(0.0), &reals(&[1.0, 0.0])).unwrap();
    // one step of Heun's method of order two with h = 0.1 is accepted at once
    let k0 = [-1.0, 1.0];
    let k1 = [-(1.0 + 0.1 * k0[0]) + 0.1 * k0[1], (1.0 + 0.1 * k0[0]) - 0.1 * k0[1]];
    assert!(close(next[0].0, 1.0 + 0.1 * (0.5 * k0[0] + 0.5 * k1[0]), 1e-15));
    assert!(close(next[1].0, 0.0 + 0.1 * (0.5 * k0[1] + 0.5 * k1[1]), 1e-15));
    // the estimate 0.01 of that step is too large for a smaller tolerance
    let mut method = make_embedded_rk_1st_order(relaxation(), Real(0.1), Real(1e-3));
    let next = method.step(Real(0.0), &reals(&[1.0, 0.0])).unwrap();
    assert!(next[0].0 > 0.91);
}
