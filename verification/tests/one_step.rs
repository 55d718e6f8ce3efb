use ngdl_rust::definitions::{Point2D, SampleableFunction};
use ngdl_rust::scalar::{Elementary, Scalar};

/// Double precision numbers as the scalars of the library.
#[derive(Clone, Copy, Debug, PartialEq, PartialOrd)]
pub struct Real(pub f64);

impl Scalar for Real {
    fn plus_spec(self, rhs: Self) -> Self {
        self.plus(rhs)
    }
    fn minus_spec(self, rhs: Self) -> Self {
        self.minus(rhs)
    }
    fn times_spec(self, rhs: Self) -> Self {
        self.times(rhs)
    }
    fn over_spec(self, rhs: Self) -> Self {
        self.over(rhs)
    }
    fn abs_spec(self) -> Self {
        self.abs()
    }
    fn neg_spec(self) -> Self {
        self.neg()
    }
    fn lt_spec(self, rhs: Self) -> bool {
        self.lt(rhs)
    }
    fn le_spec(self, rhs: Self) -> bool {
        self.le(rhs)
    }
    fn ratio_spec(num: i64, den: i64) -> Self {
        Self::ratio(num, den)
    }
    fn count_spec(n: usize) -> Self {
        Self::count(n)
    }
    fn ceil_spec(self) -> usize {
        self.ceil()
    }
    fn plus(self, rhs: Self) -> Self {
        Real(self.0 + rhs.0)
    }
    fn minus(self, rhs: Self) -> Self {
        Real(self.0 - rhs.0)
    }
    fn times(self, rhs: Self) -> Self {
        Real(self.0 * rhs.0)
    }
    fn over(self, rhs: Self) -> Self {
        Real(self.0 / rhs.0)
    }
    fn abs(self) -> Self {
        Real(self.0.abs())
    }
    fn neg(self) -> Self {
        Real(-self.0)
    }
    fn lt(self, rhs: Self) -> bool {
        self.0 < rhs.0
    }
    fn le(self, rhs: Self) -> bool {
        self.0 <= rhs.0
    }
    fn ratio(num: i64, den: i64) -> Self {
        Real(num as f64 / den as f64)
    }
    fn count(n: usize) -> Self {
        Real(n as f64)
    }
    fn ceil(self) -> usize {
        self.0.ceil() as usize
    }
}

impl Elementary for Real {
    fn powf_spec(self, exponent: Self) -> Self {
        self.powf(exponent)
    }
    fn powi_spec(self, exponent: i32) -> Self {
        self.powi(exponent)
    }
    fn sqrt_spec(self) -> Self {
        self.sqrt()
    }
    fn ln_spec(self) -> Self {
        self.ln()
    }
    fn exp_spec(self) -> Self {
        self.exp()
    }
    fn cos_spec(self) -> Self {
        self.cos()
    }
    fn powf(self, exponent: Self) -> Self {
        Real(self.0.powf(exponent.0))
    }
    fn powi(self, exponent: i32) -> Self {
        Real(self.0.powi(exponent))
    }
    fn sqrt(self) -> Self {
        Real(self.0.sqrt())
    }
    fn ln(self) -> Self {
        Real(self.0.ln())
    }
    fn exp(self) -> Self {
        Real(std::f64::consts::E.powf(self.0))
    }
    fn cos(self) -> Self {
        Real(self.0.cos())
    }
}

/// A right-hand side of a system, given by a plain function.
#[derive(Clone, Copy)]
pub struct System(pub fn(f64, &[f64]) -> f64);

impl SampleableFunction<(Real, Vec<Real>), Real> for System {
    fn accepts(&self, _input: (Real, Vec<Real>)) -> bool {
        true
    }
    fn value_spec(&self, input: (Real, Vec<Real>)) -> Real {
        self.value_at(input)
    }
    fn value_at(&self, input: (Real, Vec<Real>)) -> Real {
        let state: Vec<f64> = input.1.iter().map(|v| v.0).collect();
        Real((self.0)(input.0 .0, &state))
    }
}

/// A function of a time and a value, given by a plain function.
#[derive(Clone, Copy)]
pub struct Plain2D(pub fn(f64, f64) -> f64);

impl SampleableFunction<(Real, Real), Real> for Plain2D {
    fn accepts(&self, _input: (Real, Real)) -> bool {
        true
    }
    fn value_spec(&self, input: (Real, Real)) -> Real {
        self.value_at(input)
    }
    fn value_at(&self, input: (Real, Real)) -> Real {
        Real((self.0)(input.0 .0, input.1 .0))
    }
}

/// A function of one number, given by a plain function.
#[derive(Clone, Copy)]
pub struct Plain1D(pub fn(f64) -> f64);

impl SampleableFunction<Real, Real> for Plain1D {
    fn accepts(&self, _input: Real) -> bool {
        true
    }
    fn value_spec(&self, input: Real) -> Real {
        self.value_at(input)
    }
    fn value_at(&self, input: Real) -> Real {
        Real((self.0)(input.0))
    }
}

#[allow(dead_code)]
fn reals(values: &[f64]) -> Vec<Real> {
    values.iter().map(|v| Real(*v)).collect()
}

#[allow(dead_code)]
fn floats(values: &[Real]) -> Vec<f64> {
    values.iter().map(|v| v.0).collect()
}

#[allow(dead_code)]
fn close(a: f64, b: f64, tolerance: f64) -> bool {
    (a - b).abs() <= tolerance
}

#[allow(dead_code)]
fn pair(point: &Point2D<Real>) -> (f64, f64) {
    (point.x.0, point.y.0)
}

use ngdl_rust::definitions::InitialValueSystemProblem;
use ngdl_rust::euler_explicit::{
    explicit_euler_system, explicit_euler_system_interval, make_explicit_euler_method_system,
    ExplicitEulerStep,
};
use ngdl_rust::explicit_runge_kutta::{
    make_2nd_order_runge_kutta, make_classic_runge_kutta, make_england_runge_kutta,
    make_explicit_runge_kutta_with_tableau, make_heun_method, make_three_eight_runge_kutta,
    ExplicitRungeKuttaMethod, Tableau,
};
use ngdl_rust::generalized_explicit_one_step_method::{one_step_interval, OneStepMethodStep};

fn relaxation() -> InitialValueSystemProblem<Real, System> {
    InitialValueSystemProblem::new(
        Real(0.0),
        reals(&[1.0, 0.0]),
        vec![System(|_, v| -v[0] + v[1]), System(|_, v| v[0] - v[1])],
    )
}

fn decay() -> InitialValueSystemProblem<Real, System> {
    InitialValueSystemProblem::new(Real(0.0), reals(&[1.0]), vec![System(|_, v| -v[0])])
}

fn growth() -> InitialValueSystemProblem<Real, System> {
    InitialValueSystemProblem::new(Real(0.0), reals(&[1.0]), vec![System(|_, v| v[0] * v[0])])
}

#[test]
fn classic_runge_kutta_relaxation_system() {
    let method = make_classic_runge_kutta(relaxation(), Real(0.1));
    let rows = method.interval(Real(1.0), 0);
    let last = rows.last().unwrap();
    let exact0 = 0.5 + 0.5 * (-2.0f64).exp();
    let exact1 = 0.5 - 0.5 * (-2.0f64).exp();
    assert!(close(last[0].y.0, exact0, 1e-5));
    assert!(close(last[1].y.0, exact1, 1e-5));
    assert!(close(last[0].y.0, 0.635, 0.1));
    assert!(close(last[1].y.0, 0.365, 0.1));
    assert_eq!(last[0].x, Real(1.0));
    assert_eq!(last[1].x, Real(1.0));
    // the system keeps the sum of the two components, and the first falls towards the second
    for row in &rows {
        assert!(close(row[0].y.0 + row[1].y.0, 1.0, 1e-12));
        assert!(row[0].y.0 > row[1].y.0);
        assert!(row[1].y.0 >= 0.0);
    }
    for two in rows.windows(2) {
        assert!(two[1][0].y.0 <= two[0][0].y.0);
    }
}

#[test]
fn one_step_driver_hits_target_when_step_does_not_divide() {
    let problem = relaxation();
    for (h, target) in [(0.3, 1.0), (0.1, 1.0), (0.7, 0.5), (0.25, 2.0), (1e-3, 0.01234)] {
        let rows = explicit_euler_system_interval(&problem, Real(h), Real(target), 0);
        let last = rows.last().unwrap();
        assert_eq!(last.len(), 2);
        assert_eq!(last[0].x, Real(target));
        assert_eq!(last[1].x, Real(target));
        assert_eq!(rows[0][0].x, Real(0.0));
        assert_eq!(rows[0][0].y, Real(1.0));
        for pair in rows.windows(2) {
            assert!(pair[0][0].x.0 < pair[1][0].x.0);
        }
    }
}

#[test]
fn one_step_driver_counts_rows() {
    // 0.3, 0.6, 0.9 are full steps, the step to 1.0 is the short one
    let rows = explicit_euler_system_interval(&relaxation(), Real(0.3), Real(1.0), 0);
    assert_eq!(rows.len(), 5);
    let times: Vec<f64> = rows.iter().map(|row| row[0].x.0).collect();
    assert!(close(times[1], 0.3, 1e-15));
    assert!(close(times[2], 0.6, 1e-15));
    assert!(close(times[3], 0.9, 1e-15));
    assert_eq!(times[4], 1.0);
}

#[test]
fn one_step_driver_with_target_at_start() {
    let rows = explicit_euler_system_interval(&relaxation(), Real(0.1), Real(0.0), 0);
    assert_eq!(rows.len(), 2);
    assert_eq!(floats(&[rows[1][0].y, rows[1][1].y]), vec![1.0, 0.0]);
    assert_eq!(rows[1][0].x, Real(0.0));
    let method = make_classic_runge_kutta(relaxation(), Real(0.1));
    let rows = method.interval(Real(0.0), 0);
    assert_eq!(rows.len(), 2);
    assert_eq!(floats(&[rows[1][0].y, rows[1][1].y]), vec![1.0, 0.0]);
}

#[test]
fn one_step_driver_passes_over_rows() {
    let problem = decay();
    let all = explicit_euler_system_interval(&problem, Real(0.125), Real(1.0), 0);
    // seven full steps and the last one
    assert_eq!(all.len(), 9);
    let third = explicit_euler_system_interval(&problem, Real(0.125), Real(1.0), 2);
    // the start, the full steps 3 and 6, and the last one
    assert_eq!(third.len(), 4);
    assert_eq!(pair(&third[0][0]), pair(&all[0][0]));
    assert_eq!(pair(&third[1][0]), pair(&all[3][0]));
    assert_eq!(pair(&third[2][0]), pair(&all[6][0]));
    assert_eq!(pair(&third[3][0]), pair(&all[8][0]));
    let second = explicit_euler_system_interval(&problem, Real(0.125), Real(1.0), 1);
    assert_eq!(second.len(), 5);
    assert_eq!(pair(&second[1][0]), pair(&all[2][0]));
    assert_eq!(pair(&second[2][0]), pair(&all[4][0]));
    assert_eq!(pair(&second[3][0]), pair(&all[6][0]));
    assert_eq!(pair(&second[4][0]), pair(&all[8][0]));
    let negative = explicit_euler_system_interval(&problem, Real(0.125), Real(1.0), -3);
    assert_eq!(negative.len(), all.len());
}

#[test]
fn explicit_euler_step_formula() {
    let dfs = vec![System(|t, v| t + 2.0 * v[1]), System(|_, v| v[0] * v[1])];
    let next = ExplicitEulerStep.step(&dfs, Real(0.5), &reals(&[3.0, 4.0]), Real(0.25));
    assert_eq!(floats(&next), vec![3.0 + 0.25 * 8.5, 4.0 + 0.25 * 12.0]);
}

#[test]
fn steps_keep_the_dimension() {
    let dfs = vec![
        System(|_, v| v[1]),
        System(|_, v| v[2]),
        System(|t, v| t - v[0]),
    ];
    let state = reals(&[1.0, 2.0, 3.0]);
    assert_eq!(ExplicitEulerStep.step(&dfs, Real(0.0), &state, Real(0.1)).len(), 3);
    let tableaus: Vec<Tableau<Real>> = vec![
        ngdl_rust::butcher::classic_tableau(),
        ngdl_rust::butcher::england_tableau(),
        ngdl_rust::butcher::three_eight_tableau(),
        ngdl_rust::butcher::second_order_tableau(),
        ngdl_rust::butcher::heun_tableau(),
        ngdl_rust::butcher::dopri5_fifth_order_tableau(),
        ngdl_rust::butcher::dopri5_fourth_order_tableau(),
    ];
    for tableau in tableaus {
        let stages = tableau.stages();
        let method = ExplicitRungeKuttaMethod::new(tableau);
        assert_eq!(method.step(&dfs, Real(0.0), &state, Real(0.1)).len(), 3);
        let ks = method.get_ks(&dfs, Real(0.0), &state, Real(0.1));
        assert_eq!(ks.len(), stages);
        assert!(ks.iter().all(|k| k.len() == 3));
    }
}

#[test]
fn zero_step_returns_the_state() {
    let dfs = vec![System(|t, v| t + 2.0 * v[1]), System(|_, v| v[0] * v[1])];
    let state = reals(&[3.0, 4.0]);
    assert_eq!(ExplicitEulerStep.step(&dfs, Real(0.5), &state, Real(0.0)), state);
    let method = ExplicitRungeKuttaMethod::new(ngdl_rust::butcher::classic_tableau());
    assert_eq!(method.step(&dfs, Real(0.5), &state, Real(0.0)), state);
    let method = ExplicitRungeKuttaMethod::new(ngdl_rust::butcher::dopri5_fifth_order_tableau());
    assert_eq!(method.step(&dfs, Real(0.5), &state, Real(0.0)), state);
}

#[test]
fn classic_runge_kutta_step_formula() {
    // x' = x: one step multiplies by 1 + h + h^2/2 + h^3/6 + h^4/24
    let dfs = vec![System(|_, v| v[0])];
    let method = ExplicitRungeKuttaMethod::new(ngdl_rust::butcher::classic_tableau());
    let next = method.step(&dfs, Real(0.0), &reals(&[1.0]), Real(0.5));
    let expected = 1.0 + 0.5 + 0.125 + 0.125 / 6.0 + 0.0625 / 24.0;
    assert!(close(next[0].0, expected, 1e-15));
    let ks = method.get_ks(&dfs, Real(0.0), &reals(&[1.0]), Real(0.5));
    assert_eq!(floats(&ks[0]), vec![1.0]);
    assert_eq!(floats(&ks[1]), vec![1.25]);
    assert_eq!(floats(&ks[2]), vec![1.3125]);
    assert_eq!(floats(&ks[3]), vec![1.65625]);
}

#[test]
fn runge_kutta_stages_sample_at_their_times() {
    // x' = t: the slopes are the sample times
    let dfs = vec![System(|t, _| t)];
    let method = ExplicitRungeKuttaMethod::new(ngdl_rust::butcher::heun_tableau());
    let ks = method.get_ks(&dfs, Real(1.0), &reals(&[0.0]), Real(3.0));
    assert_eq!(floats(&ks[0]), vec![1.0]);
    assert_eq!(floats(&ks[1]), vec![1.0 + 3.0 * (1.0 / 3.0)]);
    assert_eq!(floats(&ks[2]), vec![1.0 + 3.0 * (2.0 / 3.0)]);
}

fn order(errors: &[f64], hs: &[f64]) -> f64 {
    let last = errors.len() - 1;
    (errors[last].ln() - errors[last - 1].ln()) / (hs[last].ln() - hs[last - 1].ln())
}

#[test]
fn explicit_euler_converges_with_order_one() {
    let problem = growth();
    let hs: Vec<f64> = (1..=15).map(|e| 0.5f64.powi(e)).collect();
    let errors: Vec<f64> = hs
        .iter()
        .map(|h| (explicit_euler_system(&problem, Real(*h), Real(0.5))[0].0 - 2.0).abs())
        .collect();
    for pair in errors.windows(2) {
        assert!(pair[1] < pair[0]);
    }
    assert!(close(order(&errors, &hs), 1.0, 0.05));
    // from h = 2^-8 on every two runs in a row show the order
    for last in 8..hs.len() {
        assert!(close(order(&errors[..=last], &hs[..=last]), 1.0, 0.1));
    }
}

#[test]
fn classic_runge_kutta_converges_with_order_four() {
    let hs: Vec<f64> = (1..=6).map(|e| 0.5f64.powi(e)).collect();
    let errors: Vec<f64> = hs
        .iter()
        .map(|h| {
            let method = make_classic_runge_kutta(decay(), Real(*h));
            (method.value_at(Real(1.0))[0].0 - (-1.0f64).exp()).abs()
        })
        .collect();
    assert!(close(order(&errors, &hs), 4.0, 0.2));
    // from h = 2^-3 on every two runs in a row show the order
    for last in 3..hs.len() {
        assert!(close(order(&errors[..=last], &hs[..=last]), 4.0, 0.3));
    }
}

#[test]
fn named_methods_agree_with_the_exact_solution() {
    let exact = (-1.0f64).exp();
    let h = Real(0.01);
    assert!(close(make_england_runge_kutta(decay(), h).value_at(Real(1.0))[0].0, exact, 1e-9));
    assert!(close(make_three_eight_runge_kutta(decay(), h).value_at(Real(1.0))[0].0, exact, 1e-3));
    assert!(close(make_2nd_order_runge_kutta(decay(), h).value_at(Real(1.0))[0].0, exact, 1e-4));
    assert!(close(make_heun_method(decay(), h).value_at(Real(1.0))[0].0, exact, 1e-7));
    assert!(close(make_explicit_euler_method_system(decay(), h).value_at(Real(1.0))[0].0, exact, 1e-2));
}

#[test]
fn named_tableaus_are_consistent() {
    let tableaus: Vec<Tableau<Real>> = vec![
        ngdl_rust::butcher::classic_tableau(),
        ngdl_rust::butcher::england_tableau(),
        ngdl_rust::butcher::three_eight_tableau(),
        ngdl_rust::butcher::second_order_tableau(),
        ngdl_rust::butcher::heun_tableau(),
        ngdl_rust::butcher::embedded_first_order_tableau(),
        ngdl_rust::butcher::embedded_second_order_tableau(),
        ngdl_rust::butcher::dopri5_fifth_order_tableau(),
        ngdl_rust::butcher::dopri5_fourth_order_tableau(),
    ];
    for tableau in &tableaus {
        let sum: f64 = tableau.bs().iter().map(|b| b.0).sum();
        assert!(close(sum, 1.0, 1e-15));
        assert_eq!(tableau.cs().len(), tableau.stages());
        assert_eq!(tableau.bs().len(), tableau.stages());
        assert_eq!(tableau.coeffs().len(), tableau.stages());
        for (i, row) in tableau.coeffs().iter().enumerate() {
            assert_eq!(row.len(), i);
        }
    }
}

#[test]
fn classic_tableau_entries() {
    let tableau: Tableau<Real> = ngdl_rust::butcher::classic_tableau();
    assert_eq!(floats(tableau.cs()), vec![0.0, 0.5, 0.5, 1.0]);
    assert_eq!(floats(tableau.bs()), vec![1.0 / 6.0, 1.0 / 3.0, 1.0 / 3.0, 1.0 / 6.0]);
    assert_eq!(floats(&tableau.coeffs()[3]), vec![0.0, 0.0, 1.0]);
    let dopri: Tableau<Real> = ngdl_rust::butcher::dopri5_fifth_order_tableau();
    assert_eq!(floats(dopri.cs()), vec![0.0, 0.2, 0.3, 0.8, 8.0 / 9.0, 1.0, 1.0]);
    assert_eq!(
        floats(&dopri.coeffs()[4]),
        vec![19372.0 / 6561.0, -25360.0 / 2187.0, 64448.0 / 6561.0, -212.0 / 729.0]
    );
    assert_eq!(dopri.bs()[4].0, -2187.0 / 6784.0);
}

#[test]
fn tableau_parts_are_checked() {
    let ok = Tableau::try_new(
        reals(&[0.0, 0.5]),
        reals(&[0.0, 1.0]),
        vec![vec![], reals(&[0.5])],
    );
    assert!(ok.is_some());
    let short_weights = Tableau::try_new(reals(&[0.0, 0.5]), reals(&[1.0]), vec![vec![], reals(&[0.5])]);
    assert!(short_weights.is_none());
    let missing_row = Tableau::try_new(reals(&[0.0, 0.5]), reals(&[0.0, 1.0]), vec![vec![]]);
    assert!(missing_row.is_none());
    let full_row = Tableau::try_new(
        reals(&[0.0, 0.5]),
        reals(&[0.0, 1.0]),
        vec![reals(&[1.0]), reals(&[0.5])],
    );
    assert!(full_row.is_none());
    let empty: Option<Tableau<Real>> = Tableau::try_new(vec![], vec![], vec![]);
    assert!(empty.is_some());
}

#[test]
fn custom_tableau_gives_the_midpoint_rule() {
    let tableau = Tableau::try_new(
        reals(&[0.0, 0.5]),
        reals(&[0.0, 1.0]),
        vec![vec![], reals(&[0.5])],
    )
    .unwrap();
    let method = make_explicit_runge_kutta_with_tableau(decay(), Real(0.5), tableau);
    let rows = method.interval(Real(0.5), 0);
    // one short step of size 0.5: x + h * f(x + h/2 * f(x)) = 1 - 0.5 * 0.75
    assert_eq!(rows.len(), 2);
    assert_eq!(rows[1][0].y, Real(0.625));
}

#[test]
fn value_at_is_the_last_row() {
    let method = make_heun_method(relaxation(), Real(0.3));
    let rows = method.interval(Real(1.0), 0);
    let value = method.value_at(Real(1.0));
    let last: Vec<Real> = rows.last().unwrap().iter().map(|p| p.y).collect();
    assert_eq!(value, last);
    let again = one_step_interval(
        &ExplicitRungeKuttaMethod::new(ngdl_rust::butcher::heun_tableau()),
        &relaxation(),
        Real(0.3),
        Real(1.0),
        0,
    );
    assert_eq!(again.len(), rows.len());
    assert_eq!(again.last().unwrap()[0].y, rows.last().unwrap()[0].y);
}

#[test]
fn slope_of_the_polygon() {
    let method = make_explicit_euler_method_system(decay(), Real(0.25));
    // between the rows at 0.5 and 0.75 the polygon of x' = -x falls with -x(0.5)
    let slope = method.derivative_at(Real(0.6)).unwrap();
    let at_half = method.value_at(Real(0.5))[0].0;
    assert!(close(slope[0].0, -at_half, 1e-12));
    // at the start the first segment is taken
    let slope = method.derivative_at(Real(0.0)).unwrap();
    assert!(close(slope[0].0, -1.0, 1e-12));
    // before the start there is no row to take
    assert!(method.derivative_at(Real(-1.0)).is_none());
}
