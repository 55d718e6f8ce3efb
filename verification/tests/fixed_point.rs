use ngdl_rust::definitions::{InitialValueSystemProblem, SampleableFunction};
use ngdl_rust::euler_explicit::{explicit_euler_system_interval, ExplicitEulerStep};
use ngdl_rust::explicit_runge_kutta::{make_classic_runge_kutta, ExplicitRungeKuttaMethod};
use ngdl_rust::fixed::Fixed;
use ngdl_rust::generalized_explicit_one_step_method::OneStepMethodStep;
use ngdl_rust::embedded_rk::make_dopri5;
use ngdl_rust::scalar::{Elementary, Scalar};
use ngdl_rust::util::euclidean_norm;

const ONE: i64 = 1 << 32;

fn fixed(value: f64) -> Fixed {
    Fixed { raw: (value * ONE as f64) as i64 }
}

fn float(value: Fixed) -> f64 {
    value.raw as f64 / ONE as f64
}

/// The right-hand side `-x[0]`.
struct Decay;

impl SampleableFunction<(Fixed, Vec<Fixed>), Fixed> for Decay {
    fn accepts(&self, input: (Fixed, Vec<Fixed>)) -> bool {
        !input.1.is_empty()
    }
    fn value_spec(&self, input: (Fixed, Vec<Fixed>)) -> Fixed {
        self.value_at(input)
    }
    fn value_at(&self, input: (Fixed, Vec<Fixed>)) -> Fixed {
        input.1[0].neg()
    }
}

#[test]
fn fixed_point_arithmetic() {
    assert_eq!(fixed(1.5).plus(fixed(2.25)), fixed(3.75));
    assert_eq!(fixed(1.5).minus(fixed(2.25)), fixed(-0.75));
    assert_eq!(fixed(1.5).times(fixed(-2.5)), fixed(-3.75));
    assert_eq!(fixed(-1.5).times(fixed(-2.5)), fixed(3.75));
    assert_eq!(fixed(7.5).over(fixed(2.5)), fixed(3.0));
    assert_eq!(fixed(-7.5).over(fixed(2.5)), fixed(-3.0));
    assert_eq!(fixed(-1.5).abs(), fixed(1.5));
    assert_eq!(fixed(1.5).neg(), fixed(-1.5));
    assert!(fixed(1.5).lt(fixed(1.75)));
    assert!(!fixed(1.5).lt(fixed(1.5)));
    assert!(fixed(1.5).le(fixed(1.5)));
    assert_eq!(Fixed::ratio(3, 4), fixed(0.75));
    assert_eq!(Fixed::ratio(-3, 4), fixed(-0.75));
    assert_eq!(Fixed::count(7), fixed(7.0));
    assert_eq!(fixed(2.0).ceil(), 2);
    assert_eq!(fixed(2.25).ceil(), 3);
    assert_eq!(fixed(-2.25).ceil(), 0);
    assert_eq!(Fixed { raw: 1 }.ceil(), 1);
}

#[test]
fn fixed_point_rounds_towards_zero() {
    // 1/3 is cut off after 32 binary places
    assert_eq!(Fixed::ratio(1, 3), Fixed { raw: 0x5555_5555 });
    assert_eq!(Fixed::ratio(-1, 3), Fixed { raw: -0x5555_5555 });
    // the smallest number times one half is cut off to zero, from both sides
    assert_eq!(Fixed { raw: 1 }.times(fixed(0.5)), Fixed { raw: 0 });
    assert_eq!(Fixed { raw: -1 }.times(fixed(0.5)), Fixed { raw: 0 });
    assert_eq!(Fixed { raw: 3 }.times(fixed(0.5)), Fixed { raw: 1 });
    assert_eq!(Fixed { raw: -3 }.times(fixed(0.5)), Fixed { raw: -1 });
    assert_eq!(Fixed { raw: 3 }.over(fixed(2.0)), Fixed { raw: 1 });
    assert_eq!(Fixed { raw: -3 }.over(fixed(2.0)), Fixed { raw: -1 });
}

#[test]
fn fixed_point_saturates() {
    let max = Fixed { raw: i64::MAX };
    let min = Fixed { raw: i64::MIN };
    assert_eq!(max.plus(fixed(1.0)), max);
    assert_eq!(min.minus(fixed(1.0)), min);
    assert_eq!(max.times(fixed(2.0)), max);
    assert_eq!(max.times(fixed(-2.0)), min);
    assert_eq!(min.times(min), max);
    assert_eq!(min.neg(), max);
    assert_eq!(min.abs(), max);
    assert_eq!(fixed(1.0).over(fixed(0.0)), max);
    assert_eq!(fixed(-1.0).over(fixed(0.0)), min);
    assert_eq!(fixed(0.0).over(fixed(0.0)), max);
    assert_eq!(max.over(fixed(0.5)), max);
    assert_eq!(min.over(fixed(0.5)), min);
    assert_eq!(Fixed::ratio(i64::MAX, 1), max);
    assert_eq!(Fixed::ratio(1, 0), max);
    assert_eq!(Fixed::count(usize::MAX), max);
    assert_eq!(max.ceil(), 1 << 31);
}

#[test]
fn fixed_point_zero_step_is_exact() {
    let dfs = vec![Decay];
    for raw in [0, 1, -1, ONE, -ONE, 12345678901, i64::MAX, i64::MIN] {
        let state = vec![Fixed { raw }];
        let zero = Fixed { raw: 0 };
        assert_eq!(ExplicitEulerStep.step(&dfs, fixed(0.5), &state, zero), state);
        let method = ExplicitRungeKuttaMethod::new(ngdl_rust::butcher::dopri5_fifth_order_tableau());
        assert_eq!(method.step(&dfs, fixed(0.5), &state, zero), state);
    }
}

#[test]
fn fixed_point_follows_the_floating_point_solution() {
    let problem = || InitialValueSystemProblem::new(fixed(0.0), vec![fixed(1.0)], vec![Decay]);
    let rows = explicit_euler_system_interval(&problem(), fixed(0.125), fixed(1.0), 0);
    assert_eq!(rows.len(), 9);
    // 0.875 ^ 8 has 24 binary places
    assert_eq!(rows[8][0].y, fixed(0.875f64.powi(8)));
    assert_eq!(rows[8][0].x, fixed(1.0));
    let method = make_classic_runge_kutta(problem(), fixed(0.0625));
    let value = method.value_at(fixed(1.0));
    assert!((float(value[0]) - (-1.0f64).exp()).abs() < 1e-6);
}

#[test]
fn fixed_point_powers_and_roots() {
    assert_eq!(fixed(1.5).powi(3), fixed(3.375));
    assert_eq!(fixed(1.5).powi(0), fixed(1.0));
    assert_eq!(fixed(2.0).powi(-2), fixed(0.25));
    assert_eq!(fixed(-3.0).powi(2), fixed(9.0));
    assert_eq!(fixed(6.25).sqrt(), fixed(2.5));
    assert_eq!(fixed(0.0).sqrt(), fixed(0.0));
    assert_eq!(fixed(-4.0).sqrt(), fixed(0.0));
    // the root is rounded down to 32 binary places
    let root = fixed(2.0).sqrt();
    assert_eq!(root.raw, (2.0f64.sqrt() * ONE as f64).floor() as i64);
    assert_eq!(Fixed { raw: i64::MAX }.sqrt().raw, 0xb504_f333_f9de);
    assert_eq!(euclidean_norm(vec![fixed(3.0), fixed(4.0)]), fixed(5.0));
}

#[test]
fn fixed_point_elementary_functions() {
    assert_eq!(fixed(0.0).exp(), fixed(1.0));
    assert!((float(fixed(1.0).exp()) - 1.0f64.exp()).abs() < 1e-7);
    assert!((float(fixed(-1.0).exp()) - (-1.0f64).exp()).abs() < 1e-7);
    assert!((float(fixed(10.0).exp()) - 10.0f64.exp()).abs() < 1e-3);
    assert!((float(fixed(-10.0).exp()) - (-10.0f64).exp()).abs() < 1e-7);
    assert_eq!(fixed(30.0).exp(), Fixed { raw: i64::MAX });
    assert!((float(fixed(1.0).ln())).abs() < 1e-7);
    assert!((float(fixed(10.0).ln()) - 10.0f64.ln()).abs() < 1e-7);
    assert!((float(fixed(0.001).ln()) - 0.001f64.ln()).abs() < 1e-4);
    assert_eq!(fixed(0.0).ln(), Fixed { raw: i64::MIN });
    assert_eq!(fixed(-1.0).ln(), Fixed { raw: i64::MIN });
    assert_eq!(fixed(0.0).cos(), fixed(1.0));
    assert!((float(fixed(1.0).cos()) - 1.0f64.cos()).abs() < 1e-7);
    assert!((float(fixed(-1.0).cos()) - 1.0f64.cos()).abs() < 1e-7);
    assert!((float(fixed(3.0).cos()) - 3.0f64.cos()).abs() < 1e-7);
    assert!((float(fixed(100.0).cos()) - 100.0f64.cos()).abs() < 1e-6);
    assert!((float(fixed(2.0).powf(fixed(0.5))) - 2.0f64.sqrt()).abs() < 1e-7);
    assert!((float(fixed(32.0).powf(fixed(0.2))) - 2.0).abs() < 1e-7);
    assert_eq!(fixed(0.0).powf(fixed(0.5)), fixed(0.0));
    assert_eq!(fixed(-2.0).powf(fixed(2.0)), fixed(0.0));
}

#[test]
fn fixed_point_embedded_pair() {
    let problem = InitialValueSystemProblem::new(fixed(0.0), vec![fixed(1.0)], vec![Decay]);
    let mut method = make_dopri5(problem, fixed(0.5), fixed(1e-6));
    let rows = method.interval(fixed(1.0), 0).unwrap();
    let last = rows.last().unwrap();
    assert!(float(last[0].x) >= 1.0);
    assert!(rows.len() > 2);
    for two in rows.windows(2) {
        assert!(two[0][0].x.lt(two[1][0].x));
        assert!(two[1][0].y.lt(two[0][0].y));
        assert!(fixed(0.0).lt(two[1][0].y));
    }
}
