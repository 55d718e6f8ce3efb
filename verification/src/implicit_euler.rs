use crate::definitions::{
    is_total, ClosureDifferentiableFunction, InitialValueProblem, Point2D, SampleableFunction,
    SimpleDifferentiableFunction,
};
use crate::modified_explicit_euler::{scalar_interval, scalar_samples, ScalarStep};
use crate::newton_method::{newton_method, newton_method_spec};
use crate::scalar::Scalar;
use vstd::prelude::*;

verus! {

/// The equation of a step of the implicit Euler method, as a function of the
/// point `(t, x)` and the data `(last, delta, g)`:
/// `last + delta * g.f(t + delta, x) - x`.
#[derive(Clone, Copy, Debug)]
pub struct ImplicitEulerEquation;

/// The derivative by `x` of [`ImplicitEulerEquation`]:
/// `delta * g.df(t + delta, x) - 1`.
#[derive(Clone, Copy, Debug)]
pub struct ImplicitEulerEquationDerivative;

impl<S: Scalar, F: SampleableFunction<(S, S), S>, DF: SampleableFunction<(S, S), S>>
    SampleableFunction<((S, S), (S, S, SimpleDifferentiableFunction<F, DF>)), S> for ImplicitEulerEquation {
    open spec fn accepts(&self, input: ((S, S), (S, S, SimpleDifferentiableFunction<F, DF>))) -> bool {
        is_total(input.1.2.f)
    }

    open spec fn value_spec(
        &self,
        input: ((S, S), (S, S, SimpleDifferentiableFunction<F, DF>)),
    ) -> S {
        input.1.0.plus_spec(
            input.1.1.times_spec(
                input.1.2.f.value_spec((input.0.0.plus_spec(input.1.1), input.0.1)),
            ),
        ).minus_spec(input.0.1)
    }

    fn value_at(&self, input: ((S, S), (S, S, SimpleDifferentiableFunction<F, DF>))) -> (r: S) {
        let ((t, x), (last, delta, g)) = input;
        last.plus(delta.times(g.f.value_at((t.plus(delta), x)))).minus(x)
    }
}

impl<S: Scalar, F: SampleableFunction<(S, S), S>, DF: SampleableFunction<(S, S), S>>
    SampleableFunction<
    ((S, S), (S, S, SimpleDifferentiableFunction<F, DF>)),
    S,
> for ImplicitEulerEquationDerivative {
    open spec fn accepts(&self, input: ((S, S), (S, S, SimpleDifferentiableFunction<F, DF>))) -> bool {
        is_total(input.1.2.df)
    }

    open spec fn value_spec(
        &self,
        input: ((S, S), (S, S, SimpleDifferentiableFunction<F, DF>)),
    ) -> S {
        input.1.1.times_spec(
            input.1.2.df.value_spec((input.0.0.plus_spec(input.1.1), input.0.1)),
        ).minus_spec(S::ratio_spec(1, 1))
    }

    fn value_at(&self, input: ((S, S), (S, S, SimpleDifferentiableFunction<F, DF>))) -> (r: S) {
        let ((t, x), (_last, delta, g)) = input;
        delta.times(g.df.value_at((t.plus(delta), x))).minus(S::ratio(1, 1))
    }
}

/// The equation of the step from `val` with the step size `h`, with its
/// derivative.
pub open spec fn implicit_euler_equation<S: Scalar, F, DF>(
    df: SimpleDifferentiableFunction<F, DF>,
    val: S,
    h: S,
) -> ClosureDifferentiableFunction<
    (S, S, SimpleDifferentiableFunction<F, DF>),
    ImplicitEulerEquation,
    ImplicitEulerEquationDerivative,
> {
    ClosureDifferentiableFunction {
        data: (val, h, df),
        f: ImplicitEulerEquation,
        df: ImplicitEulerEquationDerivative,
    }
}

/// One step of the implicit Euler method: the root `x` of
/// `val + h * f(t + h, x) - x` that Newton's method finds from `val`, with
/// the bound `h / 1000`.
pub open spec fn implicit_euler_step_spec<
    S: Scalar,
    F: SampleableFunction<(S, S), S> + Copy,
    DF: SampleableFunction<(S, S), S> + Copy,
>(df: SimpleDifferentiableFunction<F, DF>, t: S, val: S, h: S) -> S {
    newton_method_spec(
        implicit_euler_equation(df, val, h),
        t,
        val,
        S::ratio_spec(1, 1000).times_spec(h),
    )
}

/// One step of the implicit Euler method.
fn implicit_euler_step<
    S: Scalar,
    F: SampleableFunction<(S, S), S> + Copy,
    DF: SampleableFunction<(S, S), S> + Copy,
>(df: SimpleDifferentiableFunction<F, DF>, t: S, val: S, h: S) -> (r: S)
    requires
        is_total(df.f),
        is_total(df.df),
    ensures
        r == implicit_euler_step_spec(df, t, val, h),
{
    let func = ClosureDifferentiableFunction::new(
        (val, h, df),
        ImplicitEulerEquation,
        ImplicitEulerEquationDerivative,
    );
    assert(func == implicit_euler_equation(df, val, h));
    assert forall|p: (S, S)| #[trigger] func.accepts(p) by {
        assert(ImplicitEulerEquation.accepts((p, (val, h, df))));
        assert(ImplicitEulerEquationDerivative.accepts((p, (val, h, df))));
    }
    newton_method(func, t, val, S::ratio(1, 1000).times(h))
}

/// The rule of the implicit Euler method for the right-hand side `df`.
pub struct ImplicitEulerStep<F, DF> {
    /// The right-hand side with its derivative.
    pub df: SimpleDifferentiableFunction<F, DF>,
}

impl<
    S: Scalar,
    F: SampleableFunction<(S, S), S> + Copy,
    DF: SampleableFunction<(S, S), S> + Copy,
> ScalarStep<S> for ImplicitEulerStep<F, DF> {
    open spec fn ready(&self) -> bool {
        is_total(self.df.f) && is_total(self.df.df)
    }

    open spec fn step_spec(&self, t: S, last_value: S, h: S) -> S {
        implicit_euler_step_spec(self.df, t, last_value, h)
    }

    fn step(&self, t: S, last_value: S, h: S) -> (r: S) {
        implicit_euler_step(self.df, t, last_value, h)
    }
}

/// The implicit Euler method, from the start of `ivp` to `t_target`;
/// returns the samples on the way, see [`scalar_interval`]. Each step solves
/// its equation with Newton's method.
pub fn implicit_euler_interval<
    S: Scalar,
    F: SampleableFunction<(S, S), S> + Copy,
    DF: SampleableFunction<(S, S), S> + Copy,
>(ivp: InitialValueProblem<S, SimpleDifferentiableFunction<F, DF>>, h: S, t_target: S, skip_n: isize) -> (r:
    Vec<Point2D<S>>)
    requires
        is_total(ivp.df.f),
        is_total(ivp.df.df),
    ensures
        r@ == scalar_samples(
            ImplicitEulerStep { df: ivp.df },
            ivp.start_time,
            ivp.start_value,
            h,
            t_target,
            skip_n,
        ),
        r@.len() >= 2,
        r@[0] == (Point2D { x: ivp.start_time, y: ivp.start_value }),
        r@.last().x == t_target,
{
    let rule = ImplicitEulerStep { df: ivp.df };
    scalar_interval(&rule, ivp.start_time, ivp.start_value, h, t_target, skip_n)
}

/// The implicit Euler method: the value at `t_target`.
pub fn implicit_euler<
    S: Scalar,
    F: SampleableFunction<(S, S), S> + Copy,
    DF: SampleableFunction<(S, S), S> + Copy,
>(ivp: InitialValueProblem<S, SimpleDifferentiableFunction<F, DF>>, h: S, t_target: S) -> (r: S)
    requires
        is_total(ivp.df.f),
        is_total(ivp.df.df),
    ensures
        r == scalar_samples(
            ImplicitEulerStep { df: ivp.df },
            ivp.start_time,
            ivp.start_value,
            h,
            t_target,
            0,
        ).last().y,
{
    let ps = implicit_euler_interval(ivp, h, t_target, 0);
    ps[ps.len() - 1].y
}

/// Runs the implicit Euler method for every step size in `h`, side by side,
/// and returns the samples of each run in the order of the step sizes.
pub fn implicit_euler_interval_test_run<
    S: Scalar + Send + Sync,
    F: SampleableFunction<(S, S), S> + Copy + Send + Sync,
    DF: SampleableFunction<(S, S), S> + Copy + Send + Sync,
>(
    ivp: InitialValueProblem<S, SimpleDifferentiableFunction<F, DF>>,
    h: &[S],
    t_target: S,
    skip_n: isize,
) -> (r: Vec<Vec<Point2D<S>>>)
    requires
        is_total(ivp.df.f),
        is_total(ivp.df.df),
    ensures
        r@.len() == h@.len(),
        forall|i: int|
            0 <= i < h@.len() ==> (#[trigger] r@[i])@ == scalar_samples(
                ImplicitEulerStep { df: ivp.df },
                ivp.start_time,
                ivp.start_value,
                h@[i],
                t_target,
                skip_n,
            ),
{
    let run = |h: &S| -> (samples: Vec<Point2D<S>>)
        requires
            is_total(ivp.df.f),
            is_total(ivp.df.df),
        ensures
            samples@ == scalar_samples(
                ImplicitEulerStep { df: ivp.df },
                ivp.start_time,
                ivp.start_value,
                *h,
                t_target,
                skip_n,
            ),
        {
            implicit_euler_interval(ivp, *h, t_target, skip_n)
        };
    crate::parallel::parallel_map(h, run)
}

} // verus!
