use crate::definitions::{
    eval_all, evaluate_all, is_total, pointwise_difference, pointwise_sum, rows_spec, scaled,
    snapshot_spec, values_of, values_spec, ClosureSampleableFunction, FirstComponent,
    InitialValueProblem, InitialValueSystemProblem, Point2D, PointwiseAdd, PointwiseSub,
    SampleableFunction, ScalarMul,
};
use crate::generalized_explicit_one_step_method::{
    ends_at, one_step_interval, one_step_rows, one_step_rows_from, OneStepMethod,
    OneStepMethodStep,
};
use crate::scalar::{is_exact_zero, Elementary, Scalar};
use crate::util::{euclidean_norm, squares_spec, sum_spec};
use vstd::prelude::*;

verus! {

/// The step of the explicit Euler method, for systems of any size:
/// `next[i] = dfs[i](t, last) * h + last[i]`.
pub struct ExplicitEulerStep;

/// The state after one step of the explicit Euler method.
pub open spec fn euler_step_spec<S: Scalar, FT: SampleableFunction<(S, Vec<S>), S>>(
    dfs: Seq<FT>,
    t: S,
    last_values: Seq<S>,
    h: S,
) -> Seq<S> {
    pointwise_sum(scaled(eval_all(dfs, t, last_values), h), last_values)
}

impl<S: Scalar, FT: SampleableFunction<(S, Vec<S>), S>> OneStepMethodStep<S, FT> for ExplicitEulerStep {
    open spec fn step_spec(&self, dfs: Seq<FT>, t: S, last_values: Seq<S>, h: S) -> Seq<S> {
        euler_step_spec(dfs, t, last_values, h)
    }

    proof fn lemma_step_len(&self, dfs: Seq<FT>, t: S, last_values: Seq<S>, h: S) {
    }

    fn step(&self, dfs: &[FT], t: S, last_values: &[S], h: S) -> (r: Vec<S>) {
        let last_values_owned = crate::definitions::copy_of(last_values);
        evaluate_all(dfs, t, last_values).scalar_mul(h).pointwise_add(last_values_owned)
    }
}

/// A step of size zero of the explicit Euler method leaves the state as it
/// is, in every arithmetic in which the step size is an exact zero.
pub proof fn lemma_euler_zero_step<S: Scalar, FT: SampleableFunction<(S, Vec<S>), S>>(
    dfs: Seq<FT>,
    t: S,
    state: Seq<S>,
    zero: S,
)
    requires
        dfs.len() == state.len(),
        is_exact_zero(zero),
    ensures
        euler_step_spec(dfs, t, state, zero) == state,
{
    assert(euler_step_spec(dfs, t, state, zero) =~= state);
}

/// The explicit Euler method for the system `ivp` with steps of size `h`.
pub fn make_explicit_euler_method_system<S: Scalar, FT: SampleableFunction<(S, Vec<S>), S>>(
    ivp: InitialValueSystemProblem<S, FT>,
    h: S,
) -> (r: OneStepMethod<S, FT, ExplicitEulerStep>)
    requires
        ivp.wf(),
    ensures
        r.step_method() == ExplicitEulerStep,
        r.problem() == ivp,
        r.step_size() == h,
{
    OneStepMethod::new(ExplicitEulerStep, ivp, h)
}

/// The explicit Euler method for a system, from the start of `ivp` to
/// `t_target`; returns the states on the way as rows of samples. Lands on
/// `t_target` whether or not `h` divides the distance.
pub fn explicit_euler_system_interval<S: Scalar, FT: SampleableFunction<(S, Vec<S>), S>>(
    ivp: &InitialValueSystemProblem<S, FT>,
    h: S,
    t_target: S,
    skip_n: isize,
) -> (r: Vec<Vec<Point2D<S>>>)
    requires
        ivp.wf(),
    ensures
        rows_spec(r@) == one_step_rows(ExplicitEulerStep, *ivp, h, t_target, skip_n),
        r@.len() >= 2,
        r@[0]@ == snapshot_spec(ivp.start_time, ivp.start_values@),
        ends_at(rows_spec(r@), ivp.dfs@.len(), t_target),
{
    one_step_interval(&ExplicitEulerStep, ivp, h, t_target, skip_n)
}

/// The explicit Euler method for a system: the state at `t_target`.
pub fn explicit_euler_system<S: Scalar, FT: SampleableFunction<(S, Vec<S>), S>>(
    ivp: &InitialValueSystemProblem<S, FT>,
    h: S,
    t_target: S,
) -> (r: Vec<S>)
    requires
        ivp.wf(),
    ensures
        r@ == values_spec(one_step_rows(ExplicitEulerStep, *ivp, h, t_target, 0).last()),
        r@.len() == ivp.dfs@.len(),
{
    let results = explicit_euler_system_interval(ivp, h, t_target, 0);
    let last = &results[results.len() - 1];
    assert(rows_spec(results@).last() == last@);
    values_of(last.as_slice())
}

/// The system of one equation with the right-hand side `df`.
pub open spec fn scalar_system<FT>(df: FT) -> Seq<ClosureSampleableFunction<FT, FirstComponent>> {
    seq![ClosureSampleableFunction { data: df, f: FirstComponent }]
}

/// The first samples of the rows.
pub open spec fn first_samples<S>(rows: Seq<Seq<Point2D<S>>>) -> Seq<Point2D<S>> {
    Seq::new(rows.len(), |j: int| rows[j][0])
}

/// The samples that the explicit Euler method emits for the problem `ivp` of
/// one equation.
pub open spec fn explicit_euler_samples<S: Scalar, FT: SampleableFunction<(S, S), S> + Copy>(
    ivp: InitialValueProblem<S, FT>,
    h: S,
    t_target: S,
    skip_n: isize,
) -> Seq<Point2D<S>> {
    first_samples(
        one_step_rows_from(
            ExplicitEulerStep,
            scalar_system(ivp.df),
            ivp.start_time,
            seq![ivp.start_value],
            h,
            t_target,
            skip_n,
        ),
    )
}

/// The explicit Euler method for one equation, from the start of `ivp` to
/// `t_target`; returns the samples on the way. Lands on `t_target` whether
/// or not `h` divides the distance.
pub fn explicit_euler_interval<S: Scalar, FT: SampleableFunction<(S, S), S> + Copy>(
    ivp: InitialValueProblem<S, FT>,
    h: S,
    t_target: S,
    skip_n: isize,
) -> (r: Vec<Point2D<S>>)
    requires
        is_total(ivp.df),
    ensures
        r@ == explicit_euler_samples(ivp, h, t_target, skip_n),
        r@.len() >= 2,
        r@[0] == (Point2D { x: ivp.start_time, y: ivp.start_value }),
        r@.last().x == t_target,
{
    let problem = ivp.to_system_problem();
    let rows = explicit_euler_system_interval(&problem, h, t_target, skip_n);
    let mut out: Vec<Point2D<S>> = Vec::new();
    let mut j: usize = 0;
    while j < rows.len()
        invariant
            j <= rows.len(),
            ends_at(rows_spec(rows@), 1, t_target),
            out@.len() == j,
            forall|i: int| 0 <= i < j ==> out@[i] == first_samples(rows_spec(rows@))[i],
        decreases rows.len() - j,
    {
        assert(rows_spec(rows@)[j as int].len() == 1);
        out.push(rows[j][0]);
        j = j + 1;
    }
    assert(out@ =~= first_samples(rows_spec(rows@)));
    assert(out@.last() == rows_spec(rows@).last()[0]);
    out
}

/// The explicit Euler method for one equation: the value at `t_target`.
pub fn explicit_euler<S: Scalar, FT: SampleableFunction<(S, S), S> + Copy>(
    ivp: InitialValueProblem<S, FT>,
    h: S,
    t_target: S,
) -> (r: S)
    requires
        is_total(ivp.df),
    ensures
        r == explicit_euler_samples(ivp, h, t_target, 0).last().y,
{
    let ps = explicit_euler_interval(ivp, h, t_target, 0);
    ps[ps.len() - 1].y
}

/// Runs the explicit Euler method for every step size in `h`, side by side,
/// and returns the values at `t_target` in the order of the step sizes.
pub fn explicit_euler_test_run<
    S: Scalar + Send + Sync,
    FT: SampleableFunction<(S, S), S> + Copy + Send + Sync,
>(ivp: InitialValueProblem<S, FT>, h: &[S], t_target: S) -> (r: Vec<S>)
    requires
        is_total(ivp.df),
    ensures
        r@.len() == h@.len(),
        forall|i: int|
            0 <= i < h@.len() ==> #[trigger] r@[i] == explicit_euler_samples(
                ivp,
                h@[i],
                t_target,
                0,
            ).last().y,
{
    let run = |h: &S| -> (value: S)
        requires
            is_total(ivp.df),
        ensures
            value == explicit_euler_samples(ivp, *h, t_target, 0).last().y,
        {
            explicit_euler(ivp, *h, t_target)
        };
    crate::parallel::parallel_map(h, run)
}

/// Runs the explicit Euler method for every step size in `h`, side by side,
/// and returns the samples of each run in the order of the step sizes.
pub fn explicit_euler_interval_test_run<
    S: Scalar + Send + Sync,
    FT: SampleableFunction<(S, S), S> + Copy + Send + Sync,
>(ivp: InitialValueProblem<S, FT>, h: &[S], t_target: S, skip_n: isize) -> (r: Vec<
    Vec<Point2D<S>>,
>)
    requires
        is_total(ivp.df),
    ensures
        r@.len() == h@.len(),
        forall|i: int|
            0 <= i < h@.len() ==> (#[trigger] r@[i])@ == explicit_euler_samples(
                ivp,
                h@[i],
                t_target,
                skip_n,
            ),
{
    let run = |h: &S| -> (samples: Vec<Point2D<S>>)
        requires
            is_total(ivp.df),
        ensures
            samples@ == explicit_euler_samples(ivp, *h, t_target, skip_n),
        {
            explicit_euler_interval(ivp, *h, t_target, skip_n)
        };
    crate::parallel::parallel_map(h, run)
}

/// The right-hand side of the relaxation of two components into each other:
/// `(-x[0] + x[1], x[0] - x[1])`.
pub open spec fn relaxation_spec<S: Scalar>(x: Seq<S>) -> Seq<S> {
    seq![x[0].neg_spec().plus_spec(x[1]), x[0].minus_spec(x[1])]
}

/// The residual of the polygon of the explicit Euler method in the
/// relaxation system `x' = (-x[0] + x[1], x[0] - x[1])`: the Euclidean norm
/// of the difference between the slope of the polygon and the right-hand
/// side at the state of the polygon.
pub struct ResidualFunction<S: Scalar, FT: SampleableFunction<(S, Vec<S>), S>> {
    /// The method whose polygon is measured.
    pub method: OneStepMethod<S, FT, ExplicitEulerStep>,
}

impl<S: Elementary, FT: SampleableFunction<(S, Vec<S>), S>> SampleableFunction<S, S> for ResidualFunction<
    S,
    FT,
> {
    open spec fn accepts(&self, input: S) -> bool {
        self.method.problem().dfs@.len() >= 2 && self.method.derivative_spec(input).is_some()
    }

    open spec fn value_spec(&self, input: S) -> S {
        sum_spec(
            squares_spec(
                pointwise_difference(
                    self.method.derivative_spec(input).unwrap(),
                    relaxation_spec(self.method.value_spec(input)),
                ),
            ),
        ).sqrt_spec()
    }

    fn value_at(&self, input: S) -> (r: S) {
        let state = self.method.value_at(input);
        let mut f_state: Vec<S> = Vec::new();
        f_state.push(state[0].neg().plus(state[1]));
        f_state.push(state[0].minus(state[1]));
        assert(f_state@ =~= relaxation_spec(state@));
        let slope = self.method.derivative_at(input).unwrap();
        euclidean_norm(slope.pointwise_sub(f_state))
    }
}

/// The residual of the explicit Euler method with steps of size `h` for the
/// relaxation system with the start of `ivp`, as a function of the time.
pub fn get_residual_function<S: Elementary, FT: SampleableFunction<(S, Vec<S>), S>>(
    ivp: InitialValueSystemProblem<S, FT>,
    h: S,
) -> (r: ResidualFunction<S, FT>)
    requires
        ivp.wf(),
    ensures
        r.method.step_method() == ExplicitEulerStep,
        r.method.problem() == ivp,
        r.method.step_size() == h,
{
    ResidualFunction { method: make_explicit_euler_method_system(ivp, h) }
}

} // verus!
