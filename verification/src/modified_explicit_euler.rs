use crate::definitions::{is_total, DifferentiableFunction, InitialValueProblem, Point2D};
use crate::generalized_explicit_one_step_method::step_limit;
use crate::scalar::Scalar;
use vstd::prelude::*;

verus! {

/// A rule that advances the value of one equation by one step of size `h`.
pub trait ScalarStep<S: Scalar> {
    /// Whether the rule may be applied.
    spec fn ready(&self) -> bool;

    /// The value that the rule reaches from `last_value` at time `t`.
    spec fn step_spec(&self, t: S, last_value: S, h: S) -> S;

    /// Advances `last_value` at time `t` by one step of size `h`.
    fn step(&self, t: S, last_value: S, h: S) -> (r: S)
        requires
            self.ready(),
        ensures
            r == self.step_spec(t, last_value, h),
    ;
}

/// What a driver for one equation still emits when it stands at time `t`
/// with the value `x`, with `skip` steps to pass over before the next
/// intermediate sample and `fuel` full steps left.
///
/// While `t + h < t_target` it takes a full step; the sample after a full
/// step is emitted where `skip` has run down to zero, which sets `skip` back
/// to `skip_n`. Then one last step of size `t_target - t` follows, whose
/// sample carries the time `t_target` and is always emitted.
pub open spec fn scalar_tail<S: Scalar, STEP: ScalarStep<S>>(
    step: STEP,
    h: S,
    t_target: S,
    skip_n: isize,
    t: S,
    x: S,
    skip: isize,
    fuel: nat,
) -> Seq<Point2D<S>>
    decreases fuel,
{
    if fuel > 0 && t.plus_spec(h).lt_spec(t_target) {
        let x2 = step.step_spec(t, x, h);
        let t2 = t.plus_spec(h);
        if skip <= 0 {
            seq![Point2D { x: t2, y: x2 }] + scalar_tail(
                step,
                h,
                t_target,
                skip_n,
                t2,
                x2,
                skip_n,
                (fuel - 1) as nat,
            )
        } else {
            scalar_tail(
                step,
                h,
                t_target,
                skip_n,
                t2,
                x2,
                (skip - 1) as isize,
                (fuel - 1) as nat,
            )
        }
    } else {
        seq![Point2D { x: t_target, y: step.step_spec(t, x, t_target.minus_spec(t)) }]
    }
}

/// The samples that a driver for one equation emits: the start, then what
/// [`scalar_tail`] says.
pub open spec fn scalar_samples<S: Scalar, STEP: ScalarStep<S>>(
    step: STEP,
    start_time: S,
    start_value: S,
    h: S,
    t_target: S,
    skip_n: isize,
) -> Seq<Point2D<S>> {
    seq![Point2D { x: start_time, y: start_value }] + scalar_tail(
        step,
        h,
        t_target,
        skip_n,
        start_time,
        start_value,
        skip_n,
        step_limit(),
    )
}

/// The tail of a driver for one equation is never empty, and its last
/// sample carries the target time.
pub proof fn lemma_scalar_tail<S: Scalar, STEP: ScalarStep<S>>(
    step: STEP,
    h: S,
    t_target: S,
    skip_n: isize,
    t: S,
    x: S,
    skip: isize,
    fuel: nat,
)
    ensures
        scalar_tail(step, h, t_target, skip_n, t, x, skip, fuel).len() >= 1,
        scalar_tail(step, h, t_target, skip_n, t, x, skip, fuel).last().x == t_target,
    decreases fuel,
{
    if fuel > 0 && t.plus_spec(h).lt_spec(t_target) {
        let x2 = step.step_spec(t, x, h);
        let t2 = t.plus_spec(h);
        if skip <= 0 {
            lemma_scalar_tail(step, h, t_target, skip_n, t2, x2, skip_n, (fuel - 1) as nat);
        } else {
            lemma_scalar_tail(
                step,
                h,
                t_target,
                skip_n,
                t2,
                x2,
                (skip - 1) as isize,
                (fuel - 1) as nat,
            );
        }
    }
}

/// Integrates one equation from `start_time` to `t_target` with the rule
/// `step` and returns the samples on the way.
///
/// The first sample is the start. Full steps of size `h` follow while
/// `t + h < t_target`; of their samples one in `skip_n + 1` is returned
/// (every one where `skip_n <= 0`). The last sample comes from one shorter
/// step of size `t_target - t`, is always returned, and carries the time
/// `t_target`. No more than [`step_limit`] full steps are taken.
pub fn scalar_interval<S: Scalar, STEP: ScalarStep<S>>(
    step: &STEP,
    start_time: S,
    start_value: S,
    h: S,
    t_target: S,
    skip_n: isize,
) -> (r: Vec<Point2D<S>>)
    requires
        step.ready(),
    ensures
        r@ == scalar_samples(*step, start_time, start_value, h, t_target, skip_n),
        r@.len() >= 2,
        r@[0] == (Point2D { x: start_time, y: start_value }),
        r@.last().x == t_target,
{
    let mut skip: isize = skip_n;
    let mut t = start_time;
    let mut val = start_value;
    let mut vals: Vec<Point2D<S>> = Vec::new();
    vals.push(Point2D { x: t, y: val });
    assert(vals@ =~= seq![Point2D { x: start_time, y: start_value }]);
    let mut steps: u64 = 0;
    while steps < u64::MAX && t.plus(h).lt(t_target)
        invariant
            step.ready(),
            vals@.len() >= 1,
            vals@[0] == (Point2D { x: start_time, y: start_value }),
            scalar_samples(*step, start_time, start_value, h, t_target, skip_n) == vals@
                + scalar_tail(
                *step,
                h,
                t_target,
                skip_n,
                t,
                val,
                skip,
                (u64::MAX - steps) as nat,
            ),
        decreases u64::MAX - steps,
    {
        let ghost before = vals@;
        let next = step.step(t, val, h);
        let t_next = t.plus(h);
        if skip <= 0 {
            vals.push(Point2D { x: t_next, y: next });
            skip = skip_n;
            proof {
                let sample = Point2D { x: t_next, y: next };
                let rest = scalar_tail(
                    *step,
                    h,
                    t_target,
                    skip_n,
                    t_next,
                    next,
                    skip_n,
                    (u64::MAX - steps - 1) as nat,
                );
                assert(before + (seq![sample] + rest) =~= before.push(sample) + rest);
            }
        } else {
            skip = skip - 1;
        }
        val = next;
        t = t_next;
        steps = steps + 1;
    }
    let last = step.step(t, val, t_target.minus(t));
    let ghost before = vals@;
    vals.push(Point2D { x: t_target, y: last });
    assert(vals@ =~= before + seq![Point2D { x: t_target, y: last }]);
    vals
}

/// The rule of the modified explicit Euler method for the right-hand side
/// `df`, which uses its derivative too:
/// `x + h * f(t, x) + h^2 / 2 * f'(t, x)`.
pub struct ModifiedExplicitEulerStep<FT> {
    /// The right-hand side with its derivative.
    pub df: FT,
}

/// One step of the modified explicit Euler method.
pub open spec fn modified_explicit_euler_step_spec<S: Scalar, FT: DifferentiableFunction<(S, S), S>>(
    df: FT,
    t: S,
    last_value: S,
    h: S,
) -> S {
    last_value.plus_spec(h.times_spec(df.value_spec((t, last_value)))).plus_spec(
        h.times_spec(h).over_spec(S::ratio_spec(2, 1)).times_spec(
            df.derivative_spec((t, last_value)),
        ),
    )
}

/// One step of the modified explicit Euler method.
fn modified_explicit_euler_step<S: Scalar, FT: DifferentiableFunction<(S, S), S>>(
    df: &FT,
    t: S,
    last_value: S,
    h: S,
) -> (r: S)
    requires
        is_total(*df),
    ensures
        r == modified_explicit_euler_step_spec(*df, t, last_value, h),
{
    last_value.plus(h.times(df.value_at((t, last_value)))).plus(
        h.times(h).over(S::ratio(2, 1)).times(df.derivative_at((t, last_value))),
    )
}

impl<S: Scalar, FT: DifferentiableFunction<(S, S), S>> ScalarStep<S> for ModifiedExplicitEulerStep<
    FT,
> {
    open spec fn ready(&self) -> bool {
        is_total(self.df)
    }

    open spec fn step_spec(&self, t: S, last_value: S, h: S) -> S {
        modified_explicit_euler_step_spec(self.df, t, last_value, h)
    }

    fn step(&self, t: S, last_value: S, h: S) -> (r: S) {
        modified_explicit_euler_step(&self.df, t, last_value, h)
    }
}

/// The modified explicit Euler method, from the start of `ivp` to
/// `t_target`; returns the samples on the way, see [`scalar_interval`].
pub fn modified_explicit_euler_interval<S: Scalar, FT: DifferentiableFunction<(S, S), S>>(
    ivp: InitialValueProblem<S, FT>,
    h: S,
    t_target: S,
    skip_n: isize,
) -> (r: Vec<Point2D<S>>)
    requires
        is_total(ivp.df),
    ensures
        r@ == scalar_samples(
            ModifiedExplicitEulerStep { df: ivp.df },
            ivp.start_time,
            ivp.start_value,
            h,
            t_target,
            skip_n,
        ),
        r@.len() >= 2,
        r@[0] == (Point2D { x: ivp.start_time, y: ivp.start_value }),
        r@.last().x == t_target,
{
    let rule = ModifiedExplicitEulerStep { df: ivp.df };
    scalar_interval(&rule, ivp.start_time, ivp.start_value, h, t_target, skip_n)
}

/// The modified explicit Euler method: the value at `t_target`.
pub fn modified_explicit_euler<S: Scalar, FT: DifferentiableFunction<(S, S), S>>(
    ivp: InitialValueProblem<S, FT>,
    h: S,
    t_target: S,
) -> (r: S)
    requires
        is_total(ivp.df),
    ensures
        r == scalar_samples(
            ModifiedExplicitEulerStep { df: ivp.df },
            ivp.start_time,
            ivp.start_value,
            h,
            t_target,
            0,
        ).last().y,
{
    let ps = modified_explicit_euler_interval(ivp, h, t_target, 0);
    ps[ps.len() - 1].y
}

} // verus!
