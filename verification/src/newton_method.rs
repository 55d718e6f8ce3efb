use crate::definitions::{is_total, DifferentiableFunction, SampleableFunction};
use crate::generalized_explicit_one_step_method::step_limit;
use crate::scalar::Scalar;
use vstd::prelude::*;

verus! {

/// One step of Newton's method: `x - f(t, x) / f'(t, x)`.
pub open spec fn newton_step_spec<S: Scalar, F: DifferentiableFunction<(S, S), S>>(
    func: F,
    t: S,
    val: S,
) -> S {
    val.minus_spec(func.value_spec((t, val)).over_spec(func.derivative_spec((t, val))))
}

/// The iterate at which Newton's method stops when it stands at `current`
/// with `fuel` steps left: the first for which `|f(t, x)| > eps` fails.
pub open spec fn newton_iterate_spec<S: Scalar, F: DifferentiableFunction<(S, S), S>>(
    func: F,
    t: S,
    current: S,
    eps: S,
    fuel: nat,
) -> S
    decreases fuel,
{
    if fuel > 0 && eps.lt_spec(func.value_spec((t, current)).abs_spec()) {
        newton_iterate_spec(func, t, newton_step_spec(func, t, current), eps, (fuel - 1) as nat)
    } else {
        current
    }
}

/// What Newton's method returns: the start where `|f(t, start)| < eps`, else
/// the iterate at which it stops after at least one step.
pub open spec fn newton_method_spec<S: Scalar, F: DifferentiableFunction<(S, S), S>>(
    func: F,
    t: S,
    start_x: S,
    eps: S,
) -> S {
    if func.value_spec((t, start_x)).abs_spec().lt_spec(eps) {
        start_x
    } else {
        newton_iterate_spec(func, t, newton_step_spec(func, t, start_x), eps, step_limit())
    }
}

/// One step of Newton's method.
fn newton_step<S: Scalar, F: DifferentiableFunction<(S, S), S>>(func: &F, t: S, val: S) -> (r: S)
    requires
        is_total(*func),
    ensures
        r == newton_step_spec(*func, t, val),
{
    val.minus(func.value_at((t, val)).over(func.derivative_at((t, val))))
}

/// Newton's method for a root of `x -> func(t, x)`, started at `start_x`:
/// steps `x - f(t, x) / f'(t, x)` follow one another until
/// `|f(t, x)| > eps` fails, and no more than [`step_limit`] after the first.
/// Where `|f(t, start_x)| < eps` no step is taken.
pub fn newton_method<S: Scalar, F: DifferentiableFunction<(S, S), S>>(
    func: F,
    t: S,
    start_x: S,
    eps: S,
) -> (r: S)
    requires
        is_total(func),
    ensures
        r == newton_method_spec(func, t, start_x, eps),
{
    if func.value_at((t, start_x)).abs().lt(eps) {
        return start_x;
    }
    let mut current = newton_step(&func, t, start_x);
    let mut steps: u64 = 0;
    while steps < u64::MAX && eps.lt(func.value_at((t, current)).abs())
        invariant
            is_total(func),
            newton_method_spec(func, t, start_x, eps) == newton_iterate_spec(
                func,
                t,
                current,
                eps,
                (u64::MAX - steps) as nat,
            ),
        decreases u64::MAX - steps,
    {
        current = newton_step(&func, t, current);
        steps = steps + 1;
    }
    current
}

} // verus!
