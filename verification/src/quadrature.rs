use crate::definitions::{is_total, Interval, SampleableFunction};
use crate::scalar::{zero, zero_spec, Elementary, Scalar};
use crate::util::{make_supporting_points, supporting_points_spec};
use vstd::prelude::*;

verus! {

/// What one run of a quadrature formula gave.
#[derive(Clone, Copy, Debug)]
pub struct QuadratureTestResult<S> {
    /// The value computed for the integral.
    pub value: S,
    /// The distance `|exact - value|` from the exact integral.
    pub abs_error: S,
    /// The number of parts into which the interval was split.
    pub splits_n: usize,
    /// The width of one part.
    pub h: S,
}

/// A quadrature formula: the rule for one part of the interval.
pub trait QuadratureFormula<S: Scalar, FT: SampleableFunction<S, S>> {
    /// What the formula gives for `f` on `interval`.
    spec fn apply_spec(&self, f: FT, interval: Interval<S>) -> S;

    /// Applies the formula to `f` on `interval`.
    fn apply(&self, f: &FT, interval: &Interval<S>) -> (r: S)
        requires
            is_total(*f),
        ensures
            r == self.apply_spec(*f, *interval),
    ;
}

/// The trapezoid formula: `span / 2 * (f(start) + f(end))`.
pub struct TrapezoidFormula;

/// Kepler's formula: `span / 6 * (f(start) + 4 * f(mid) + f(end))`.
pub struct KeplerFormula;

/// Newton's 3/8 formula:
/// `span / 8 * (f(start) + 3 * f(mid1) + 3 * f(mid2) + f(end))`.
pub struct NewtonThreeEightFormula;

/// The point `start + num/den * (end - start)` of an interval.
pub open spec fn point_at_spec<S: Scalar>(interval: Interval<S>, num: i64, den: i64) -> S {
    interval.start_spec().plus_spec(
        S::ratio_spec(num, den).times_spec(interval.end_spec().minus_spec(interval.start_spec())),
    )
}

/// The point `start + num/den * (end - start)` of an interval.
fn point_at<S: Scalar>(interval: &Interval<S>, num: i64, den: i64) -> (r: S)
    ensures
        r == point_at_spec(*interval, num, den),
{
    interval.start().plus(S::ratio(num, den).times(interval.end().minus(interval.start())))
}

impl<S: Scalar, FT: SampleableFunction<S, S>> QuadratureFormula<S, FT> for TrapezoidFormula {
    open spec fn apply_spec(&self, f: FT, interval: Interval<S>) -> S {
        interval.span_spec().over_spec(S::ratio_spec(2, 1)).times_spec(
            f.value_spec(interval.start_spec()).plus_spec(f.value_spec(interval.end_spec())),
        )
    }

    fn apply(&self, f: &FT, interval: &Interval<S>) -> (r: S) {
        interval.span().over(S::ratio(2, 1)).times(
            f.value_at(interval.start()).plus(f.value_at(interval.end())),
        )
    }
}

impl<S: Scalar, FT: SampleableFunction<S, S>> QuadratureFormula<S, FT> for KeplerFormula {
    open spec fn apply_spec(&self, f: FT, interval: Interval<S>) -> S {
        interval.span_spec().over_spec(S::ratio_spec(6, 1)).times_spec(
            f.value_spec(interval.start_spec()).plus_spec(
                S::ratio_spec(4, 1).times_spec(f.value_spec(point_at_spec(interval, 1, 2))),
            ).plus_spec(f.value_spec(interval.end_spec())),
        )
    }

    fn apply(&self, f: &FT, interval: &Interval<S>) -> (r: S) {
        let mid = point_at(interval, 1, 2);
        interval.span().over(S::ratio(6, 1)).times(
            f.value_at(interval.start()).plus(S::ratio(4, 1).times(f.value_at(mid))).plus(
                f.value_at(interval.end()),
            ),
        )
    }
}

impl<S: Scalar, FT: SampleableFunction<S, S>> QuadratureFormula<S, FT> for NewtonThreeEightFormula {
    open spec fn apply_spec(&self, f: FT, interval: Interval<S>) -> S {
        interval.span_spec().over_spec(S::ratio_spec(8, 1)).times_spec(
            f.value_spec(interval.start_spec()).plus_spec(
                S::ratio_spec(3, 1).times_spec(f.value_spec(point_at_spec(interval, 1, 3))),
            ).plus_spec(
                S::ratio_spec(3, 1).times_spec(f.value_spec(point_at_spec(interval, 2, 3))),
            ).plus_spec(f.value_spec(interval.end_spec())),
        )
    }

    fn apply(&self, f: &FT, interval: &Interval<S>) -> (r: S) {
        let mid1 = point_at(interval, 1, 3);
        let mid2 = point_at(interval, 2, 3);
        interval.span().over(S::ratio(8, 1)).times(
            f.value_at(interval.start()).plus(S::ratio(3, 1).times(f.value_at(mid1))).plus(
                S::ratio(3, 1).times(f.value_at(mid2)),
            ).plus(f.value_at(interval.end())),
        )
    }
}

/// The sum of what `method` gives on the first `count` parts between the
/// points, added up from the left, starting at zero.
pub open spec fn quadrature_sum_spec<
    S: Scalar,
    FT: SampleableFunction<S, S>,
    QT: QuadratureFormula<S, FT>,
>(method: QT, f: FT, points: Seq<S>, count: nat) -> S
    decreases count,
{
    if count == 0 {
        zero_spec::<S>()
    } else {
        quadrature_sum_spec(method, f, points, (count - 1) as nat).plus_spec(
            method.apply_spec(f, Interval::of(points[count - 1], points[count as int])),
        )
    }
}

/// The value that `method` gives for the integral of `f` over `interval`,
/// split into `n_splits` parts.
pub open spec fn quadrature_spec<
    S: Scalar,
    FT: SampleableFunction<S, S>,
    QT: QuadratureFormula<S, FT>,
>(method: QT, f: FT, interval: Interval<S>, n_splits: usize) -> S {
    quadrature_sum_spec(method, f, supporting_points_spec(n_splits, interval), n_splits as nat)
}

/// Adds up what `method` gives on each part between the points.
fn quadrature_with_supporting_points<
    S: Scalar,
    FT: SampleableFunction<S, S>,
    QT: QuadratureFormula<S, FT>,
>(method: &QT, f: &FT, points: &[S]) -> (r: S)
    requires
        is_total(*f),
        points@.len() >= 1,
    ensures
        r == quadrature_sum_spec(*method, *f, points@, (points@.len() - 1) as nat),
{
    let mut sum: S = zero();
    let mut i: usize = 0;
    while i < points.len() - 1
        invariant
            points@.len() >= 1,
            i <= points.len() - 1,
            is_total(*f),
            sum == quadrature_sum_spec(*method, *f, points@, i as nat),
        decreases points.len() - 1 - i,
    {
        let part = Interval::new(points[i], points[i + 1]);
        sum = sum.plus(method.apply(f, &part));
        i = i + 1;
    }
    sum
}

/// Approximates the integral of `f` over `interval`: splits the interval
/// into `n_splits` parts of equal width, applies `method` to each and adds up
/// the results.
pub fn quadrature<S: Scalar, FT: SampleableFunction<S, S>, QT: QuadratureFormula<S, FT>>(
    method: &QT,
    f: &FT,
    interval: Interval<S>,
    n_splits: usize,
) -> (r: S)
    requires
        is_total(*f),
    ensures
        r == quadrature_spec(*method, *f, interval, n_splits),
{
    let pts = make_supporting_points(n_splits, interval);
    quadrature_with_supporting_points(method, f, pts.as_slice())
}

/// The result of the run with `n` parts.
pub open spec fn quadrature_result_spec<
    S: Scalar,
    FT: SampleableFunction<S, S>,
    QT: QuadratureFormula<S, FT>,
>(method: QT, f: FT, exact: S, interval: Interval<S>, n: usize) -> QuadratureTestResult<S> {
    QuadratureTestResult {
        value: quadrature_spec(method, f, interval, n),
        abs_error: exact.minus_spec(quadrature_spec(method, f, interval, n)).abs_spec(),
        splits_n: n,
        h: interval.span_spec().over_spec(S::count_spec(n)),
    }
}

/// Runs `method` for every number of parts from 1 to `up_to_splits`, and
/// returns the results in that order.
pub fn quadrature_test_run<S: Scalar, FT: SampleableFunction<S, S>, QT: QuadratureFormula<S, FT>>(
    method: &QT,
    f: FT,
    exact: S,
    interval: Interval<S>,
    up_to_splits: usize,
) -> (r: Vec<QuadratureTestResult<S>>)
    requires
        is_total(f),
    ensures
        r@.len() == up_to_splits,
        forall|i: int|
            0 <= i < up_to_splits ==> #[trigger] r@[i] == quadrature_result_spec(
                *method,
                f,
                exact,
                interval,
                (i + 1) as usize,
            ),
{
    let mut out: Vec<QuadratureTestResult<S>> = Vec::new();
    let mut done: usize = 0;
    while done < up_to_splits
        invariant
            done <= up_to_splits,
            is_total(f),
            out@.len() == done,
            forall|i: int|
                0 <= i < done ==> #[trigger] out@[i] == quadrature_result_spec(
                    *method,
                    f,
                    exact,
                    interval,
                    (i + 1) as usize,
                ),
        decreases up_to_splits - done,
    {
        let n = done + 1;
        let value = quadrature(method, &f, interval, n);
        out.push(
            QuadratureTestResult {
                value,
                abs_error: exact.minus(value).abs(),
                splits_n: n,
                h: interval.span().over(S::count(n)),
            },
        );
        done = n;
    }
    out
}

/// The order of convergence that two runs show:
/// `(ln e2 - ln e1) / (ln h2 - ln h1)`.
pub fn get_convergence_order<S: Elementary>(
    run1: &QuadratureTestResult<S>,
    run2: &QuadratureTestResult<S>,
) -> (r: S)
    ensures
        r == run2.abs_error.ln_spec().minus_spec(run1.abs_error.ln_spec()).over_spec(
            run2.h.ln_spec().minus_spec(run1.h.ln_spec()),
        ),
{
    run2.abs_error.ln().minus(run1.abs_error.ln()).over(run2.h.ln().minus(run1.h.ln()))
}

} // verus!
