use crate::definitions::{
    copy_of, rows_spec, snapshot, snapshot_spec, InitialValueSystemProblem, Point2D,
    SampleableFunction,
};
use crate::explicit_runge_kutta::{ExplicitRungeKuttaMethod, Tableau};
use crate::generalized_explicit_one_step_method::{
    one_step_value, one_step_value_at, step_limit,
};
use crate::scalar::{larger, larger_spec, smaller, smaller_spec, zero, zero_spec, Elementary, Scalar};
use vstd::prelude::*;

verus! {

/// The error estimate of a step: the largest of
/// `|high[i] - low[i]| / (1 + |last[i]|)` over the first `count` components,
/// and zero where there is none.
pub open spec fn error_estimate_spec<S: Scalar>(
    high: Seq<S>,
    low: Seq<S>,
    last_values: Seq<S>,
    count: nat,
) -> S
    decreases count,
{
    if count == 0 {
        zero_spec::<S>()
    } else {
        let i = count - 1;
        larger_spec(
            error_estimate_spec(high, low, last_values, i as nat),
            high[i].minus_spec(low[i]).abs_spec().over_spec(
                S::ratio_spec(1, 1).plus_spec(last_values[i].abs_spec()),
            ),
        )
    }
}

/// The step size after an attempt with the step size `h` and the error
/// estimate `err`: `min(2, max(1/2, 9/10 * (tol / err) ^ (1 / (order + 1)))) * h`.
pub open spec fn adapted_step_size_spec<S: Elementary>(
    h: S,
    err: S,
    tolerance: S,
    lower_order: usize,
) -> S {
    smaller_spec(
        S::ratio_spec(2, 1),
        larger_spec(
            S::ratio_spec(1, 2),
            S::ratio_spec(9, 10).times_spec(
                tolerance.over_spec(err).powf_spec(
                    S::ratio_spec(1, 1).over_spec(
                        S::count_spec(lower_order).plus_spec(S::ratio_spec(1, 1)),
                    ),
                ),
            ),
        ),
    ).times_spec(h)
}

/// Computes the error estimate of a step from its two results.
pub fn error_estimate<S: Scalar>(high: &[S], low: &[S], last_values: &[S]) -> (r: S)
    requires
        high@.len() == low@.len(),
        high@.len() == last_values@.len(),
    ensures
        r == error_estimate_spec(high@, low@, last_values@, high@.len()),
{
    let mut err: S = zero();
    let mut i: usize = 0;
    while i < high.len()
        invariant
            i <= high.len(),
            high@.len() == low@.len(),
            high@.len() == last_values@.len(),
            err == error_estimate_spec(high@, low@, last_values@, i as nat),
        decreases high.len() - i,
    {
        let scaled = high[i].minus(low[i]).abs().over(S::ratio(1, 1).plus(last_values[i].abs()));
        err = larger(err, scaled);
        i = i + 1;
    }
    err
}

/// Computes the step size after an attempt.
pub fn adapted_step_size<S: Elementary>(h: S, err: S, tolerance: S, lower_order: usize) -> (r: S)
    ensures
        r == adapted_step_size_spec(h, err, tolerance, lower_order),
{
    let exponent = S::ratio(1, 1).over(S::count(lower_order).plus(S::ratio(1, 1)));
    let factor = S::ratio(9, 10).times(tolerance.over(err).powf(exponent));
    smaller(S::ratio(2, 1), larger(S::ratio(1, 2), factor)).times(h)
}

/// What is fixed during a run of an embedded pair: the two methods, the
/// order of the lower one, the tolerance and the number of attempts that a
/// step may take.
pub struct EmbeddedPair<S> {
    /// The method of the higher order, whose result is kept.
    pub method: ExplicitRungeKuttaMethod<S>,
    /// The method of the lower order, which the error is estimated with.
    pub method_lower: ExplicitRungeKuttaMethod<S>,
    /// The order of the lower method.
    pub lower_order: usize,
    /// The largest error estimate with which a step is accepted.
    pub tolerance: S,
    /// The number of attempts after which a step is given up.
    pub max_attempts: usize,
}

/// How an attempted step ended.
pub struct Attempt<S> {
    /// The state after the step, where an attempt was accepted.
    pub values: Option<Seq<S>>,
    /// The step size after the last attempt.
    pub step_size: S,
    /// The step size of the last attempt.
    pub used_step_size: S,
}

impl<S: Elementary> EmbeddedPair<S> {
    /// The result of the higher order for the step of size `h` from the time
    /// `t`: the state at `t + h` that a run of its own reaches from the start
    /// of the problem with steps of size `h`.
    pub open spec fn high<FT: SampleableFunction<(S, Vec<S>), S>>(
        self,
        ivp: InitialValueSystemProblem<S, FT>,
        t: S,
        h: S,
    ) -> Seq<S> {
        one_step_value(self.method, ivp, h, t.plus_spec(h))
    }

    /// The result of the lower order for the step of size `h` from the time
    /// `t`, computed like that of the higher order.
    pub open spec fn low<FT: SampleableFunction<(S, Vec<S>), S>>(
        self,
        ivp: InitialValueSystemProblem<S, FT>,
        t: S,
        h: S,
    ) -> Seq<S> {
        one_step_value(self.method_lower, ivp, h, t.plus_spec(h))
    }

    /// The error estimate of the step of size `h` from the state
    /// `last_values` at the time `t`.
    pub open spec fn error<FT: SampleableFunction<(S, Vec<S>), S>>(
        self,
        ivp: InitialValueSystemProblem<S, FT>,
        t: S,
        last_values: Seq<S>,
        h: S,
    ) -> S {
        error_estimate_spec(self.high(ivp, t, h), self.low(ivp, t, h), last_values, ivp.dfs@.len())
    }

    /// A step from `last_values` at time `t` with at most `attempts`
    /// attempts, the first of size `h`.
    ///
    /// Each attempt computes both results and the error estimate, and adapts
    /// the step size. It is accepted where the estimate is at most the
    /// tolerance; else the next attempt follows for the same time and state
    /// with the adapted step size.
    pub open spec fn attempt<FT: SampleableFunction<(S, Vec<S>), S>>(
        self,
        ivp: InitialValueSystemProblem<S, FT>,
        t: S,
        last_values: Seq<S>,
        h: S,
        attempts: nat,
    ) -> Attempt<S>
        decreases attempts,
    {
        if attempts == 0 {
            Attempt { values: None, step_size: h, used_step_size: h }
        } else {
            let err = self.error(ivp, t, last_values, h);
            let adapted = adapted_step_size_spec(h, err, self.tolerance, self.lower_order);
            if err.le_spec(self.tolerance) {
                Attempt {
                    values: Some(self.high(ivp, t, h)),
                    step_size: adapted,
                    used_step_size: h,
                }
            } else {
                self.attempt(ivp, t, last_values, adapted, (attempts - 1) as nat)
            }
        }
    }

    /// The error estimate of every accepted step is at most the tolerance.
    pub proof fn lemma_accepted_within_tolerance<FT: SampleableFunction<(S, Vec<S>), S>>(
        self,
        ivp: InitialValueSystemProblem<S, FT>,
        t: S,
        last_values: Seq<S>,
        h: S,
        attempts: nat,
    )
        ensures
            ({
                let end = self.attempt(ivp, t, last_values, h, attempts);
                end.values.is_some() ==> {
                    &&& end.values.unwrap() == self.high(ivp, t, end.used_step_size)
                    &&& self.error(ivp, t, last_values, end.used_step_size).le_spec(self.tolerance)
                }
            }),
        decreases attempts,
    {
        if attempts > 0 {
            let err = self.error(ivp, t, last_values, h);
            let adapted = adapted_step_size_spec(h, err, self.tolerance, self.lower_order);
            if !err.le_spec(self.tolerance) {
                self.lemma_accepted_within_tolerance(
                    ivp,
                    t,
                    last_values,
                    adapted,
                    (attempts - 1) as nat,
                );
            }
        }
    }
}

/// How a run of an embedded pair ended.
pub struct Run<S> {
    /// The rows that the run emitted, where no step was given up.
    pub rows: Option<Seq<Seq<Point2D<S>>>>,
    /// The step size after the last attempt.
    pub step_size: S,
}

/// The run `run` with the rows `head` in front of its rows.
pub open spec fn prepend<S>(head: Seq<Seq<Point2D<S>>>, run: Run<S>) -> Run<S> {
    Run {
        rows: match run.rows {
            Some(rows) => Some(head + rows),
            None => None,
        },
        step_size: run.step_size,
    }
}

/// What a run of an embedded pair still emits when it stands at time `t` in
/// state `x` with the step size `h`, with `skip` steps to pass over before
/// the next row and `fuel` steps left.
///
/// While `t < t_target` it takes a step, see [`EmbeddedPair::attempt`], and
/// the time advances by the step size as adapted in that step. The row after
/// a step is emitted where `skip` has run down to zero, which sets `skip`
/// back to `skip_n`. Where a step is given up the run has no rows.
pub open spec fn embedded_tail<S: Elementary, FT: SampleableFunction<(S, Vec<S>), S>>(
    pair: EmbeddedPair<S>,
    ivp: InitialValueSystemProblem<S, FT>,
    t_target: S,
    skip_n: isize,
    t: S,
    x: Seq<S>,
    h: S,
    skip: isize,
    fuel: nat,
) -> Run<S>
    decreases fuel,
{
    if fuel > 0 && t.lt_spec(t_target) {
        let end = pair.attempt(ivp, t, x, h, pair.max_attempts as nat);
        match end.values {
            None => Run { rows: None, step_size: end.step_size },
            Some(x2) => {
                let t2 = t.plus_spec(end.step_size);
                if skip <= 0 {
                    prepend(
                        seq![snapshot_spec(t2, x2)],
                        embedded_tail(
                            pair,
                            ivp,
                            t_target,
                            skip_n,
                            t2,
                            x2,
                            end.step_size,
                            skip_n,
                            (fuel - 1) as nat,
                        ),
                    )
                } else {
                    embedded_tail(
                        pair,
                        ivp,
                        t_target,
                        skip_n,
                        t2,
                        x2,
                        end.step_size,
                        (skip - 1) as isize,
                        (fuel - 1) as nat,
                    )
                }
            },
        }
    } else {
        Run { rows: Some(Seq::empty()), step_size: h }
    }
}

/// The run of an embedded pair on the problem `ivp`, with the first attempt
/// of size `h`: the start, then what [`embedded_tail`] says.
pub open spec fn embedded_run<S: Elementary, FT: SampleableFunction<(S, Vec<S>), S>>(
    pair: EmbeddedPair<S>,
    ivp: InitialValueSystemProblem<S, FT>,
    h: S,
    t_target: S,
    skip_n: isize,
) -> Run<S> {
    prepend(
        seq![snapshot_spec(ivp.start_time, ivp.start_values@)],
        embedded_tail(
            pair,
            ivp,
            t_target,
            skip_n,
            ivp.start_time,
            ivp.start_values@,
            h,
            skip_n,
            step_limit(),
        ),
    )
}

/// A step of an embedded pair was given up: none of the attempts that a step
/// may take met the tolerance.
#[derive(Clone, Copy, Debug)]
pub struct AttemptLimitReached;

/// An embedded pair of explicit Runge-Kutta methods with control of the step
/// size, for one problem.
pub struct EmbeddedExplicitRungeKuttaMethod<S, FT> {
    pair: EmbeddedPair<S>,
    current_h: S,
    ivp: InitialValueSystemProblem<S, FT>,
}

impl<S: Elementary, FT: SampleableFunction<(S, Vec<S>), S>> EmbeddedExplicitRungeKuttaMethod<
    S,
    FT,
> {
    /// The pair of methods with the tolerance and the limit of attempts.
    pub closed spec fn pair(&self) -> EmbeddedPair<S> {
        self.pair
    }

    /// The step size of the next attempt.
    pub closed spec fn step_size(&self) -> S {
        self.current_h
    }

    /// The problem that the method solves.
    pub closed spec fn problem(&self) -> InitialValueSystemProblem<S, FT> {
        self.ivp
    }

    /// The method for `ivp` with the pair of `tableau` and `tableau_lower`, whose
    /// first attempt has the size `current_h`. A step may take as many
    /// attempts as can be counted.
    pub fn new(
        tableau: Tableau<S>,
        tableau_lower: Tableau<S>,
        lower_order: usize,
        current_h: S,
        ivp: InitialValueSystemProblem<S, FT>,
        tolerance: S,
    ) -> (r: Self)
        ensures
            r.pair().method.tableau_spec() == tableau,
            r.pair().method_lower.tableau_spec() == tableau_lower,
            r.pair().lower_order == lower_order,
            r.pair().tolerance == tolerance,
            r.pair().max_attempts == usize::MAX,
            r.step_size() == current_h,
            r.problem() == ivp,
    {
        EmbeddedExplicitRungeKuttaMethod {
            pair: EmbeddedPair {
                method: ExplicitRungeKuttaMethod::new(tableau),
                method_lower: ExplicitRungeKuttaMethod::new(tableau_lower),
                lower_order,
                tolerance,
                max_attempts: usize::MAX,
            },
            current_h,
            ivp,
        }
    }

    /// The same method, but a step is given up after `max_attempts` attempts.
    pub fn with_attempt_limit(self, max_attempts: usize) -> (r: Self)
        ensures
            r.pair().method == self.pair().method,
            r.pair().method_lower == self.pair().method_lower,
            r.pair().lower_order == self.pair().lower_order,
            r.pair().tolerance == self.pair().tolerance,
            r.pair().max_attempts == max_attempts,
            r.step_size() == self.step_size(),
            r.problem() == self.problem(),
    {
        EmbeddedExplicitRungeKuttaMethod {
            pair: EmbeddedPair {
                method: self.pair.method,
                method_lower: self.pair.method_lower,
                lower_order: self.pair.lower_order,
                tolerance: self.pair.tolerance,
                max_attempts,
            },
            current_h: self.current_h,
            ivp: self.ivp,
        }
    }

    /// The step size of the next attempt.
    pub fn current_step_size(&self) -> (r: S)
        ensures
            r == self.step_size(),
    {
        self.current_h
    }

    /// Takes one step from `last_values` at time `t`, see
    /// [`EmbeddedPair::attempt`]: attempts follow one another, each with the
    /// step size that the one before adapted, until one is accepted or the
    /// limit of attempts is reached. An attempt of size `h` runs both methods
    /// from the start of the problem to `t + h` with steps of size `h`, and
    /// compares what they reach; the state `last_values` gives the scale of
    /// the error. Returns what the higher order reached in the accepted
    /// attempt.
    pub fn step(&mut self, t: S, last_values: &[S]) -> (r: Option<Vec<S>>)
        requires
            old(self).problem().wf(),
            last_values@.len() == old(self).problem().dfs@.len(),
        ensures
            final(self).pair() == old(self).pair(),
            final(self).problem() == old(self).problem(),
            ({
                let end = old(self).pair().attempt(
                    old(self).problem(),
                    t,
                    last_values@,
                    old(self).step_size(),
                    old(self).pair().max_attempts as nat,
                );
                &&& final(self).step_size() == end.step_size
                &&& r.is_some() == end.values.is_some()
                &&& r.is_some() ==> r.unwrap()@ == end.values.unwrap()
                &&& r.is_some() ==> r.unwrap()@.len() == last_values@.len()
                &&& r.is_some() ==> old(self).pair().error(
                    old(self).problem(),
                    t,
                    last_values@,
                    end.used_step_size,
                ).le_spec(old(self).pair().tolerance)
            }),
    {
        let ghost h0 = self.current_h;
        proof {
            self.pair.lemma_accepted_within_tolerance(
                self.ivp,
                t,
                last_values@,
                h0,
                self.pair.max_attempts as nat,
            );
        }
        let mut left: usize = self.pair.max_attempts;
        while left > 0
            invariant
                self.pair == old(self).pair,
                self.ivp == old(self).ivp,
                self.ivp.wf(),
                h0 == old(self).current_h,
                last_values@.len() == self.ivp.dfs@.len(),
                self.pair.attempt(
                    self.ivp,
                    t,
                    last_values@,
                    h0,
                    self.pair.max_attempts as nat,
                ) == self.pair.attempt(self.ivp, t, last_values@, self.current_h, left as nat),
            decreases left,
        {
            let t_next = t.plus(self.current_h);
            let val1 = one_step_value_at(&self.pair.method, &self.ivp, self.current_h, t_next);
            let val2 = one_step_value_at(
                &self.pair.method_lower,
                &self.ivp,
                self.current_h,
                t_next,
            );
            let err = error_estimate(val1.as_slice(), val2.as_slice(), last_values);
            self.current_h = adapted_step_size(
                self.current_h,
                err,
                self.pair.tolerance,
                self.pair.lower_order,
            );
            if err.le(self.pair.tolerance) {
                proof {
                    self.pair.lemma_accepted_within_tolerance(
                        self.ivp,
                        t,
                        last_values@,
                        h0,
                        self.pair.max_attempts as nat,
                    );
                }
                return Some(val1);
            }
            left = left - 1;
        }
        None
    }

    /// Integrates from the start of the problem until the time passes
    /// `t_target`, and returns the states on the way, each as a row of
    /// samples `(time, value)`.
    ///
    /// The first row is the start. Steps follow while `t < t_target`, so the
    /// last of them passes `t_target`; after each the time advances by the
    /// step size as adapted in that step. Of the rows of the steps one in
    /// `skip_n + 1` is returned (every one where `skip_n <= 0`). Where a step
    /// is given up the run ends with an error. No more than [`step_limit`]
    /// steps are taken.
    pub fn interval(&mut self, t_target: S, skip_n: isize) -> (r: Result<
        Vec<Vec<Point2D<S>>>,
        AttemptLimitReached,
    >)
        requires
            old(self).problem().wf(),
        ensures
            final(self).pair() == old(self).pair(),
            final(self).problem() == old(self).problem(),
            ({
                let run = embedded_run(
                    old(self).pair(),
                    old(self).problem(),
                    old(self).step_size(),
                    t_target,
                    skip_n,
                );
                &&& final(self).step_size() == run.step_size
                &&& r.is_ok() == run.rows.is_some()
                &&& r.is_ok() ==> rows_spec(r.unwrap()@) == run.rows.unwrap()
                &&& r.is_ok() ==> r.unwrap()@.len() >= 1 && r.unwrap()@[0]@ == snapshot_spec(
                    old(self).problem().start_time,
                    old(self).problem().start_values@,
                )
            }),
    {
        let ghost whole = embedded_run(self.pair, self.ivp, self.current_h, t_target, skip_n);
        let mut skip: isize = skip_n;
        let mut t = self.ivp.start_time;
        let mut values = copy_of(self.ivp.start_values.as_slice());
        let mut out: Vec<Vec<Point2D<S>>> = Vec::new();
        out.push(snapshot(t, values.as_slice()));
        assert(rows_spec(out@) =~= seq![snapshot_spec(t, values@)]);
        let mut steps: u64 = 0;
        while steps < u64::MAX && t.lt(t_target)
            invariant
                self.pair == old(self).pair,
                self.ivp == old(self).ivp,
                self.ivp.wf(),
                values@.len() == self.ivp.dfs@.len(),
                out@.len() >= 1,
                out@[0]@ == snapshot_spec(self.ivp.start_time, self.ivp.start_values@),
                whole == embedded_run(
                    old(self).pair,
                    old(self).ivp,
                    old(self).current_h,
                    t_target,
                    skip_n,
                ),
                whole == prepend(
                    rows_spec(out@),
                    embedded_tail(
                        self.pair,
                        self.ivp,
                        t_target,
                        skip_n,
                        t,
                        values@,
                        self.current_h,
                        skip,
                        (u64::MAX - steps) as nat,
                    ),
                ),
            decreases u64::MAX - steps,
        {
            let ghost before = rows_spec(out@);
            let ghost here = embedded_tail(
                self.pair,
                self.ivp,
                t_target,
                skip_n,
                t,
                values@,
                self.current_h,
                skip,
                (u64::MAX - steps) as nat,
            );
            let ghost end = self.pair.attempt(
                self.ivp,
                t,
                values@,
                self.current_h,
                self.pair.max_attempts as nat,
            );
            let next = match self.step(t, values.as_slice()) {
                Some(next) => next,
                None => {
                    assert(here == Run { rows: None, step_size: end.step_size });
                    return Err(AttemptLimitReached);
                },
            };
            let t_next = t.plus(self.current_h);
            if skip <= 0 {
                out.push(snapshot(t_next, next.as_slice()));
                skip = skip_n;
                proof {
                    let row = snapshot_spec(t_next, next@);
                    let rest = embedded_tail(
                        self.pair,
                        self.ivp,
                        t_target,
                        skip_n,
                        t_next,
                        next@,
                        self.current_h,
                        skip_n,
                        (u64::MAX - steps - 1) as nat,
                    );
                    assert(rows_spec(out@) =~= before + seq![row]);
                    if rest.rows.is_some() {
                        assert(before + (seq![row] + rest.rows.unwrap()) =~= (before + seq![row])
                            + rest.rows.unwrap());
                    }
                }
            } else {
                skip = skip - 1;
            }
            values = next;
            t = t_next;
            steps = steps + 1;
        }
        assert(rows_spec(out@) + Seq::<Seq<Point2D<S>>>::empty() =~= rows_spec(out@));
        Ok(out)
    }
}

/// The embedded pair `tableau1`, `tableau2` for the system `ivp`, with the
/// first attempt of size `h_start`; `tableau2` has the lower order
/// `lower_order`.
pub fn make_embedded_explicit_runge_kutta_with_tableau<
    S: Elementary,
    FT: SampleableFunction<(S, Vec<S>), S>,
>(
    ivp: InitialValueSystemProblem<S, FT>,
    h_start: S,
    tableau1: Tableau<S>,
    tableau2: Tableau<S>,
    lower_order: usize,
    tolerance: S,
) -> (r: EmbeddedExplicitRungeKuttaMethod<S, FT>)
    ensures
        r.pair().method.tableau_spec() == tableau1,
        r.pair().method_lower.tableau_spec() == tableau2,
        r.pair().lower_order == lower_order,
        r.pair().tolerance == tolerance,
        r.pair().max_attempts == usize::MAX,
        r.step_size() == h_start,
        r.problem() == ivp,
{
    EmbeddedExplicitRungeKuttaMethod::new(tableau1, tableau2, lower_order, h_start, ivp, tolerance)
}

/// The embedded pair of the orders one and two for the system `ivp`.
pub fn make_embedded_rk_1st_order<S: Elementary, FT: SampleableFunction<(S, Vec<S>), S>>(
    ivp: InitialValueSystemProblem<S, FT>,
    h_start: S,
    tolerance: S,
) -> (r: EmbeddedExplicitRungeKuttaMethod<S, FT>)
    ensures
        crate::butcher::embedded_second_order_fractions().gives(r.pair().method.tableau_spec()),
        crate::butcher::embedded_first_order_fractions().gives(r.pair().method_lower.tableau_spec()),
        r.pair().lower_order == 1,
        r.pair().tolerance == tolerance,
        r.pair().max_attempts == usize::MAX,
        r.step_size() == h_start,
        r.problem() == ivp,
{
    make_embedded_explicit_runge_kutta_with_tableau(
        ivp,
        h_start,
        crate::butcher::embedded_second_order_tableau(),
        crate::butcher::embedded_first_order_tableau(),
        1,
        tolerance,
    )
}

/// The embedded pair of Dormand and Prince, of the orders four and five,
/// for the system `ivp`.
pub fn make_dopri5<S: Elementary, FT: SampleableFunction<(S, Vec<S>), S>>(
    ivp: InitialValueSystemProblem<S, FT>,
    h_start: S,
    tolerance: S,
) -> (r: EmbeddedExplicitRungeKuttaMethod<S, FT>)
    ensures
        crate::butcher::dopri5_fifth_order_fractions().gives(r.pair().method.tableau_spec()),
        crate::butcher::dopri5_fourth_order_fractions().gives(r.pair().method_lower.tableau_spec()),
        r.pair().lower_order == 4,
        r.pair().tolerance == tolerance,
        r.pair().max_attempts == usize::MAX,
        r.step_size() == h_start,
        r.problem() == ivp,
{
    make_embedded_explicit_runge_kutta_with_tableau(
        ivp,
        h_start,
        crate::butcher::dopri5_fifth_order_tableau(),
        crate::butcher::dopri5_fourth_order_tableau(),
        4,
        tolerance,
    )
}

} // verus!
