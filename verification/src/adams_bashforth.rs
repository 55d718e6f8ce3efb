use crate::definitions::{
    copy_of, eval_all, evaluate_all, is_system, pointwise_sum, rows_spec, scaled,
    snapshot, snapshot_spec, InitialValueSystemProblem, Point2D, PointwiseAdd, SampleableFunction,
    ScalarMul,
};
use crate::euler_explicit::ExplicitEulerStep;
use crate::generalized_explicit_k_step_method::{
    k_step_interval_from, k_step_tail, KStepMethod, KStepMethodStep,
};
use crate::generalized_explicit_one_step_method::{
    one_step_value, one_step_value_at, step_limit, OneStepMethodStep,
};
use crate::scalar::Scalar;
use vstd::prelude::*;

verus! {

/// The Adams-Bashforth method of order two:
/// `y_{n+2} = y_{n+1} + h * (3/2 * f_{n+1} - 1/2 * f_n)`.
pub struct AdamsBashford2;

/// The Adams-Bashforth method of order three:
/// `y_{n+3} = y_{n+2} + h * (23/12 * f_{n+2} - 16/12 * f_{n+1} + 5/12 * f_n)`.
pub struct AdamsBashford3;

/// The slopes `ca * a[i] - cb * b[i]`.
pub open spec fn slopes_2<S: Scalar>(ca: S, a: Seq<S>, cb: S, b: Seq<S>) -> Seq<S> {
    Seq::new(a.len(), |i: int| ca.times_spec(a[i]).minus_spec(cb.times_spec(b[i])))
}

/// The slopes `ca * a[i] - cb * b[i] + cc * c[i]`.
pub open spec fn slopes_3<S: Scalar>(ca: S, a: Seq<S>, cb: S, b: Seq<S>, cc: S, c: Seq<S>) -> Seq<
    S,
> {
    Seq::new(
        a.len(),
        |i: int|
            ca.times_spec(a[i]).minus_spec(cb.times_spec(b[i])).plus_spec(cc.times_spec(c[i])),
    )
}

/// Computes the slopes `ca * a[i] - cb * b[i]`.
pub fn combine_2<S: Scalar>(ca: S, a: &Vec<S>, cb: S, b: &Vec<S>) -> (r: Vec<S>)
    requires
        a@.len() == b@.len(),
    ensures
        r@ == slopes_2(ca, a@, cb, b@),
{
    let mut out: Vec<S> = Vec::new();
    let mut i: usize = 0;
    while i < a.len()
        invariant
            i <= a.len(),
            a@.len() == b@.len(),
            out@.len() == i,
            forall|j: int| 0 <= j < i ==> out@[j] == slopes_2(ca, a@, cb, b@)[j],
        decreases a.len() - i,
    {
        out.push(ca.times(a[i]).minus(cb.times(b[i])));
        i = i + 1;
    }
    assert(out@ =~= slopes_2(ca, a@, cb, b@));
    out
}

/// Computes the slopes `ca * a[i] - cb * b[i] + cc * c[i]`.
pub fn combine_3<S: Scalar>(ca: S, a: &Vec<S>, cb: S, b: &Vec<S>, cc: S, c: &Vec<S>) -> (r: Vec<S>)
    requires
        a@.len() == b@.len(),
        a@.len() == c@.len(),
    ensures
        r@ == slopes_3(ca, a@, cb, b@, cc, c@),
{
    let mut out: Vec<S> = Vec::new();
    let mut i: usize = 0;
    while i < a.len()
        invariant
            i <= a.len(),
            a@.len() == b@.len(),
            a@.len() == c@.len(),
            out@.len() == i,
            forall|j: int| 0 <= j < i ==> out@[j] == slopes_3(ca, a@, cb, b@, cc, c@)[j],
        decreases a.len() - i,
    {
        out.push(ca.times(a[i]).minus(cb.times(b[i])).plus(cc.times(c[i])));
        i = i + 1;
    }
    assert(out@ =~= slopes_3(ca, a@, cb, b@, cc, c@));
    out
}

/// The state after one step of the Adams-Bashforth method of order two:
/// `(3/2 * f(t, w[k-1]) - 1/2 * f(t - h, w[k-2])) * h + w[k-1]`.
pub open spec fn adams_bashforth_2_spec<S: Scalar, FT: SampleableFunction<(S, Vec<S>), S>>(
    k: usize,
    dfs: Seq<FT>,
    t: S,
    window: Seq<Seq<S>>,
    h: S,
) -> Seq<S> {
    let last = window[k - 1];
    let before = window[k - 2];
    pointwise_sum(
        scaled(
            slopes_2(
                S::ratio_spec(3, 2),
                eval_all(dfs, t, last),
                S::ratio_spec(1, 2),
                eval_all(dfs, t.minus_spec(h), before),
            ),
            h,
        ),
        last,
    )
}

/// The state after one step of the Adams-Bashforth method of order three:
/// `(23/12 * f(t, w[k-1]) - 16/12 * f(t - h, w[k-2]) + 5/12 * f(t - 2h, w[k-3])) * h + w[k-1]`.
pub open spec fn adams_bashforth_3_spec<S: Scalar, FT: SampleableFunction<(S, Vec<S>), S>>(
    k: usize,
    dfs: Seq<FT>,
    t: S,
    window: Seq<Seq<S>>,
    h: S,
) -> Seq<S> {
    let last = window[k - 1];
    let before = window[k - 2];
    let first = window[k - 3];
    pointwise_sum(
        scaled(
            slopes_3(
                S::ratio_spec(23, 12),
                eval_all(dfs, t, last),
                S::ratio_spec(16, 12),
                eval_all(dfs, t.minus_spec(h), before),
                S::ratio_spec(5, 12),
                eval_all(dfs, t.minus_spec(S::ratio_spec(2, 1).times_spec(h)), first),
            ),
            h,
        ),
        last,
    )
}

impl<S: Scalar, FT: SampleableFunction<(S, Vec<S>), S>> KStepMethodStep<S, FT> for AdamsBashford2 {
    open spec fn supports(&self, k: usize, n: nat) -> bool {
        k >= 2
    }

    open spec fn step_spec(
        &self,
        k: usize,
        dfs: Seq<FT>,
        t: S,
        last_values: Seq<Seq<S>>,
        h: S,
    ) -> Seq<S> {
        adams_bashforth_2_spec(k, dfs, t, last_values, h)
    }

    proof fn lemma_step_len(&self, k: usize, dfs: Seq<FT>, t: S, last_values: Seq<Seq<S>>, h: S) {
    }

    fn step(&self, k: usize, dfs: &[FT], t: S, last_values: &[Vec<S>], h: S) -> (r: Vec<S>) {
        let last = &last_values[k - 1];
        let before = &last_values[k - 2];
        assert(rows_spec(last_values@)[k - 1] == last@);
        assert(rows_spec(last_values@)[k - 2] == before@);
        let f_last = evaluate_all(dfs, t, last.as_slice());
        let f_before = evaluate_all(dfs, t.minus(h), before.as_slice());
        combine_2(S::ratio(3, 2), &f_last, S::ratio(1, 2), &f_before).scalar_mul(h).pointwise_add(
            copy_of(last.as_slice()),
        )
    }
}

impl<S: Scalar, FT: SampleableFunction<(S, Vec<S>), S>> KStepMethodStep<S, FT> for AdamsBashford3 {
    open spec fn supports(&self, k: usize, n: nat) -> bool {
        k >= 3
    }

    open spec fn step_spec(
        &self,
        k: usize,
        dfs: Seq<FT>,
        t: S,
        last_values: Seq<Seq<S>>,
        h: S,
    ) -> Seq<S> {
        adams_bashforth_3_spec(k, dfs, t, last_values, h)
    }

    proof fn lemma_step_len(&self, k: usize, dfs: Seq<FT>, t: S, last_values: Seq<Seq<S>>, h: S) {
    }

    fn step(&self, k: usize, dfs: &[FT], t: S, last_values: &[Vec<S>], h: S) -> (r: Vec<S>) {
        let last = &last_values[k - 1];
        let before = &last_values[k - 2];
        let first = &last_values[k - 3];
        assert(rows_spec(last_values@)[k - 1] == last@);
        assert(rows_spec(last_values@)[k - 2] == before@);
        assert(rows_spec(last_values@)[k - 3] == first@);
        let f_last = evaluate_all(dfs, t, last.as_slice());
        let f_before = evaluate_all(dfs, t.minus(h), before.as_slice());
        let f_first = evaluate_all(dfs, t.minus(S::ratio(2, 1).times(h)), first.as_slice());
        combine_3(
            S::ratio(23, 12),
            &f_last,
            S::ratio(16, 12),
            &f_before,
            S::ratio(5, 12),
            &f_first,
        ).scalar_mul(h).pointwise_add(copy_of(last.as_slice()))
    }
}

/// The Adams-Bashforth method of order two for the system `ivp` with steps
/// of size `h`; the one-step rule `start_step` computes the second state.
pub fn make_adams_bashforth_2_method<
    S: Scalar,
    FT: SampleableFunction<(S, Vec<S>), S>,
    StartStep: OneStepMethodStep<S, FT>,
>(ivp: InitialValueSystemProblem<S, FT>, h: S, start_step: StartStep) -> (r: KStepMethod<
    S,
    FT,
    AdamsBashford2,
    StartStep,
>)
    requires
        ivp.wf(),
    ensures
        r.problem() == ivp,
        r.step_size() == h,
        r.step_count() == 2,
        r.step_method() == AdamsBashford2,
        r.start_step() == start_step,
{
    KStepMethod::new(ivp, h, 2, AdamsBashford2, start_step)
}

/// The Adams-Bashforth method of order three for the system `ivp` with
/// steps of size `h`; the one-step rule `start_step` computes the second and
/// the third state.
pub fn make_adams_bashforth_3_method<
    S: Scalar,
    FT: SampleableFunction<(S, Vec<S>), S>,
    StartStep: OneStepMethodStep<S, FT>,
>(ivp: InitialValueSystemProblem<S, FT>, h: S, start_step: StartStep) -> (r: KStepMethod<
    S,
    FT,
    AdamsBashford3,
    StartStep,
>)
    requires
        ivp.wf(),
    ensures
        r.problem() == ivp,
        r.step_size() == h,
        r.step_count() == 3,
        r.step_method() == AdamsBashford3,
        r.start_step() == start_step,
{
    KStepMethod::new(ivp, h, 3, AdamsBashford3, start_step)
}

/// One step of the Adams-Bashforth method of order two from the two states
/// `values_last` at time `t` and `values_before_last` at time `t - h`.
pub fn adams_bashford_step<S: Scalar, FT: SampleableFunction<(S, Vec<S>), S>>(
    dfs: &[FT],
    t: S,
    values_last: &[S],
    values_before_last: &[S],
    h: S,
) -> (r: Vec<S>)
    requires
        is_system(dfs@, dfs@.len()),
        values_last@.len() == dfs@.len(),
        values_before_last@.len() == dfs@.len(),
    ensures
        r@ == adams_bashforth_2_spec(2, dfs@, t, seq![values_before_last@, values_last@], h),
        r@.len() == dfs@.len(),
{
    let f_last = evaluate_all(dfs, t, values_last);
    let f_before = evaluate_all(dfs, t.minus(h), values_before_last);
    combine_2(S::ratio(3, 2), &f_last, S::ratio(1, 2), &f_before).scalar_mul(h).pointwise_add(
        copy_of(values_last),
    )
}

/// The Adams-Bashforth method of order two for one problem, whose second
/// state comes from a step of the explicit Euler method.
pub struct AdamsBashforthMethod<S, FT> {
    ivp: InitialValueSystemProblem<S, FT>,
    h: S,
}

/// The first window of [`AdamsBashforthMethod`]: the start values and the
/// state that the explicit Euler method reaches at `start_time + h`.
pub open spec fn adams_bashforth_window<S: Scalar, FT: SampleableFunction<(S, Vec<S>), S>>(
    ivp: InitialValueSystemProblem<S, FT>,
    h: S,
) -> Seq<Seq<S>> {
    seq![
        ivp.start_values@,
        one_step_value(ExplicitEulerStep, ivp, h, ivp.start_time.plus_spec(h)),
    ]
}

impl<S: Scalar, FT: SampleableFunction<(S, Vec<S>), S>> AdamsBashforthMethod<S, FT> {
    /// The problem that the method solves.
    pub closed spec fn problem(&self) -> InitialValueSystemProblem<S, FT> {
        self.ivp
    }

    /// The size of a step.
    pub closed spec fn step_size(&self) -> S {
        self.h
    }

    /// The rows that [`Self::interval`] returns: the start, the state that
    /// the explicit Euler method reaches at `start_time + h` with that time,
    /// then the rows of the multistep phase from that time on.
    pub open spec fn interval_spec(&self, t_target: S, skip_n: isize) -> Seq<Seq<Point2D<S>>> {
        let t = self.problem().start_time.plus_spec(self.step_size());
        let window = adams_bashforth_window(self.problem(), self.step_size());
        seq![
            snapshot_spec(self.problem().start_time, window[0]),
            snapshot_spec(t, window[1]),
        ] + k_step_tail(
            AdamsBashford2,
            2,
            self.problem().dfs@,
            self.step_size(),
            t_target,
            skip_n,
            t,
            window,
            skip_n,
            step_limit(),
        )
    }

    /// The method for the problem `ivp` with steps of size `h`.
    pub fn new(ivp: InitialValueSystemProblem<S, FT>, h: S) -> (r: Self)
        ensures
            r.problem() == ivp,
            r.step_size() == h,
    {
        AdamsBashforthMethod { ivp, h }
    }

    /// Integrates from the start of the problem until the time reaches
    /// `t_target` and returns the states on the way as rows of samples, see
    /// [`Self::interval_spec`]. The times differ from the start by multiples
    /// of `h`; no row is moved onto `t_target`.
    pub fn interval(&self, t_target: S, skip_n: isize) -> (r: Vec<Vec<Point2D<S>>>)
        requires
            self.problem().wf(),
        ensures
            rows_spec(r@) == self.interval_spec(t_target, skip_n),
            r@.len() >= 2,
    {
        let t = self.ivp.start_time.plus(self.h);
        let x_1 = one_step_value_at(&ExplicitEulerStep, &self.ivp, self.h, t);
        let mut head: Vec<Vec<Point2D<S>>> = Vec::new();
        head.push(snapshot(self.ivp.start_time, self.ivp.start_values.as_slice()));
        head.push(snapshot(t, x_1.as_slice()));
        let mut window: Vec<Vec<S>> = Vec::new();
        window.push(copy_of(self.ivp.start_values.as_slice()));
        window.push(x_1);
        assert(rows_spec(window@) =~= adams_bashforth_window(self.ivp, self.h));
        assert(rows_spec(head@) =~= seq![
            snapshot_spec(self.ivp.start_time, window@[0]@),
            snapshot_spec(t, window@[1]@),
        ]);
        k_step_interval_from(
            &AdamsBashford2,
            2,
            self.ivp.dfs.as_slice(),
            self.h,
            t_target,
            skip_n,
            t,
            window,
            head,
        )
    }
}

/// The Adams-Bashforth method of order two with a first step of the explicit
/// Euler method, for the system `ivp` with steps of size `h`.
pub fn make_adams_bashforth_method<S: Scalar, FT: SampleableFunction<(S, Vec<S>), S>>(
    ivp: InitialValueSystemProblem<S, FT>,
    h: S,
) -> (r: AdamsBashforthMethod<S, FT>)
    ensures
        r.problem() == ivp,
        r.step_size() == h,
{
    AdamsBashforthMethod::new(ivp, h)
}

} // verus!
