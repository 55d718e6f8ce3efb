use crate::definitions::{rows_spec, InitialValueSystemProblem, SampleableFunction};
use crate::generalized_explicit_k_step_method::{KStepMethod, KStepMethodStep};
use crate::generalized_explicit_one_step_method::OneStepMethodStep;
use crate::scalar::{Elementary, Scalar};
use vstd::prelude::*;

verus! {

/// The Adams-Moulton method on windows of three states, solved for the next
/// state by hand for the one equation `x' = -t^2 * x`. It does not look at
/// the right-hand side it is given, and is of no use for any other equation.
pub struct AdamsMoultonHack;

/// The method of Milne and Simpson on windows of four states, solved for the
/// next state by hand for the one equation `x' = -t^2 * x`. It does not look
/// at the right-hand side it is given, and is of no use for any other
/// equation.
pub struct MilneSimpsonHack;

/// A two-step method with the parameter `alpha`, solved for the next state
/// by hand for the one equation `x' = -x + exp(-t) * cos(t)`. It does not
/// look at the right-hand side it is given, and is of no use for any other
/// equation.
#[allow(non_camel_case_types)]
pub struct Task_10_3_Method<S>(pub S);

/// The next value of [`AdamsMoultonHack`] after the values `n`, `nplus1`,
/// `nplus2`, the last of which belongs to the time `t`:
/// `(x2 + h/24 * (-19 t2^2 x2 + 5 t1^2 x1 - t0^2 x0)) / (1 + 9 h t3^2 / 24)`.
pub open spec fn adams_moulton_hack_spec<S: Scalar>(t: S, n: S, nplus1: S, nplus2: S, h: S) -> S {
    let tplus3 = t.plus_spec(h);
    let tplus2 = t;
    let tplus1 = t.minus_spec(h);
    let tplus0 = t.minus_spec(S::ratio_spec(2, 1).times_spec(h));
    nplus2.plus_spec(
        h.over_spec(S::ratio_spec(24, 1)).times_spec(
            S::ratio_spec(-19i64, 1).times_spec(tplus2).times_spec(tplus2).times_spec(
                nplus2,
            ).plus_spec(
                S::ratio_spec(5, 1).times_spec(tplus1).times_spec(tplus1).times_spec(nplus1),
            ).minus_spec(tplus0.times_spec(tplus0).times_spec(n)),
        ),
    ).over_spec(
        S::ratio_spec(1, 1).plus_spec(
            h.times_spec(S::ratio_spec(9, 1)).times_spec(tplus3).times_spec(tplus3).over_spec(
                S::ratio_spec(24, 1),
            ),
        ),
    )
}

/// The next value of [`MilneSimpsonHack`] after the values `nplus2`,
/// `nplus3`, the last of which belongs to the time `t`:
/// `(x2 - h/3 * (t2^2 x2 + 4 t3^2 x3)) / (1 + h t4^2 / 3)`.
pub open spec fn milne_simpson_hack_spec<S: Scalar>(t: S, nplus2: S, nplus3: S, h: S) -> S {
    let tplus4 = t.plus_spec(h);
    let tplus3 = t;
    let tplus2 = t.minus_spec(h);
    nplus2.minus_spec(
        h.over_spec(S::ratio_spec(3, 1)).times_spec(
            tplus2.times_spec(tplus2).times_spec(nplus2).plus_spec(
                S::ratio_spec(4, 1).times_spec(tplus3).times_spec(tplus3).times_spec(nplus3),
            ),
        ),
    ).over_spec(
        S::ratio_spec(1, 1).plus_spec(
            h.times_spec(tplus4).times_spec(tplus4).over_spec(S::ratio_spec(3, 1)),
        ),
    )
}

/// The term `exp(-t) * cos(t)` of the equation of [`Task_10_3_Method`].
pub open spec fn forcing_spec<S: Elementary>(t: S) -> S {
    t.neg_spec().exp_spec().times_spec(t.cos_spec())
}

/// The next value of [`Task_10_3_Method`] with the parameter `alpha` after
/// the values `x`, `xplus1`, the last of which belongs to the time `t`:
/// `(h * (b2 g(t2) + b1 (-x1 + g(t1)) + b0 (-x0 + g(t0))) - a1 x1 - a0 x0) / (1 + h b2)`
/// with `g(t) = exp(-t) * cos(t)`, `a1 = -alpha - 1`, `a0 = alpha`,
/// `b2 = alpha/12 + 5/12`, `b1 = -2 alpha/3 + 2/3`, `b0 = -5 alpha/12 - 1/12`.
pub open spec fn task_10_3_spec<S: Elementary>(alpha: S, t: S, x: S, xplus1: S, h: S) -> S {
    let tplus2 = t.plus_spec(h);
    let tplus1 = t;
    let tplus0 = t.minus_spec(h);
    let a_1 = alpha.neg_spec().minus_spec(S::ratio_spec(1, 1));
    let a_0 = alpha;
    let b_2 = alpha.over_spec(S::ratio_spec(12, 1)).plus_spec(S::ratio_spec(5, 12));
    let b_1 = S::ratio_spec(-2i64, 1).times_spec(alpha).over_spec(S::ratio_spec(3, 1)).plus_spec(
        S::ratio_spec(2, 3),
    );
    let b_0 = S::ratio_spec(-5i64, 1).times_spec(alpha).over_spec(S::ratio_spec(12, 1)).minus_spec(
        S::ratio_spec(1, 12),
    );
    h.times_spec(
        b_2.times_spec(tplus2.neg_spec().exp_spec()).times_spec(tplus2.cos_spec()).plus_spec(
            b_1.times_spec(xplus1.neg_spec().plus_spec(forcing_spec(tplus1))),
        ).plus_spec(b_0.times_spec(x.neg_spec().plus_spec(forcing_spec(tplus0)))),
    ).minus_spec(a_1.times_spec(xplus1)).minus_spec(a_0.times_spec(x)).over_spec(
        S::ratio_spec(1, 1).plus_spec(h.times_spec(b_2)),
    )
}

impl<S: Scalar, FT: SampleableFunction<(S, Vec<S>), S>> KStepMethodStep<S, FT> for AdamsMoultonHack {
    open spec fn supports(&self, k: usize, n: nat) -> bool {
        k >= 3 && n == 1
    }

    open spec fn step_spec(
        &self,
        k: usize,
        dfs: Seq<FT>,
        t: S,
        last_values: Seq<Seq<S>>,
        h: S,
    ) -> Seq<S> {
        seq![
            adams_moulton_hack_spec(
                t,
                last_values[0][0],
                last_values[1][0],
                last_values[2][0],
                h,
            ),
        ]
    }

    proof fn lemma_step_len(&self, k: usize, dfs: Seq<FT>, t: S, last_values: Seq<Seq<S>>, h: S) {
    }

    fn step(&self, k: usize, dfs: &[FT], t: S, last_values: &[Vec<S>], h: S) -> (r: Vec<S>) {
        assert(rows_spec(last_values@)[0] == last_values@[0]@);
        assert(rows_spec(last_values@)[1] == last_values@[1]@);
        assert(rows_spec(last_values@)[2] == last_values@[2]@);
        let nplus2 = last_values[2][0];
        let nplus1 = last_values[1][0];
        let n = last_values[0][0];
        let tplus3 = t.plus(h);
        let tplus2 = t;
        let tplus1 = t.minus(h);
        let tplus0 = t.minus(S::ratio(2, 1).times(h));
        let value = nplus2.plus(
            h.over(S::ratio(24, 1)).times(
                S::ratio(-19, 1).times(tplus2).times(tplus2).times(nplus2).plus(
                    S::ratio(5, 1).times(tplus1).times(tplus1).times(nplus1),
                ).minus(tplus0.times(tplus0).times(n)),
            ),
        ).over(
            S::ratio(1, 1).plus(
                h.times(S::ratio(9, 1)).times(tplus3).times(tplus3).over(S::ratio(24, 1)),
            ),
        );
        let out = vec![value];
        assert(out@ =~= seq![value]);
        out
    }
}

impl<S: Scalar, FT: SampleableFunction<(S, Vec<S>), S>> KStepMethodStep<S, FT> for MilneSimpsonHack {
    open spec fn supports(&self, k: usize, n: nat) -> bool {
        k >= 4 && n == 1
    }

    open spec fn step_spec(
        &self,
        k: usize,
        dfs: Seq<FT>,
        t: S,
        last_values: Seq<Seq<S>>,
        h: S,
    ) -> Seq<S> {
        seq![milne_simpson_hack_spec(t, last_values[2][0], last_values[3][0], h)]
    }

    proof fn lemma_step_len(&self, k: usize, dfs: Seq<FT>, t: S, last_values: Seq<Seq<S>>, h: S) {
    }

    fn step(&self, k: usize, dfs: &[FT], t: S, last_values: &[Vec<S>], h: S) -> (r: Vec<S>) {
        assert(rows_spec(last_values@)[2] == last_values@[2]@);
        assert(rows_spec(last_values@)[3] == last_values@[3]@);
        let nplus3 = last_values[3][0];
        let nplus2 = last_values[2][0];
        let tplus4 = t.plus(h);
        let tplus3 = t;
        let tplus2 = t.minus(h);
        let value = nplus2.minus(
            h.over(S::ratio(3, 1)).times(
                tplus2.times(tplus2).times(nplus2).plus(
                    S::ratio(4, 1).times(tplus3).times(tplus3).times(nplus3),
                ),
            ),
        ).over(S::ratio(1, 1).plus(h.times(tplus4).times(tplus4).over(S::ratio(3, 1))));
        let out = vec![value];
        assert(out@ =~= seq![value]);
        out
    }
}

/// The term `exp(-t) * cos(t)`.
fn forcing<S: Elementary>(t: S) -> (r: S)
    ensures
        r == forcing_spec(t),
{
    t.neg().exp().times(t.cos())
}

impl<S: Elementary, FT: SampleableFunction<(S, Vec<S>), S>> KStepMethodStep<
    S,
    FT,
> for Task_10_3_Method<S> {
    open spec fn supports(&self, k: usize, n: nat) -> bool {
        k >= 2 && n == 1
    }

    open spec fn step_spec(
        &self,
        k: usize,
        dfs: Seq<FT>,
        t: S,
        last_values: Seq<Seq<S>>,
        h: S,
    ) -> Seq<S> {
        seq![task_10_3_spec(self.0, t, last_values[0][0], last_values[1][0], h)]
    }

    proof fn lemma_step_len(&self, k: usize, dfs: Seq<FT>, t: S, last_values: Seq<Seq<S>>, h: S) {
    }

    fn step(&self, k: usize, dfs: &[FT], t: S, last_values: &[Vec<S>], h: S) -> (r: Vec<S>) {
        assert(rows_spec(last_values@)[0] == last_values@[0]@);
        assert(rows_spec(last_values@)[1] == last_values@[1]@);
        let xplus1 = last_values[1][0];
        let x = last_values[0][0];
        let tplus2 = t.plus(h);
        let tplus1 = t;
        let tplus0 = t.minus(h);
        let a_1 = self.0.neg().minus(S::ratio(1, 1));
        let a_0 = self.0;
        let b_2 = self.0.over(S::ratio(12, 1)).plus(S::ratio(5, 12));
        let b_1 = S::ratio(-2, 1).times(self.0).over(S::ratio(3, 1)).plus(S::ratio(2, 3));
        let b_0 = S::ratio(-5, 1).times(self.0).over(S::ratio(12, 1)).minus(S::ratio(1, 12));
        let value = h.times(
            b_2.times(tplus2.neg().exp()).times(tplus2.cos()).plus(
                b_1.times(xplus1.neg().plus(forcing(tplus1))),
            ).plus(b_0.times(x.neg().plus(forcing(tplus0)))),
        ).minus(a_1.times(xplus1)).minus(a_0.times(x)).over(S::ratio(1, 1).plus(h.times(b_2)));
        let out = vec![value];
        assert(out@ =~= seq![value]);
        out
    }
}

/// The method [`AdamsMoultonHack`] for the problem `ivp` of one equation,
/// with steps of size `h`.
pub fn make_adams_moulton_hack_method<
    S: Scalar,
    FT: SampleableFunction<(S, Vec<S>), S>,
    StartStep: OneStepMethodStep<S, FT>,
>(ivp: InitialValueSystemProblem<S, FT>, h: S, start_step: StartStep) -> (r: KStepMethod<
    S,
    FT,
    AdamsMoultonHack,
    StartStep,
>)
    requires
        ivp.wf(),
        ivp.dfs@.len() == 1,
    ensures
        r.problem() == ivp,
        r.step_size() == h,
        r.step_count() == 3,
        r.step_method() == AdamsMoultonHack,
        r.start_step() == start_step,
{
    KStepMethod::new(ivp, h, 3, AdamsMoultonHack, start_step)
}

/// The method [`MilneSimpsonHack`] for the problem `ivp` of one equation,
/// with steps of size `h`.
pub fn make_milne_simpson_hack_method<
    S: Scalar,
    FT: SampleableFunction<(S, Vec<S>), S>,
    StartStep: OneStepMethodStep<S, FT>,
>(ivp: InitialValueSystemProblem<S, FT>, h: S, start_step: StartStep) -> (r: KStepMethod<
    S,
    FT,
    MilneSimpsonHack,
    StartStep,
>)
    requires
        ivp.wf(),
        ivp.dfs@.len() == 1,
    ensures
        r.problem() == ivp,
        r.step_size() == h,
        r.step_count() == 4,
        r.step_method() == MilneSimpsonHack,
        r.start_step() == start_step,
{
    KStepMethod::new(ivp, h, 4, MilneSimpsonHack, start_step)
}

/// The method [`Task_10_3_Method`] with the parameter `a` for the problem
/// `ivp` of one equation, with steps of size `h`.
pub fn make_task_10_3_method<
    S: Elementary,
    FT: SampleableFunction<(S, Vec<S>), S>,
    StartStep: OneStepMethodStep<S, FT>,
>(ivp: InitialValueSystemProblem<S, FT>, h: S, start_step: StartStep, a: S) -> (r: KStepMethod<
    S,
    FT,
    Task_10_3_Method<S>,
    StartStep,
>)
    requires
        ivp.wf(),
        ivp.dfs@.len() == 1,
    ensures
        r.problem() == ivp,
        r.step_size() == h,
        r.step_count() == 2,
        r.step_method() == Task_10_3_Method(a),
        r.start_step() == start_step,
{
    KStepMethod::new(ivp, h, 2, Task_10_3_Method(a), start_step)
}

} // verus!
