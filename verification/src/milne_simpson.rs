use crate::definitions::{
    copy_of, eval_all, evaluate_all, is_system, pointwise_sum, rows_spec, scaled,
    InitialValueSystemProblem, PointwiseAdd, SampleableFunction, ScalarMul,
};
use crate::generalized_explicit_k_step_method::{is_window, KStepMethod, KStepMethodStep};
use crate::generalized_explicit_one_step_method::OneStepMethodStep;
use crate::scalar::Scalar;
use vstd::prelude::*;

verus! {

/// The predictor-corrector method of Milne and Simpson, on windows of four
/// states.
pub struct MilneSimpson;

/// The slopes of the predictor: `2 * a[i] - b[i] + 2 * c[i]`.
pub open spec fn predictor_slopes<S: Scalar>(a: Seq<S>, b: Seq<S>, c: Seq<S>) -> Seq<S> {
    Seq::new(
        a.len(),
        |i: int|
            S::ratio_spec(2, 1).times_spec(a[i]).minus_spec(b[i]).plus_spec(
                S::ratio_spec(2, 1).times_spec(c[i]),
            ),
    )
}

/// The slopes of the corrector: `a[i] + 4 * b[i] + c[i]`.
pub open spec fn corrector_slopes<S: Scalar>(a: Seq<S>, b: Seq<S>, c: Seq<S>) -> Seq<S> {
    Seq::new(
        a.len(),
        |i: int| a[i].plus_spec(S::ratio_spec(4, 1).times_spec(b[i])).plus_spec(c[i]),
    )
}

/// The predicted state:
/// `(2 * f(t - 2h, w[1]) - f(t - h, w[2]) + 2 * f(t, w[3])) * (4 * h / 3) + w[0]`.
pub open spec fn predict_spec<S: Scalar, FT: SampleableFunction<(S, Vec<S>), S>>(
    dfs: Seq<FT>,
    t: S,
    window: Seq<Seq<S>>,
    h: S,
) -> Seq<S> {
    pointwise_sum(
        scaled(
            predictor_slopes(
                eval_all(dfs, t.minus_spec(S::ratio_spec(2, 1).times_spec(h)), window[1]),
                eval_all(dfs, t.minus_spec(h), window[2]),
                eval_all(dfs, t, window[3]),
            ),
            S::ratio_spec(4, 1).times_spec(h).over_spec(S::ratio_spec(3, 1)),
        ),
        window[0],
    )
}

/// The corrected state:
/// `(f(t - h, w[2]) + 4 * f(t, w[3]) + f(t + h, predictor)) * (h / 3) + w[2]`.
pub open spec fn correct_spec<S: Scalar, FT: SampleableFunction<(S, Vec<S>), S>>(
    dfs: Seq<FT>,
    t: S,
    window: Seq<Seq<S>>,
    h: S,
    predictor: Seq<S>,
) -> Seq<S> {
    pointwise_sum(
        scaled(
            corrector_slopes(
                eval_all(dfs, t.minus_spec(h), window[2]),
                eval_all(dfs, t, window[3]),
                eval_all(dfs, t.plus_spec(h), predictor),
            ),
            h.over_spec(S::ratio_spec(3, 1)),
        ),
        window[2],
    )
}

/// The state after one step of the method: the correction of the prediction.
pub open spec fn milne_simpson_spec<S: Scalar, FT: SampleableFunction<(S, Vec<S>), S>>(
    dfs: Seq<FT>,
    t: S,
    window: Seq<Seq<S>>,
    h: S,
) -> Seq<S> {
    correct_spec(dfs, t, window, h, predict_spec(dfs, t, window, h))
}

/// Predicts the next state from the four states in `last_values`.
pub fn predict<S: Scalar, FT: SampleableFunction<(S, Vec<S>), S>>(
    dfs: &[FT],
    t: S,
    last_values: &[Vec<S>],
    h: S,
) -> (r: Vec<S>)
    requires
        is_system(dfs@, dfs@.len()),
        is_window(rows_spec(last_values@), 4, dfs@.len()),
    ensures
        r@ == predict_spec(dfs@, t, rows_spec(last_values@), h),
        r@.len() == dfs@.len(),
{
    let nplus3 = &last_values[3];
    let nplus2 = &last_values[2];
    let nplus1 = &last_values[1];
    let n = &last_values[0];
    assert(rows_spec(last_values@)[3] == nplus3@);
    assert(rows_spec(last_values@)[2] == nplus2@);
    assert(rows_spec(last_values@)[1] == nplus1@);
    assert(rows_spec(last_values@)[0] == n@);
    let a = evaluate_all(dfs, t.minus(S::ratio(2, 1).times(h)), nplus1.as_slice());
    let b = evaluate_all(dfs, t.minus(h), nplus2.as_slice());
    let c = evaluate_all(dfs, t, nplus3.as_slice());
    let mut slopes: Vec<S> = Vec::new();
    let mut i: usize = 0;
    while i < a.len()
        invariant
            i <= a.len(),
            a@.len() == b@.len(),
            a@.len() == c@.len(),
            slopes@.len() == i,
            forall|j: int| 0 <= j < i ==> slopes@[j] == predictor_slopes(a@, b@, c@)[j],
        decreases a.len() - i,
    {
        slopes.push(S::ratio(2, 1).times(a[i]).minus(b[i]).plus(S::ratio(2, 1).times(c[i])));
        i = i + 1;
    }
    assert(slopes@ =~= predictor_slopes(a@, b@, c@));
    slopes.scalar_mul(S::ratio(4, 1).times(h).over(S::ratio(3, 1))).pointwise_add(
        copy_of(n.as_slice()),
    )
}

/// Corrects the prediction `predictor` of the next state.
pub fn correct<S: Scalar, FT: SampleableFunction<(S, Vec<S>), S>>(
    dfs: &[FT],
    t: S,
    last_values: &[Vec<S>],
    h: S,
    predictor: Vec<S>,
) -> (r: Vec<S>)
    requires
        is_system(dfs@, dfs@.len()),
        is_window(rows_spec(last_values@), 4, dfs@.len()),
        predictor@.len() == dfs@.len(),
    ensures
        r@ == correct_spec(dfs@, t, rows_spec(last_values@), h, predictor@),
        r@.len() == dfs@.len(),
{
    let nplus3 = &last_values[3];
    let nplus2 = &last_values[2];
    assert(rows_spec(last_values@)[3] == nplus3@);
    assert(rows_spec(last_values@)[2] == nplus2@);
    let a = evaluate_all(dfs, t.minus(h), nplus2.as_slice());
    let b = evaluate_all(dfs, t, nplus3.as_slice());
    let c = evaluate_all(dfs, t.plus(h), predictor.as_slice());
    let mut slopes: Vec<S> = Vec::new();
    let mut i: usize = 0;
    while i < a.len()
        invariant
            i <= a.len(),
            a@.len() == b@.len(),
            a@.len() == c@.len(),
            slopes@.len() == i,
            forall|j: int| 0 <= j < i ==> slopes@[j] == corrector_slopes(a@, b@, c@)[j],
        decreases a.len() - i,
    {
        slopes.push(a[i].plus(S::ratio(4, 1).times(b[i])).plus(c[i]));
        i = i + 1;
    }
    assert(slopes@ =~= corrector_slopes(a@, b@, c@));
    slopes.scalar_mul(h.over(S::ratio(3, 1))).pointwise_add(copy_of(nplus2.as_slice()))
}

impl<S: Scalar, FT: SampleableFunction<(S, Vec<S>), S>> KStepMethodStep<S, FT> for MilneSimpson {
    open spec fn supports(&self, k: usize, n: nat) -> bool {
        k == 4
    }

    open spec fn step_spec(
        &self,
        k: usize,
        dfs: Seq<FT>,
        t: S,
        last_values: Seq<Seq<S>>,
        h: S,
    ) -> Seq<S> {
        milne_simpson_spec(dfs, t, last_values, h)
    }

    proof fn lemma_step_len(&self, k: usize, dfs: Seq<FT>, t: S, last_values: Seq<Seq<S>>, h: S) {
    }

    fn step(&self, k: usize, dfs: &[FT], t: S, last_values: &[Vec<S>], h: S) -> (r: Vec<S>) {
        let p = predict(dfs, t, last_values, h);
        correct(dfs, t, last_values, h, p)
    }
}

/// The method of Milne and Simpson for the system `ivp` with steps of size
/// `h`; the one-step rule `start_step` computes the three states after the
/// start.
pub fn make_milne_simpson_method<
    S: Scalar,
    FT: SampleableFunction<(S, Vec<S>), S>,
    StartStep: OneStepMethodStep<S, FT>,
>(ivp: InitialValueSystemProblem<S, FT>, h: S, start_step: StartStep) -> (r: KStepMethod<
    S,
    FT,
    MilneSimpson,
    StartStep,
>)
    requires
        ivp.wf(),
    ensures
        r.problem() == ivp,
        r.step_size() == h,
        r.step_count() == 4,
        r.step_method() == MilneSimpson,
        r.start_step() == start_step,
{
    KStepMethod::new(ivp, h, 4, MilneSimpson, start_step)
}

} // verus!
