use crate::adams_bashforth::{combine_3, slopes_3};
use crate::definitions::{
    copy_of, eval_all, evaluate_all, pointwise_sum, rows_spec, scaled, InitialValueSystemProblem,
    PointwiseAdd, SampleableFunction, ScalarMul,
};
use crate::generalized_explicit_k_step_method::{KStepMethod, KStepMethodStep};
use crate::generalized_explicit_one_step_method::OneStepMethodStep;
use crate::scalar::Scalar;
use vstd::prelude::*;

verus! {

/// The Nyström method of order three:
/// `y_{n+3} = y_{n+1} + h * (7/3 * f_{n+2} - 2/3 * f_{n+1} + 1/3 * f_n)`.
pub struct Nystroem3;

/// The state after one step of the Nyström method of order three:
/// `(7/3 * f(t, w[k-1]) - 2/3 * f(t - h, w[k-2]) + 1/3 * f(t - 2h, w[k-3])) * h + w[k-2]`.
pub open spec fn nystroem_3_spec<S: Scalar, FT: SampleableFunction<(S, Vec<S>), S>>(
    k: usize,
    dfs: Seq<FT>,
    t: S,
    window: Seq<Seq<S>>,
    h: S,
) -> Seq<S> {
    let last = window[k - 1];
    let before = window[k - 2];
    let first = window[k - 3];
    pointwise_sum(
        scaled(
            slopes_3(
                S::ratio_spec(7, 3),
                eval_all(dfs, t, last),
                S::ratio_spec(2, 3),
                eval_all(dfs, t.minus_spec(h), before),
                S::ratio_spec(1, 3),
                eval_all(dfs, t.minus_spec(S::ratio_spec(2, 1).times_spec(h)), first),
            ),
            h,
        ),
        before,
    )
}

impl<S: Scalar, FT: SampleableFunction<(S, Vec<S>), S>> KStepMethodStep<S, FT> for Nystroem3 {
    open spec fn supports(&self, k: usize, n: nat) -> bool {
        k >= 3
    }

    open spec fn step_spec(
        &self,
        k: usize,
        dfs: Seq<FT>,
        t: S,
        last_values: Seq<Seq<S>>,
        h: S,
    ) -> Seq<S> {
        nystroem_3_spec(k, dfs, t, last_values, h)
    }

    proof fn lemma_step_len(&self, k: usize, dfs: Seq<FT>, t: S, last_values: Seq<Seq<S>>, h: S) {
    }

    fn step(&self, k: usize, dfs: &[FT], t: S, last_values: &[Vec<S>], h: S) -> (r: Vec<S>) {
        let last = &last_values[k - 1];
        let before = &last_values[k - 2];
        let first = &last_values[k - 3];
        assert(rows_spec(last_values@)[k - 1] == last@);
        assert(rows_spec(last_values@)[k - 2] == before@);
        assert(rows_spec(last_values@)[k - 3] == first@);
        let f_last = evaluate_all(dfs, t, last.as_slice());
        let f_before = evaluate_all(dfs, t.minus(h), before.as_slice());
        let f_first = evaluate_all(dfs, t.minus(S::ratio(2, 1).times(h)), first.as_slice());
        combine_3(
            S::ratio(7, 3),
            &f_last,
            S::ratio(2, 3),
            &f_before,
            S::ratio(1, 3),
            &f_first,
        ).scalar_mul(h).pointwise_add(copy_of(before.as_slice()))
    }
}

/// The Nyström method of order three for the system `ivp` with steps of size
/// `h`; the one-step rule `start_step` computes the second and the third
/// state.
pub fn make_nystroem_3_method<
    S: Scalar,
    FT: SampleableFunction<(S, Vec<S>), S>,
    StartStep: OneStepMethodStep<S, FT>,
>(ivp: InitialValueSystemProblem<S, FT>, h: S, start_step: StartStep) -> (r: KStepMethod<
    S,
    FT,
    Nystroem3,
    StartStep,
>)
    requires
        ivp.wf(),
    ensures
        r.problem() == ivp,
        r.step_size() == h,
        r.step_count() == 3,
        r.step_method() == Nystroem3,
        r.start_step() == start_step,
{
    KStepMethod::new(ivp, h, 3, Nystroem3, start_step)
}

} // verus!
