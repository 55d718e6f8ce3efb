use crate::definitions::{
    copy_of, eval_all, evaluate_all, is_system, pointwise_sum, rows_spec, scaled,
    InitialValueSystemProblem, PointwiseAdd, SampleableFunction, ScalarMul,
};
use crate::generalized_explicit_one_step_method::{OneStepMethod, OneStepMethodStep};
use crate::scalar::{is_exact_zero, Scalar};
use crate::util::{make_zero_vec, zero_vec_spec};
use vstd::prelude::*;

verus! {

/// Whether the three parts form the tableau of an explicit method with
/// `cs.len()` stages: one weight and one row of coefficients for each stage,
/// and `i` coefficients in the row of stage `i`.
pub open spec fn is_tableau<S>(cs: Seq<S>, bs: Seq<S>, coeffs: Seq<Seq<S>>) -> bool {
    &&& bs.len() == cs.len()
    &&& coeffs.len() == cs.len()
    &&& forall|i: int| 0 <= i < coeffs.len() ==> (#[trigger] coeffs[i]).len() == i
}

/// The tableau of an explicit Runge-Kutta method: the times `cs` of the
/// stages, the weights `bs` of the stages in the result, and the strictly
/// lower triangular matrix `coeffs` that couples each stage to the earlier ones.
#[derive(Debug)]
pub struct Tableau<S> {
    cs: Vec<S>,
    bs: Vec<S>,
    coeffs: Vec<Vec<S>>,
}

impl<S> Tableau<S> {
    #[verifier::type_invariant]
    spec fn well_formed(&self) -> bool {
        is_tableau(self.cs@, self.bs@, rows_spec(self.coeffs@))
    }
}

impl<S: Scalar> Tableau<S> {
    /// The times of the stages.
    pub closed spec fn cs_spec(&self) -> Seq<S> {
        self.cs@
    }

    /// The weights of the stages.
    pub closed spec fn bs_spec(&self) -> Seq<S> {
        self.bs@
    }

    /// The coefficients, one row for each stage.
    pub closed spec fn coeffs_spec(&self) -> Seq<Seq<S>> {
        rows_spec(self.coeffs@)
    }

    /// The tableau with the given parts.
    pub fn new(cs: Vec<S>, bs: Vec<S>, coeffs: Vec<Vec<S>>) -> (r: Self)
        requires
            is_tableau(cs@, bs@, rows_spec(coeffs@)),
        ensures
            r.cs_spec() == cs@,
            r.bs_spec() == bs@,
            r.coeffs_spec() == rows_spec(coeffs@),
    {
        Tableau { cs, bs, coeffs }
    }

    /// The tableau with the given parts, where they form one.
    pub fn try_new(cs: Vec<S>, bs: Vec<S>, coeffs: Vec<Vec<S>>) -> (r: Option<Self>)
        ensures
            r.is_some() == is_tableau(cs@, bs@, rows_spec(coeffs@)),
            r.is_some() ==> r.unwrap().cs_spec() == cs@ && r.unwrap().bs_spec() == bs@
                && r.unwrap().coeffs_spec() == rows_spec(coeffs@),
    {
        if bs.len() != cs.len() || coeffs.len() != cs.len() {
            return None;
        }
        let mut i: usize = 0;
        while i < coeffs.len()
            invariant
                i <= coeffs.len(),
                forall|j: int|
                    0 <= j < i ==> (#[trigger] rows_spec(coeffs@)[j]).len()
                        == j,
            decreases coeffs.len() - i,
        {
            if coeffs[i].len() != i {
                assert(rows_spec(coeffs@)[i as int].len() != i);
                return None;
            }
            i = i + 1;
        }
        Some(Tableau { cs, bs, coeffs })
    }

    /// The number of stages. Every tableau is well formed.
    pub fn stages(&self) -> (r: usize)
        ensures
            r == self.cs_spec().len(),
            is_tableau(self.cs_spec(), self.bs_spec(), self.coeffs_spec()),
    {
        proof {
            use_type_invariant(self);
        }
        self.cs.len()
    }

    /// The times of the stages.
    pub fn cs(&self) -> (r: &Vec<S>)
        ensures
            r@ == self.cs_spec(),
    {
        &self.cs
    }

    /// The weights of the stages.
    pub fn bs(&self) -> (r: &Vec<S>)
        ensures
            r@ == self.bs_spec(),
    {
        &self.bs
    }

    /// The coefficients, one row for each stage.
    pub fn coeffs(&self) -> (r: &Vec<Vec<S>>)
        ensures
            rows_spec(r@) == self.coeffs_spec(),
    {
        &self.coeffs
    }
}

/// The sum `zero + ks[0] * weights[0] + ... + ks[count - 1] * weights[count - 1]`
/// of vectors with `n` entries, added up from the left.
pub open spec fn weighted_sum<S: Scalar>(
    ks: Seq<Seq<S>>,
    weights: Seq<S>,
    n: nat,
    count: nat,
) -> Seq<S>
    decreases count,
{
    if count == 0 {
        zero_vec_spec::<S>(n)
    } else {
        pointwise_sum(
            weighted_sum(ks, weights, n, (count - 1) as nat),
            scaled(ks[count - 1], weights[count - 1]),
        )
    }
}

/// The state at which stage `idx` samples the right-hand sides:
/// `(ks[0] * coeffs[idx][0] + ... + ks[idx - 1] * coeffs[idx][idx - 1]) * h + last`.
pub open spec fn stage_sample<S: Scalar>(
    tableau: Tableau<S>,
    ks: Seq<Seq<S>>,
    last_values: Seq<S>,
    h: S,
    n: nat,
    idx: nat,
) -> Seq<S> {
    pointwise_sum(
        scaled(weighted_sum(ks, tableau.coeffs_spec()[idx as int], n, idx), h),
        last_values,
    )
}

/// The slopes of the first `count` stages: stage `idx` samples every
/// right-hand side at the time `t + h * cs[idx]` and the state
/// [`stage_sample`], which for stage 0 is `last_values`.
pub open spec fn stage_slopes<S: Scalar, FT: SampleableFunction<(S, Vec<S>), S>>(
    tableau: Tableau<S>,
    dfs: Seq<FT>,
    t: S,
    last_values: Seq<S>,
    h: S,
    count: nat,
) -> Seq<Seq<S>>
    decreases count,
{
    if count == 0 {
        Seq::empty()
    } else {
        let idx = (count - 1) as nat;
        let ks = stage_slopes(tableau, dfs, t, last_values, h, idx);
        ks.push(
            eval_all(
                dfs,
                t.plus_spec(h.times_spec(tableau.cs_spec()[idx as int])),
                stage_sample(tableau, ks, last_values, h, dfs.len(), idx),
            ),
        )
    }
}

/// The state after one step of the Runge-Kutta method of `tableau`:
/// `(k_0 * bs[0] + ... + k_{s-1} * bs[s-1]) * h + last`.
pub open spec fn runge_kutta_step_spec<S: Scalar, FT: SampleableFunction<(S, Vec<S>), S>>(
    tableau: Tableau<S>,
    dfs: Seq<FT>,
    t: S,
    last_values: Seq<S>,
    h: S,
) -> Seq<S> {
    let s = tableau.cs_spec().len();
    pointwise_sum(
        scaled(
            weighted_sum(
                stage_slopes(tableau, dfs, t, last_values, h, s),
                tableau.bs_spec(),
                dfs.len(),
                s,
            ),
            h,
        ),
        last_values,
    )
}

/// There is one vector of slopes for each stage, with one slope for each
/// equation.
pub proof fn lemma_stage_slopes_len<S: Scalar, FT: SampleableFunction<(S, Vec<S>), S>>(
    tableau: Tableau<S>,
    dfs: Seq<FT>,
    t: S,
    last_values: Seq<S>,
    h: S,
    count: nat,
)
    ensures
        stage_slopes(tableau, dfs, t, last_values, h, count).len() == count,
        forall|j: int|
            0 <= j < count ==> (#[trigger] stage_slopes(
                tableau,
                dfs,
                t,
                last_values,
                h,
                count,
            )[j]).len() == dfs.len(),
    decreases count,
{
    if count > 0 {
        lemma_stage_slopes_len(tableau, dfs, t, last_values, h, (count - 1) as nat);
    }
}

/// A weighted sum of vectors with `n` entries has `n` entries.
pub proof fn lemma_weighted_sum_len<S: Scalar>(
    ks: Seq<Seq<S>>,
    weights: Seq<S>,
    n: nat,
    count: nat,
)
    requires
        count <= ks.len(),
        forall|j: int| 0 <= j < count ==> (#[trigger] ks[j]).len() == n,
    ensures
        weighted_sum(ks, weights, n, count).len() == n,
    decreases count,
{
    if count > 0 {
        lemma_weighted_sum_len(ks, weights, n, (count - 1) as nat);
    }
}

/// Adds `k * weight` to `acc`, entry by entry.
fn add_weighted<S: Scalar>(acc: Vec<S>, k: &Vec<S>, weight: S) -> (r: Vec<S>)
    ensures
        r@ == pointwise_sum(acc@, scaled(k@, weight)),
{
    acc.pointwise_add(copy_of(k.as_slice()).scalar_mul(weight))
}

/// The slopes of all stages of one step, stage by stage.
pub fn stage_slopes_of<S: Scalar, FT: SampleableFunction<(S, Vec<S>), S>>(
    tableau: &Tableau<S>,
    dfs: &[FT],
    t: S,
    last_values: &[S],
    h: S,
) -> (ks: Vec<Vec<S>>)
    requires
        is_system(dfs@, last_values@.len()),
    ensures
        rows_spec(ks@) == stage_slopes(
            *tableau,
            dfs@,
            t,
            last_values@,
            h,
            tableau.cs_spec().len(),
        ),
{
    let stages = tableau.stages();
    let n = dfs.len();
    let mut ks: Vec<Vec<S>> = Vec::new();
    let mut idx: usize = 0;
    while idx < stages
        invariant
            idx <= stages,
            stages == tableau.cs@.len(),
            n == dfs@.len(),
            is_tableau(
                tableau.cs_spec(),
                tableau.bs_spec(),
                tableau.coeffs_spec(),
            ),
            is_system(dfs@, last_values@.len()),
            rows_spec(ks@) == stage_slopes(
                *tableau,
                dfs@,
                t,
                last_values@,
                h,
                idx as nat,
            ),
        decreases stages - idx,
    {
        let ghost slopes = rows_spec(ks@);
        proof {
            lemma_stage_slopes_len(*tableau, dfs@, t, last_values@, h, idx as nat);
            assert(tableau.coeffs_spec()[idx as int].len() == idx);
        }
        let t_sample = t.plus(h.times(tableau.cs[idx]));
        let row = &tableau.coeffs[idx];
        let mut sample_vals: Vec<S> = make_zero_vec(n);
        let mut inner: usize = 0;
        while inner < idx
            invariant
                inner <= idx,
                idx == ks@.len(),
                row@.len() == idx,
                slopes == rows_spec(ks@),
                sample_vals@ == weighted_sum(slopes, row@, n as nat, inner as nat),
            decreases idx - inner,
        {
            assert(slopes[inner as int] == ks@[inner as int]@);
            sample_vals = add_weighted(sample_vals, &ks[inner], row[inner]);
            inner = inner + 1;
        }
        proof {
            lemma_weighted_sum_len(slopes, row@, n as nat, idx as nat);
        }
        let sample = sample_vals.scalar_mul(h).pointwise_add(copy_of(last_values));
        assert(sample@ == stage_sample(*tableau, slopes, last_values@, h, n as nat, idx as nat));
        ks.push(evaluate_all(dfs, t_sample, sample.as_slice()));
        assert(rows_spec(ks@) =~= stage_slopes(
            *tableau,
            dfs@,
            t,
            last_values@,
            h,
            (idx + 1) as nat,
        ));
        idx = idx + 1;
    }
    ks
}

/// One step of the Runge-Kutta method of `tableau`.
pub fn runge_kutta_step<S: Scalar, FT: SampleableFunction<(S, Vec<S>), S>>(
    tableau: &Tableau<S>,
    dfs: &[FT],
    t: S,
    last_values: &[S],
    h: S,
) -> (r: Vec<S>)
    requires
        is_system(dfs@, last_values@.len()),
    ensures
        r@ == runge_kutta_step_spec(*tableau, dfs@, t, last_values@, h),
        r@.len() == dfs@.len(),
{
    let stages = tableau.stages();
    let n = dfs.len();
    let ks = stage_slopes_of(tableau, dfs, t, last_values, h);
    let ghost slopes = rows_spec(ks@);
    proof {
        lemma_stage_slopes_len(*tableau, dfs@, t, last_values@, h, stages as nat);
    }
    let mut change_term: Vec<S> = make_zero_vec(n);
    let mut idx: usize = 0;
    while idx < stages
        invariant
            idx <= stages,
            stages == ks@.len(),
            stages == tableau.bs@.len(),
            slopes == rows_spec(ks@),
            change_term@ == weighted_sum(slopes, tableau.bs@, n as nat, idx as nat),
        decreases stages - idx,
    {
        assert(slopes[idx as int] == ks@[idx as int]@);
        change_term = add_weighted(change_term, &ks[idx], tableau.bs[idx]);
        idx = idx + 1;
    }
    proof {
        lemma_weighted_sum_len(slopes, tableau.bs@, n as nat, stages as nat);
    }
    change_term.scalar_mul(h).pointwise_add(copy_of(last_values))
}

/// An explicit Runge-Kutta method, given by its tableau.
#[derive(Debug)]
pub struct ExplicitRungeKuttaMethod<S> {
    tableau: Tableau<S>,
}

impl<S: Scalar> ExplicitRungeKuttaMethod<S> {
    /// The tableau of the method.
    pub closed spec fn tableau_spec(&self) -> Tableau<S> {
        self.tableau
    }

    /// The method of the given tableau.
    pub fn new(tableau: Tableau<S>) -> (r: Self)
        ensures
            r.tableau_spec() == tableau,
    {
        ExplicitRungeKuttaMethod { tableau }
    }

    /// The tableau of the method.
    pub fn tableau(&self) -> (r: &Tableau<S>)
        ensures
            *r == self.tableau_spec(),
    {
        &self.tableau
    }

    /// The slopes of all stages of one step, stage by stage.
    pub fn get_ks<FT: SampleableFunction<(S, Vec<S>), S>>(
        &self,
        dfs: &[FT],
        t: S,
        last_values: &[S],
        h: S,
    ) -> (ks: Vec<Vec<S>>)
        requires
            is_system(dfs@, last_values@.len()),
        ensures
            rows_spec(ks@) == stage_slopes(
                self.tableau_spec(),
                dfs@,
                t,
                last_values@,
                h,
                self.tableau_spec().cs_spec().len(),
            ),
    {
        stage_slopes_of(&self.tableau, dfs, t, last_values, h)
    }
}

impl<S: Scalar, FT: SampleableFunction<(S, Vec<S>), S>> OneStepMethodStep<
    S,
    FT,
> for ExplicitRungeKuttaMethod<S> {
    open spec fn step_spec(&self, dfs: Seq<FT>, t: S, last_values: Seq<S>, h: S) -> Seq<S> {
        runge_kutta_step_spec(self.tableau_spec(), dfs, t, last_values, h)
    }

    proof fn lemma_step_len(&self, dfs: Seq<FT>, t: S, last_values: Seq<S>, h: S) {
        let s = self.tableau_spec().cs_spec().len();
        let ks = stage_slopes(self.tableau_spec(), dfs, t, last_values, h, s);
        lemma_stage_slopes_len(self.tableau_spec(), dfs, t, last_values, h, s);
        lemma_weighted_sum_len(ks, self.tableau_spec().bs_spec(), dfs.len(), s);
    }

    fn step(&self, dfs: &[FT], t: S, last_values: &[S], h: S) -> (r: Vec<S>) {
        runge_kutta_step(&self.tableau, dfs, t, last_values, h)
    }
}

/// The sample state of every stage is the state itself where the step size
/// is an exact zero.
pub proof fn lemma_runge_kutta_zero_step<S: Scalar, FT: SampleableFunction<(S, Vec<S>), S>>(
    tableau: Tableau<S>,
    dfs: Seq<FT>,
    t: S,
    state: Seq<S>,
    zero: S,
)
    requires
        dfs.len() == state.len(),
        is_exact_zero(zero),
    ensures
        runge_kutta_step_spec(tableau, dfs, t, state, zero) == state,
{
    let s = tableau.cs_spec().len();
    let ks = stage_slopes(tableau, dfs, t, state, zero, s);
    lemma_stage_slopes_len(tableau, dfs, t, state, zero, s);
    lemma_weighted_sum_len(ks, tableau.bs_spec(), dfs.len(), s);
    assert(runge_kutta_step_spec(tableau, dfs, t, state, zero) =~= state);
}

/// The Runge-Kutta method of `tableau` for the system `ivp` with steps of
/// size `h`.
pub fn make_explicit_runge_kutta_with_tableau<S: Scalar, FT: SampleableFunction<(S, Vec<S>), S>>(
    ivp: InitialValueSystemProblem<S, FT>,
    h: S,
    tableau: Tableau<S>,
) -> (r: OneStepMethod<S, FT, ExplicitRungeKuttaMethod<S>>)
    requires
        ivp.wf(),
    ensures
        r.step_method().tableau_spec() == tableau,
        r.problem() == ivp,
        r.step_size() == h,
{
    OneStepMethod::new(ExplicitRungeKuttaMethod::new(tableau), ivp, h)
}

/// The classic Runge-Kutta method of order four for the system `ivp` with steps of size `h`.
pub fn make_classic_runge_kutta<S: Scalar, FT: SampleableFunction<(S, Vec<S>), S>>(
    ivp: InitialValueSystemProblem<S, FT>,
    h: S,
) -> (r: OneStepMethod<S, FT, ExplicitRungeKuttaMethod<S>>)
    requires
        ivp.wf(),
    ensures
        crate::butcher::classic_fractions().gives(r.step_method().tableau_spec()),
        r.problem() == ivp,
        r.step_size() == h,
{
    let tableau = crate::butcher::classic_tableau();
    OneStepMethod::new(ExplicitRungeKuttaMethod::new(tableau), ivp, h)
}

/// England's Runge-Kutta method for the system `ivp` with steps of size `h`.
pub fn make_england_runge_kutta<S: Scalar, FT: SampleableFunction<(S, Vec<S>), S>>(
    ivp: InitialValueSystemProblem<S, FT>,
    h: S,
) -> (r: OneStepMethod<S, FT, ExplicitRungeKuttaMethod<S>>)
    requires
        ivp.wf(),
    ensures
        crate::butcher::england_fractions().gives(r.step_method().tableau_spec()),
        r.problem() == ivp,
        r.step_size() == h,
{
    let tableau = crate::butcher::england_tableau();
    OneStepMethod::new(ExplicitRungeKuttaMethod::new(tableau), ivp, h)
}

/// The Runge-Kutta method of the 3/8 rule for the system `ivp` with steps of size `h`.
pub fn make_three_eight_runge_kutta<S: Scalar, FT: SampleableFunction<(S, Vec<S>), S>>(
    ivp: InitialValueSystemProblem<S, FT>,
    h: S,
) -> (r: OneStepMethod<S, FT, ExplicitRungeKuttaMethod<S>>)
    requires
        ivp.wf(),
    ensures
        crate::butcher::three_eight_fractions().gives(r.step_method().tableau_spec()),
        r.problem() == ivp,
        r.step_size() == h,
{
    let tableau = crate::butcher::three_eight_tableau();
    OneStepMethod::new(ExplicitRungeKuttaMethod::new(tableau), ivp, h)
}

/// The Runge-Kutta method of order two with two stages for the system `ivp` with steps of size `h`.
pub fn make_2nd_order_runge_kutta<S: Scalar, FT: SampleableFunction<(S, Vec<S>), S>>(
    ivp: InitialValueSystemProblem<S, FT>,
    h: S,
) -> (r: OneStepMethod<S, FT, ExplicitRungeKuttaMethod<S>>)
    requires
        ivp.wf(),
    ensures
        crate::butcher::second_order_fractions().gives(r.step_method().tableau_spec()),
        r.problem() == ivp,
        r.step_size() == h,
{
    let tableau = crate::butcher::second_order_tableau();
    OneStepMethod::new(ExplicitRungeKuttaMethod::new(tableau), ivp, h)
}

/// Heun's method of order three for the system `ivp` with steps of size `h`.
pub fn make_heun_method<S: Scalar, FT: SampleableFunction<(S, Vec<S>), S>>(
    ivp: InitialValueSystemProblem<S, FT>,
    h: S,
) -> (r: OneStepMethod<S, FT, ExplicitRungeKuttaMethod<S>>)
    requires
        ivp.wf(),
    ensures
        crate::butcher::heun_fractions().gives(r.step_method().tableau_spec()),
        r.problem() == ivp,
        r.step_size() == h,
{
    let tableau = crate::butcher::heun_tableau();
    OneStepMethod::new(ExplicitRungeKuttaMethod::new(tableau), ivp, h)
}

} // verus!
