use crate::definitions::{
    copy_of, is_system, rows_spec, snapshot, snapshot_spec, values_of, values_spec,
    InitialValueSystemProblem, Point2D, SampleableFunction, SampleableVectorFunction,
    SampledDerivative,
};
use crate::scalar::Scalar;
use vstd::prelude::*;

verus! {

/// A rule that advances the state of a system by one step of size `h`.
pub trait OneStepMethodStep<S: Scalar, FT: SampleableFunction<(S, Vec<S>), S>> {
    /// The state that the rule reaches from `last_values` at time `t`.
    spec fn step_spec(&self, dfs: Seq<FT>, t: S, last_values: Seq<S>, h: S) -> Seq<S>;

    /// Every step gives as many values as there are equations.
    proof fn lemma_step_len(&self, dfs: Seq<FT>, t: S, last_values: Seq<S>, h: S)
        requires
            dfs.len() == last_values.len(),
        ensures
            self.step_spec(dfs, t, last_values, h).len() == dfs.len(),
    ;

    /// Advances `last_values` at time `t` by one step of size `h`.
    fn step(&self, dfs: &[FT], t: S, last_values: &[S], h: S) -> (r: Vec<S>)
        requires
            is_system(dfs@, last_values@.len()),
        ensures
            r@ == self.step_spec(dfs@, t, last_values@, h),
            r@.len() == dfs@.len(),
    ;
}

/// The number of steps after which a driver stops stepping, whatever the
/// times say: `2^64 - 1`, more than any run takes.
pub open spec fn step_limit() -> nat {
    u64::MAX as nat
}

/// What a one-step driver still emits when it stands at time `t` in state
/// `x`, with `skip` steps to pass over before the next intermediate row and
/// `fuel` full steps left.
///
/// While `t + h < t_target` it takes a full step; the row after a full step
/// is emitted where `skip` has run down to zero, which sets `skip` back to
/// `skip_n`. Then one last step of size `t_target - t` follows, whose row
/// carries the time `t_target` and is always emitted.
pub open spec fn one_step_tail<
    S: Scalar,
    FT: SampleableFunction<(S, Vec<S>), S>,
    STEP: OneStepMethodStep<S, FT>,
>(
    step: STEP,
    dfs: Seq<FT>,
    h: S,
    t_target: S,
    skip_n: isize,
    t: S,
    x: Seq<S>,
    skip: isize,
    fuel: nat,
) -> Seq<Seq<Point2D<S>>>
    decreases fuel,
{
    if fuel > 0 && t.plus_spec(h).lt_spec(t_target) {
        let x2 = step.step_spec(dfs, t, x, h);
        let t2 = t.plus_spec(h);
        if skip <= 0 {
            seq![snapshot_spec(t2, x2)] + one_step_tail(
                step,
                dfs,
                h,
                t_target,
                skip_n,
                t2,
                x2,
                skip_n,
                (fuel - 1) as nat,
            )
        } else {
            one_step_tail(
                step,
                dfs,
                h,
                t_target,
                skip_n,
                t2,
                x2,
                (skip - 1) as isize,
                (fuel - 1) as nat,
            )
        }
    } else {
        seq![snapshot_spec(t_target, step.step_spec(dfs, t, x, t_target.minus_spec(t)))]
    }
}

/// The rows that a one-step driver emits for the system `dfs` from the state
/// `start_values` at `start_time`: the start, then what [`one_step_tail`]
/// says.
pub open spec fn one_step_rows_from<
    S: Scalar,
    FT: SampleableFunction<(S, Vec<S>), S>,
    STEP: OneStepMethodStep<S, FT>,
>(
    step: STEP,
    dfs: Seq<FT>,
    start_time: S,
    start_values: Seq<S>,
    h: S,
    t_target: S,
    skip_n: isize,
) -> Seq<Seq<Point2D<S>>> {
    seq![snapshot_spec(start_time, start_values)] + one_step_tail(
        step,
        dfs,
        h,
        t_target,
        skip_n,
        start_time,
        start_values,
        skip_n,
        step_limit(),
    )
}

/// The rows that a one-step driver emits for the problem `ivp`.
pub open spec fn one_step_rows<
    S: Scalar,
    FT: SampleableFunction<(S, Vec<S>), S>,
    STEP: OneStepMethodStep<S, FT>,
>(
    step: STEP,
    ivp: InitialValueSystemProblem<S, FT>,
    h: S,
    t_target: S,
    skip_n: isize,
) -> Seq<Seq<Point2D<S>>> {
    one_step_rows_from(step, ivp.dfs@, ivp.start_time, ivp.start_values@, h, t_target, skip_n)
}

/// Whether `rows` is not empty, each of its rows has `n` samples, and its
/// last row carries the time `t`.
pub open spec fn ends_at<S>(rows: Seq<Seq<Point2D<S>>>, n: nat, t: S) -> bool {
    &&& rows.len() >= 1
    &&& forall|j: int| 0 <= j < rows.len() ==> (#[trigger] rows[j]).len() == n
    &&& forall|i: int| 0 <= i < n ==> (#[trigger] rows.last()[i]).x == t
}

/// The tail of a one-step driver is never empty, each of its rows has one
/// sample for each equation, and its last row carries the target time.
pub proof fn lemma_one_step_tail<
    S: Scalar,
    FT: SampleableFunction<(S, Vec<S>), S>,
    STEP: OneStepMethodStep<S, FT>,
>(
    step: STEP,
    dfs: Seq<FT>,
    h: S,
    t_target: S,
    skip_n: isize,
    t: S,
    x: Seq<S>,
    skip: isize,
    fuel: nat,
)
    requires
        dfs.len() == x.len(),
    ensures
        ends_at(
            one_step_tail(step, dfs, h, t_target, skip_n, t, x, skip, fuel),
            dfs.len(),
            t_target,
        ),
    decreases fuel,
{
    let tail = one_step_tail(step, dfs, h, t_target, skip_n, t, x, skip, fuel);
    if fuel > 0 && t.plus_spec(h).lt_spec(t_target) {
        let x2 = step.step_spec(dfs, t, x, h);
        let t2 = t.plus_spec(h);
        step.lemma_step_len(dfs, t, x, h);
        if skip <= 0 {
            let rest = one_step_tail(
                step,
                dfs,
                h,
                t_target,
                skip_n,
                t2,
                x2,
                skip_n,
                (fuel - 1) as nat,
            );
            lemma_one_step_tail(step, dfs, h, t_target, skip_n, t2, x2, skip_n, (fuel - 1) as nat);
            assert(tail == seq![snapshot_spec(t2, x2)] + rest);
            assert(tail.last() == rest.last());
            assert forall|j: int| 0 <= j < tail.len() implies (#[trigger] tail[j]).len()
                == dfs.len() by {
                if j > 0 {
                    assert(tail[j] == rest[j - 1]);
                }
            }
        } else {
            lemma_one_step_tail(
                step,
                dfs,
                h,
                t_target,
                skip_n,
                t2,
                x2,
                (skip - 1) as isize,
                (fuel - 1) as nat,
            );
        }
    } else {
        step.lemma_step_len(dfs, t, x, t_target.minus_spec(t));
    }
}

/// The time after `k` full steps of size `h` from `t`.
pub open spec fn time_after<S: Scalar>(t: S, h: S, k: nat) -> S
    decreases k,
{
    if k == 0 {
        t
    } else {
        time_after(t.plus_spec(h), h, (k - 1) as nat)
    }
}

/// The state after `k` full steps of size `h` from the state `x` at `t`.
pub open spec fn state_after<
    S: Scalar,
    FT: SampleableFunction<(S, Vec<S>), S>,
    STEP: OneStepMethodStep<S, FT>,
>(step: STEP, dfs: Seq<FT>, h: S, t: S, x: Seq<S>, k: nat) -> Seq<S>
    decreases k,
{
    if k == 0 {
        x
    } else {
        state_after(step, dfs, h, t.plus_spec(h), step.step_spec(dfs, t, x, h), (k - 1) as nat)
    }
}

/// The number of full steps that a one-step driver takes from `t`: it steps
/// while `t + h < t_target`, and no more than `fuel` times.
pub open spec fn full_steps<S: Scalar>(h: S, t_target: S, t: S, fuel: nat) -> nat
    decreases fuel,
{
    if fuel > 0 && t.plus_spec(h).lt_spec(t_target) {
        1 + full_steps(h, t_target, t.plus_spec(h), (fuel - 1) as nat)
    } else {
        0
    }
}

/// The distance between two rows that are emitted: `skip_n + 1` steps, and
/// one step where `skip_n` is not positive.
pub open spec fn period(skip_n: isize) -> int {
    if skip_n <= 0 {
        1
    } else {
        skip_n + 1
    }
}

/// The number of rows that are emitted for `n` full steps, where the first
/// is emitted after `first` steps and then one every `every` steps.
pub open spec fn emitted_rows(n: nat, first: int, every: int) -> nat {
    if n < first {
        0
    } else {
        ((n - first) / every + 1) as nat
    }
}

/// The rows of a one-step driver, step by step: with `n` the number of full
/// steps, see [`full_steps`], the tail holds the row after the full step
/// `first + j * period` for every `j` for which that is at most `n`, where
/// `first` is `skip + 1` (and 1 where `skip` is not positive), and then the
/// row of the last, shorter step from the state after `n` full steps.
pub proof fn lemma_one_step_tail_rows<
    S: Scalar,
    FT: SampleableFunction<(S, Vec<S>), S>,
    STEP: OneStepMethodStep<S, FT>,
>(
    step: STEP,
    dfs: Seq<FT>,
    h: S,
    t_target: S,
    skip_n: isize,
    t: S,
    x: Seq<S>,
    skip: isize,
    fuel: nat,
)
    ensures
        ({
            let n = full_steps(h, t_target, t, fuel);
            let first = period(skip);
            let every = period(skip_n);
            one_step_tail(step, dfs, h, t_target, skip_n, t, x, skip, fuel) == Seq::new(
                emitted_rows(n, first, every),
                |j: int|
                    snapshot_spec(
                        time_after(t, h, (first + j * every) as nat),
                        state_after(step, dfs, h, t, x, (first + j * every) as nat),
                    ),
            ) + seq![
                snapshot_spec(
                    t_target,
                    step.step_spec(
                        dfs,
                        time_after(t, h, n),
                        state_after(step, dfs, h, t, x, n),
                        t_target.minus_spec(time_after(t, h, n)),
                    ),
                ),
            ]
        }),
    decreases fuel,
{
    let n = full_steps(h, t_target, t, fuel);
    let first = period(skip);
    let every = period(skip_n);
    let tail = one_step_tail(step, dfs, h, t_target, skip_n, t, x, skip, fuel);
    let rows = Seq::new(
        emitted_rows(n, first, every),
        |j: int|
            snapshot_spec(
                time_after(t, h, (first + j * every) as nat),
                state_after(step, dfs, h, t, x, (first + j * every) as nat),
            ),
    );
    let last = snapshot_spec(
        t_target,
        step.step_spec(
            dfs,
            time_after(t, h, n),
            state_after(step, dfs, h, t, x, n),
            t_target.minus_spec(time_after(t, h, n)),
        ),
    );
    if fuel > 0 && t.plus_spec(h).lt_spec(t_target) {
        let x2 = step.step_spec(dfs, t, x, h);
        let t2 = t.plus_spec(h);
        let n2 = full_steps(h, t_target, t2, (fuel - 1) as nat);
        let skip2: isize = if skip <= 0 {
            skip_n
        } else {
            (skip - 1) as isize
        };
        let first2 = period(skip2);
        lemma_one_step_tail_rows(step, dfs, h, t_target, skip_n, t2, x2, skip2, (fuel - 1) as nat);
        let rest = one_step_tail(step, dfs, h, t_target, skip_n, t2, x2, skip2, (fuel - 1) as nat);
        let rows2 = Seq::new(
            emitted_rows(n2, first2, every),
            |j: int|
                snapshot_spec(
                    time_after(t2, h, (first2 + j * every) as nat),
                    state_after(step, dfs, h, t2, x2, (first2 + j * every) as nat),
                ),
        );
        assert(n == n2 + 1);
        if skip <= 0 {
            assert(first == 1);
            assert(first2 == every);
            lemma_emitted_rows_shift(n2, every);
            assert(emitted_rows(n, first, every) == emitted_rows(n2, first2, every) + 1);
            assert(tail == seq![snapshot_spec(t2, x2)] + rest);
            assert forall|j: int| 0 <= j < rows.len() implies #[trigger] rows[j] == (seq![
                snapshot_spec(t2, x2),
            ] + rows2)[j] by {
                if j > 0 {
                    let k = first2 + (j - 1) * every;
                    assert(first + j * every == 1 + k) by (nonlinear_arith)
                        requires
                            first == 1,
                            first2 == every,
                            k == first2 + (j - 1) * every,
                    ;
                    assert(k >= 0) by (nonlinear_arith)
                        requires
                            first2 >= 1,
                            j >= 1,
                            every >= 1,
                            k == first2 + (j - 1) * every,
                    ;
                    assert(time_after(t, h, (1 + k) as nat) == time_after(t2, h, k as nat));
                    assert(state_after(step, dfs, h, t, x, (1 + k) as nat) == state_after(
                        step,
                        dfs,
                        h,
                        t2,
                        x2,
                        k as nat,
                    ));
                    assert(rows2[j - 1] == snapshot_spec(
                        time_after(t2, h, k as nat),
                        state_after(step, dfs, h, t2, x2, k as nat),
                    ));
                } else {
                    assert(first + j * every == 1) by (nonlinear_arith)
                        requires
                            first == 1,
                            j == 0,
                    ;
                    assert(time_after(t, h, 1) == time_after(t2, h, 0));
                    assert(state_after(step, dfs, h, t, x, 1) == state_after(
                        step,
                        dfs,
                        h,
                        t2,
                        x2,
                        0,
                    ));
                }
            }
            assert(rows =~= seq![snapshot_spec(t2, x2)] + rows2);
            assert(rows + seq![last] =~= seq![snapshot_spec(t2, x2)] + (rows2 + seq![last]));
        } else {
            assert(first == first2 + 1);
            assert(emitted_rows(n, first, every) == emitted_rows(n2, first2, every));
            assert forall|j: int| 0 <= j < rows.len() implies #[trigger] rows[j] == rows2[j] by {
                let k = first2 + j * every;
                assert(first + j * every == 1 + k);
                assert(k >= 0) by (nonlinear_arith)
                    requires
                        first2 >= 1,
                        j >= 0,
                        every >= 1,
                        k == first2 + j * every,
                ;
                assert(time_after(t, h, (1 + k) as nat) == time_after(t2, h, k as nat));
                assert(state_after(step, dfs, h, t, x, (1 + k) as nat) == state_after(
                    step,
                    dfs,
                    h,
                    t2,
                    x2,
                    k as nat,
                ));
            }
            assert(rows =~= rows2);
        }
    } else {
        assert(rows =~= Seq::<Seq<Point2D<S>>>::empty());
        assert(rows + seq![last] =~= seq![last]);
    }
}

/// With a row after every `every` steps from the step `every` on, `n` steps
/// give `n / every` rows.
pub proof fn lemma_emitted_rows_shift(n: nat, every: int)
    requires
        every >= 1,
    ensures
        emitted_rows(n, every, every) == (n as int) / every,
{
    if n >= every {
        assert((n - every) / every + 1 == (n as int) / every) by (nonlinear_arith)
            requires
                every >= 1,
                n >= every,
        ;
    } else {
        assert((n as int) / every == 0) by (nonlinear_arith)
            requires
                every >= 1,
                0 <= n < every,
        ;
    }
}

/// Whether `<` is transitive in the arithmetic `S`.
pub open spec fn lt_is_transitive<S: Scalar>() -> bool {
    forall|a: S, b: S, c: S| #[trigger]
        a.lt_spec(b) && #[trigger] b.lt_spec(c) ==> a.lt_spec(c)
}

/// Whether a step of size `h` moves every time forwards from which a full
/// step towards `t_target` is taken.
pub open spec fn step_moves_forwards<S: Scalar>(h: S, t_target: S) -> bool {
    forall|t: S| (#[trigger] t.plus_spec(h)).lt_spec(t_target) ==> t.lt_spec(t.plus_spec(h))
}

/// Whether the times of the rows, read from their first samples, grow from
/// row to row and all lie after `t`.
pub open spec fn times_grow_after<S: Scalar>(rows: Seq<Seq<Point2D<S>>>, t: S) -> bool {
    &&& forall|j: int| 0 <= j < rows.len() ==> t.lt_spec(#[trigger] rows[j][0].x)
    &&& forall|i: int, j: int|
        0 <= i < j < rows.len() ==> (#[trigger] rows[i][0].x).lt_spec(#[trigger] rows[j][0].x)
}

/// The times of the rows of a one-step driver grow from row to row, in every
/// arithmetic in which `<` is transitive and a step moves the time forwards,
/// for a target after the start and a system of at least one equation.
pub proof fn lemma_one_step_times_grow<
    S: Scalar,
    FT: SampleableFunction<(S, Vec<S>), S>,
    STEP: OneStepMethodStep<S, FT>,
>(
    step: STEP,
    dfs: Seq<FT>,
    h: S,
    t_target: S,
    skip_n: isize,
    t: S,
    x: Seq<S>,
    skip: isize,
    fuel: nat,
)
    requires
        lt_is_transitive::<S>(),
        step_moves_forwards(h, t_target),
        t.lt_spec(t_target),
        dfs.len() == x.len(),
        dfs.len() >= 1,
    ensures
        times_grow_after(one_step_tail(step, dfs, h, t_target, skip_n, t, x, skip, fuel), t),
    decreases fuel,
{
    let tail = one_step_tail(step, dfs, h, t_target, skip_n, t, x, skip, fuel);
    if fuel > 0 && t.plus_spec(h).lt_spec(t_target) {
        let x2 = step.step_spec(dfs, t, x, h);
        let t2 = t.plus_spec(h);
        step.lemma_step_len(dfs, t, x, h);
        if skip <= 0 {
            let rest = one_step_tail(
                step,
                dfs,
                h,
                t_target,
                skip_n,
                t2,
                x2,
                skip_n,
                (fuel - 1) as nat,
            );
            lemma_one_step_times_grow(
                step,
                dfs,
                h,
                t_target,
                skip_n,
                t2,
                x2,
                skip_n,
                (fuel - 1) as nat,
            );
            assert(tail == seq![snapshot_spec(t2, x2)] + rest);
            assert(tail[0][0].x == t2);
            assert forall|j: int| 0 <= j < tail.len() implies t.lt_spec(
                #[trigger] tail[j][0].x,
            ) by {
                if j > 0 {
                    assert(tail[j] == rest[j - 1]);
                    assert(t2.lt_spec(rest[j - 1][0].x));
                }
            }
            assert forall|i: int, j: int| 0 <= i < j < tail.len() implies (
            #[trigger] tail[i][0].x).lt_spec(#[trigger] tail[j][0].x) by {
                assert(tail[j] == rest[j - 1]);
                if i > 0 {
                    assert(tail[i] == rest[i - 1]);
                } else {
                    assert(t2.lt_spec(rest[j - 1][0].x));
                }
            }
        } else {
            let rest = one_step_tail(
                step,
                dfs,
                h,
                t_target,
                skip_n,
                t2,
                x2,
                (skip - 1) as isize,
                (fuel - 1) as nat,
            );
            lemma_one_step_times_grow(
                step,
                dfs,
                h,
                t_target,
                skip_n,
                t2,
                x2,
                (skip - 1) as isize,
                (fuel - 1) as nat,
            );
            assert forall|j: int| 0 <= j < tail.len() implies t.lt_spec(
                #[trigger] tail[j][0].x,
            ) by {
                assert(t2.lt_spec(rest[j][0].x));
            }
        }
    } else {
        step.lemma_step_len(dfs, t, x, t_target.minus_spec(t));
        assert(tail[0][0].x == t_target);
    }
}

/// Integrates from the start of the problem to `t_target` and returns the
/// states on the way, each as a row of samples `(time, value)`.
///
/// The first row is the start. Full steps of size `h` follow while
/// `t + h < t_target`; of their rows one in `skip_n + 1` is returned
/// (every one where `skip_n <= 0`). The last row comes from one shorter
/// step of size `t_target - t`, is always returned, and carries the time
/// `t_target`. No more than [`step_limit`] full steps are taken.
pub fn one_step_interval<
    S: Scalar,
    FT: SampleableFunction<(S, Vec<S>), S>,
    STEP: OneStepMethodStep<S, FT>,
>(
    step_method: &STEP,
    ivp: &InitialValueSystemProblem<S, FT>,
    h: S,
    t_target: S,
    skip_n: isize,
) -> (r: Vec<Vec<Point2D<S>>>)
    requires
        ivp.wf(),
    ensures
        rows_spec(r@) == one_step_rows(*step_method, *ivp, h, t_target, skip_n),
        r@.len() >= 2,
        r@[0]@ == snapshot_spec(ivp.start_time, ivp.start_values@),
        ends_at(rows_spec(r@), ivp.dfs@.len(), t_target),
{
    let mut skip: isize = skip_n;
    let mut t = ivp.start_time;
    let mut values = copy_of(ivp.start_values.as_slice());
    let mut out: Vec<Vec<Point2D<S>>> = Vec::new();
    out.push(snapshot(t, values.as_slice()));
    assert(rows_spec(out@) =~= seq![snapshot_spec(t, values@)]);
    let mut steps: u64 = 0;
    while steps < u64::MAX && t.plus(h).lt(t_target)
        invariant
            ivp.wf(),
            values@.len() == ivp.dfs@.len(),
            out@.len() >= 1,
            out@[0]@ == snapshot_spec(ivp.start_time, ivp.start_values@),
            one_step_rows(*step_method, *ivp, h, t_target, skip_n) == rows_spec(out@) + one_step_tail(
                *step_method,
                ivp.dfs@,
                h,
                t_target,
                skip_n,
                t,
                values@,
                skip,
                (u64::MAX - steps) as nat,
            ),
        decreases u64::MAX - steps,
    {
        let ghost before = rows_spec(out@);
        let next = step_method.step(
            ivp.dfs.as_slice(),
            t,
            values.as_slice(),
            h,
        );
        let t_next = t.plus(h);
        if skip <= 0 {
            let row = snapshot(t_next, next.as_slice());
            out.push(row);
            skip = skip_n;
            proof {
                let rest = one_step_tail(
                    *step_method,
                    ivp.dfs@,
                    h,
                    t_target,
                    skip_n,
                    t_next,
                    next@,
                    skip_n,
                    (u64::MAX - steps - 1) as nat,
                );
                assert(rows_spec(out@) =~= before + seq![snapshot_spec(t_next, next@)]);
                assert(before + (seq![snapshot_spec(t_next, next@)] + rest) =~= (before
                    + seq![snapshot_spec(t_next, next@)]) + rest);
            }
        } else {
            skip = skip - 1;
        }
        values = next;
        t = t_next;
        steps = steps + 1;
    }
    let last = step_method.step(
        ivp.dfs.as_slice(),
        t,
        values.as_slice(),
        t_target.minus(t),
    );
    let ghost before = rows_spec(out@);
    out.push(snapshot(t_target, last.as_slice()));
    proof {
        assert(rows_spec(out@) =~= before + seq![snapshot_spec(t_target, last@)]);
        lemma_one_step_tail(
            *step_method,
            ivp.dfs@,
            h,
            t_target,
            skip_n,
            ivp.start_time,
            ivp.start_values@,
            skip_n,
            step_limit(),
        );
        let tail = one_step_tail(
            *step_method,
            ivp.dfs@,
            h,
            t_target,
            skip_n,
            ivp.start_time,
            ivp.start_values@,
            skip_n,
            step_limit(),
        );
        let rows = rows_spec(out@);
        assert(rows.last() == tail.last());
        assert forall|j: int| 0 <= j < rows.len() implies (#[trigger] rows[j]).len()
            == ivp.dfs@.len() by {
            if j > 0 {
                assert(rows[j] == tail[j - 1]);
            }
        }
    }
    out
}

/// The state that a one-step driver reaches at `t_target`: the values of the
/// last of its rows when none is passed over.
pub open spec fn one_step_value<
    S: Scalar,
    FT: SampleableFunction<(S, Vec<S>), S>,
    STEP: OneStepMethodStep<S, FT>,
>(step: STEP, ivp: InitialValueSystemProblem<S, FT>, h: S, t_target: S) -> Seq<S> {
    values_spec(one_step_rows(step, ivp, h, t_target, 0).last())
}

/// The state that a one-step driver reaches has one value for each equation.
pub proof fn lemma_one_step_value_len<
    S: Scalar,
    FT: SampleableFunction<(S, Vec<S>), S>,
    STEP: OneStepMethodStep<S, FT>,
>(step: STEP, ivp: InitialValueSystemProblem<S, FT>, h: S, t_target: S)
    requires
        ivp.dfs@.len() == ivp.start_values@.len(),
    ensures
        one_step_value(step, ivp, h, t_target).len() == ivp.dfs@.len(),
{
    lemma_one_step_tail(
        step,
        ivp.dfs@,
        h,
        t_target,
        0,
        ivp.start_time,
        ivp.start_values@,
        0,
        step_limit(),
    );
    let tail = one_step_tail(
        step,
        ivp.dfs@,
        h,
        t_target,
        0,
        ivp.start_time,
        ivp.start_values@,
        0,
        step_limit(),
    );
    let rows = one_step_rows(step, ivp, h, t_target, 0);
    assert(rows.last() == tail.last());
}

/// The state that the rule `step_method` reaches at `t_target` from the
/// start of `ivp`, see [`one_step_interval`].
pub fn one_step_value_at<
    S: Scalar,
    FT: SampleableFunction<(S, Vec<S>), S>,
    STEP: OneStepMethodStep<S, FT>,
>(step_method: &STEP, ivp: &InitialValueSystemProblem<S, FT>, h: S, t_target: S) -> (r: Vec<S>)
    requires
        ivp.wf(),
    ensures
        r@ == one_step_value(*step_method, *ivp, h, t_target),
        r@.len() == ivp.dfs@.len(),
{
    let rows = one_step_interval(step_method, ivp, h, t_target, 0);
    let last = &rows[rows.len() - 1];
    assert(rows_spec(rows@).last() == last@);
    values_of(last.as_slice())
}


/// The least distance from the start beyond which the slope of a method is
/// taken between the rows around the target, `2^-52`.
pub open spec fn slope_threshold<S: Scalar>() -> S {
    S::ratio_spec(1, 4503599627370496)
}

/// The index of the first row after `t_target` in a run of full steps from
/// `start_time`: `ceil((t_target - start_time) / h)`, and 1 where the target
/// is not farther than [`slope_threshold`] from the start.
pub open spec fn slope_index<S: Scalar>(start_time: S, h: S, t_target: S) -> usize {
    if slope_threshold::<S>().lt_spec(t_target.minus_spec(start_time).abs_spec()) {
        t_target.minus_spec(start_time).over_spec(h).ceil_spec()
    } else {
        1
    }
}

/// The slopes between two rows: `(p2.y - p1.y) / (p2.x - p1.x)` for each
/// pair of samples, as far as both rows reach.
pub open spec fn slopes_between<S: Scalar>(row1: Seq<Point2D<S>>, row2: Seq<Point2D<S>>) -> Seq<S> {
    Seq::new(
        if row1.len() <= row2.len() {
            row1.len()
        } else {
            row2.len()
        },
        |i: int| row2[i].y.minus_spec(row1[i].y).over_spec(row2[i].x.minus_spec(row1[i].x)),
    )
}

/// The slopes of the polygon through `rows` at the row `idx`, where that row
/// and the one before it exist.
pub open spec fn slope_at<S: Scalar>(rows: Seq<Seq<Point2D<S>>>, idx: usize) -> Option<Seq<S>> {
    if 1 <= idx < rows.len() {
        Some(slopes_between(rows[idx - 1], rows[idx as int]))
    } else {
        None
    }
}

/// A step rule together with the problem it is applied to and the step size.
pub struct OneStepMethod<
    S: Scalar,
    FT: SampleableFunction<(S, Vec<S>), S>,
    STEP: OneStepMethodStep<S, FT>,
> {
    step_method: STEP,
    ivp: InitialValueSystemProblem<S, FT>,
    h: S,
}

impl<
    S: Scalar,
    FT: SampleableFunction<(S, Vec<S>), S>,
    STEP: OneStepMethodStep<S, FT>,
> OneStepMethod<S, FT, STEP> {
    #[verifier::type_invariant]
    spec fn well_formed(&self) -> bool {
        self.ivp.wf()
    }

    /// The step rule of the method.
    pub closed spec fn step_method(&self) -> STEP {
        self.step_method
    }

    /// The problem that the method solves.
    pub closed spec fn problem(&self) -> InitialValueSystemProblem<S, FT> {
        self.ivp
    }

    /// The size of a full step.
    pub closed spec fn step_size(&self) -> S {
        self.h
    }

    /// The rows that [`Self::interval`] returns.
    pub open spec fn interval_spec(&self, t_target: S, skip_n: isize) -> Seq<Seq<Point2D<S>>> {
        one_step_rows(self.step_method(), self.problem(), self.step_size(), t_target, skip_n)
    }

    /// The state that [`Self::value_at`] returns.
    pub open spec fn value_spec(&self, t_target: S) -> Seq<S> {
        one_step_value(self.step_method(), self.problem(), self.step_size(), t_target)
    }

    /// The method that applies `step_method` to `ivp` with steps of size `h`.
    pub fn new(step_method: STEP, ivp: InitialValueSystemProblem<S, FT>, h: S) -> (r: Self)
        requires
            ivp.wf(),
        ensures
            r.step_method() == step_method,
            r.problem() == ivp,
            r.step_size() == h,
            r.problem().wf(),
    {
        OneStepMethod { step_method, ivp, h }
    }

    /// Integrates from the start of the problem to `t_target` and returns the
    /// states on the way, see [`one_step_interval`].
    pub fn interval(&self, t_target: S, skip_n: isize) -> (r: Vec<Vec<Point2D<S>>>)
        ensures
            rows_spec(r@) == self.interval_spec(t_target, skip_n),
            r@.len() >= 2,
            r@[0]@ == snapshot_spec(self.problem().start_time, self.problem().start_values@),
            ends_at(rows_spec(r@), self.problem().dfs@.len(), t_target),
    {
        proof {
            use_type_invariant(self);
        }
        one_step_interval(&self.step_method, &self.ivp, self.h, t_target, skip_n)
    }

    /// The state that the method reaches at `t_target`: the values of the
    /// last row of [`Self::interval`].
    pub fn value_at(&self, t_target: S) -> (r: Vec<S>)
        ensures
            r@ == self.value_spec(t_target),
            r@.len() == self.problem().dfs@.len(),
    {
        proof {
            use_type_invariant(self);
        }
        one_step_value_at(&self.step_method, &self.ivp, self.h, t_target)
    }

    /// The slopes that [`Self::derivative_at`] returns: those of the polygon
    /// through the rows of a run to `t_target + h`, at the first row after
    /// `t_target`.
    pub open spec fn derivative_spec(&self, t_target: S) -> Option<Seq<S>> {
        slope_at(
            self.interval_spec(t_target.plus_spec(self.step_size()), 0),
            slope_index(self.problem().start_time, self.step_size(), t_target),
        )
    }

    /// The derivative of this method, as a function to sample.
    pub fn get_derivative(self) -> (r: SampledDerivative<Self>)
        ensures
            r.f == self,
    {
        SampledDerivative::new(self)
    }

    /// The slope of the polygon through the states of the method at
    /// `t_target`, for each component: the method runs one step farther than
    /// `t_target`, and the slope is taken between the first row after
    /// `t_target` and the row before it. There is none where the index of
    /// that row, see [`slope_index`], does not lie among the rows.
    pub fn derivative_at(&self, t_target: S) -> (r: Option<Vec<S>>)
        ensures
            r.is_some() == self.derivative_spec(t_target).is_some(),
            r.is_some() ==> r.unwrap()@ == self.derivative_spec(t_target).unwrap(),
    {
        let results = self.interval(t_target.plus(self.h), 0);
        let distance = t_target.minus(self.ivp.start_time);
        let idx = if slope_threshold_value::<S>().lt(distance.abs()) {
            distance.over(self.h).ceil()
        } else {
            1
        };
        if idx < 1 || idx >= results.len() {
            return None;
        }
        let row1 = &results[idx - 1];
        let row2 = &results[idx];
        assert(rows_spec(results@)[idx - 1] == row1@);
        assert(rows_spec(results@)[idx as int] == row2@);
        let n = if row1.len() <= row2.len() {
            row1.len()
        } else {
            row2.len()
        };
        let mut out: Vec<S> = Vec::new();
        let mut i: usize = 0;
        while i < n
            invariant
                i <= n,
                n <= row1.len(),
                n <= row2.len(),
                out@.len() == i,
                forall|j: int| 0 <= j < i ==> out@[j] == slopes_between(row1@, row2@)[j],
            decreases n - i,
        {
            out.push(row2[i].y.minus(row1[i].y).over(row2[i].x.minus(row1[i].x)));
            i = i + 1;
        }
        assert(out@ =~= slopes_between(row1@, row2@));
        Some(out)
    }
}

/// The threshold [`slope_threshold`].
fn slope_threshold_value<S: Scalar>() -> (r: S)
    ensures
        r == slope_threshold::<S>(),
{
    S::ratio(1, 4503599627370496)
}

impl<
    S: Scalar,
    FT: SampleableFunction<(S, Vec<S>), S>,
    STEP: OneStepMethodStep<S, FT>,
> SampleableVectorFunction<S, S> for OneStepMethod<S, FT, STEP> {
    open spec fn defined_at(&self, input: S) -> bool {
        true
    }

    /// The state that the method reaches at the time `input`.
    open spec fn values_spec(&self, input: S) -> Seq<S> {
        self.value_spec(input)
    }

    fn values_at(&self, input: S) -> (r: Vec<S>) {
        self.value_at(input)
    }
}

} // verus!
