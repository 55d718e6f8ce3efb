use crate::definitions::{
    copy_of, is_system, rows_spec, snapshot, snapshot_spec,
    InitialValueSystemProblem, Point2D, SampleableFunction,
};
use crate::generalized_explicit_one_step_method::{
    emitted_rows, lemma_emitted_rows_shift, lt_is_transitive, one_step_value, one_step_value_at,
    period, step_limit, time_after, times_grow_after, OneStepMethodStep,
};
use crate::scalar::Scalar;
use vstd::prelude::*;

verus! {

/// Whether `window` holds `k` states of `n` values each.
pub open spec fn is_window<S>(window: Seq<Seq<S>>, k: nat, n: nat) -> bool {
    &&& window.len() == k
    &&& forall|j: int| 0 <= j < window.len() ==> (#[trigger] window[j]).len() == n
}

/// A rule that computes the next state of a system from the last `k` states.
pub trait KStepMethodStep<S: Scalar, FT: SampleableFunction<(S, Vec<S>), S>> {
    /// Whether the rule works on windows of `k` states for systems of `n`
    /// equations.
    spec fn supports(&self, k: usize, n: nat) -> bool;

    /// The state that follows on the states in `last_values`, oldest first,
    /// the newest of which belongs to the time `t`.
    spec fn step_spec(&self, k: usize, dfs: Seq<FT>, t: S, last_values: Seq<Seq<S>>, h: S) -> Seq<
        S,
    >;

    /// Every step gives as many values as there are equations.
    proof fn lemma_step_len(&self, k: usize, dfs: Seq<FT>, t: S, last_values: Seq<Seq<S>>, h: S)
        requires
            self.supports(k, dfs.len()),
            is_window(last_values, k as nat, dfs.len()),
        ensures
            self.step_spec(k, dfs, t, last_values, h).len() == dfs.len(),
    ;

    /// Computes the state that follows on the states in `last_values`.
    fn step(&self, k: usize, dfs: &[FT], t: S, last_values: &[Vec<S>], h: S) -> (r: Vec<S>)
        requires
            self.supports(k, dfs@.len()),
            is_system(dfs@, dfs@.len()),
            is_window(rows_spec(last_values@), k as nat, dfs@.len()),
        ensures
            r@ == self.step_spec(k, dfs@, t, rows_spec(last_values@), h),
            r@.len() == dfs@.len(),
    ;
}

/// The time of the state `idx` of the first window: the start for the first
/// state, and `start_time + idx * h` for the others.
pub open spec fn bootstrap_time<S: Scalar>(start_time: S, h: S, idx: nat) -> S {
    if idx == 0 {
        start_time
    } else {
        start_time.plus_spec(S::count_spec(idx as usize).times_spec(h))
    }
}

/// The first window of a multistep driver: the start values, then for each
/// `idx` from 1 to `k - 1` the state that the one-step rule `start_step`
/// reaches at `start_time + idx * h` in a run of its own.
pub open spec fn bootstrap_window<
    S: Scalar,
    FT: SampleableFunction<(S, Vec<S>), S>,
    StartStep: OneStepMethodStep<S, FT>,
>(start_step: StartStep, ivp: InitialValueSystemProblem<S, FT>, h: S, k: nat) -> Seq<Seq<S>> {
    Seq::new(
        k,
        |idx: int|
            if idx == 0 {
                ivp.start_values@
            } else {
                one_step_value(start_step, ivp, h, bootstrap_time(ivp.start_time, h, idx as nat))
            },
    )
}

/// The rows of the first window: the state `idx` with the time
/// `start_time + idx * h`.
pub open spec fn bootstrap_rows<
    S: Scalar,
    FT: SampleableFunction<(S, Vec<S>), S>,
    StartStep: OneStepMethodStep<S, FT>,
>(start_step: StartStep, ivp: InitialValueSystemProblem<S, FT>, h: S, k: nat) -> Seq<
    Seq<Point2D<S>>,
> {
    Seq::new(
        k,
        |idx: int|
            snapshot_spec(
                bootstrap_time(ivp.start_time, h, idx as nat),
                bootstrap_window(start_step, ivp, h, k)[idx],
            ),
    )
}

/// What a multistep driver still emits when the newest state of `window`
/// belongs to the time `t`, with `skip` steps to pass over before the next
/// row and `fuel` steps left.
///
/// While `t < t_target` it takes a step to the time `t + h`, which drops the
/// oldest state of the window and appends the new one; the row after a step
/// carries the time `t + h` and is emitted where `skip` has run down to
/// zero, which sets `skip` back to `skip_n`. Nothing follows the last step:
/// the times differ from that of the first window by multiples of `h`, and
/// the last of them is not moved onto `t_target`.
pub open spec fn k_step_tail<
    S: Scalar,
    FT: SampleableFunction<(S, Vec<S>), S>,
    STEP: KStepMethodStep<S, FT>,
>(
    step: STEP,
    k: usize,
    dfs: Seq<FT>,
    h: S,
    t_target: S,
    skip_n: isize,
    t: S,
    window: Seq<Seq<S>>,
    skip: isize,
    fuel: nat,
) -> Seq<Seq<Point2D<S>>>
    decreases fuel,
{
    if fuel > 0 && t.lt_spec(t_target) {
        let next = step.step_spec(k, dfs, t, window, h);
        let window2 = window.remove(0).push(next);
        let t2 = t.plus_spec(h);
        if skip <= 0 {
            seq![snapshot_spec(t2, next)] + k_step_tail(
                step,
                k,
                dfs,
                h,
                t_target,
                skip_n,
                t2,
                window2,
                skip_n,
                (fuel - 1) as nat,
            )
        } else {
            k_step_tail(
                step,
                k,
                dfs,
                h,
                t_target,
                skip_n,
                t2,
                window2,
                (skip - 1) as isize,
                (fuel - 1) as nat,
            )
        }
    } else {
        Seq::empty()
    }
}

/// The window after `n` steps of size `h` from the window `window` at the
/// time `t`: each step drops the oldest state and appends the new one.
pub open spec fn window_after<
    S: Scalar,
    FT: SampleableFunction<(S, Vec<S>), S>,
    STEP: KStepMethodStep<S, FT>,
>(step: STEP, k: usize, dfs: Seq<FT>, h: S, t: S, window: Seq<Seq<S>>, n: nat) -> Seq<Seq<S>>
    decreases n,
{
    if n == 0 {
        window
    } else {
        window_after(
            step,
            k,
            dfs,
            h,
            t.plus_spec(h),
            window.remove(0).push(step.step_spec(k, dfs, t, window, h)),
            (n - 1) as nat,
        )
    }
}

/// The number of steps that a multistep driver takes from `t`: it steps
/// while `t < t_target`, and no more than `fuel` times.
pub open spec fn steps_taken<S: Scalar>(h: S, t_target: S, t: S, fuel: nat) -> nat
    decreases fuel,
{
    if fuel > 0 && t.lt_spec(t_target) {
        1 + steps_taken(h, t_target, t.plus_spec(h), (fuel - 1) as nat)
    } else {
        0
    }
}

/// The number of steps of the multistep phase is the number of times from
/// `t` on, each `h` after the one before, that lie before `t_target`: every
/// step starts at a time before `t_target`, and where the steps do not run
/// out, the time after the last step is not before `t_target`. So the last
/// step leads from a time before the target to one that is not, less than
/// one step away from it.
pub proof fn lemma_steps_taken<S: Scalar>(h: S, t_target: S, t: S, fuel: nat)
    ensures
        steps_taken(h, t_target, t, fuel) <= fuel,
        forall|i: nat|
            i < steps_taken(h, t_target, t, fuel) ==> (#[trigger] time_after(t, h, i)).lt_spec(
                t_target,
            ),
        steps_taken(h, t_target, t, fuel) < fuel ==> !time_after(
            t,
            h,
            steps_taken(h, t_target, t, fuel),
        ).lt_spec(t_target),
    decreases fuel,
{
    if fuel > 0 && t.lt_spec(t_target) {
        let t2 = t.plus_spec(h);
        let n2 = steps_taken(h, t_target, t2, (fuel - 1) as nat);
        lemma_steps_taken(h, t_target, t2, (fuel - 1) as nat);
        assert forall|i: nat| i < n2 + 1 implies (#[trigger] time_after(t, h, i)).lt_spec(
            t_target,
        ) by {
            if i > 0 {
                assert(time_after(t, h, i) == time_after(t2, h, (i - 1) as nat));
            }
        }
        assert(time_after(t, h, n2 + 1) == time_after(t2, h, n2));
    }
}

/// The rows of the multistep phase, step by step: with `n` the number of
/// steps, see [`steps_taken`], the tail holds the newest state after the step
/// `first + j * period` for every `j` for which that is at most `n`, where
/// `first` is `skip + 1` (and 1 where `skip` is not positive), with the time
/// after that many steps from `t`, and nothing else.
pub proof fn lemma_k_step_tail_rows<
    S: Scalar,
    FT: SampleableFunction<(S, Vec<S>), S>,
    STEP: KStepMethodStep<S, FT>,
>(
    step: STEP,
    k: usize,
    dfs: Seq<FT>,
    h: S,
    t_target: S,
    skip_n: isize,
    t: S,
    window: Seq<Seq<S>>,
    skip: isize,
    fuel: nat,
)
    ensures
        ({
            let n = steps_taken(h, t_target, t, fuel);
            let first = period(skip);
            let every = period(skip_n);
            k_step_tail(step, k, dfs, h, t_target, skip_n, t, window, skip, fuel) == Seq::new(
                emitted_rows(n, first, every),
                |j: int|
                    snapshot_spec(
                        time_after(t, h, (first + j * every) as nat),
                        window_after(
                            step,
                            k,
                            dfs,
                            h,
                            t,
                            window,
                            (first + j * every) as nat,
                        ).last(),
                    ),
            )
        }),
    decreases fuel,
{
    let n = steps_taken(h, t_target, t, fuel);
    let first = period(skip);
    let every = period(skip_n);
    let tail = k_step_tail(step, k, dfs, h, t_target, skip_n, t, window, skip, fuel);
    let rows = Seq::new(
        emitted_rows(n, first, every),
        |j: int|
            snapshot_spec(
                time_after(t, h, (first + j * every) as nat),
                window_after(step, k, dfs, h, t, window, (first + j * every) as nat).last(),
            ),
    );
    if fuel > 0 && t.lt_spec(t_target) {
        let next = step.step_spec(k, dfs, t, window, h);
        let window2 = window.remove(0).push(next);
        let t2 = t.plus_spec(h);
        let n2 = steps_taken(h, t_target, t2, (fuel - 1) as nat);
        let skip2: isize = if skip <= 0 {
            skip_n
        } else {
            (skip - 1) as isize
        };
        let first2 = period(skip2);
        lemma_k_step_tail_rows(
            step,
            k,
            dfs,
            h,
            t_target,
            skip_n,
            t2,
            window2,
            skip2,
            (fuel - 1) as nat,
        );
        let rows2 = Seq::new(
            emitted_rows(n2, first2, every),
            |j: int|
                snapshot_spec(
                    time_after(t2, h, (first2 + j * every) as nat),
                    window_after(step, k, dfs, h, t2, window2, (first2 + j * every) as nat).last(),
                ),
        );
        assert(n == n2 + 1);
        if skip <= 0 {
            lemma_emitted_rows_shift(n2, every);
            assert(emitted_rows(n, first, every) == emitted_rows(n2, first2, every) + 1);
            assert forall|j: int| 0 <= j < rows.len() implies #[trigger] rows[j] == (seq![
                snapshot_spec(t2, next),
            ] + rows2)[j] by {
                if j > 0 {
                    let i = first2 + (j - 1) * every;
                    assert(first + j * every == 1 + i) by (nonlinear_arith)
                        requires
                            first == 1,
                            first2 == every,
                            i == first2 + (j - 1) * every,
                    ;
                    assert(i >= 0) by (nonlinear_arith)
                        requires
                            first2 >= 1,
                            j >= 1,
                            every >= 1,
                            i == first2 + (j - 1) * every,
                    ;
                    assert(time_after(t, h, (1 + i) as nat) == time_after(t2, h, i as nat));
                    assert(window_after(step, k, dfs, h, t, window, (1 + i) as nat)
                        == window_after(step, k, dfs, h, t2, window2, i as nat));
                    assert(rows2[j - 1] == snapshot_spec(
                        time_after(t2, h, i as nat),
                        window_after(step, k, dfs, h, t2, window2, i as nat).last(),
                    ));
                } else {
                    assert(first + j * every == 1) by (nonlinear_arith)
                        requires
                            first == 1,
                            j == 0,
                    ;
                    assert(time_after(t, h, 1) == time_after(t2, h, 0));
                    assert(window_after(step, k, dfs, h, t, window, 1) == window_after(
                        step,
                        k,
                        dfs,
                        h,
                        t2,
                        window2,
                        0,
                    ));
                    assert(window2.last() == next);
                }
            }
            assert(rows =~= seq![snapshot_spec(t2, next)] + rows2);
        } else {
            assert(first == first2 + 1);
            assert(emitted_rows(n, first, every) == emitted_rows(n2, first2, every));
            assert forall|j: int| 0 <= j < rows.len() implies #[trigger] rows[j] == rows2[j] by {
                let i = first2 + j * every;
                assert(first + j * every == 1 + i);
                assert(i >= 0) by (nonlinear_arith)
                    requires
                        first2 >= 1,
                        j >= 0,
                        every >= 1,
                        i == first2 + j * every,
                ;
                assert(time_after(t, h, (1 + i) as nat) == time_after(t2, h, i as nat));
                assert(window_after(step, k, dfs, h, t, window, (1 + i) as nat) == window_after(
                    step,
                    k,
                    dfs,
                    h,
                    t2,
                    window2,
                    i as nat,
                ));
            }
            assert(rows =~= rows2);
        }
    } else {
        assert(rows =~= Seq::<Seq<Point2D<S>>>::empty());
    }
}

/// Whether a step of size `h` moves every time forwards that lies before
/// `t_target`.
pub open spec fn step_moves_on<S: Scalar>(h: S, t_target: S) -> bool {
    forall|t: S| #[trigger] t.lt_spec(t_target) ==> t.lt_spec(t.plus_spec(h))
}

/// The times of the rows of the multistep phase grow from row to row and all
/// lie after `t`, in every arithmetic in which `<` is transitive and a step
/// moves the time forwards, for a system of at least one equation.
pub proof fn lemma_k_step_times_grow<
    S: Scalar,
    FT: SampleableFunction<(S, Vec<S>), S>,
    STEP: KStepMethodStep<S, FT>,
>(
    step: STEP,
    k: usize,
    dfs: Seq<FT>,
    h: S,
    t_target: S,
    skip_n: isize,
    t: S,
    window: Seq<Seq<S>>,
    skip: isize,
    fuel: nat,
)
    requires
        lt_is_transitive::<S>(),
        step_moves_on(h, t_target),
        step.supports(k, dfs.len()),
        is_window(window, k as nat, dfs.len()),
        k >= 1,
        dfs.len() >= 1,
    ensures
        times_grow_after(
            k_step_tail(step, k, dfs, h, t_target, skip_n, t, window, skip, fuel),
            t,
        ),
    decreases fuel,
{
    let tail = k_step_tail(step, k, dfs, h, t_target, skip_n, t, window, skip, fuel);
    if fuel > 0 && t.lt_spec(t_target) {
        let next = step.step_spec(k, dfs, t, window, h);
        let window2 = window.remove(0).push(next);
        let t2 = t.plus_spec(h);
        step.lemma_step_len(k, dfs, t, window, h);
        assert(is_window(window2, k as nat, dfs.len()));
        let skip2: isize = if skip <= 0 {
            skip_n
        } else {
            (skip - 1) as isize
        };
        let rest = k_step_tail(
            step,
            k,
            dfs,
            h,
            t_target,
            skip_n,
            t2,
            window2,
            skip2,
            (fuel - 1) as nat,
        );
        lemma_k_step_times_grow(
            step,
            k,
            dfs,
            h,
            t_target,
            skip_n,
            t2,
            window2,
            skip2,
            (fuel - 1) as nat,
        );
        if skip <= 0 {
            assert(tail == seq![snapshot_spec(t2, next)] + rest);
            assert(tail[0][0].x == t2);
            assert forall|j: int| 0 <= j < tail.len() implies t.lt_spec(
                #[trigger] tail[j][0].x,
            ) by {
                if j > 0 {
                    assert(tail[j] == rest[j - 1]);
                    assert(t2.lt_spec(rest[j - 1][0].x));
                }
            }
            assert forall|i: int, j: int| 0 <= i < j < tail.len() implies (
            #[trigger] tail[i][0].x).lt_spec(#[trigger] tail[j][0].x) by {
                assert(tail[j] == rest[j - 1]);
                if i > 0 {
                    assert(tail[i] == rest[i - 1]);
                } else {
                    assert(t2.lt_spec(rest[j - 1][0].x));
                }
            }
        } else {
            assert forall|j: int| 0 <= j < tail.len() implies t.lt_spec(
                #[trigger] tail[j][0].x,
            ) by {
                assert(t2.lt_spec(rest[j][0].x));
            }
        }
    }
}

/// The rows that a multistep driver emits: the `k` states of the first
/// window with their times, see [`bootstrap_rows`], then what
/// [`k_step_tail`] says from the time `start_time + (k - 1) * h` of the
/// newest of them on.
pub open spec fn k_step_rows<
    S: Scalar,
    FT: SampleableFunction<(S, Vec<S>), S>,
    STEP: KStepMethodStep<S, FT>,
    StartStep: OneStepMethodStep<S, FT>,
>(
    step: STEP,
    start_step: StartStep,
    ivp: InitialValueSystemProblem<S, FT>,
    h: S,
    k: usize,
    t_target: S,
    skip_n: isize,
) -> Seq<Seq<Point2D<S>>> {
    bootstrap_rows(start_step, ivp, h, k as nat) + k_step_tail(
        step,
        k,
        ivp.dfs@,
        h,
        t_target,
        skip_n,
        bootstrap_time(ivp.start_time, h, (k - 1) as nat),
        bootstrap_window(start_step, ivp, h, k as nat),
        skip_n,
        step_limit(),
    )
}

/// Runs the multistep phase from the window `window`, whose newest state
/// belongs to the time `t`, and appends its rows to `head`, see
/// [`k_step_tail`]. No more than [`step_limit`] steps are taken.
pub fn k_step_interval_from<
    S: Scalar,
    FT: SampleableFunction<(S, Vec<S>), S>,
    STEP: KStepMethodStep<S, FT>,
>(
    step_method: &STEP,
    k: usize,
    dfs: &[FT],
    h: S,
    t_target: S,
    skip_n: isize,
    t: S,
    window: Vec<Vec<S>>,
    head: Vec<Vec<Point2D<S>>>,
) -> (r: Vec<Vec<Point2D<S>>>)
    requires
        k >= 1,
        is_system(dfs@, dfs@.len()),
        step_method.supports(k, dfs@.len()),
        is_window(rows_spec(window@), k as nat, dfs@.len()),
    ensures
        rows_spec(r@) == rows_spec(head@) + k_step_tail(
            *step_method,
            k,
            dfs@,
            h,
            t_target,
            skip_n,
            t,
            rows_spec(window@),
            skip_n,
            step_limit(),
        ),
        r@.len() >= head@.len(),
        forall|i: int| 0 <= i < head@.len() ==> #[trigger] r@[i] == head@[i],
{
    let ghost first = rows_spec(window@);
    let ghost t0 = t;
    let ghost whole = rows_spec(head@) + k_step_tail(
        *step_method,
        k,
        dfs@,
        h,
        t_target,
        skip_n,
        t0,
        first,
        skip_n,
        step_limit(),
    );
    let mut window = window;
    let mut t = t;
    let mut skip: isize = skip_n;
    let mut out = head;
    let mut steps: u64 = 0;
    while steps < u64::MAX && t.lt(t_target)
        invariant
            k >= 1,
            is_system(dfs@, dfs@.len()),
            step_method.supports(k, dfs@.len()),
            is_window(rows_spec(window@), k as nat, dfs@.len()),
            out@.len() >= head@.len(),
            forall|i: int| 0 <= i < head@.len() ==> #[trigger] out@[i] == head@[i],
            whole == rows_spec(out@) + k_step_tail(
                *step_method,
                k,
                dfs@,
                h,
                t_target,
                skip_n,
                t,
                rows_spec(window@),
                skip,
                (u64::MAX - steps) as nat,
            ),
        decreases u64::MAX - steps,
    {
        let ghost before = rows_spec(out@);
        let ghost old_window = rows_spec(window@);
        let next = step_method.step(k, dfs, t, window.as_slice(), h);
        let t_next = t.plus(h);
        if skip <= 0 {
            out.push(snapshot(t_next, next.as_slice()));
            skip = skip_n;
            proof {
                let row = snapshot_spec(t_next, next@);
                let rest = k_step_tail(
                    *step_method,
                    k,
                    dfs@,
                    h,
                    t_target,
                    skip_n,
                    t_next,
                    old_window.remove(0).push(next@),
                    skip_n,
                    (u64::MAX - steps - 1) as nat,
                );
                assert(rows_spec(out@) =~= before + seq![row]);
                assert(before + (seq![row] + rest) =~= (before + seq![row]) + rest);
            }
        } else {
            skip = skip - 1;
        }
        window.remove(0);
        window.push(next);
        assert(rows_spec(window@) =~= old_window.remove(0).push(next@));
        t = t_next;
        steps = steps + 1;
    }
    assert(rows_spec(out@) + Seq::<Seq<Point2D<S>>>::empty() =~= rows_spec(out@));
    out
}

/// A multistep rule together with the problem it is applied to, the step
/// size, the number of states it looks back on, and the one-step rule that
/// computes the first of them.
pub struct KStepMethod<
    S: Scalar,
    FT: SampleableFunction<(S, Vec<S>), S>,
    STEP: KStepMethodStep<S, FT>,
    StartStep: OneStepMethodStep<S, FT>,
> {
    ivp: InitialValueSystemProblem<S, FT>,
    h: S,
    k: usize,
    step_method: STEP,
    start_step: StartStep,
}

impl<
    S: Scalar,
    FT: SampleableFunction<(S, Vec<S>), S>,
    STEP: KStepMethodStep<S, FT>,
    StartStep: OneStepMethodStep<S, FT>,
> KStepMethod<S, FT, STEP, StartStep> {
    #[verifier::type_invariant]
    spec fn well_formed(&self) -> bool {
        &&& self.ivp.wf()
        &&& self.k >= 2
        &&& self.step_method.supports(self.k, self.ivp.dfs@.len())
    }

    /// The problem that the method solves.
    pub closed spec fn problem(&self) -> InitialValueSystemProblem<S, FT> {
        self.ivp
    }

    /// The size of a step.
    pub closed spec fn step_size(&self) -> S {
        self.h
    }

    /// The number of states that a step looks back on.
    pub closed spec fn step_count(&self) -> usize {
        self.k
    }

    /// The multistep rule of the method.
    pub closed spec fn step_method(&self) -> STEP {
        self.step_method
    }

    /// The one-step rule that computes the first states.
    pub closed spec fn start_step(&self) -> StartStep {
        self.start_step
    }

    /// The rows that [`Self::interval`] returns.
    pub open spec fn interval_spec(&self, t_target: S, skip_n: isize) -> Seq<Seq<Point2D<S>>> {
        k_step_rows(
            self.step_method(),
            self.start_step(),
            self.problem(),
            self.step_size(),
            self.step_count(),
            t_target,
            skip_n,
        )
    }

    /// The method that applies `step_method` to `ivp` with steps of size `h`,
    /// on windows of `k` states, the first of which come from `start_step`.
    pub fn new(
        ivp: InitialValueSystemProblem<S, FT>,
        h: S,
        k: usize,
        step_method: STEP,
        start_step: StartStep,
    ) -> (r: Self)
        requires
            ivp.wf(),
            k >= 2,
            step_method.supports(k, ivp.dfs@.len()),
        ensures
            r.problem() == ivp,
            r.step_size() == h,
            r.step_count() == k,
            r.step_method() == step_method,
            r.start_step() == start_step,
    {
        KStepMethod { ivp, h, k, step_method, start_step }
    }

    /// The first window: the start values and `k - 1` states from runs of
    /// the one-step rule.
    fn bootstrap(&self) -> (window: Vec<Vec<S>>)
        ensures
            rows_spec(window@) == bootstrap_window(
                self.start_step,
                self.ivp,
                self.h,
                self.k as nat,
            ),
            is_window(rows_spec(window@), self.k as nat, self.ivp.dfs@.len()),
    {
        proof {
            use_type_invariant(self);
        }
        let mut window: Vec<Vec<S>> = Vec::new();
        window.push(copy_of(self.ivp.start_values.as_slice()));
        let mut idx: usize = 1;
        while idx < self.k
            invariant
                1 <= idx <= self.k,
                self.ivp.wf(),
                window@.len() == idx,
                forall|j: int|
                    0 <= j < idx ==> (#[trigger] window@[j])@ == bootstrap_window(
                        self.start_step,
                        self.ivp,
                        self.h,
                        self.k as nat,
                    )[j],
                forall|j: int| 0 <= j < idx ==> (#[trigger] window@[j])@.len() == self.ivp.dfs@.len(),
            decreases self.k - idx,
        {
            let t = self.bootstrap_time_at(idx);
            window.push(one_step_value_at(&self.start_step, &self.ivp, self.h, t));
            idx = idx + 1;
        }
        assert(rows_spec(window@) =~= bootstrap_window(
            self.start_step,
            self.ivp,
            self.h,
            self.k as nat,
        ));
        window
    }

    /// The time of the state `idx` of the first window.
    fn bootstrap_time_at(&self, idx: usize) -> (t: S)
        ensures
            t == bootstrap_time(self.ivp.start_time, self.h, idx as nat),
    {
        if idx == 0 {
            self.ivp.start_time
        } else {
            self.ivp.start_time.plus(S::count(idx).times(self.h))
        }
    }

    /// Integrates from the start of the problem until the time reaches
    /// `t_target`, and returns the states on the way, each as a row of
    /// samples `(time, value)`.
    ///
    /// The first `k` rows are the states of the first window, see
    /// [`bootstrap_window`], with the times `start_time + idx * h`; none of
    /// them is passed over. Steps of size `h` follow from the newest of them
    /// while `t < t_target`; of their rows one in `skip_n + 1` is returned
    /// (every one where `skip_n <= 0`). The times differ from the start by
    /// multiples of `h`: the last step does not land on `t_target`, and no
    /// row is moved onto it.
    pub fn interval(&self, t_target: S, skip_n: isize) -> (r: Vec<Vec<Point2D<S>>>)
        ensures
            rows_spec(r@) == self.interval_spec(t_target, skip_n),
            r@.len() >= self.step_count(),
            forall|idx: int|
                0 <= idx < self.step_count() ==> (#[trigger] r@[idx])@ == snapshot_spec(
                    bootstrap_time(self.problem().start_time, self.step_size(), idx as nat),
                    bootstrap_window(
                        self.start_step(),
                        self.problem(),
                        self.step_size(),
                        self.step_count() as nat,
                    )[idx],
                ),
    {
        proof {
            use_type_invariant(self);
        }
        let window = self.bootstrap();
        let mut head: Vec<Vec<Point2D<S>>> = Vec::new();
        let mut idx: usize = 0;
        while idx < self.k
            invariant
                idx <= self.k,
                window@.len() == self.k,
                head@.len() == idx,
                forall|i: int|
                    0 <= i < idx ==> (#[trigger] head@[i])@ == snapshot_spec(
                        bootstrap_time(self.ivp.start_time, self.h, i as nat),
                        window@[i]@,
                    ),
            decreases self.k - idx,
        {
            let time = self.bootstrap_time_at(idx);
            head.push(snapshot(time, window[idx].as_slice()));
            idx = idx + 1;
        }
        assert(rows_spec(head@) =~= bootstrap_rows(
            self.start_step,
            self.ivp,
            self.h,
            self.k as nat,
        ));
        let t = self.bootstrap_time_at(self.k - 1);
        k_step_interval_from(
            &self.step_method,
            self.k,
            self.ivp.dfs.as_slice(),
            self.h,
            t_target,
            skip_n,
            t,
            window,
            head,
        )
    }
}

} // verus!
