use crate::scalar::Scalar;
use vstd::prelude::*;

verus! {

/// A function that can be sampled at every point that it accepts.
/// That does not mean that it is continuous.
pub trait SampleableFunction<T, R> {
    /// The points at which the function may be sampled.
    spec fn accepts(&self, input: T) -> bool;

    /// The value of the function at `input`.
    spec fn value_spec(&self, input: T) -> R;

    /// Samples the function at `input`.
    fn value_at(&self, input: T) -> (r: R)
        requires
            self.accepts(input),
        ensures
            r == self.value_spec(input),
    ;
}

/// A function that also gives its derivative at every point that it accepts.
/// Continuity is left to the implementor.
pub trait DifferentiableFunction<T, R>: SampleableFunction<T, R> {
    /// The derivative of the function at `input`.
    spec fn derivative_spec(&self, input: T) -> R;

    /// Samples the derivative at `input`.
    fn derivative_at(&self, input: T) -> (r: R)
        requires
            self.accepts(input),
        ensures
            r == self.derivative_spec(input),
    ;
}

/// A point of the plane: a time and a value, or a real and an imaginary part.
#[derive(Clone, Copy, Debug)]
pub struct Point2D<S> {
    /// The first coordinate.
    pub x: S,
    /// The second coordinate.
    pub y: S,
}

impl<S: Scalar> Point2D<S> {
    /// The point `(x, y)`.
    pub fn new(x: S, y: S) -> (r: Self)
        ensures
            r == (Point2D { x, y }),
    {
        Point2D { x, y }
    }
}

/// The interval between `start` and `end`, both included. Nothing asks that
/// `start` comes first.
#[derive(Clone, Copy, Debug)]
pub struct Interval<S> {
    start: S,
    end: S,
}

impl<S: Scalar> Interval<S> {
    /// The first bound, as a specification.
    pub closed spec fn start_spec(&self) -> S {
        self.start
    }

    /// The second bound, as a specification.
    pub closed spec fn end_spec(&self) -> S {
        self.end
    }

    /// The width of the interval: `|start - end|`.
    pub open spec fn span_spec(&self) -> S {
        self.start_spec().minus_spec(self.end_spec()).abs_spec()
    }

    /// The interval from `start` to `end`, as a specification.
    pub closed spec fn of(start: S, end: S) -> Self {
        Interval { start, end }
    }

    /// The bounds of the interval from `start` to `end` are `start` and `end`.
    pub proof fn lemma_of(start: S, end: S)
        ensures
            Self::of(start, end).start_spec() == start,
            Self::of(start, end).end_spec() == end,
    {
    }

    /// The interval from `start` to `end`.
    pub fn new(start: S, end: S) -> (r: Self)
        ensures
            r == Self::of(start, end),
            r.start_spec() == start,
            r.end_spec() == end,
    {
        Interval { start, end }
    }

    /// The first bound.
    pub fn start(&self) -> (r: S)
        ensures
            r == self.start_spec(),
    {
        self.start
    }

    /// The second bound.
    pub fn end(&self) -> (r: S)
        ensures
            r == self.end_spec(),
    {
        self.end
    }

    /// The absolute difference of the two bounds.
    pub fn span(&self) -> (r: S)
        ensures
            r == self.span_spec(),
    {
        self.start.minus(self.end).abs()
    }
}

/// The entries of `a` and `b` added pair by pair, as far as both reach.
pub open spec fn pointwise_sum<S: Scalar>(a: Seq<S>, b: Seq<S>) -> Seq<S> {
    Seq::new(if a.len() <= b.len() { a.len() } else { b.len() }, |i: int| a[i].plus_spec(b[i]))
}

/// The entries of `b` taken from those of `a` pair by pair, as far as both reach.
pub open spec fn pointwise_difference<S: Scalar>(a: Seq<S>, b: Seq<S>) -> Seq<S> {
    Seq::new(if a.len() <= b.len() { a.len() } else { b.len() }, |i: int| a[i].minus_spec(b[i]))
}

/// Every entry of `a` multiplied by `factor`.
pub open spec fn scaled<S: Scalar>(a: Seq<S>, factor: S) -> Seq<S> {
    Seq::new(a.len(), |i: int| a[i].times_spec(factor))
}

/// Subtraction entry by entry.
pub trait PointwiseSub: Sized {
    /// Subtracts `rhs` from `self`, entry by entry.
    fn pointwise_sub(self, rhs: Self) -> Self;
}

/// Addition entry by entry.
pub trait PointwiseAdd: Sized {
    /// Adds `rhs` to `self`, entry by entry.
    fn pointwise_add(self, rhs: Self) -> Self;
}

/// Multiplication of every entry by one factor.
pub trait ScalarMul<T>: Sized {
    /// Multiplies every entry of `self` by `rhs`.
    fn scalar_mul(self, rhs: T) -> Self;
}

impl<S: Scalar> PointwiseSub for Vec<S> {
    /// The difference has as many entries as the shorter of the two vectors.
    fn pointwise_sub(self, rhs: Self) -> (r: Self)
        ensures
            r@ == pointwise_difference(self@, rhs@),
    {
        let n = if self.len() <= rhs.len() {
            self.len()
        } else {
            rhs.len()
        };
        let mut out: Vec<S> = Vec::new();
        let mut i: usize = 0;
        while i < n
            invariant
                i <= n,
                n <= self.len(),
                n <= rhs.len(),
                out@.len() == i,
                forall|j: int| 0 <= j < i ==> out@[j] == self@[j].minus_spec(rhs@[j]),
            decreases n - i,
        {
            out.push(self[i].minus(rhs[i]));
            i = i + 1;
        }
        assert(out@ =~= pointwise_difference(self@, rhs@));
        out
    }
}

impl<S: Scalar> PointwiseAdd for Vec<S> {
    /// The sum has as many entries as the shorter of the two vectors.
    fn pointwise_add(self, rhs: Self) -> (r: Self)
        ensures
            r@ == pointwise_sum(self@, rhs@),
    {
        let n = if self.len() <= rhs.len() {
            self.len()
        } else {
            rhs.len()
        };
        let mut out: Vec<S> = Vec::new();
        let mut i: usize = 0;
        while i < n
            invariant
                i <= n,
                n <= self.len(),
                n <= rhs.len(),
                out@.len() == i,
                forall|j: int| 0 <= j < i ==> out@[j] == self@[j].plus_spec(rhs@[j]),
            decreases n - i,
        {
            out.push(self[i].plus(rhs[i]));
            i = i + 1;
        }
        assert(out@ =~= pointwise_sum(self@, rhs@));
        out
    }
}

impl<S: Scalar> ScalarMul<S> for Vec<S> {
    fn scalar_mul(self, rhs: S) -> (r: Self)
        ensures
            r@ == scaled(self@, rhs),
    {
        let mut out: Vec<S> = Vec::new();
        let mut i: usize = 0;
        while i < self.len()
            invariant
                i <= self.len(),
                out@.len() == i,
                forall|j: int| 0 <= j < i ==> out@[j] == self@[j].times_spec(rhs),
            decreases self.len() - i,
        {
            out.push(self[i].times(rhs));
            i = i + 1;
        }
        assert(out@ =~= scaled(self@, rhs));
        out
    }
}

/// A copy of the entries of `v`.
pub fn copy_of<S: Copy>(v: &[S]) -> (r: Vec<S>)
    ensures
        r@ == v@,
{
    let mut out: Vec<S> = Vec::new();
    let mut i: usize = 0;
    while i < v.len()
        invariant
            i <= v.len(),
            out@ == v@.take(i as int),
        decreases v.len() - i,
    {
        out.push(v[i]);
        assert(v@.take(i + 1) =~= v@.take(i as int).push(v@[i as int]));
        i = i + 1;
    }
    assert(v@.take(v.len() as int) =~= v@);
    out
}

/// Some vector whose entries are `x`.
pub open spec fn vec_of<S>(x: Seq<S>) -> Vec<S> {
    choose|v: Vec<S>| v@ == x
}

/// The value of the right-hand side `f` at time `t` and state `x`.
pub open spec fn eval<S, FT: SampleableFunction<(S, Vec<S>), S>>(f: FT, t: S, x: Seq<S>) -> S {
    f.value_spec((t, vec_of(x)))
}

/// The values of all right-hand sides `dfs` at time `t` and state `x`.
pub open spec fn eval_all<S, FT: SampleableFunction<(S, Vec<S>), S>>(
    dfs: Seq<FT>,
    t: S,
    x: Seq<S>,
) -> Seq<S> {
    Seq::new(dfs.len(), |i: int| eval(dfs[i], t, x))
}

/// Whether `dfs` is the right-hand side of a system of `n` equations: one
/// function for each component, each of which accepts every time together
/// with every state of `n` entries, and looks at nothing of a state but its
/// entries.
pub open spec fn is_system<S, FT: SampleableFunction<(S, Vec<S>), S>>(dfs: Seq<FT>, n: nat) -> bool {
    &&& dfs.len() == n
    &&& forall|i: int, t: S, v: Vec<S>|
        0 <= i < dfs.len() && v@.len() == n ==> #[trigger] dfs[i].accepts((t, v))
    &&& forall|i: int, t: S, v: Vec<S>, w: Vec<S>|
        0 <= i < dfs.len() && v@ == w@ ==> #[trigger] dfs[i].value_spec((t, v))
            == #[trigger] dfs[i].value_spec((t, w))
}

/// What a right-hand side returns for a state is its value at the entries
/// of that state.
pub proof fn lemma_eval<S, FT: SampleableFunction<(S, Vec<S>), S>>(
    dfs: Seq<FT>,
    i: int,
    t: S,
    v: Vec<S>,
)
    requires
        is_system(dfs, v@.len()),
        0 <= i < dfs.len(),
    ensures
        dfs[i].value_spec((t, v)) == eval(dfs[i], t, v@),
{
    let w = vec_of(v@);
    assert(w@ == v@);
    assert(dfs[i].value_spec((t, v)) == dfs[i].value_spec((t, w)));
}

/// Samples every right-hand side of a system at time `t` and state `x`.
pub fn evaluate_all<S: Scalar, FT: SampleableFunction<(S, Vec<S>), S>>(
    dfs: &[FT],
    t: S,
    x: &[S],
) -> (r: Vec<S>)
    requires
        is_system(dfs@, x@.len()),
    ensures
        r@ == eval_all(dfs@, t, x@),
{
    let mut out: Vec<S> = Vec::new();
    let mut i: usize = 0;
    while i < dfs.len()
        invariant
            i <= dfs.len(),
            is_system(dfs@, x@.len()),
            out@.len() == i,
            forall|j: int| 0 <= j < i ==> out@[j] == eval(dfs@[j], t, x@),
        decreases dfs.len() - i,
    {
        let state = copy_of(x);
        proof {
            lemma_eval(dfs@, i as int, t, state);
        }
        let value = dfs[i].value_at((t, state));
        out.push(value);
        i = i + 1;
    }
    assert(out@ =~= eval_all(dfs@, t, x@));
    out
}

/// The state `x` as a row of samples that all carry the time `t`.
pub open spec fn snapshot_spec<S>(t: S, x: Seq<S>) -> Seq<Point2D<S>> {
    Seq::new(x.len(), |i: int| Point2D { x: t, y: x[i] })
}

/// The second coordinates of a row of samples.
pub open spec fn values_spec<S>(row: Seq<Point2D<S>>) -> Seq<S> {
    Seq::new(row.len(), |i: int| row[i].y)
}

/// The rows of samples as sequences.
pub open spec fn rows_spec<T>(rows: Seq<Vec<T>>) -> Seq<Seq<T>> {
    Seq::new(rows.len(), |i: int| rows[i]@)
}

/// The state `x` as a row of samples that all carry the time `t`.
pub fn snapshot<S: Scalar>(t: S, x: &[S]) -> (r: Vec<Point2D<S>>)
    ensures
        r@ == snapshot_spec(t, x@),
{
    let mut out: Vec<Point2D<S>> = Vec::new();
    let mut i: usize = 0;
    while i < x.len()
        invariant
            i <= x.len(),
            out@.len() == i,
            forall|j: int| 0 <= j < i ==> out@[j] == (Point2D { x: t, y: x@[j] }),
        decreases x.len() - i,
    {
        out.push(Point2D { x: t, y: x[i] });
        i = i + 1;
    }
    assert(out@ =~= snapshot_spec(t, x@));
    out
}

/// The second coordinates of a row of samples.
pub fn values_of<S: Scalar>(row: &[Point2D<S>]) -> (r: Vec<S>)
    ensures
        r@ == values_spec(row@),
{
    let mut out: Vec<S> = Vec::new();
    let mut i: usize = 0;
    while i < row.len()
        invariant
            i <= row.len(),
            out@.len() == i,
            forall|j: int| 0 <= j < i ==> out@[j] == row@[j].y,
        decreases row.len() - i,
    {
        out.push(row[i].y);
        i = i + 1;
    }
    assert(out@ =~= values_spec(row@));
    out
}

/// The initial value problem `x' = df(t, x)`, `x(start_time) = start_value`
/// of one equation.
#[derive(Clone, Copy, Debug)]
pub struct InitialValueProblem<S, FT> {
    /// The time at which the solution is known.
    pub start_time: S,
    /// The solution at `start_time`.
    pub start_value: S,
    /// The right-hand side of the equation.
    pub df: FT,
}

impl<S: Scalar, FT> InitialValueProblem<S, FT> {
    /// The problem `x' = df(t, x)`, `x(start_time) = start_value`.
    pub fn new(start_time: S, start_value: S, df: FT) -> (r: Self)
        ensures
            r.start_time == start_time,
            r.start_value == start_value,
            r.df == df,
    {
        InitialValueProblem { start_time, start_value, df }
    }
}

/// The initial value problem of a system of equations: the right-hand side
/// `dfs[i]` gives the derivative of the component `i`, and sees the whole
/// state.
#[derive(Clone, Debug)]
pub struct InitialValueSystemProblem<S, FT> {
    /// The time at which the solution is known.
    pub start_time: S,
    /// The solution at `start_time`.
    pub start_values: Vec<S>,
    /// The right-hand sides, one for each component.
    pub dfs: Vec<FT>,
}

impl<S: Scalar, FT: SampleableFunction<(S, Vec<S>), S>> InitialValueSystemProblem<S, FT> {
    /// Whether the problem has as many right-hand sides as start values, and
    /// these form a system, see [`is_system`].
    pub open spec fn wf(&self) -> bool {
        is_system(self.dfs@, self.start_values@.len())
    }

    /// The problem with the given start and right-hand sides.
    pub fn new(start_time: S, start_values: Vec<S>, dfs: Vec<FT>) -> (r: Self)
        ensures
            r.start_time == start_time,
            r.start_values == start_values,
            r.dfs == dfs,
    {
        InitialValueSystemProblem { start_time, start_values, dfs }
    }
}

/// The boundary value problem `x'' = ddf(t)` on an interval, with the
/// solution given at both ends.
#[derive(Clone, Copy, Debug)]
pub struct BoundaryValueProblem<S, FT> {
    /// The second derivative of the solution.
    pub ddf: FT,
    /// The interval on which the solution is sought.
    pub interval: Interval<S>,
    /// The solution at the start of the interval.
    pub start_value: S,
    /// The solution at the end of the interval.
    pub end_value: S,
}

impl<S: Scalar, FT> BoundaryValueProblem<S, FT> {
    /// The problem with the given right-hand side, interval and boundary values.
    pub fn new(ddf: FT, interval: Interval<S>, start_value: S, end_value: S) -> (r: Self)
        ensures
            r.ddf == ddf,
            r.interval == interval,
            r.start_value == start_value,
            r.end_value == end_value,
    {
        BoundaryValueProblem { ddf, interval, start_value, end_value }
    }
}

/// Whether `f` may be sampled at every point.
pub open spec fn is_total<T, R, F: SampleableFunction<T, R>>(f: F) -> bool {
    forall|x: T| #[trigger] f.accepts(x)
}

/// A differentiable function made of two functions: `f` for the values and
/// `df` for the derivative.
#[derive(Clone, Copy, Debug)]
pub struct SimpleDifferentiableFunction<F, DF> {
    /// The function.
    pub f: F,
    /// Its derivative.
    pub df: DF,
}

impl<F, DF> SimpleDifferentiableFunction<F, DF> {
    /// The function `f` with the derivative `df`.
    pub fn new(f: F, df: DF) -> (r: Self)
        ensures
            r.f == f,
            r.df == df,
    {
        SimpleDifferentiableFunction { f, df }
    }
}

impl<T, R, F: SampleableFunction<T, R>, DF: SampleableFunction<T, R>> SampleableFunction<
    T,
    R,
> for SimpleDifferentiableFunction<F, DF> {
    open spec fn accepts(&self, input: T) -> bool {
        self.f.accepts(input) && self.df.accepts(input)
    }

    open spec fn value_spec(&self, input: T) -> R {
        self.f.value_spec(input)
    }

    fn value_at(&self, input: T) -> (r: R) {
        self.f.value_at(input)
    }
}

impl<T, R, F: SampleableFunction<T, R>, DF: SampleableFunction<T, R>> DifferentiableFunction<
    T,
    R,
> for SimpleDifferentiableFunction<F, DF> {
    open spec fn derivative_spec(&self, input: T) -> R {
        self.df.value_spec(input)
    }

    fn derivative_at(&self, input: T) -> (r: R) {
        self.df.value_at(input)
    }
}

/// A function of a point and some data, with the data fixed.
#[derive(Clone, Copy, Debug)]
pub struct ClosureSampleableFunction<Data, F> {
    /// The data that every sample is taken with.
    pub data: Data,
    /// The function of a point and the data.
    pub f: F,
}

impl<Data, F> ClosureSampleableFunction<Data, F> {
    /// The function `f` with its data fixed to `data`.
    pub fn new(data: Data, f: F) -> (r: Self)
        ensures
            r.data == data,
            r.f == f,
    {
        ClosureSampleableFunction { data, f }
    }
}

impl<T, R, Data: Copy, F: SampleableFunction<(T, Data), R>> SampleableFunction<
    T,
    R,
> for ClosureSampleableFunction<Data, F> {
    open spec fn accepts(&self, input: T) -> bool {
        self.f.accepts((input, self.data))
    }

    open spec fn value_spec(&self, input: T) -> R {
        self.f.value_spec((input, self.data))
    }

    fn value_at(&self, input: T) -> (r: R) {
        self.f.value_at((input, self.data))
    }
}

/// A differentiable function of a point and some data, with the data fixed.
#[derive(Clone, Copy, Debug)]
pub struct ClosureDifferentiableFunction<Data, F, DF> {
    /// The data that every sample is taken with.
    pub data: Data,
    /// The function of a point and the data.
    pub f: F,
    /// Its derivative.
    pub df: DF,
}

impl<Data, F, DF> ClosureDifferentiableFunction<Data, F, DF> {
    /// The function `f` with the derivative `df`, both with their data fixed
    /// to `data`.
    pub fn new(data: Data, f: F, df: DF) -> (r: Self)
        ensures
            r.data == data,
            r.f == f,
            r.df == df,
    {
        ClosureDifferentiableFunction { data, f, df }
    }
}

impl<
    T,
    R,
    Data: Copy,
    F: SampleableFunction<(T, Data), R>,
    DF: SampleableFunction<(T, Data), R>,
> SampleableFunction<T, R> for ClosureDifferentiableFunction<Data, F, DF> {
    open spec fn accepts(&self, input: T) -> bool {
        self.f.accepts((input, self.data)) && self.df.accepts((input, self.data))
    }

    open spec fn value_spec(&self, input: T) -> R {
        self.f.value_spec((input, self.data))
    }

    fn value_at(&self, input: T) -> (r: R) {
        self.f.value_at((input, self.data))
    }
}

impl<
    T,
    R,
    Data: Copy,
    F: SampleableFunction<(T, Data), R>,
    DF: SampleableFunction<(T, Data), R>,
> DifferentiableFunction<T, R> for ClosureDifferentiableFunction<Data, F, DF> {
    open spec fn derivative_spec(&self, input: T) -> R {
        self.df.value_spec((input, self.data))
    }

    fn derivative_at(&self, input: T) -> (r: R) {
        self.df.value_at((input, self.data))
    }
}

/// The composition of two functions: `outer` after `inner`.
#[derive(Debug)]
pub struct ComposeSampleableFunction<R, FT, FT2> {
    /// The type of the values in between.
    pub _r: core::marker::PhantomData<R>,
    /// The function that is applied first.
    pub inner: FT,
    /// The function that is applied to the value of `inner`.
    pub outer: FT2,
}

impl<R, FT, FT2> ComposeSampleableFunction<R, FT, FT2> {
    /// The function `outer` after `inner`.
    pub fn new(inner: FT, outer: FT2) -> (r: Self)
        ensures
            r.inner == inner,
            r.outer == outer,
    {
        ComposeSampleableFunction { _r: core::marker::PhantomData, inner, outer }
    }
}

impl<T, R, R2, FT: SampleableFunction<T, R>, FT2: SampleableFunction<R, R2>> SampleableFunction<
    T,
    R2,
> for ComposeSampleableFunction<R, FT, FT2> {
    open spec fn accepts(&self, input: T) -> bool {
        self.inner.accepts(input) && self.outer.accepts(self.inner.value_spec(input))
    }

    open spec fn value_spec(&self, input: T) -> R2 {
        self.outer.value_spec(self.inner.value_spec(input))
    }

    fn value_at(&self, input: T) -> (r: R2) {
        self.outer.value_at(self.inner.value_at(input))
    }
}

/// The difference `a - b` of two functions: of their values where these are
/// scalars, see [`SampleableFunction`], and entry by entry where they are
/// vectors, see [`SampleableVectorFunction`].
#[derive(Clone, Copy, Debug)]
pub struct SubSampleableFunction<FT, FT2> {
    /// The function that is subtracted from.
    pub a: FT,
    /// The function that is subtracted.
    pub b: FT2,
}

impl<FT, FT2> SubSampleableFunction<FT, FT2> {
    /// The function `a - b`.
    pub fn new(a: FT, b: FT2) -> (r: Self)
        ensures
            r.a == a,
            r.b == b,
    {
        SubSampleableFunction { a, b }
    }
}

impl<T: Copy, R: Scalar, FT: SampleableFunction<T, R>, FT2: SampleableFunction<
    T,
    R,
>> SampleableFunction<T, R> for SubSampleableFunction<FT, FT2> {
    open spec fn accepts(&self, input: T) -> bool {
        self.a.accepts(input) && self.b.accepts(input)
    }

    open spec fn value_spec(&self, input: T) -> R {
        self.a.value_spec(input).minus_spec(self.b.value_spec(input))
    }

    fn value_at(&self, input: T) -> (r: R) {
        self.a.value_at(input).minus(self.b.value_at(input))
    }
}

/// The product `a * b` of two functions with scalar values.
#[derive(Clone, Copy, Debug)]
pub struct MultSampleableFunction<FT, FT2> {
    /// The first factor.
    pub a: FT,
    /// The second factor.
    pub b: FT2,
}

impl<FT, FT2> MultSampleableFunction<FT, FT2> {
    /// The function `a * b`.
    pub fn new(a: FT, b: FT2) -> (r: Self)
        ensures
            r.a == a,
            r.b == b,
    {
        MultSampleableFunction { a, b }
    }
}

impl<T: Copy, R: Scalar, FT: SampleableFunction<T, R>, FT2: SampleableFunction<
    T,
    R,
>> SampleableFunction<T, R> for MultSampleableFunction<FT, FT2> {
    open spec fn accepts(&self, input: T) -> bool {
        self.a.accepts(input) && self.b.accepts(input)
    }

    open spec fn value_spec(&self, input: T) -> R {
        self.a.value_spec(input).times_spec(self.b.value_spec(input))
    }

    fn value_at(&self, input: T) -> (r: R) {
        self.a.value_at(input).times(self.b.value_at(input))
    }
}

/// The derivative of a differentiable function, as a function to sample.
#[derive(Clone, Copy, Debug)]
pub struct SampledDerivative<FT> {
    /// The function whose derivative is sampled.
    pub f: FT,
}

impl<FT> SampledDerivative<FT> {
    /// The derivative of `f`.
    pub fn new(f: FT) -> (r: Self)
        ensures
            r.f == f,
    {
        SampledDerivative { f }
    }
}

impl<T, R, FT: DifferentiableFunction<T, R>> SampleableFunction<T, R> for SampledDerivative<FT> {
    open spec fn accepts(&self, input: T) -> bool {
        self.f.accepts(input)
    }

    open spec fn value_spec(&self, input: T) -> R {
        self.f.derivative_spec(input)
    }

    fn value_at(&self, input: T) -> (r: R) {
        self.f.derivative_at(input)
    }
}

/// Applies a function of a time and a value to the first entry of a state.
#[derive(Clone, Copy, Debug)]
pub struct FirstComponent;

impl<S: Scalar, F: SampleableFunction<(S, S), S>> SampleableFunction<
    ((S, Vec<S>), F),
    S,
> for FirstComponent {
    open spec fn accepts(&self, input: ((S, Vec<S>), F)) -> bool {
        input.0.1@.len() >= 1 && input.1.accepts((input.0.0, input.0.1@[0]))
    }

    open spec fn value_spec(&self, input: ((S, Vec<S>), F)) -> S {
        input.1.value_spec((input.0.0, input.0.1@[0]))
    }

    fn value_at(&self, input: ((S, Vec<S>), F)) -> (r: S) {
        let ((t, vec_x), df) = input;
        df.value_at((t, vec_x[0]))
    }
}

impl<S: Scalar, FT: SampleableFunction<(S, S), S> + Copy> InitialValueProblem<S, FT> {
    /// The same problem as a system of one equation, for the methods that
    /// work on systems.
    pub fn to_system_problem(self) -> (r: InitialValueSystemProblem<
        S,
        ClosureSampleableFunction<FT, FirstComponent>,
    >)
        requires
            is_total(self.df),
        ensures
            r.wf(),
            r.start_time == self.start_time,
            r.start_values@ == seq![self.start_value],
            r.dfs@ == seq![ClosureSampleableFunction { data: self.df, f: FirstComponent }],
    {
        let mut start_values: Vec<S> = Vec::new();
        start_values.push(self.start_value);
        let mut dfs: Vec<ClosureSampleableFunction<FT, FirstComponent>> = Vec::new();
        dfs.push(ClosureSampleableFunction::new(self.df, FirstComponent));
        assert(start_values@ =~= seq![self.start_value]);
        assert(dfs@ =~= seq![ClosureSampleableFunction { data: self.df, f: FirstComponent }]);
        InitialValueSystemProblem::new(self.start_time, start_values, dfs)
    }
}

/// A function whose values are vectors. Its values are stated by their
/// entries: two vectors with the same entries are the same value.
pub trait SampleableVectorFunction<T, S> {
    /// The points at which the function may be sampled.
    spec fn defined_at(&self, input: T) -> bool;

    /// The entries of the value of the function at `input`.
    spec fn values_spec(&self, input: T) -> Seq<S>;

    /// Samples the function at `input`.
    fn values_at(&self, input: T) -> (r: Vec<S>)
        requires
            self.defined_at(input),
        ensures
            r@ == self.values_spec(input),
    ;
}

impl<
    T: Copy,
    S: Scalar,
    FT: SampleableVectorFunction<T, S>,
    FT2: SampleableVectorFunction<T, S>,
> SampleableVectorFunction<T, S> for SubSampleableFunction<FT, FT2> {
    open spec fn defined_at(&self, input: T) -> bool {
        self.a.defined_at(input) && self.b.defined_at(input)
    }

    /// The difference entry by entry, as far as both values reach.
    open spec fn values_spec(&self, input: T) -> Seq<S> {
        pointwise_difference(self.a.values_spec(input), self.b.values_spec(input))
    }

    fn values_at(&self, input: T) -> (r: Vec<S>) {
        self.a.values_at(input).pointwise_sub(self.b.values_at(input))
    }
}

} // verus!
