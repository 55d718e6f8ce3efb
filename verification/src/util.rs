use crate::definitions::{is_total, Interval, Point2D, SampleableFunction};
use crate::scalar::{zero, zero_spec, Elementary, Scalar};
use vstd::prelude::*;

verus! {

/// The vector of `len` zeros.
pub open spec fn zero_vec_spec<S: Scalar>(len: nat) -> Seq<S> {
    Seq::new(len, |i: int| zero_spec::<S>())
}

/// Makes a vector of the given length that holds nothing but zeros.
pub fn make_zero_vec<S: Scalar>(len: usize) -> (r: Vec<S>)
    ensures
        r@ == zero_vec_spec::<S>(len as nat),
{
    let mut out: Vec<S> = Vec::new();
    let mut i: usize = 0;
    while i < len
        invariant
            i <= len,
            out@.len() == i,
            forall|j: int| 0 <= j < i ==> out@[j] == zero_spec::<S>(),
        decreases len - i,
    {
        out.push(zero());
        i = i + 1;
    }
    assert(out@ =~= zero_vec_spec::<S>(len as nat));
    out
}

/// The `n + 1` points that split `interval` into `n` parts of equal width:
/// `start + i * (span / n)` for `i` below `n`, then the end of the interval.
pub open spec fn supporting_points_spec<S: Scalar>(n: usize, interval: Interval<S>) -> Seq<S> {
    Seq::new(
        n as nat,
        |i: int|
            interval.start_spec().plus_spec(
                S::count_spec(i as usize).times_spec(interval.span_spec().over_spec(S::count_spec(n))),
            ),
    ).push(interval.end_spec())
}

/// Splits the interval into `n` parts and returns the `n + 1` points at
/// their bounds.
pub fn make_supporting_points<S: Scalar>(n: usize, interval: Interval<S>) -> (r: Vec<S>)
    ensures
        r@ == supporting_points_spec(n, interval),
        r@.len() == n + 1,
{
    let h = interval.span().over(S::count(n));
    let mut pts: Vec<S> = Vec::new();
    let mut step: usize = 0;
    while step < n
        invariant
            step <= n,
            h == interval.span_spec().over_spec(S::count_spec(n)),
            pts@.len() == step,
            forall|j: int|
                0 <= j < step ==> pts@[j] == interval.start_spec().plus_spec(
                    S::count_spec(j as usize).times_spec(h),
                ),
        decreases n - step,
    {
        pts.push(interval.start().plus(S::count(step).times(h)));
        step = step + 1;
    }
    pts.push(interval.end());
    assert(pts@ =~= supporting_points_spec(n, interval));
    pts
}

/// The samples of `f` at the given points.
pub open spec fn samples_spec<S: Scalar, F: SampleableFunction<S, S>>(f: F, points: Seq<S>) -> Seq<
    Point2D<S>,
> {
    Seq::new(points.len(), |i: int| Point2D { x: points[i], y: f.value_spec(points[i]) })
}

/// The samples of `f` with the data `data` at the given points.
pub open spec fn closure_samples_spec<S: Scalar, T, F: SampleableFunction<(S, T), S>>(
    f: F,
    points: Seq<S>,
    data: T,
) -> Seq<Point2D<S>> {
    Seq::new(points.len(), |i: int| Point2D { x: points[i], y: f.value_spec((points[i], data)) })
}

/// The values of `f` at the given points.
pub open spec fn generic_samples_spec<S: Scalar, T, F: SampleableFunction<S, T>>(
    f: F,
    points: Seq<S>,
) -> Seq<T> {
    Seq::new(points.len(), |i: int| f.value_spec(points[i]))
}

/// Samples the function at `n_samples` points of equal distance on the
/// interval, the two ends among them.
pub fn sample_closure<S: Scalar, T: Copy, F: SampleableFunction<(S, T), S>>(
    f: &F,
    interval: Interval<S>,
    n_samples: usize,
    data: T,
) -> (r: Vec<Point2D<S>>)
    requires
        n_samples >= 1,
        is_total(*f),
    ensures
        r@ == closure_samples_spec(
            *f,
            supporting_points_spec((n_samples - 1) as usize, interval),
            data,
        ),
{
    let points = make_supporting_points(n_samples - 1, interval);
    let mut out: Vec<Point2D<S>> = Vec::new();
    let mut i: usize = 0;
    while i < points.len()
        invariant
            i <= points.len(),
            is_total(*f),
            out@.len() == i,
            forall|j: int|
                0 <= j < i ==> out@[j] == (Point2D {
                    x: points@[j],
                    y: f.value_spec((points@[j], data)),
                }),
        decreases points.len() - i,
    {
        let x = points[i];
        out.push(Point2D { x, y: f.value_at((x, data)) });
        i = i + 1;
    }
    assert(out@ =~= closure_samples_spec(*f, points@, data));
    out
}

/// Samples the function at the `n_samples + 1` bounds of `n_samples` parts
/// of the interval.
pub fn sample_function<S: Scalar, F: SampleableFunction<S, S>>(
    f: &F,
    interval: Interval<S>,
    n_samples: usize,
) -> (r: Vec<Point2D<S>>)
    requires
        is_total(*f),
    ensures
        r@ == samples_spec(*f, supporting_points_spec(n_samples, interval)),
{
    let points = make_supporting_points(n_samples, interval);
    let mut out: Vec<Point2D<S>> = Vec::new();
    let mut i: usize = 0;
    while i < points.len()
        invariant
            i <= points.len(),
            is_total(*f),
            out@.len() == i,
            forall|j: int|
                0 <= j < i ==> out@[j] == (Point2D { x: points@[j], y: f.value_spec(points@[j]) }),
        decreases points.len() - i,
    {
        let x = points[i];
        out.push(Point2D { x, y: f.value_at(x) });
        i = i + 1;
    }
    assert(out@ =~= samples_spec(*f, points@));
    out
}

/// Samples the function at the `n_samples + 1` bounds of `n_samples` parts
/// of the interval, and returns the values alone.
pub fn sample_function_generic<S: Scalar, T, F: SampleableFunction<S, T>>(
    f: &F,
    interval: Interval<S>,
    n_samples: usize,
) -> (r: Vec<T>)
    requires
        is_total(*f),
    ensures
        r@ == generic_samples_spec(*f, supporting_points_spec(n_samples, interval)),
{
    let points = make_supporting_points(n_samples, interval);
    let mut out: Vec<T> = Vec::new();
    let mut i: usize = 0;
    while i < points.len()
        invariant
            i <= points.len(),
            is_total(*f),
            out@.len() == i,
            forall|j: int| 0 <= j < i ==> out@[j] == f.value_spec(points@[j]),
        decreases points.len() - i,
    {
        out.push(f.value_at(points[i]));
        i = i + 1;
    }
    assert(out@ =~= generic_samples_spec(*f, points@));
    out
}

/// The sum of the entries of `v`, added up from the left, starting at zero.
pub open spec fn sum_spec<S: Scalar>(v: Seq<S>) -> S
    decreases v.len(),
{
    if v.len() == 0 {
        zero_spec::<S>()
    } else {
        sum_spec(v.drop_last()).plus_spec(v.last())
    }
}

/// Adds up the entries of `v` from the left, starting at zero.
pub fn sum<S: Scalar>(v: &[S]) -> (r: S)
    ensures
        r == sum_spec(v@),
{
    let mut acc: S = zero();
    let mut i: usize = 0;
    while i < v.len()
        invariant
            i <= v.len(),
            acc == sum_spec(v@.take(i as int)),
        decreases v.len() - i,
    {
        assert(v@.take(i + 1).drop_last() =~= v@.take(i as int));
        acc = acc.plus(v[i]);
        i = i + 1;
    }
    assert(v@.take(v.len() as int) =~= v@);
    acc
}

/// The squares `x * x` of the entries of `v`.
pub open spec fn squares_spec<S: Scalar>(v: Seq<S>) -> Seq<S> {
    Seq::new(v.len(), |i: int| v[i].times_spec(v[i]))
}

/// The Euclidean norm of a vector: the square root of the sum of the squares
/// of its entries.
pub fn euclidean_norm<S: Elementary>(v: Vec<S>) -> (r: S)
    ensures
        r == sum_spec(squares_spec(v@)).sqrt_spec(),
{
    let mut squares: Vec<S> = Vec::new();
    let mut i: usize = 0;
    while i < v.len()
        invariant
            i <= v.len(),
            squares@.len() == i,
            forall|j: int| 0 <= j < i ==> squares@[j] == v@[j].times_spec(v@[j]),
        decreases v.len() - i,
    {
        squares.push(v[i].times(v[i]));
        i = i + 1;
    }
    assert(squares@ =~= squares_spec(v@));
    sum(squares.as_slice()).sqrt()
}

/// The orders of convergence that each two samples in a row show:
/// `(ln e[i + 1] - ln e[i]) / (ln h[i + 1] - ln h[i])`, as far as both rows
/// reach.
pub open spec fn all_convergence_orders_spec<S: Elementary>(abs_errors: Seq<S>, hs: Seq<S>) -> Seq<
    S,
> {
    let pairs = if abs_errors.len() <= hs.len() {
        abs_errors.len()
    } else {
        hs.len()
    };
    Seq::new(
        if pairs == 0 {
            0
        } else {
            (pairs - 1) as nat
        },
        |i: int|
            abs_errors[i + 1].ln_spec().minus_spec(abs_errors[i].ln_spec()).over_spec(
                hs[i + 1].ln_spec().minus_spec(hs[i].ln_spec()),
            ),
    )
}

/// Computes the order of convergence for each two samples in a row.
pub fn get_all_convergence_orders<S: Elementary>(abs_errors: &[S], hs: &[S]) -> (r: Vec<S>)
    ensures
        r@ == all_convergence_orders_spec(abs_errors@, hs@),
{
    let pairs = if abs_errors.len() <= hs.len() {
        abs_errors.len()
    } else {
        hs.len()
    };
    let mut out: Vec<S> = Vec::new();
    if pairs == 0 {
        assert(out@ =~= all_convergence_orders_spec(abs_errors@, hs@));
        return out;
    }
    let mut i: usize = 0;
    while i < pairs - 1
        invariant
            1 <= pairs <= abs_errors.len(),
            pairs <= hs.len(),
            i <= pairs - 1,
            out@.len() == i,
            forall|j: int|
                0 <= j < i ==> out@[j] == all_convergence_orders_spec(abs_errors@, hs@)[j],
        decreases pairs - 1 - i,
    {
        out.push(
            abs_errors[i + 1].ln().minus(abs_errors[i].ln()).over(
                hs[i + 1].ln().minus(hs[i].ln()),
            ),
        );
        i = i + 1;
    }
    assert(out@ =~= all_convergence_orders_spec(abs_errors@, hs@));
    out
}

/// The mean of the orders of convergence that the samples show.
pub fn get_convergence_order<S: Elementary>(abs_errors: &[S], hs: &[S]) -> (r: S)
    ensures
        r == sum_spec(all_convergence_orders_spec(abs_errors@, hs@)).over_spec(
            S::count_spec(all_convergence_orders_spec(abs_errors@, hs@).len() as usize),
        ),
{
    let ps = get_all_convergence_orders(abs_errors, hs);
    sum(ps.as_slice()).over(S::count(ps.len()))
}

/// The squared distances of the points of `v1` and `v2`, pair by pair, as
/// far as both reach.
pub open spec fn squared_distances_spec<S: Elementary>(
    v1: Seq<Point2D<S>>,
    v2: Seq<Point2D<S>>,
) -> Seq<S> {
    Seq::new(
        if v1.len() <= v2.len() {
            v1.len()
        } else {
            v2.len()
        },
        |i: int|
            v1[i].x.minus_spec(v2[i].x).powi_spec(2).plus_spec(
                v1[i].y.minus_spec(v2[i].y).powi_spec(2),
            ),
    )
}

/// The sum of the squared distances between the points of `v1` and `v2`.
pub fn sse<S: Elementary>(v1: &[Point2D<S>], v2: &[Point2D<S>]) -> (r: S)
    ensures
        r == sum_spec(squared_distances_spec(v1@, v2@)),
{
    let n = if v1.len() <= v2.len() {
        v1.len()
    } else {
        v2.len()
    };
    let mut terms: Vec<S> = Vec::new();
    let mut i: usize = 0;
    while i < n
        invariant
            i <= n,
            n <= v1.len(),
            n <= v2.len(),
            terms@.len() == i,
            forall|j: int| 0 <= j < i ==> terms@[j] == squared_distances_spec(v1@, v2@)[j],
        decreases n - i,
    {
        terms.push(v1[i].x.minus(v2[i].x).powi(2).plus(v1[i].y.minus(v2[i].y).powi(2)));
        i = i + 1;
    }
    assert(terms@ =~= squared_distances_spec(v1@, v2@));
    sum(terms.as_slice())
}

} // verus!
