use crate::definitions::{is_total, Interval, Point2D, SampleableFunction};
use crate::scalar::Scalar;
use crate::util::{make_supporting_points, supporting_points_spec};
use vstd::prelude::*;

verus! {

/// The points `(re, im[j])` for `j` below `count` at which the stability
/// function `f` is at most one, in the order of `im`.
pub open spec fn stable_in_row<S: Scalar, FT: SampleableFunction<(S, S), S>>(
    f: FT,
    re: S,
    im: Seq<S>,
    count: nat,
) -> Seq<Point2D<S>>
    decreases count,
{
    if count == 0 {
        Seq::empty()
    } else {
        let before = stable_in_row(f, re, im, (count - 1) as nat);
        let z = (re, im[count - 1]);
        if f.value_spec(z).le_spec(S::ratio_spec(1, 1)) {
            before.push(Point2D { x: z.0, y: z.1 })
        } else {
            before
        }
    }
}

/// The points `(re[i], im[j])` for `i` below `count` at which the stability
/// function `f` is at most one: row after row in the order of `re`, and in
/// each row in the order of `im`.
pub open spec fn stable_points<S: Scalar, FT: SampleableFunction<(S, S), S>>(
    f: FT,
    re: Seq<S>,
    im: Seq<S>,
    count: nat,
) -> Seq<Point2D<S>>
    decreases count,
{
    if count == 0 {
        Seq::empty()
    } else {
        stable_points(f, re, im, (count - 1) as nat) + stable_in_row(
            f,
            re[count - 1],
            im,
            im.len(),
        )
    }
}

/// Samples the stability function `f` on the grid of the bounds of
/// `n_samples` parts of `re_interval` and of `im_interval`, and returns the
/// points of the complex plane, as pairs of real and imaginary part, at
/// which `f` is at most one.
pub fn sample_stability_area<S: Scalar, FT: SampleableFunction<(S, S), S>>(
    f: FT,
    n_samples: usize,
    re_interval: Interval<S>,
    im_interval: Interval<S>,
) -> (r: Vec<Point2D<S>>)
    requires
        is_total(f),
    ensures
        r@ == stable_points(
            f,
            supporting_points_spec(n_samples, re_interval),
            supporting_points_spec(n_samples, im_interval),
            (n_samples + 1) as nat,
        ),
{
    let re_samples = make_supporting_points(n_samples, re_interval);
    let im_samples = make_supporting_points(n_samples, im_interval);
    let one: S = S::ratio(1, 1);
    let mut out: Vec<Point2D<S>> = Vec::new();
    let mut i: usize = 0;
    while i < re_samples.len()
        invariant
            i <= re_samples.len(),
            is_total(f),
            one == S::ratio_spec(1, 1),
            out@ == stable_points(f, re_samples@, im_samples@, i as nat),
        decreases re_samples.len() - i,
    {
        let ghost before = out@;
        let re = re_samples[i];
        let mut j: usize = 0;
        while j < im_samples.len()
            invariant
                j <= im_samples.len(),
                is_total(f),
                one == S::ratio_spec(1, 1),
                out@ == before + stable_in_row(f, re, im_samples@, j as nat),
            decreases im_samples.len() - j,
        {
            let im = im_samples[j];
            let ghost row = stable_in_row(f, re, im_samples@, j as nat);
            if f.value_at((re, im)).le(one) {
                out.push(Point2D::new(re, im));
                assert(before + row.push(Point2D { x: re, y: im }) =~= (before + row).push(
                    Point2D { x: re, y: im },
                ));
            }
            j = j + 1;
        }
        i = i + 1;
    }
    out
}

} // verus!
