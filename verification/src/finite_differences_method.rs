use crate::definitions::{is_total, BoundaryValueProblem, SampleableFunction};
use crate::scalar::Scalar;
use crate::util::{make_supporting_points, supporting_points_spec};
use vstd::prelude::*;

verus! {

/// The linear system of the finite differences method for a boundary value
/// problem on a grid of `n_grid` inner points.
pub struct DifferenceSystem<S> {
    /// The matrix of the system, row after row: `n_grid` rows of `n_grid`
    /// entries.
    pub matrix: Vec<S>,
    /// The right-hand side of the system: `n_grid` entries.
    pub right_side: Vec<S>,
}

/// The entry of the matrix of central second differences in the row `row`
/// and the column `col`: -2 on the diagonal, 1 beside it, 0 elsewhere.
pub open spec fn difference_entry_spec<S: Scalar>(row: int, col: int) -> S {
    if row == col {
        S::ratio_spec(-2i64, 1)
    } else if row + 1 == col || col + 1 == row {
        S::ratio_spec(1, 1)
    } else {
        S::ratio_spec(0, 1)
    }
}

/// The width of one part of the grid: `span / (n_grid + 1)`.
pub open spec fn grid_width_spec<S: Scalar, FT>(
    problem: BoundaryValueProblem<S, FT>,
    n_grid: usize,
) -> S {
    problem.interval.span_spec().over_spec(S::count_spec(n_grid).plus_spec(S::ratio_spec(1, 1)))
}

/// The right-hand side of the system before the boundary values enter:
/// `ddf(x) * h * h` at each inner point `x` of the grid.
pub open spec fn scaled_samples_spec<S: Scalar, FT: SampleableFunction<S, S>>(
    problem: BoundaryValueProblem<S, FT>,
    n_grid: usize,
) -> Seq<S> {
    let h = grid_width_spec(problem, n_grid);
    let points = supporting_points_spec((n_grid + 1) as usize, problem.interval);
    Seq::new(
        n_grid as nat,
        |i: int| problem.ddf.value_spec(points[i + 1]).times_spec(h).times_spec(h),
    )
}

/// The right-hand side of the system: the start value is taken from the
/// first entry of [`scaled_samples_spec`], then the end value from the last.
pub open spec fn right_side_spec<S: Scalar, FT: SampleableFunction<S, S>>(
    problem: BoundaryValueProblem<S, FT>,
    n_grid: usize,
) -> Seq<S> {
    let samples = scaled_samples_spec(problem, n_grid);
    let first = samples.update(0, samples[0].minus_spec(problem.start_value));
    first.update(n_grid - 1, first[n_grid - 1].minus_spec(problem.end_value))
}

/// The matrix of central second differences with `n` rows, row after row.
pub fn difference_matrix<S: Scalar>(n: usize) -> (r: Vec<S>)
    requires
        n * n <= usize::MAX,
    ensures
        r@.len() == n * n,
        forall|row: int, col: int|
            0 <= row < n && 0 <= col < n ==> #[trigger] r@[row * n + col] == difference_entry_spec::<
                S,
            >(row, col),
{
    let mut out: Vec<S> = Vec::new();
    let mut row: usize = 0;
    while row < n
        invariant
            row <= n,
            n * n <= usize::MAX,
            out@.len() == row * n,
            forall|r: int, c: int|
                0 <= r < row && 0 <= c < n ==> #[trigger] out@[r * n + c]
                    == difference_entry_spec::<S>(r, c),
        decreases n - row,
    {
        let mut col: usize = 0;
        while col < n
            invariant
                row < n,
                col <= n,
                n * n <= usize::MAX,
                out@.len() == row * n + col,
                forall|r: int, c: int|
                    0 <= r < row && 0 <= c < n ==> #[trigger] out@[r * n + c]
                        == difference_entry_spec::<S>(r, c),
                forall|c: int|
                    0 <= c < col ==> #[trigger] out@[row * n + c] == difference_entry_spec::<S>(
                        row as int,
                        c,
                    ),
            decreases n - col,
        {
            let ghost before = out@;
            let entry = if row == col {
                S::ratio(-2, 1)
            } else if (col > 0 && row == col - 1) || (row > 0 && col == row - 1) {
                S::ratio(1, 1)
            } else {
                S::ratio(0, 1)
            };
            out.push(entry);
            proof {
                assert forall|r: int, c: int| 0 <= r < row && 0 <= c < n implies #[trigger] out@[r
                    * n + c] == difference_entry_spec::<S>(r, c) by {
                    assert(r * n + c < row * n) by (nonlinear_arith)
                        requires
                            0 <= r < row,
                            0 <= c < n,
                    ;
                    assert(out@[r * n + c] == before[r * n + c]);
                }
            }
            col = col + 1;
        }
        proof {
            assert((row + 1) * n == row * n + n) by (nonlinear_arith);
            assert forall|r: int, c: int| 0 <= r < row + 1 && 0 <= c < n implies #[trigger] out@[r
                * n + c] == difference_entry_spec::<S>(r, c) by {
                if r == row {
                    assert(out@[row * n + c] == difference_entry_spec::<S>(row as int, c));
                }
            }
        }
        row = row + 1;
    }
    out
}

/// Sets up the linear system of the finite differences method with central
/// second differences: the solution of `matrix * u = right_side` holds the
/// values at the `n_grid` inner points of the grid.
pub fn assemble_bvp<S: Scalar + Send + Sync, FT: SampleableFunction<S, S> + Copy + Send + Sync>(
    problem: BoundaryValueProblem<S, FT>,
    n_grid: usize,
) -> (r: DifferenceSystem<S>)
    requires
        is_total(problem.ddf),
        1 <= n_grid,
        n_grid * n_grid <= usize::MAX,
    ensures
        r.right_side@ == right_side_spec(problem, n_grid),
        r.matrix@.len() == n_grid * n_grid,
        forall|row: int, col: int|
            0 <= row < n_grid && 0 <= col < n_grid ==> #[trigger] r.matrix@[row * n_grid + col]
                == difference_entry_spec::<S>(row, col),
{
    assert(n_grid < usize::MAX) by (nonlinear_arith)
        requires
            1 <= n_grid,
            n_grid * n_grid <= usize::MAX,
    ;
    let h = problem.interval.span().over(S::count(n_grid).plus(S::ratio(1, 1)));
    let points = make_supporting_points(n_grid + 1, problem.interval);
    let mut grid_x_values: Vec<S> = Vec::new();
    let mut i: usize = 1;
    while i <= n_grid
        invariant
            1 <= i <= n_grid + 1,
            n_grid < usize::MAX,
            points@.len() == n_grid + 2,
            grid_x_values@.len() == i - 1,
            forall|j: int| 0 <= j < i - 1 ==> grid_x_values@[j] == points@[j + 1],
        decreases n_grid + 1 - i,
    {
        grid_x_values.push(points[i]);
        i = i + 1;
    }
    let ddf = problem.ddf;
    let sample = |x: &S| -> (value: S)
        requires
            is_total(ddf),
        ensures
            value == ddf.value_spec(*x).times_spec(h).times_spec(h),
        {
            ddf.value_at(*x).times(h).times(h)
        };
    let mut right_side = crate::parallel::parallel_map(grid_x_values.as_slice(), sample);
    assert(right_side@ =~= scaled_samples_spec(problem, n_grid));
    let first = right_side[0].minus(problem.start_value);
    right_side.set(0, first);
    let last = right_side[n_grid - 1].minus(problem.end_value);
    right_side.set(n_grid - 1, last);
    DifferenceSystem { matrix: difference_matrix(n_grid), right_side }
}

} // verus!
