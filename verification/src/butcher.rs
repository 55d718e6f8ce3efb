use crate::definitions::rows_spec;
use crate::explicit_runge_kutta::{is_tableau, Tableau};
use crate::scalar::Scalar;
use vstd::prelude::*;

verus! {

/// The exact value of the fraction `f.0 / f.1`.
pub open spec fn fraction_value(f: (i64, i64)) -> real {
    (f.0 as real) / (f.1 as real)
}

/// The exact sum of a row of fractions.
pub open spec fn fraction_sum(fractions: Seq<(i64, i64)>) -> real
    decreases fractions.len(),
{
    if fractions.len() == 0 {
        0 as real
    } else {
        fraction_sum(fractions.drop_last()) + fraction_value(fractions.last())
    }
}

/// The scalars that stand for a row of fractions.
pub open spec fn scalars_of<S: Scalar>(fractions: Seq<(i64, i64)>) -> Seq<S> {
    Seq::new(fractions.len(), |i: int| S::ratio_spec(fractions[i].0, fractions[i].1))
}

/// The scalars that stand for rows of fractions.
pub open spec fn scalar_rows_of<S: Scalar>(fractions: Seq<Seq<(i64, i64)>>) -> Seq<Seq<S>> {
    Seq::new(fractions.len(), |i: int| scalars_of::<S>(fractions[i]))
}

/// The entries of a tableau as exact fractions.
pub struct Fractions {
    /// The times of the stages.
    pub cs: Seq<(i64, i64)>,
    /// The weights of the stages.
    pub bs: Seq<(i64, i64)>,
    /// The coefficients, one row for each stage.
    pub coeffs: Seq<Seq<(i64, i64)>>,
}

impl Fractions {
    /// Whether the fractions have the shape of a tableau and the weights add
    /// up to one exactly, as consistency of the method asks.
    pub open spec fn is_consistent(self) -> bool {
        &&& is_tableau(self.cs, self.bs, self.coeffs)
        &&& fraction_sum(self.bs) == 1 as real
    }

    /// Whether the entries of `tableau` are the scalars that stand for these
    /// fractions.
    pub open spec fn gives<S: Scalar>(self, tableau: Tableau<S>) -> bool {
        &&& tableau.cs_spec() == scalars_of::<S>(self.cs)
        &&& tableau.bs_spec() == scalars_of::<S>(self.bs)
        &&& tableau.coeffs_spec() == scalar_rows_of::<S>(self.coeffs)
    }
}

/// Adding a fraction to a row adds its value to the sum.
pub proof fn lemma_fraction_sum_push(fractions: Seq<(i64, i64)>, f: (i64, i64))
    ensures
        fraction_sum(fractions.push(f)) == fraction_sum(fractions) + fraction_value(f),
{
    assert(fractions.push(f).drop_last() =~= fractions);
}

/// The scalars that stand for a row of fractions.
pub fn scalars_from<S: Scalar>(fractions: &[(i64, i64)]) -> (r: Vec<S>)
    ensures
        r@ == scalars_of::<S>(fractions@),
{
    let mut out: Vec<S> = Vec::new();
    let mut i: usize = 0;
    while i < fractions.len()
        invariant
            i <= fractions.len(),
            out@.len() == i,
            forall|j: int|
                0 <= j < i ==> out@[j] == S::ratio_spec(fractions@[j].0, fractions@[j].1),
        decreases fractions.len() - i,
    {
        let f = fractions[i];
        out.push(S::ratio(f.0, f.1));
        i = i + 1;
    }
    assert(out@ =~= scalars_of::<S>(fractions@));
    out
}

/// The tableau whose entries stand for the given fractions.
pub fn tableau_from<S: Scalar>(
    cs: &[(i64, i64)],
    bs: &[(i64, i64)],
    coeffs: &[Vec<(i64, i64)>],
) -> (r: Tableau<S>)
    requires
        is_tableau(cs@, bs@, rows_spec(coeffs@)),
    ensures
        (Fractions { cs: cs@, bs: bs@, coeffs: rows_spec(coeffs@) }).gives(r),
{
    let mut rows: Vec<Vec<S>> = Vec::new();
    let mut i: usize = 0;
    while i < coeffs.len()
        invariant
            i <= coeffs.len(),
            rows@.len() == i,
            forall|j: int| 0 <= j < i ==> (#[trigger] rows@[j])@ == scalars_of::<S>(coeffs@[j]@),
        decreases coeffs.len() - i,
    {
        rows.push(scalars_from(coeffs[i].as_slice()));
        i = i + 1;
    }
    let cs_scalars = scalars_from(cs);
    let bs_scalars = scalars_from(bs);
    proof {
        assert(rows_spec(rows@) =~= scalar_rows_of::<S>(rows_spec(coeffs@)));
        assert forall|j: int| 0 <= j < rows@.len() implies (#[trigger] rows_spec(rows@)[j]).len()
            == j by {
            assert(rows_spec(coeffs@)[j].len() == j);
        }
    }
    Tableau::new(cs_scalars, bs_scalars, rows)
}

/// The sum of two fractions in a row.
pub proof fn lemma_fraction_sum_2(a: (i64, i64), b: (i64, i64))
    ensures
        fraction_sum(seq![a, b]) == fraction_value(a) + fraction_value(b),
{
    let s0 = Seq::<(i64, i64)>::empty();
    lemma_fraction_sum_push(s0, a);
    lemma_fraction_sum_push(s0.push(a), b);
    assert(seq![a, b] =~= s0.push(a).push(b));
}

/// The sum of three fractions in a row.
pub proof fn lemma_fraction_sum_3(a: (i64, i64), b: (i64, i64), c: (i64, i64))
    ensures
        fraction_sum(seq![a, b, c]) == fraction_value(a) + fraction_value(b) + fraction_value(c),
{
    lemma_fraction_sum_2(a, b);
    lemma_fraction_sum_push(seq![a, b], c);
    assert(seq![a, b, c] =~= seq![a, b].push(c));
}

/// The sum of four fractions in a row.
pub proof fn lemma_fraction_sum_4(a: (i64, i64), b: (i64, i64), c: (i64, i64), d: (i64, i64))
    ensures
        fraction_sum(seq![a, b, c, d]) == fraction_value(a) + fraction_value(b) + fraction_value(c)
            + fraction_value(d),
{
    lemma_fraction_sum_3(a, b, c);
    lemma_fraction_sum_push(seq![a, b, c], d);
    assert(seq![a, b, c, d] =~= seq![a, b, c].push(d));
}

/// The sum of seven fractions in a row.
pub proof fn lemma_fraction_sum_7(
    a: (i64, i64),
    b: (i64, i64),
    c: (i64, i64),
    d: (i64, i64),
    e: (i64, i64),
    f: (i64, i64),
    g: (i64, i64),
)
    ensures
        fraction_sum(seq![a, b, c, d, e, f, g]) == fraction_value(a) + fraction_value(b)
            + fraction_value(c) + fraction_value(d) + fraction_value(e) + fraction_value(f)
            + fraction_value(g),
{
    lemma_fraction_sum_4(a, b, c, d);
    lemma_fraction_sum_push(seq![a, b, c, d], e);
    assert(seq![a, b, c, d, e] =~= seq![a, b, c, d].push(e));
    lemma_fraction_sum_push(seq![a, b, c, d, e], f);
    assert(seq![a, b, c, d, e, f] =~= seq![a, b, c, d, e].push(f));
    lemma_fraction_sum_push(seq![a, b, c, d, e, f], g);
    assert(seq![a, b, c, d, e, f, g] =~= seq![a, b, c, d, e, f].push(g));
}

/// The classic method of order four, with four stages.
pub open spec fn classic_fractions() -> Fractions {
    Fractions {
        cs: seq![(0i64, 1i64), (1i64, 2i64), (1i64, 2i64), (1i64, 1i64)],
        bs: seq![(1i64, 6i64), (1i64, 3i64), (1i64, 3i64), (1i64, 6i64)],
        coeffs: seq![
            seq![],
            seq![(1i64, 2i64)],
            seq![(0i64, 1i64), (1i64, 2i64)],
            seq![(0i64, 1i64), (0i64, 1i64), (1i64, 1i64)],
        ],
    }
}

/// The weights of the classic method add up to one.
pub proof fn lemma_classic_consistent()
    ensures
        classic_fractions().is_consistent(),
{
    lemma_fraction_sum_4((1i64, 6i64), (1i64, 3i64), (1i64, 3i64), (1i64, 6i64));
    assert((1 as real) / (6 as real) + (1 as real) / (3 as real) + (1 as real) / (3 as real) + (
    1 as real) / (6 as real) == 1 as real) by (nonlinear_arith);
}

/// The tableau of the classic method of order four.
pub fn classic_tableau<S: Scalar>() -> (r: Tableau<S>)
    ensures
        classic_fractions().gives(r),
{
    let cs: Vec<(i64, i64)> = vec![(0, 1), (1, 2), (1, 2), (1, 1)];
    let bs: Vec<(i64, i64)> = vec![(1, 6), (1, 3), (1, 3), (1, 6)];
    let row0: Vec<(i64, i64)> = vec![];
    let row1: Vec<(i64, i64)> = vec![(1, 2)];
    let row2: Vec<(i64, i64)> = vec![(0, 1), (1, 2)];
    let row3: Vec<(i64, i64)> = vec![(0, 1), (0, 1), (1, 1)];
    proof {
        lemma_classic_consistent();
        assert(cs@ =~= classic_fractions().cs);
        assert(bs@ =~= classic_fractions().bs);
        assert(row0@ =~= classic_fractions().coeffs[0]);
        assert(row1@ =~= classic_fractions().coeffs[1]);
        assert(row2@ =~= classic_fractions().coeffs[2]);
        assert(row3@ =~= classic_fractions().coeffs[3]);
    }
    let coeffs: Vec<Vec<(i64, i64)>> = vec![row0, row1, row2, row3];
    assert(rows_spec(coeffs@) =~= classic_fractions().coeffs);
    tableau_from(cs.as_slice(), bs.as_slice(), coeffs.as_slice())
}

/// England's method, with four stages.
pub open spec fn england_fractions() -> Fractions {
    Fractions {
        cs: seq![(0i64, 1i64), (1i64, 2i64), (1i64, 2i64), (1i64, 1i64)],
        bs: seq![(1i64, 6i64), (0i64, 1i64), (2i64, 3i64), (1i64, 6i64)],
        coeffs: seq![
            seq![],
            seq![(1i64, 2i64)],
            seq![(1i64, 4i64), (1i64, 4i64)],
            seq![(0i64, 1i64), (-1i64, 1i64), (2i64, 1i64)],
        ],
    }
}

/// The weights of England's method add up to one.
pub proof fn lemma_england_consistent()
    ensures
        england_fractions().is_consistent(),
{
    lemma_fraction_sum_4((1i64, 6i64), (0i64, 1i64), (2i64, 3i64), (1i64, 6i64));
    assert((1 as real) / (6 as real) + (0 as real) / (1 as real) + (2 as real) / (3 as real) + (1 as real) / (6 as real) == 1 as real) by (nonlinear_arith);
}

/// The tableau of England's method.
pub fn england_tableau<S: Scalar>() -> (r: Tableau<S>)
    ensures
        england_fractions().gives(r),
{
    let cs: Vec<(i64, i64)> = vec![(0, 1), (1, 2), (1, 2), (1, 1)];
    let bs: Vec<(i64, i64)> = vec![(1, 6), (0, 1), (2, 3), (1, 6)];
    let row0: Vec<(i64, i64)> = vec![];
    let row1: Vec<(i64, i64)> = vec![(1, 2)];
    let row2: Vec<(i64, i64)> = vec![(1, 4), (1, 4)];
    let row3: Vec<(i64, i64)> = vec![(0, 1), (-1, 1), (2, 1)];
    proof {
        lemma_england_consistent();
        assert(cs@ =~= england_fractions().cs);
        assert(bs@ =~= england_fractions().bs);
        assert(row0@ =~= england_fractions().coeffs[0]);
        assert(row1@ =~= england_fractions().coeffs[1]);
        assert(row2@ =~= england_fractions().coeffs[2]);
        assert(row3@ =~= england_fractions().coeffs[3]);
    }
    let coeffs: Vec<Vec<(i64, i64)>> = vec![row0, row1, row2, row3];
    assert(rows_spec(coeffs@) =~= england_fractions().coeffs);
    tableau_from(cs.as_slice(), bs.as_slice(), coeffs.as_slice())
}

/// The 3/8 rule, with four stages.
pub open spec fn three_eight_fractions() -> Fractions {
    Fractions {
        cs: seq![(0i64, 1i64), (1i64, 2i64), (1i64, 1i64), (1i64, 1i64)],
        bs: seq![(1i64, 6i64), (2i64, 3i64), (0i64, 1i64), (1i64, 6i64)],
        coeffs: seq![
            seq![],
            seq![(1i64, 2i64)],
            seq![(0i64, 1i64), (1i64, 1i64)],
            seq![(0i64, 1i64), (0i64, 1i64), (1i64, 1i64)],
        ],
    }
}

/// The weights of the 3/8 rule add up to one.
pub proof fn lemma_three_eight_consistent()
    ensures
        three_eight_fractions().is_consistent(),
{
    lemma_fraction_sum_4((1i64, 6i64), (2i64, 3i64), (0i64, 1i64), (1i64, 6i64));
    assert((1 as real) / (6 as real) + (2 as real) / (3 as real) + (0 as real) / (1 as real) + (1 as real) / (6 as real) == 1 as real) by (nonlinear_arith);
}

/// The tableau of the 3/8 rule.
pub fn three_eight_tableau<S: Scalar>() -> (r: Tableau<S>)
    ensures
        three_eight_fractions().gives(r),
{
    let cs: Vec<(i64, i64)> = vec![(0, 1), (1, 2), (1, 1), (1, 1)];
    let bs: Vec<(i64, i64)> = vec![(1, 6), (2, 3), (0, 1), (1, 6)];
    let row0: Vec<(i64, i64)> = vec![];
    let row1: Vec<(i64, i64)> = vec![(1, 2)];
    let row2: Vec<(i64, i64)> = vec![(0, 1), (1, 1)];
    let row3: Vec<(i64, i64)> = vec![(0, 1), (0, 1), (1, 1)];
    proof {
        lemma_three_eight_consistent();
        assert(cs@ =~= three_eight_fractions().cs);
        assert(bs@ =~= three_eight_fractions().bs);
        assert(row0@ =~= three_eight_fractions().coeffs[0]);
        assert(row1@ =~= three_eight_fractions().coeffs[1]);
        assert(row2@ =~= three_eight_fractions().coeffs[2]);
        assert(row3@ =~= three_eight_fractions().coeffs[3]);
    }
    let coeffs: Vec<Vec<(i64, i64)>> = vec![row0, row1, row2, row3];
    assert(rows_spec(coeffs@) =~= three_eight_fractions().coeffs);
    tableau_from(cs.as_slice(), bs.as_slice(), coeffs.as_slice())
}

/// The method of order two with two stages.
pub open spec fn second_order_fractions() -> Fractions {
    Fractions {
        cs: seq![(0i64, 1i64), (1i64, 2i64)],
        bs: seq![(0i64, 1i64), (1i64, 1i64)],
        coeffs: seq![
            seq![],
            seq![(1i64, 2i64)],
        ],
    }
}

/// The weights of the method of order two add up to one.
pub proof fn lemma_second_order_consistent()
    ensures
        second_order_fractions().is_consistent(),
{
    lemma_fraction_sum_2((0i64, 1i64), (1i64, 1i64));
    assert((0 as real) / (1 as real) + (1 as real) / (1 as real) == 1 as real) by (nonlinear_arith);
}

/// The tableau of the method of order two.
pub fn second_order_tableau<S: Scalar>() -> (r: Tableau<S>)
    ensures
        second_order_fractions().gives(r),
{
    let cs: Vec<(i64, i64)> = vec![(0, 1), (1, 2)];
    let bs: Vec<(i64, i64)> = vec![(0, 1), (1, 1)];
    let row0: Vec<(i64, i64)> = vec![];
    let row1: Vec<(i64, i64)> = vec![(1, 2)];
    proof {
        lemma_second_order_consistent();
        assert(cs@ =~= second_order_fractions().cs);
        assert(bs@ =~= second_order_fractions().bs);
        assert(row0@ =~= second_order_fractions().coeffs[0]);
        assert(row1@ =~= second_order_fractions().coeffs[1]);
    }
    let coeffs: Vec<Vec<(i64, i64)>> = vec![row0, row1];
    assert(rows_spec(coeffs@) =~= second_order_fractions().coeffs);
    tableau_from(cs.as_slice(), bs.as_slice(), coeffs.as_slice())
}

/// Heun's method of order three, with three stages.
pub open spec fn heun_fractions() -> Fractions {
    Fractions {
        cs: seq![(0i64, 1i64), (1i64, 3i64), (2i64, 3i64)],
        bs: seq![(1i64, 4i64), (0i64, 1i64), (3i64, 4i64)],
        coeffs: seq![
            seq![],
            seq![(1i64, 3i64)],
            seq![(0i64, 1i64), (2i64, 3i64)],
        ],
    }
}

/// The weights of Heun's method add up to one.
pub proof fn lemma_heun_consistent()
    ensures
        heun_fractions().is_consistent(),
{
    lemma_fraction_sum_3((1i64, 4i64), (0i64, 1i64), (3i64, 4i64));
    assert((1 as real) / (4 as real) + (0 as real) / (1 as real) + (3 as real) / (4 as real) == 1 as real) by (nonlinear_arith);
}

/// The tableau of Heun's method.
pub fn heun_tableau<S: Scalar>() -> (r: Tableau<S>)
    ensures
        heun_fractions().gives(r),
{
    let cs: Vec<(i64, i64)> = vec![(0, 1), (1, 3), (2, 3)];
    let bs: Vec<(i64, i64)> = vec![(1, 4), (0, 1), (3, 4)];
    let row0: Vec<(i64, i64)> = vec![];
    let row1: Vec<(i64, i64)> = vec![(1, 3)];
    let row2: Vec<(i64, i64)> = vec![(0, 1), (2, 3)];
    proof {
        lemma_heun_consistent();
        assert(cs@ =~= heun_fractions().cs);
        assert(bs@ =~= heun_fractions().bs);
        assert(row0@ =~= heun_fractions().coeffs[0]);
        assert(row1@ =~= heun_fractions().coeffs[1]);
        assert(row2@ =~= heun_fractions().coeffs[2]);
    }
    let coeffs: Vec<Vec<(i64, i64)>> = vec![row0, row1, row2];
    assert(rows_spec(coeffs@) =~= heun_fractions().coeffs);
    tableau_from(cs.as_slice(), bs.as_slice(), coeffs.as_slice())
}

/// The method of order two of the small embedded pair.
pub open spec fn embedded_second_order_fractions() -> Fractions {
    Fractions {
        cs: seq![(0i64, 1i64), (1i64, 1i64)],
        bs: seq![(1i64, 2i64), (1i64, 2i64)],
        coeffs: seq![
            seq![],
            seq![(1i64, 1i64)],
        ],
    }
}

/// The weights of the method of order two of the small embedded pair add up to one.
pub proof fn lemma_embedded_second_order_consistent()
    ensures
        embedded_second_order_fractions().is_consistent(),
{
    lemma_fraction_sum_2((1i64, 2i64), (1i64, 2i64));
    assert((1 as real) / (2 as real) + (1 as real) / (2 as real) == 1 as real) by (nonlinear_arith);
}

/// The tableau of the method of order two of the small embedded pair.
pub fn embedded_second_order_tableau<S: Scalar>() -> (r: Tableau<S>)
    ensures
        embedded_second_order_fractions().gives(r),
{
    let cs: Vec<(i64, i64)> = vec![(0, 1), (1, 1)];
    let bs: Vec<(i64, i64)> = vec![(1, 2), (1, 2)];
    let row0: Vec<(i64, i64)> = vec![];
    let row1: Vec<(i64, i64)> = vec![(1, 1)];
    proof {
        lemma_embedded_second_order_consistent();
        assert(cs@ =~= embedded_second_order_fractions().cs);
        assert(bs@ =~= embedded_second_order_fractions().bs);
        assert(row0@ =~= embedded_second_order_fractions().coeffs[0]);
        assert(row1@ =~= embedded_second_order_fractions().coeffs[1]);
    }
    let coeffs: Vec<Vec<(i64, i64)>> = vec![row0, row1];
    assert(rows_spec(coeffs@) =~= embedded_second_order_fractions().coeffs);
    tableau_from(cs.as_slice(), bs.as_slice(), coeffs.as_slice())
}

/// The method of order one of the small embedded pair.
pub open spec fn embedded_first_order_fractions() -> Fractions {
    Fractions {
        cs: seq![(0i64, 1i64), (1i64, 1i64)],
        bs: seq![(1i64, 1i64), (0i64, 1i64)],
        coeffs: seq![
            seq![],
            seq![(1i64, 1i64)],
        ],
    }
}

/// The weights of the method of order one of the small embedded pair add up to one.
pub proof fn lemma_embedded_first_order_consistent()
    ensures
        embedded_first_order_fractions().is_consistent(),
{
    lemma_fraction_sum_2((1i64, 1i64), (0i64, 1i64));
    assert((1 as real) / (1 as real) + (0 as real) / (1 as real) == 1 as real) by (nonlinear_arith);
}

/// The tableau of the method of order one of the small embedded pair.
pub fn embedded_first_order_tableau<S: Scalar>() -> (r: Tableau<S>)
    ensures
        embedded_first_order_fractions().gives(r),
{
    let cs: Vec<(i64, i64)> = vec![(0, 1), (1, 1)];
    let bs: Vec<(i64, i64)> = vec![(1, 1), (0, 1)];
    let row0: Vec<(i64, i64)> = vec![];
    let row1: Vec<(i64, i64)> = vec![(1, 1)];
    proof {
        lemma_embedded_first_order_consistent();
        assert(cs@ =~= embedded_first_order_fractions().cs);
        assert(bs@ =~= embedded_first_order_fractions().bs);
        assert(row0@ =~= embedded_first_order_fractions().coeffs[0]);
        assert(row1@ =~= embedded_first_order_fractions().coeffs[1]);
    }
    let coeffs: Vec<Vec<(i64, i64)>> = vec![row0, row1];
    assert(rows_spec(coeffs@) =~= embedded_first_order_fractions().coeffs);
    tableau_from(cs.as_slice(), bs.as_slice(), coeffs.as_slice())
}

/// The method of order five of the Dormand-Prince pair, with seven stages.
pub open spec fn dopri5_fifth_order_fractions() -> Fractions {
    Fractions {
        cs: seq![(0i64, 1i64), (1i64, 5i64), (3i64, 10i64), (4i64, 5i64), (8i64, 9i64), (1i64, 1i64), (1i64, 1i64)],
        bs: seq![(35i64, 384i64), (0i64, 1i64), (500i64, 1113i64), (125i64, 192i64), (-2187i64, 6784i64), (11i64, 84i64), (0i64, 1i64)],
        coeffs: seq![
            seq![],
            seq![(1i64, 5i64)],
            seq![(3i64, 40i64), (9i64, 40i64)],
            seq![(44i64, 45i64), (-56i64, 15i64), (32i64, 9i64)],
            seq![(19372i64, 6561i64), (-25360i64, 2187i64), (64448i64, 6561i64), (-212i64, 729i64)],
            seq![(9017i64, 3168i64), (-355i64, 33i64), (46732i64, 5247i64), (49i64, 176i64), (-5103i64, 18656i64)],
            seq![(35i64, 384i64), (0i64, 1i64), (500i64, 1113i64), (125i64, 192i64), (-2187i64, 6784i64), (11i64, 84i64)],
        ],
    }
}

/// The weights of the method of order five of the Dormand-Prince pair add up to one.
pub proof fn lemma_dopri5_fifth_order_consistent()
    ensures
        dopri5_fifth_order_fractions().is_consistent(),
{
    lemma_fraction_sum_7((35i64, 384i64), (0i64, 1i64), (500i64, 1113i64), (125i64, 192i64), (-2187i64, 6784i64), (11i64, 84i64), (0i64, 1i64));
    assert((35 as real) / (384 as real) + (0 as real) / (1 as real) + (500 as real) / (1113 as real) + (125 as real) / (192 as real) + (-2187 as real) / (6784 as real) + (11 as real) / (84 as real) + (0 as real) / (1 as real) == 1 as real) by (nonlinear_arith);
}

/// The tableau of the method of order five of the Dormand-Prince pair.
pub fn dopri5_fifth_order_tableau<S: Scalar>() -> (r: Tableau<S>)
    ensures
        dopri5_fifth_order_fractions().gives(r),
{
    let cs: Vec<(i64, i64)> = vec![(0, 1), (1, 5), (3, 10), (4, 5), (8, 9), (1, 1), (1, 1)];
    let bs: Vec<(i64, i64)> = vec![(35, 384), (0, 1), (500, 1113), (125, 192), (-2187, 6784), (11, 84), (0, 1)];
    let row0: Vec<(i64, i64)> = vec![];
    let row1: Vec<(i64, i64)> = vec![(1, 5)];
    let row2: Vec<(i64, i64)> = vec![(3, 40), (9, 40)];
    let row3: Vec<(i64, i64)> = vec![(44, 45), (-56, 15), (32, 9)];
    let row4: Vec<(i64, i64)> = vec![(19372, 6561), (-25360, 2187), (64448, 6561), (-212, 729)];
    let row5: Vec<(i64, i64)> = vec![(9017, 3168), (-355, 33), (46732, 5247), (49, 176), (-5103, 18656)];
    let row6: Vec<(i64, i64)> = vec![(35, 384), (0, 1), (500, 1113), (125, 192), (-2187, 6784), (11, 84)];
    proof {
        lemma_dopri5_fifth_order_consistent();
        assert(cs@ =~= dopri5_fifth_order_fractions().cs);
        assert(bs@ =~= dopri5_fifth_order_fractions().bs);
        assert(row0@ =~= dopri5_fifth_order_fractions().coeffs[0]);
        assert(row1@ =~= dopri5_fifth_order_fractions().coeffs[1]);
        assert(row2@ =~= dopri5_fifth_order_fractions().coeffs[2]);
        assert(row3@ =~= dopri5_fifth_order_fractions().coeffs[3]);
        assert(row4@ =~= dopri5_fifth_order_fractions().coeffs[4]);
        assert(row5@ =~= dopri5_fifth_order_fractions().coeffs[5]);
        assert(row6@ =~= dopri5_fifth_order_fractions().coeffs[6]);
    }
    let coeffs: Vec<Vec<(i64, i64)>> = vec![row0, row1, row2, row3, row4, row5, row6];
    assert(rows_spec(coeffs@) =~= dopri5_fifth_order_fractions().coeffs);
    tableau_from(cs.as_slice(), bs.as_slice(), coeffs.as_slice())
}

/// The method of order four of the Dormand-Prince pair, with seven stages.
pub open spec fn dopri5_fourth_order_fractions() -> Fractions {
    Fractions {
        cs: seq![(0i64, 1i64), (1i64, 5i64), (3i64, 10i64), (4i64, 5i64), (8i64, 9i64), (1i64, 1i64), (1i64, 1i64)],
        bs: seq![(5179i64, 57600i64), (0i64, 1i64), (7571i64, 16695i64), (393i64, 640i64), (-92097i64, 339200i64), (187i64, 2100i64), (1i64, 40i64)],
        coeffs: seq![
            seq![],
            seq![(1i64, 5i64)],
            seq![(3i64, 40i64), (9i64, 40i64)],
            seq![(44i64, 45i64), (-56i64, 15i64), (32i64, 9i64)],
            seq![(19372i64, 6561i64), (-25360i64, 2187i64), (64448i64, 6561i64), (-212i64, 729i64)],
            seq![(9017i64, 3168i64), (-355i64, 33i64), (46732i64, 5247i64), (49i64, 176i64), (-5103i64, 18656i64)],
            seq![(35i64, 384i64), (0i64, 1i64), (500i64, 1113i64), (125i64, 192i64), (-2187i64, 6784i64), (11i64, 84i64)],
        ],
    }
}

/// The weights of the method of order four of the Dormand-Prince pair add up to one.
pub proof fn lemma_dopri5_fourth_order_consistent()
    ensures
        dopri5_fourth_order_fractions().is_consistent(),
{
    lemma_fraction_sum_7((5179i64, 57600i64), (0i64, 1i64), (7571i64, 16695i64), (393i64, 640i64), (-92097i64, 339200i64), (187i64, 2100i64), (1i64, 40i64));
    assert((5179 as real) / (57600 as real) + (0 as real) / (1 as real) + (7571 as real) / (16695 as real) + (393 as real) / (640 as real) + (-92097 as real) / (339200 as real) + (187 as real) / (2100 as real) + (1 as real) / (40 as real) == 1 as real) by (nonlinear_arith);
}

/// The tableau of the method of order four of the Dormand-Prince pair.
pub fn dopri5_fourth_order_tableau<S: Scalar>() -> (r: Tableau<S>)
    ensures
        dopri5_fourth_order_fractions().gives(r),
{
    let cs: Vec<(i64, i64)> = vec![(0, 1), (1, 5), (3, 10), (4, 5), (8, 9), (1, 1), (1, 1)];
    let bs: Vec<(i64, i64)> = vec![(5179, 57600), (0, 1), (7571, 16695), (393, 640), (-92097, 339200), (187, 2100), (1, 40)];
    let row0: Vec<(i64, i64)> = vec![];
    let row1: Vec<(i64, i64)> = vec![(1, 5)];
    let row2: Vec<(i64, i64)> = vec![(3, 40), (9, 40)];
    let row3: Vec<(i64, i64)> = vec![(44, 45), (-56, 15), (32, 9)];
    let row4: Vec<(i64, i64)> = vec![(19372, 6561), (-25360, 2187), (64448, 6561), (-212, 729)];
    let row5: Vec<(i64, i64)> = vec![(9017, 3168), (-355, 33), (46732, 5247), (49, 176), (-5103, 18656)];
    let row6: Vec<(i64, i64)> = vec![(35, 384), (0, 1), (500, 1113), (125, 192), (-2187, 6784), (11, 84)];
    proof {
        lemma_dopri5_fourth_order_consistent();
        assert(cs@ =~= dopri5_fourth_order_fractions().cs);
        assert(bs@ =~= dopri5_fourth_order_fractions().bs);
        assert(row0@ =~= dopri5_fourth_order_fractions().coeffs[0]);
        assert(row1@ =~= dopri5_fourth_order_fractions().coeffs[1]);
        assert(row2@ =~= dopri5_fourth_order_fractions().coeffs[2]);
        assert(row3@ =~= dopri5_fourth_order_fractions().coeffs[3]);
        assert(row4@ =~= dopri5_fourth_order_fractions().coeffs[4]);
        assert(row5@ =~= dopri5_fourth_order_fractions().coeffs[5]);
        assert(row6@ =~= dopri5_fourth_order_fractions().coeffs[6]);
    }
    let coeffs: Vec<Vec<(i64, i64)>> = vec![row0, row1, row2, row3, row4, row5, row6];
    assert(rows_spec(coeffs@) =~= dopri5_fourth_order_fractions().coeffs);
    tableau_from(cs.as_slice(), bs.as_slice(), coeffs.as_slice())
}

} // verus!
