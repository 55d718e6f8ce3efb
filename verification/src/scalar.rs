use vstd::prelude::*;

verus! {

/// The arithmetic that the methods of this crate compute with.
///
/// Each operation comes as a pair: a specification function that names the
/// result, and the executable method that returns it. Nothing else is asked
/// of an implementation; in particular no algebraic law is taken for granted,
/// so the contracts of this crate hold for rounding arithmetic as well as for
/// exact arithmetic. [`crate::fixed::Fixed`] is an implementation with
/// proofs. An implementation outside of verified code answers for one thing
/// only: that each method is a function of its arguments.
pub trait Scalar: Copy {
    /// The sum `self + rhs`.
    spec fn plus_spec(self, rhs: Self) -> Self;

    /// The difference `self - rhs`.
    spec fn minus_spec(self, rhs: Self) -> Self;

    /// The product `self * rhs`.
    spec fn times_spec(self, rhs: Self) -> Self;

    /// The quotient `self / rhs`.
    spec fn over_spec(self, rhs: Self) -> Self;

    /// The absolute value of `self`.
    spec fn abs_spec(self) -> Self;

    /// The negative `-self`.
    spec fn neg_spec(self) -> Self;

    /// Whether `self < rhs`.
    spec fn lt_spec(self, rhs: Self) -> bool;

    /// Whether `self <= rhs`.
    spec fn le_spec(self, rhs: Self) -> bool;

    /// The scalar that stands for the fraction `num / den`.
    spec fn ratio_spec(num: i64, den: i64) -> Self;

    /// The scalar that stands for the count `n`.
    spec fn count_spec(n: usize) -> Self;

    /// The least count that is not less than `self`, as far as counts reach.
    spec fn ceil_spec(self) -> usize;

    /// Adds `rhs` to `self`.
    fn plus(self, rhs: Self) -> (r: Self)
        ensures
            r == self.plus_spec(rhs),
    ;

    /// Subtracts `rhs` from `self`.
    fn minus(self, rhs: Self) -> (r: Self)
        ensures
            r == self.minus_spec(rhs),
    ;

    /// Multiplies `self` by `rhs`.
    fn times(self, rhs: Self) -> (r: Self)
        ensures
            r == self.times_spec(rhs),
    ;

    /// Divides `self` by `rhs`.
    fn over(self, rhs: Self) -> (r: Self)
        ensures
            r == self.over_spec(rhs),
    ;

    /// The absolute value of `self`.
    fn abs(self) -> (r: Self)
        ensures
            r == self.abs_spec(),
    ;

    /// The negative of `self`.
    fn neg(self) -> (r: Self)
        ensures
            r == self.neg_spec(),
    ;

    /// Tests `self < rhs`.
    fn lt(self, rhs: Self) -> (r: bool)
        ensures
            r == self.lt_spec(rhs),
    ;

    /// Tests `self <= rhs`.
    fn le(self, rhs: Self) -> (r: bool)
        ensures
            r == self.le_spec(rhs),
    ;

    /// The scalar for the fraction `num / den`.
    fn ratio(num: i64, den: i64) -> (r: Self)
        ensures
            r == Self::ratio_spec(num, den),
    ;

    /// The scalar for the count `n`.
    fn count(n: usize) -> (r: Self)
        ensures
            r == Self::count_spec(n),
    ;

    /// Rounds `self` up to a count.
    fn ceil(self) -> (r: usize)
        ensures
            r == self.ceil_spec(),
    ;
}

/// The elementary functions that a few methods need on top of [`Scalar`]:
/// the control of the step size, norms, orders of convergence. As with
/// [`Scalar`], each specification function only names a result.
pub trait Elementary: Scalar {
    /// `self` raised to the power `exponent`.
    spec fn powf_spec(self, exponent: Self) -> Self;

    /// `self` raised to the integer power `exponent`.
    spec fn powi_spec(self, exponent: i32) -> Self;

    /// The square root of `self`.
    spec fn sqrt_spec(self) -> Self;

    /// The natural logarithm of `self`.
    spec fn ln_spec(self) -> Self;

    /// Euler's number raised to the power `self`.
    spec fn exp_spec(self) -> Self;

    /// The cosine of `self`.
    spec fn cos_spec(self) -> Self;

    /// Raises `self` to the power `exponent`.
    fn powf(self, exponent: Self) -> (r: Self)
        ensures
            r == self.powf_spec(exponent),
    ;

    /// Raises `self` to the integer power `exponent`.
    fn powi(self, exponent: i32) -> (r: Self)
        ensures
            r == self.powi_spec(exponent),
    ;

    /// The square root of `self`.
    fn sqrt(self) -> (r: Self)
        ensures
            r == self.sqrt_spec(),
    ;

    /// The natural logarithm of `self`.
    fn ln(self) -> (r: Self)
        ensures
            r == self.ln_spec(),
    ;

    /// Euler's number raised to the power `self`.
    fn exp(self) -> (r: Self)
        ensures
            r == self.exp_spec(),
    ;

    /// The cosine of `self`.
    fn cos(self) -> (r: Self)
        ensures
            r == self.cos_spec(),
    ;
}

/// The scalar zero, `0 / 1`.
pub open spec fn zero_spec<S: Scalar>() -> S {
    S::ratio_spec(0, 1)
}

/// The larger of two scalars: `b` where `a < b`, else `a`.
pub open spec fn larger_spec<S: Scalar>(a: S, b: S) -> S {
    if a.lt_spec(b) {
        b
    } else {
        a
    }
}

/// The smaller of two scalars: `b` where `b < a`, else `a`.
pub open spec fn smaller_spec<S: Scalar>(a: S, b: S) -> S {
    if b.lt_spec(a) {
        b
    } else {
        a
    }
}

/// The scalar zero.
pub fn zero<S: Scalar>() -> (r: S)
    ensures
        r == zero_spec::<S>(),
{
    S::ratio(0, 1)
}

/// The larger of two scalars; `a` where neither is less than the other.
pub fn larger<S: Scalar>(a: S, b: S) -> (r: S)
    ensures
        r == larger_spec(a, b),
{
    if a.lt(b) {
        b
    } else {
        a
    }
}

/// The smaller of two scalars; `a` where neither is less than the other.
pub fn smaller<S: Scalar>(a: S, b: S) -> (r: S)
    ensures
        r == smaller_spec(a, b),
{
    if b.lt(a) {
        b
    } else {
        a
    }
}

/// Whether `zero` behaves as an exact zero: adding it on the left changes
/// nothing, and multiplying by it on the right gives `zero`.
pub open spec fn is_exact_zero<S: Scalar>(zero: S) -> bool {
    &&& forall|x: S| #[trigger] zero.plus_spec(x) == x
    &&& forall|x: S| #[trigger] x.times_spec(zero) == zero
}

} // verus!
