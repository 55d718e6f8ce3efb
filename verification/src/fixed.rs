use crate::definitions::SampleableFunction;
use crate::euler_explicit::{euler_step_spec, lemma_euler_zero_step};
use crate::explicit_runge_kutta::{lemma_runge_kutta_zero_step, runge_kutta_step_spec, Tableau};
use crate::generalized_explicit_k_step_method::step_moves_on;
use crate::generalized_explicit_one_step_method::{lt_is_transitive, step_moves_forwards};
use crate::scalar::{is_exact_zero, Elementary, Scalar};
use vstd::prelude::*;

verus! {

/// The number of units of the raw value that make up one: `2^32`.
pub open spec fn one_raw() -> int {
    0x1_0000_0000
}

/// The raw value closest to `v` that a fixed-point number can hold.
pub open spec fn saturated(v: int) -> i64 {
    if v > i64::MAX {
        i64::MAX
    } else if v < i64::MIN {
        i64::MIN
    } else {
        v as i64
    }
}

/// The absolute value of `v`.
pub open spec fn magnitude(v: int) -> int {
    if v < 0 {
        -v
    } else {
        v
    }
}

/// The quotient `n / d` for `d > 0`, rounded towards zero.
pub open spec fn towards_zero(n: int, d: int) -> int {
    if n < 0 {
        -((-n) / d)
    } else {
        n / d
    }
}

/// A fixed-point number with 32 binary places: the value `raw / 2^32`.
/// Results that do not fit are replaced by the closest number that does, and
/// places that do not fit are cut off.
#[derive(Clone, Copy, Debug, PartialEq, Eq, Structural)]
pub struct Fixed {
    /// The value in units of `2^-32`.
    pub raw: i64,
}

impl Fixed {
    /// The number with the raw value closest to `v`.
    pub open spec fn of(v: int) -> Fixed {
        Fixed { raw: saturated(v) }
    }
}

/// The raw value closest to `v`.
fn saturate(v: i128) -> (r: i64)
    ensures
        r == saturated(v as int),
{
    if v > i64::MAX as i128 {
        i64::MAX
    } else if v < i64::MIN as i128 {
        i64::MIN
    } else {
        v as i64
    }
}

/// The absolute value of `v`.
fn magnitude_of(v: i64) -> (r: u128)
    ensures
        r == magnitude(v as int),
{
    if v < 0 {
        (-(v as i128)) as u128
    } else {
        v as u128
    }
}

/// The number `sign * m`, saturated, where `sign` is -1 for `negative` and 1
/// else.
fn signed(negative: bool, m: u128) -> (r: i64)
    ensures
        r == saturated(
            if negative {
                -(m as int)
            } else {
                m as int
            },
        ),
{
    if m > 0x8000_0000_0000_0000 {
        if negative {
            i64::MIN
        } else {
            i64::MAX
        }
    } else if negative {
        saturate(-(m as i128))
    } else {
        saturate(m as i128)
    }
}

/// The product of two raw values in units of `2^-32`, rounded towards zero.
pub open spec fn product_raw(a: int, b: int) -> int {
    towards_zero(a * b, one_raw())
}

/// The quotient of two raw values in units of `2^-32`, rounded towards zero;
/// a division by zero gives the largest number for a dividend that is not
/// negative, and the smallest for one that is.
pub open spec fn quotient_raw(a: int, b: int) -> int {
    if b == 0 {
        if a < 0 {
            i64::MIN as int
        } else {
            i64::MAX as int
        }
    } else if (a < 0) != (b < 0) {
        -((magnitude(a) * one_raw()) / magnitude(b))
    } else {
        (magnitude(a) * one_raw()) / magnitude(b)
    }
}

impl Scalar for Fixed {
    open spec fn plus_spec(self, rhs: Self) -> Self {
        Fixed::of(self.raw + rhs.raw)
    }

    open spec fn minus_spec(self, rhs: Self) -> Self {
        Fixed::of(self.raw - rhs.raw)
    }

    open spec fn times_spec(self, rhs: Self) -> Self {
        Fixed::of(product_raw(self.raw as int, rhs.raw as int))
    }

    open spec fn over_spec(self, rhs: Self) -> Self {
        Fixed::of(quotient_raw(self.raw as int, rhs.raw as int))
    }

    open spec fn abs_spec(self) -> Self {
        Fixed::of(magnitude(self.raw as int))
    }

    open spec fn neg_spec(self) -> Self {
        Fixed::of(-self.raw)
    }

    open spec fn lt_spec(self, rhs: Self) -> bool {
        self.raw < rhs.raw
    }

    open spec fn le_spec(self, rhs: Self) -> bool {
        self.raw <= rhs.raw
    }

    open spec fn ratio_spec(num: i64, den: i64) -> Self {
        Fixed::of(num * one_raw()).over_spec(Fixed::of(den * one_raw()))
    }

    open spec fn count_spec(n: usize) -> Self {
        Fixed::of(n * one_raw())
    }

    open spec fn ceil_spec(self) -> usize {
        if self.raw <= 0 {
            0
        } else {
            ((self.raw + one_raw() - 1) / one_raw()) as usize
        }
    }

    fn plus(self, rhs: Self) -> (r: Self) {
        Fixed { raw: saturate(self.raw as i128 + rhs.raw as i128) }
    }

    fn minus(self, rhs: Self) -> (r: Self) {
        Fixed { raw: saturate(self.raw as i128 - rhs.raw as i128) }
    }

    fn times(self, rhs: Self) -> (r: Self) {
        let a = magnitude_of(self.raw);
        let b = magnitude_of(rhs.raw);
        assert(a * b <= 0x8000_0000_0000_0000 * 0x8000_0000_0000_0000) by (nonlinear_arith)
            requires
                0 <= a <= 0x8000_0000_0000_0000,
                0 <= b <= 0x8000_0000_0000_0000,
        ;
        let product = a * b;
        let negative = (self.raw < 0) != (rhs.raw < 0);
        proof {
            let x = self.raw as int;
            let y = rhs.raw as int;
            assert(magnitude(x) * magnitude(y) == magnitude(x * y)) by (nonlinear_arith);
            assert(negative ==> x * y <= 0) by (nonlinear_arith)
                requires
                    negative == ((x < 0) != (y < 0)),
            ;
            assert(!negative ==> x * y >= 0) by (nonlinear_arith)
                requires
                    negative == ((x < 0) != (y < 0)),
            ;
        }
        Fixed { raw: signed(negative, product / 0x1_0000_0000) }
    }

    fn over(self, rhs: Self) -> (r: Self) {
        if rhs.raw == 0 {
            if self.raw < 0 {
                Fixed { raw: i64::MIN }
            } else {
                Fixed { raw: i64::MAX }
            }
        } else {
            let a = magnitude_of(self.raw);
            let b = magnitude_of(rhs.raw);
            let negative = (self.raw < 0) != (rhs.raw < 0);
            Fixed { raw: signed(negative, (a * 0x1_0000_0000) / b) }
        }
    }

    fn abs(self) -> (r: Self) {
        Fixed { raw: signed(false, magnitude_of(self.raw)) }
    }

    fn neg(self) -> (r: Self) {
        Fixed { raw: saturate(-(self.raw as i128)) }
    }

    fn lt(self, rhs: Self) -> (r: bool) {
        self.raw < rhs.raw
    }

    fn le(self, rhs: Self) -> (r: bool) {
        self.raw <= rhs.raw
    }

    fn ratio(num: i64, den: i64) -> (r: Self) {
        let n = Fixed { raw: saturate(num as i128 * 0x1_0000_0000) };
        let d = Fixed { raw: saturate(den as i128 * 0x1_0000_0000) };
        n.over(d)
    }

    fn count(n: usize) -> (r: Self) {
        Fixed { raw: saturate(n as i128 * 0x1_0000_0000) }
    }

    fn ceil(self) -> (r: usize) {
        if self.raw <= 0 {
            0
        } else {
            ((self.raw as i128 + 0xffff_ffff) / 0x1_0000_0000) as usize
        }
    }
}

/// The fixed-point number zero is an exact zero: adding it changes nothing,
/// and every product with it is zero.
pub proof fn lemma_fixed_zero_is_exact()
    ensures
        is_exact_zero(Fixed { raw: 0 }),
        crate::scalar::zero_spec::<Fixed>() == (Fixed { raw: 0 }),
{
    let zero = Fixed { raw: 0 };
    assert forall|x: Fixed| #[trigger] zero.plus_spec(x) == x by {}
    assert forall|x: Fixed| #[trigger] x.times_spec(zero) == zero by {
        assert(x.raw * 0 == 0) by (nonlinear_arith);
    }
}

/// In fixed-point arithmetic a step of size zero leaves the state as it is,
/// for the explicit Euler method and for every Runge-Kutta method.
pub proof fn lemma_fixed_zero_step<FT: SampleableFunction<(Fixed, Vec<Fixed>), Fixed>>(
    tableau: Tableau<Fixed>,
    dfs: Seq<FT>,
    t: Fixed,
    state: Seq<Fixed>,
)
    requires
        dfs.len() == state.len(),
    ensures
        euler_step_spec(dfs, t, state, Fixed { raw: 0 }) == state,
        runge_kutta_step_spec(tableau, dfs, t, state, Fixed { raw: 0 }) == state,
{
    lemma_fixed_zero_is_exact();
    lemma_euler_zero_step(dfs, t, state, Fixed { raw: 0 });
    lemma_runge_kutta_zero_step(tableau, dfs, t, state, Fixed { raw: 0 });
}

/// In fixed-point arithmetic `<` is transitive, and every step of a positive
/// size moves the time forwards.
pub proof fn lemma_fixed_order(h: Fixed, t_target: Fixed)
    requires
        h.raw > 0,
    ensures
        lt_is_transitive::<Fixed>(),
        step_moves_forwards(h, t_target),
        step_moves_on(h, t_target),
{
}

/// The fixed-point number one.
pub open spec fn one_spec() -> Fixed {
    Fixed { raw: 0x1_0000_0000 }
}

/// The fixed-point number one.
fn one() -> (r: Fixed)
    ensures
        r == one_spec(),
{
    Fixed { raw: 0x1_0000_0000 }
}

/// The product of `n` factors `x`, multiplied up from the left, starting at
/// one.
pub open spec fn power_spec(x: Fixed, n: nat) -> Fixed
    decreases n,
{
    if n == 0 {
        one_spec()
    } else {
        power_spec(x, (n - 1) as nat).times_spec(x)
    }
}

/// Whether `r` is the square root of `n`, rounded down.
pub open spec fn is_root(n: int, r: int) -> bool {
    0 <= r && r * r <= n < (r + 1) * (r + 1)
}

/// The square root of `n`, rounded down.
pub open spec fn root_spec(n: int) -> int {
    choose|r: int| is_root(n, r)
}

/// No number has two square roots.
pub proof fn lemma_root_unique(n: int, r1: int, r2: int)
    requires
        is_root(n, r1),
        is_root(n, r2),
    ensures
        r1 == r2,
{
    if r1 < r2 {
        assert((r1 + 1) * (r1 + 1) <= r2 * r2) by (nonlinear_arith)
            requires
                0 <= r1 + 1 <= r2,
        ;
    } else if r2 < r1 {
        assert((r2 + 1) * (r2 + 1) <= r1 * r1) by (nonlinear_arith)
            requires
                0 <= r2 + 1 <= r1,
        ;
    }
}

/// The number of terms of the series for the exponential function and the
/// cosine.
///
/// The exponential function, the logarithm, the cosine and the power with a
/// fixed-point exponent are defined here by the sums and the search that
/// compute them. How far they are from the functions that they are named
/// after is not stated.
pub open spec fn series_terms() -> nat {
    48
}

/// The term `x^k / k!` of the series of the exponential function: each term
/// is the one before it times `x` over `k`.
pub open spec fn exp_term_spec(x: Fixed, k: nat) -> Fixed
    decreases k,
{
    if k == 0 {
        one_spec()
    } else {
        exp_term_spec(x, (k - 1) as nat).times_spec(x).over_spec(Fixed::count_spec(k as usize))
    }
}

/// The sum of the terms 0 to `n` of the series of the exponential function.
pub open spec fn exp_series_spec(x: Fixed, n: nat) -> Fixed
    decreases n,
{
    if n == 0 {
        one_spec()
    } else {
        exp_series_spec(x, (n - 1) as nat).plus_spec(exp_term_spec(x, n))
    }
}

/// The exponential function: the series for `x` that is not negative, and
/// one over the series for `-x` else.
pub open spec fn fixed_exp_spec(x: Fixed) -> Fixed {
    if x.raw < 0 {
        one_spec().over_spec(exp_series_spec(x.neg_spec(), series_terms()))
    } else {
        exp_series_spec(x, series_terms())
    }
}

/// The term `(-1)^k x^(2k) / (2k)!` of the series of the cosine: each term is
/// the negative of the one before it times `x` over `2k - 1` times `x` over
/// `2k`.
pub open spec fn cos_term_spec(x: Fixed, k: nat) -> Fixed
    decreases k,
{
    if k == 0 {
        one_spec()
    } else {
        cos_term_spec(x, (k - 1) as nat).times_spec(x).over_spec(
            Fixed::count_spec((2 * k - 1) as usize),
        ).times_spec(x).over_spec(Fixed::count_spec((2 * k) as usize)).neg_spec()
    }
}

/// The sum of the terms 0 to `n` of the series of the cosine.
pub open spec fn cos_series_spec(x: Fixed, n: nat) -> Fixed
    decreases n,
{
    if n == 0 {
        one_spec()
    } else {
        cos_series_spec(x, (n - 1) as nat).plus_spec(cos_term_spec(x, n))
    }
}

/// The raw value of `2 * pi`, rounded down.
pub open spec fn two_pi_raw() -> int {
    26986075409
}

/// The number of halvings in the search for a logarithm.
pub open spec fn halvings() -> nat {
    40
}

/// The bound of the search for a logarithm: the logarithm of every number
/// lies between -32 and 32.
pub open spec fn log_bound_raw() -> int {
    0x20_0000_0000
}

/// The search for the logarithm of `x` between the raw values `lo` and `hi`
/// with `n` halvings left: the middle takes the place of `lo` where its
/// exponential is at most `x`, and that of `hi` else; at the end `lo` is the
/// result.
pub open spec fn log_search_spec(x: Fixed, lo: int, hi: int, n: nat) -> int
    decreases n,
{
    if n == 0 {
        lo
    } else {
        let mid = lo + (hi - lo) / 2;
        if fixed_exp_spec(Fixed::of(mid)).le_spec(x) {
            log_search_spec(x, mid, hi, (n - 1) as nat)
        } else {
            log_search_spec(x, lo, mid, (n - 1) as nat)
        }
    }
}

/// The natural logarithm: the result of the search for a positive number,
/// and the smallest number else.
pub open spec fn fixed_ln_spec(x: Fixed) -> Fixed {
    if x.raw <= 0 {
        Fixed { raw: i64::MIN }
    } else {
        Fixed::of(log_search_spec(x, -log_bound_raw(), log_bound_raw(), halvings()))
    }
}

/// The exponential function.
fn fixed_exp(x: Fixed) -> (r: Fixed)
    ensures
        r == fixed_exp_spec(x),
{
    let negative = x.raw < 0;
    let arg = if negative {
        x.neg()
    } else {
        x
    };
    let mut term = one();
    let mut sum = one();
    let mut k: usize = 0;
    while k < 48
        invariant
            k <= 48,
            term == exp_term_spec(arg, k as nat),
            sum == exp_series_spec(arg, k as nat),
        decreases 48 - k,
    {
        k = k + 1;
        term = term.times(arg).over(Fixed::count(k));
        sum = sum.plus(term);
    }
    if negative {
        one().over(sum)
    } else {
        sum
    }
}

/// The natural logarithm.
fn fixed_ln(x: Fixed) -> (r: Fixed)
    ensures
        r == fixed_ln_spec(x),
{
    if x.raw <= 0 {
        return Fixed { raw: i64::MIN };
    }
    let mut lo: i64 = -0x20_0000_0000;
    let mut hi: i64 = 0x20_0000_0000;
    let mut left: usize = 40;
    while left > 0
        invariant
            -0x20_0000_0000 <= lo <= hi <= 0x20_0000_0000,
            left <= 40,
            log_search_spec(x, -log_bound_raw(), log_bound_raw(), halvings()) == log_search_spec(
                x,
                lo as int,
                hi as int,
                left as nat,
            ),
        decreases left,
    {
        let mid = lo + (hi - lo) / 2;
        if fixed_exp(Fixed { raw: mid }).le(x) {
            lo = mid;
        } else {
            hi = mid;
        }
        left = left - 1;
    }
    Fixed { raw: lo }
}

impl Elementary for Fixed {
    /// `x^y` as `exp(y * ln x)` for a positive `x`, and zero else.
    open spec fn powf_spec(self, exponent: Self) -> Self {
        if self.raw <= 0 {
            Fixed { raw: 0 }
        } else {
            fixed_exp_spec(exponent.times_spec(fixed_ln_spec(self)))
        }
    }

    /// The product of `exponent` factors, and one over the product of
    /// `-exponent` factors for a negative exponent.
    open spec fn powi_spec(self, exponent: i32) -> Self {
        if exponent >= 0 {
            power_spec(self, exponent as nat)
        } else {
            one_spec().over_spec(power_spec(self, (-exponent) as nat))
        }
    }

    /// The square root, rounded down to the places of the number; zero for
    /// what is not positive.
    open spec fn sqrt_spec(self) -> Self {
        if self.raw <= 0 {
            Fixed { raw: 0 }
        } else {
            Fixed::of(root_spec(self.raw * one_raw()))
        }
    }

    open spec fn ln_spec(self) -> Self {
        fixed_ln_spec(self)
    }

    open spec fn exp_spec(self) -> Self {
        fixed_exp_spec(self)
    }

    /// The series of the cosine at the rest of `|x|` after the division by
    /// `2 * pi`.
    open spec fn cos_spec(self) -> Self {
        cos_series_spec(
            Fixed::of(magnitude(self.raw as int) % two_pi_raw()),
            series_terms(),
        )
    }

    fn powf(self, exponent: Self) -> (r: Self) {
        if self.raw <= 0 {
            Fixed { raw: 0 }
        } else {
            fixed_exp(exponent.times(fixed_ln(self)))
        }
    }

    fn powi(self, exponent: i32) -> (r: Self) {
        let count: u32 = if exponent >= 0 {
            exponent as u32
        } else {
            (-(exponent as i64)) as u32
        };
        let mut product = one();
        let mut k: u32 = 0;
        while k < count
            invariant
                k <= count,
                product == power_spec(self, k as nat),
            decreases count - k,
        {
            product = product.times(self);
            k = k + 1;
        }
        if exponent >= 0 {
            product
        } else {
            one().over(product)
        }
    }

    fn sqrt(self) -> (r: Self) {
        if self.raw <= 0 {
            return Fixed { raw: 0 };
        }
        let n: u128 = self.raw as u128 * 0x1_0000_0000;
        let mut lo: u128 = 0;
        let mut hi: u128 = 0x1_0000_0000_0000;
        assert(0x1_0000_0000_0000u128 * 0x1_0000_0000_0000u128 > n) by (nonlinear_arith)
            requires
                n < 0x8000_0000_0000_0000 * 0x1_0000_0000,
        ;
        while hi - lo > 1
            invariant
                lo < hi <= 0x1_0000_0000_0000,
                lo * lo <= n < hi * hi,
            decreases hi - lo,
        {
            let mid = lo + (hi - lo) / 2;
            assert(mid * mid <= 0x1_0000_0000_0000 * 0x1_0000_0000_0000) by (nonlinear_arith)
                requires
                    0 <= mid <= 0x1_0000_0000_0000,
            ;
            if mid * mid <= n {
                lo = mid;
            } else {
                hi = mid;
            }
        }
        proof {
            assert(is_root(n as int, lo as int));
            lemma_root_unique(n as int, lo as int, root_spec(n as int));
        }
        Fixed { raw: saturate(lo as i128) }
    }

    fn ln(self) -> (r: Self) {
        fixed_ln(self)
    }

    fn exp(self) -> (r: Self) {
        fixed_exp(self)
    }

    fn cos(self) -> (r: Self) {
        let rest = magnitude_of(self.raw) % 26986075409;
        let arg = Fixed { raw: saturate(rest as i128) };
        let mut term = one();
        let mut sum = one();
        let mut k: usize = 0;
        while k < 48
            invariant
                k <= 48,
                term == cos_term_spec(arg, k as nat),
                sum == cos_series_spec(arg, k as nat),
            decreases 48 - k,
        {
            k = k + 1;
            term = term.times(arg).over(Fixed::count(2 * k - 1)).times(arg).over(
                Fixed::count(2 * k),
            ).neg();
            sum = sum.plus(term);
        }
        sum
    }
}

} // verus!
