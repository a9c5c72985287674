//! Exact rational scalars for screen and world coordinates.
//!
//! Every coordinate, scale factor and pan limit in this crate is a
//! `Rational`: a fraction of two machine integers with a positive
//! denominator.  The mathematical value of a `Rational` is the ghost
//! fraction [`Q`]; all contracts in the crate are stated over `Q` with the
//! cross-multiplication relations [`q_eq`], [`q_le`] and [`q_lt`], so the
//! camera transforms below are exact: no rounding ever happens.  An
//! operation whose exact result has no representation with `i64` numerator
//! and denominator (even in lowest terms) reports that instead of rounding.

use vstd::prelude::*;

verus! {

/// The mathematical value of a [`Rational`]: a fraction `n / d` of
/// unbounded integers.  Meaningful only when `d > 0` ([`q_wf`]).
pub ghost struct Q {
    pub n: int,
    pub d: int,
}

/// A well-formed fraction: positive denominator.
pub open spec fn q_wf(a: Q) -> bool {
    a.d >= 1
}

/// `a` and `b` denote the same rational number.
pub open spec fn q_eq(a: Q, b: Q) -> bool {
    a.n * b.d == b.n * a.d
}

/// `a <= b` as rational numbers (assuming both are well-formed).
pub open spec fn q_le(a: Q, b: Q) -> bool {
    a.n * b.d <= b.n * a.d
}

/// `a < b` as rational numbers (assuming both are well-formed).
pub open spec fn q_lt(a: Q, b: Q) -> bool {
    a.n * b.d < b.n * a.d
}

/// The fraction denoting the integer `i`.
pub open spec fn q_int(i: int) -> Q {
    Q { n: i, d: 1 }
}

pub open spec fn q_zero() -> Q {
    q_int(0)
}

pub open spec fn q_add(a: Q, b: Q) -> Q {
    Q { n: a.n * b.d + b.n * a.d, d: a.d * b.d }
}

pub open spec fn q_sub(a: Q, b: Q) -> Q {
    Q { n: a.n * b.d - b.n * a.d, d: a.d * b.d }
}

pub open spec fn q_neg(a: Q) -> Q {
    Q { n: -a.n, d: a.d }
}

pub open spec fn q_mul(a: Q, b: Q) -> Q {
    Q { n: a.n * b.n, d: a.d * b.d }
}

/// `a / b`, with the sign moved into the numerator so that the
/// denominator stays positive whenever `b.n != 0`.
pub open spec fn q_div(a: Q, b: Q) -> Q {
    if b.n >= 0 {
        Q { n: a.n * b.d, d: a.d * b.n }
    } else {
        Q { n: -(a.n * b.d), d: -(a.d * b.n) }
    }
}

pub open spec fn q_min(a: Q, b: Q) -> Q {
    if q_le(a, b) {
        a
    } else {
        b
    }
}

pub open spec fn q_max(a: Q, b: Q) -> Q {
    if q_le(a, b) {
        b
    } else {
        a
    }
}

/// Clamp `v` into `[lo, hi]`; when `lo > hi` the lower bound wins,
/// as with `max(lo, min(v, hi))`.
pub open spec fn q_clamp(v: Q, lo: Q, hi: Q) -> Q {
    q_max(lo, q_min(v, hi))
}

/// Greatest common divisor by Euclid's rule.
pub open spec fn gcd_nat(a: nat, b: nat) -> nat
    decreases b,
{
    if b == 0 {
        a
    } else {
        gcd_nat(b, a % b)
    }
}

/// The magnitude of an integer.
pub open spec fn abs_nat(n: int) -> nat {
    if n >= 0 {
        n as nat
    } else {
        (-n) as nat
    }
}

/// Whether the fraction `q`, brought to lowest terms, fits the `i64`
/// numerator and denominator of a [`Rational`].
pub open spec fn q_fits(q: Q) -> bool {
    let g = gcd_nat(abs_nat(q.n), abs_nat(q.d));
    abs_nat(q.n) / g <= i64::MAX as nat && abs_nat(q.d) / g <= i64::MAX as nat
}

/// The fraction `q` brought to lowest terms (the representation the
/// arithmetic below stores).  Meaningful when `q_wf(q)`.
pub open spec fn q_norm(q: Q) -> Q {
    let g = gcd_nat(abs_nat(q.n), abs_nat(q.d)) as int;
    Q {
        n: if q.n >= 0 {
            q.n / g
        } else {
            -((-q.n) / g)
        },
        d: q.d / g,
    }
}

/// Lowest terms denote the same value.
pub proof fn lemma_q_norm_eq(q: Q)
    requires
        q_wf(q),
    ensures
        q_wf(q_norm(q)),
        q_eq(q_norm(q), q),
{
    let g = gcd_nat(abs_nat(q.n), abs_nat(q.d)) as int;
    lemma_gcd_divides(abs_nat(q.n), abs_nat(q.d));
    let mag: int = abs_nat(q.n) as int;
    vstd::arithmetic::div_mod::lemma_fundamental_div_mod(mag, g);
    vstd::arithmetic::div_mod::lemma_fundamental_div_mod(q.d, g);
    let rn = mag / g;
    let rd = q.d / g;
    assert(mag == g * rn);
    assert(q.d == g * rd);
    assert(rd >= 1) by (nonlinear_arith)
        requires
            q.d == g * rd,
            q.d >= 1,
            g >= 1,
    ;
    lemma_reduce_cross(g, rn, rd, mag, q.d);
}

/// A common divisor of `b` and of `a % b` also divides `a`.
proof fn lemma_common_divisor_step(a: int, b: int, g: int)
    requires
        a >= 0,
        b >= 1,
        g >= 1,
        b % g == 0,
        (a % b) % g == 0,
    ensures
        a % g == 0,
{
    vstd::arithmetic::div_mod::lemma_fundamental_div_mod(a, b);
    let k = a / b;
    lemma_multiple_mod_zero(b, k, g);
    vstd::arithmetic::div_mod::lemma_add_mod_noop(b * k, a % b, g);
    vstd::arithmetic::div_mod::lemma_small_mod(0, g as nat);
    assert((b * k + a % b) % g == 0);
}

/// A multiple of a multiple of `g` is a multiple of `g`.
proof fn lemma_multiple_mod_zero(b: int, k: int, g: int)
    requires
        g >= 1,
        b % g == 0,
    ensures
        (b * k) % g == 0,
{
    vstd::arithmetic::div_mod::lemma_fundamental_div_mod(b, g);
    assert(b == g * (b / g));
    assert(b * k == ((b / g) * k) * g) by (nonlinear_arith)
        requires
            b == g * (b / g),
    ;
    vstd::arithmetic::div_mod::lemma_mod_multiples_basic((b / g) * k, g);
}

/// The gcd of two naturals, not both zero, is positive and divides both.
pub proof fn lemma_gcd_divides(a: nat, b: nat)
    requires
        a > 0 || b > 0,
    ensures
        gcd_nat(a, b) >= 1,
        a % gcd_nat(a, b) == 0,
        b % gcd_nat(a, b) == 0,
    decreases b,
{
    if b == 0 {
        vstd::arithmetic::div_mod::lemma_mod_self_0(a as int);
        vstd::arithmetic::div_mod::lemma_small_mod(0, a);
    } else {
        lemma_gcd_divides(b, a % b);
        lemma_common_divisor_step(a as int, b as int, gcd_nat(b, a % b) as int);
    }
}

/// The product of two `i64` values always fits an `i128`.
pub proof fn lemma_i64_prod_fits(a: int, b: int)
    by (nonlinear_arith)
    requires
        i64::MIN <= a <= i64::MAX,
        i64::MIN <= b <= i64::MAX,
    ensures
        i128::MIN <= a * b <= i128::MAX,
{
}

/// `q_eq` is transitive over well-formed fractions.
pub proof fn lemma_q_eq_trans(a: Q, b: Q, c: Q)
    by (nonlinear_arith)
    requires
        q_wf(a),
        q_wf(b),
        q_wf(c),
        q_eq(a, b),
        q_eq(b, c),
    ensures
        q_eq(a, c),
{
}

/// `q_le` and `q_lt` respect `q_eq`.
pub proof fn lemma_q_le_congr(a: Q, b: Q, a2: Q, b2: Q)
    by (nonlinear_arith)
    requires
        q_wf(a),
        q_wf(b),
        q_wf(a2),
        q_wf(b2),
        q_eq(a, a2),
        q_eq(b, b2),
    ensures
        q_le(a, b) == q_le(a2, b2),
        q_lt(a, b) == q_lt(a2, b2),
{
}


/// Transitivity of `q_le`, strict when either side is strict.
pub proof fn lemma_q_le_lt_trans(a: Q, b: Q, c: Q)
    by (nonlinear_arith)
    requires
        q_wf(a),
        q_wf(b),
        q_wf(c),
        q_le(a, b),
        q_le(b, c),
    ensures
        q_le(a, c),
        q_lt(a, b) || q_lt(b, c) ==> q_lt(a, c),
{
}

/// Multiplication by a positive value keeps the order.
pub proof fn lemma_q_mul_le_mono(a: Q, b: Q, c: Q)
    by (nonlinear_arith)
    requires
        q_wf(a),
        q_wf(b),
        q_wf(c),
        q_lt(q_zero(), c),
        q_le(a, b),
    ensures
        q_le(q_mul(a, c), q_mul(b, c)),
{
}

/// Addition and subtraction respect `q_eq`.
pub proof fn lemma_q_add_sub_congr(a: Q, b: Q, a2: Q, b2: Q)
    requires
        q_wf(a),
        q_wf(b),
        q_wf(a2),
        q_wf(b2),
        q_eq(a, a2),
        q_eq(b, b2),
    ensures
        q_eq(q_add(a, b), q_add(a2, b2)),
        q_eq(q_sub(a, b), q_sub(a2, b2)),
{
    assert(a.n * b.d * (a2.d * b2.d) == a2.n * b2.d * (a.d * b.d)) by (nonlinear_arith)
        requires
            a.n * a2.d == a2.n * a.d,
    ;
    assert(b.n * a.d * (a2.d * b2.d) == b2.n * a2.d * (a.d * b.d)) by (nonlinear_arith)
        requires
            b.n * b2.d == b2.n * b.d,
    ;
    assert(q_eq(q_add(a, b), q_add(a2, b2)) && q_eq(q_sub(a, b), q_sub(a2, b2)))
        by (nonlinear_arith)
        requires
            a.n * b.d * (a2.d * b2.d) == a2.n * b2.d * (a.d * b.d),
            b.n * a.d * (a2.d * b2.d) == b2.n * a2.d * (a.d * b.d),
    ;
}

/// Multiplication respects `q_eq`.
pub proof fn lemma_q_mul_congr(a: Q, b: Q, a2: Q, b2: Q)
    by (nonlinear_arith)
    requires
        q_wf(a),
        q_wf(b),
        q_wf(a2),
        q_wf(b2),
        q_eq(a, a2),
        q_eq(b, b2),
    ensures
        q_eq(q_mul(a, b), q_mul(a2, b2)),
{
}


/// Adding and then subtracting the same value is the identity; so is
/// subtracting and then adding.
pub proof fn lemma_q_add_sub_cancel(x: Q, y: Q)
    by (nonlinear_arith)
    requires
        q_wf(x),
        q_wf(y),
    ensures
        q_eq(q_sub(q_add(x, y), y), x),
        q_eq(q_add(q_sub(x, y), y), x),
{
}

/// Subtracting from `x` what remains of `x` after removing `y` leaves
/// `y`.
pub proof fn lemma_q_sub_sub_cancel(x: Q, y: Q)
    by (nonlinear_arith)
    requires
        q_wf(x),
        q_wf(y),
    ensures
        q_eq(q_sub(x, q_sub(x, y)), y),
{
}

/// A common nonzero factor on the right cancels.
pub proof fn lemma_q_mul_cancel_right(a: Q, b: Q, c: Q)
    by (nonlinear_arith)
    requires
        q_wf(a),
        q_wf(b),
        q_wf(c),
        c.n != 0,
        q_eq(q_mul(a, c), q_mul(b, c)),
    ensures
        q_eq(a, b),
{
}

/// Division by a fixed nonzero value respects `q_eq`.
pub proof fn lemma_q_div_congr(a: Q, a2: Q, s: Q)
    requires
        q_wf(a),
        q_wf(a2),
        q_wf(s),
        s.n != 0,
        q_eq(a, a2),
    ensures
        q_eq(q_div(a, s), q_div(a2, s)),
{
    if s.n >= 0 {
        assert((a.n * s.d) * (a2.d * s.n) == (a2.n * s.d) * (a.d * s.n)) by (nonlinear_arith)
            requires
                a.n * a2.d == a2.n * a.d,
        ;
    } else {
        assert((-(a.n * s.d)) * (-(a2.d * s.n)) == (-(a2.n * s.d)) * (-(a.d * s.n)))
            by (nonlinear_arith)
            requires
                a.n * a2.d == a2.n * a.d,
        ;
    }
}

/// Dividing by a nonzero value and multiplying back is the identity,
/// and so is the converse; division is thus characterised by
/// multiplication.
pub proof fn lemma_q_div_mul_cancel(x: Q, s: Q)
    requires
        q_wf(x),
        q_wf(s),
        s.n != 0,
    ensures
        q_wf(q_div(x, s)),
        q_eq(q_mul(q_div(x, s), s), x),
        q_eq(q_div(q_mul(x, s), s), x),
{
    if s.n >= 0 {
        assert(q_eq(q_mul(q_div(x, s), s), x) && q_eq(q_div(q_mul(x, s), s), x))
            by (nonlinear_arith)
            requires
                q_wf(x),
                q_wf(s),
                s.n > 0,
                q_div(x, s) == (Q { n: x.n * s.d, d: x.d * s.n }),
                q_div(q_mul(x, s), s) == (Q {
                    n: (x.n * s.n) * s.d,
                    d: (x.d * s.d) * s.n,
                }),
        ;
        assert(x.d * s.n >= 1) by (nonlinear_arith)
            requires
                x.d >= 1,
                s.n >= 1,
        ;
    } else {
        assert(q_eq(q_mul(q_div(x, s), s), x) && q_eq(q_div(q_mul(x, s), s), x))
            by (nonlinear_arith)
            requires
                q_wf(x),
                q_wf(s),
                s.n < 0,
                q_div(x, s) == (Q { n: -(x.n * s.d), d: -(x.d * s.n) }),
                q_div(q_mul(x, s), s) == (Q {
                    n: -((x.n * s.n) * s.d),
                    d: -((x.d * s.d) * s.n),
                }),
        ;
        assert(-(x.d * s.n) >= 1) by (nonlinear_arith)
            requires
                x.d >= 1,
                s.n <= -1,
        ;
    }
}

/// Sums, differences, products and quotients of well-formed fractions
/// are well-formed.
pub proof fn lemma_q_ops_wf(a: Q, b: Q)
    by (nonlinear_arith)
    requires
        q_wf(a),
        q_wf(b),
    ensures
        q_wf(q_add(a, b)),
        q_wf(q_sub(a, b)),
        q_wf(q_mul(a, b)),
        b.n != 0 ==> q_wf(q_div(a, b)),
{
}

/// Products and quotients of positive values are positive.
pub proof fn lemma_q_pos_mul_div(a: Q, b: Q)
    by (nonlinear_arith)
    requires
        q_wf(a),
        q_wf(b),
        q_lt(q_zero(), a),
        q_lt(q_zero(), b),
    ensures
        q_lt(q_zero(), q_mul(a, b)),
        q_lt(q_zero(), q_div(a, b)),
        q_wf(q_mul(a, b)),
        q_wf(q_div(a, b)),
{
}

/// The product of two values of `i64` magnitude is bounded by
/// `(2^63 - 1)^2`.
proof fn lemma_i64_prod_tight(a: int, b: int)
    by (nonlinear_arith)
    requires
        -0x7fff_ffff_ffff_ffff <= a <= 0x7fff_ffff_ffff_ffff,
        -0x7fff_ffff_ffff_ffff <= b <= 0x7fff_ffff_ffff_ffff,
    ensures
        -0x3fff_ffff_ffff_ffff_0000_0000_0000_0001 <= a * b
            <= 0x3fff_ffff_ffff_ffff_0000_0000_0000_0001,
{
}

/// A fraction reduced by a common divisor denotes the same value,
/// whichever sign the numerator carries.
proof fn lemma_reduce_cross(g: int, rn: int, rd: int, mag: int, d: int)
    by (nonlinear_arith)
    requires
        mag == g * rn,
        d == g * rd,
    ensures
        rn * d == mag * rd,
        (-rn) * d == (-mag) * rd,
{
}

/// Euclid's algorithm.
fn gcd_u128(a0: u128, b0: u128) -> (g: u128)
    ensures
        g as nat == gcd_nat(a0 as nat, b0 as nat),
{
    let mut a: u128 = a0;
    let mut b: u128 = b0;
    while b != 0
        invariant
            gcd_nat(a as nat, b as nat) == gcd_nat(a0 as nat, b0 as nat),
        decreases b,
    {
        let t: u128 = a % b;
        a = b;
        b = t;
    }
    a
}

/// An exact rational scalar: `num / den` with `den >= 1`.
///
/// `i64::MIN` is excluded from the numerator so that negation never
/// overflows.  Results of arithmetic are reduced to lowest terms; an
/// operation returns `None` when even the reduced exact result does not
/// fit this representation.
#[derive(Clone, Copy, Debug, PartialEq, Eq, Structural)]
pub struct Rational {
    num: i64,
    den: i64,
}

impl View for Rational {
    type V = Q;

    closed spec fn view(&self) -> Q {
        Q { n: self.num as int, d: self.den as int }
    }
}

impl Rational {
    /// Well-formedness: positive denominator, and a numerator whose
    /// negation still fits (`i64::MIN` is excluded).
    pub open spec fn wf(self) -> bool {
        q_wf(self@) && self@.n > i64::MIN
    }

    /// The fraction denoting the integer `i`.
    pub fn from_int(i: i64) -> (r: Rational)
        requires
            i > i64::MIN,
        ensures
            r.wf(),
            r@ == q_int(i as int),
    {
        Rational { num: i, den: 1 }
    }

    /// The fraction `num / den` for a known-positive denominator, stored
    /// as given (not reduced).
    pub fn from_ratio(num: i64, den: i64) -> (r: Rational)
        requires
            num > i64::MIN,
            den >= 1,
        ensures
            r.wf(),
            r@ == (Q { n: num as int, d: den as int }),
    {
        Rational { num, den }
    }

    /// The fraction `num / den`, reduced to lowest terms; `None` when
    /// `den` is zero or the reduced fraction has no `i64` representation.
    pub fn new(num: i64, den: i64) -> (r: Option<Rational>)
        ensures
            den == 0 ==> r is None,
            den != 0 ==> {
                let q = if den > 0 {
                    Q { n: num as int, d: den as int }
                } else {
                    Q { n: -(num as int), d: -(den as int) }
                };
                match r {
                    Some(v) => v.wf() && q_eq(v@, q) && q_fits(q),
                    None => !q_fits(q),
                }
            },
    {
        if den == 0 {
            None
        } else if den > 0 {
            Self::make(num as i128, den as i128)
        } else {
            Self::make(-(num as i128), -(den as i128))
        }
    }

    pub fn zero() -> (r: Rational)
        ensures
            r.wf(),
            r@ == q_zero(),
    {
        Rational { num: 0, den: 1 }
    }

    pub fn one() -> (r: Rational)
        ensures
            r.wf(),
            r@ == q_int(1),
    {
        Rational { num: 1, den: 1 }
    }

    /// The numerator of the stored (lowest-terms) representation.
    pub fn numerator(&self) -> (r: i64)
        ensures
            r as int == self@.n,
    {
        self.num
    }

    /// The denominator of the stored (lowest-terms) representation.
    pub fn denominator(&self) -> (r: i64)
        ensures
            r as int == self@.d,
    {
        self.den
    }

    /// Exact comparison `self <= other`.
    pub fn le(&self, other: &Rational) -> (r: bool)
        requires
            self.wf(),
            other.wf(),
        ensures
            r == q_le(self@, other@),
    {
        proof {
            lemma_i64_prod_fits(self.num as int, other.den as int);
            lemma_i64_prod_fits(other.num as int, self.den as int);
        }
        (self.num as i128) * (other.den as i128) <= (other.num as i128) * (self.den as i128)
    }

    /// Exact comparison `self < other`.
    pub fn lt(&self, other: &Rational) -> (r: bool)
        requires
            self.wf(),
            other.wf(),
        ensures
            r == q_lt(self@, other@),
    {
        proof {
            lemma_i64_prod_fits(self.num as int, other.den as int);
            lemma_i64_prod_fits(other.num as int, self.den as int);
        }
        (self.num as i128) * (other.den as i128) < (other.num as i128) * (self.den as i128)
    }

    /// Exact value equality (not representation equality).
    pub fn eq_value(&self, other: &Rational) -> (r: bool)
        requires
            self.wf(),
            other.wf(),
        ensures
            r == q_eq(self@, other@),
    {
        proof {
            lemma_i64_prod_fits(self.num as int, other.den as int);
            lemma_i64_prod_fits(other.num as int, self.den as int);
        }
        (self.num as i128) * (other.den as i128) == (other.num as i128) * (self.den as i128)
    }

    /// Whether this rational is strictly positive.
    pub fn is_positive(&self) -> (r: bool)
        requires
            self.wf(),
        ensures
            r == q_lt(q_zero(), self@),
    {
        self.num > 0
    }

    /// Exact negation; total because `i64::MIN` is excluded by `wf`.
    pub fn neg(&self) -> (r: Rational)
        requires
            self.wf(),
        ensures
            r.wf(),
            r@ == q_neg(self@),
    {
        Rational { num: -self.num, den: self.den }
    }

    /// The smaller of the two values; returns one of its arguments.
    pub fn min(&self, other: &Rational) -> (r: Rational)
        requires
            self.wf(),
            other.wf(),
        ensures
            r.wf(),
            r@ == q_min(self@, other@),
            r == *self || r == *other,
    {
        if self.le(other) {
            *self
        } else {
            *other
        }
    }

    /// The larger of the two values; returns one of its arguments.
    pub fn max(&self, other: &Rational) -> (r: Rational)
        requires
            self.wf(),
            other.wf(),
        ensures
            r.wf(),
            r@ == q_max(self@, other@),
            r == *self || r == *other,
    {
        if self.le(other) {
            *other
        } else {
            *self
        }
    }

    /// Reduce the exact fraction `num / den` to lowest terms and store it,
    /// or report that it has no `i64` representation.
    fn make(num: i128, den: i128) -> (r: Option<Rational>)
        requires
            1 <= den,
            -i128::MAX <= num,
        ensures
            match r {
                Some(v) => v.wf() && v@ == q_norm(Q { n: num as int, d: den as int }) && q_eq(
                    v@,
                    Q { n: num as int, d: den as int },
                ) && q_fits(Q { n: num as int, d: den as int }),
                None => !q_fits(Q { n: num as int, d: den as int }),
            },
    {
        let neg: bool = num < 0;
        let mag: u128 = if neg {
            (-num) as u128
        } else {
            num as u128
        };
        let d: u128 = den as u128;
        assert(mag as nat == abs_nat(num as int));
        assert(d as nat == abs_nat(den as int));
        let g: u128 = gcd_u128(mag, d);
        proof {
            lemma_gcd_divides(mag as nat, d as nat);
        }
        let rn: u128 = mag / g;
        let rd: u128 = d / g;
        if rn <= i64::MAX as u128 && rd <= i64::MAX as u128 {
            proof {
                vstd::arithmetic::div_mod::lemma_fundamental_div_mod(mag as int, g as int);
                vstd::arithmetic::div_mod::lemma_fundamental_div_mod(d as int, g as int);
                assert(mag as int == g as int * rn as int);
                assert(d as int == g as int * rd as int);
                assert(rd >= 1) by (nonlinear_arith)
                    requires
                        d as int == g as int * rd as int,
                        d >= 1,
                        g >= 1,
                ;
                lemma_reduce_cross(g as int, rn as int, rd as int, mag as int, d as int);
            }
            let n64: i64 = if neg {
                -(rn as i64)
            } else {
                rn as i64
            };
            Some(Rational { num: n64, den: rd as i64 })
        } else {
            None
        }
    }

    /// Exact addition, reduced to lowest terms; `None` exactly when the
    /// exact sum has no `i64` representation.
    pub fn add(&self, other: &Rational) -> (r: Option<Rational>)
        requires
            self.wf(),
            other.wf(),
        ensures
            match r {
                Some(v) => v.wf() && v@ == q_norm(q_add(self@, other@)) && q_eq(
                    v@,
                    q_add(self@, other@),
                ) && q_fits(q_add(self@, other@)),
                None => !q_fits(q_add(self@, other@)),
            },
    {
        proof {
            lemma_i64_prod_tight(self.num as int, other.den as int);
            lemma_i64_prod_tight(other.num as int, self.den as int);
            lemma_i64_prod_tight(self.den as int, other.den as int);
            assert(self.den as int * other.den as int >= 1) by (nonlinear_arith)
                requires
                    self.den >= 1,
                    other.den >= 1,
            ;
        }
        let n: i128 = (self.num as i128) * (other.den as i128) + (other.num as i128) * (self.den
            as i128);
        let d: i128 = (self.den as i128) * (other.den as i128);
        Self::make(n, d)
    }

    /// Exact subtraction, reduced to lowest terms; `None` exactly when the
    /// exact difference has no `i64` representation.
    pub fn sub(&self, other: &Rational) -> (r: Option<Rational>)
        requires
            self.wf(),
            other.wf(),
        ensures
            match r {
                Some(v) => v.wf() && v@ == q_norm(q_sub(self@, other@)) && q_eq(
                    v@,
                    q_sub(self@, other@),
                ) && q_fits(q_sub(self@, other@)),
                None => !q_fits(q_sub(self@, other@)),
            },
    {
        proof {
            lemma_i64_prod_tight(self.num as int, other.den as int);
            lemma_i64_prod_tight(other.num as int, self.den as int);
            lemma_i64_prod_tight(self.den as int, other.den as int);
            assert(self.den as int * other.den as int >= 1) by (nonlinear_arith)
                requires
                    self.den >= 1,
                    other.den >= 1,
            ;
        }
        let n: i128 = (self.num as i128) * (other.den as i128) - (other.num as i128) * (self.den
            as i128);
        let d: i128 = (self.den as i128) * (other.den as i128);
        Self::make(n, d)
    }

    /// Exact multiplication, reduced to lowest terms; `None` exactly when
    /// the exact product has no `i64` representation.
    pub fn mul(&self, other: &Rational) -> (r: Option<Rational>)
        requires
            self.wf(),
            other.wf(),
        ensures
            match r {
                Some(v) => v.wf() && v@ == q_norm(q_mul(self@, other@)) && q_eq(
                    v@,
                    q_mul(self@, other@),
                ) && q_fits(q_mul(self@, other@)),
                None => !q_fits(q_mul(self@, other@)),
            },
    {
        proof {
            lemma_i64_prod_tight(self.num as int, other.num as int);
            lemma_i64_prod_tight(self.den as int, other.den as int);
            assert(self.den as int * other.den as int >= 1) by (nonlinear_arith)
                requires
                    self.den >= 1,
                    other.den >= 1,
            ;
        }
        let n: i128 = (self.num as i128) * (other.num as i128);
        let d: i128 = (self.den as i128) * (other.den as i128);
        Self::make(n, d)
    }

    /// Whether this rational denotes zero.
    pub fn is_zero(&self) -> (r: bool)
        ensures
            r == q_eq(self@, q_zero()),
    {
        self.num == 0
    }

    /// Exact division by a nonzero value, reduced to lowest terms; `None`
    /// exactly when the exact quotient has no `i64` representation.
    pub fn div(&self, other: &Rational) -> (r: Option<Rational>)
        requires
            self.wf(),
            other.wf(),
            !q_eq(other@, q_zero()),
        ensures
            match r {
                Some(v) => v.wf() && v@ == q_norm(q_div(self@, other@)) && q_eq(
                    v@,
                    q_div(self@, other@),
                ) && q_fits(q_div(self@, other@)),
                None => !q_fits(q_div(self@, other@)),
            },
    {
        proof {
            lemma_i64_prod_tight(self.num as int, other.den as int);
            lemma_i64_prod_tight(self.den as int, other.num as int);
        }
        let n: i128 = (self.num as i128) * (other.den as i128);
        let d: i128 = (self.den as i128) * (other.num as i128);
        if other.num >= 0 {
            proof {
                assert(d >= 1) by (nonlinear_arith)
                    requires
                        d == self.den as int * other.num as int,
                        self.den >= 1,
                        other.num >= 1,
                ;
            }
            Self::make(n, d)
        } else {
            proof {
                assert(-d >= 1) by (nonlinear_arith)
                    requires
                        d == self.den as int * other.num as int,
                        self.den >= 1,
                        other.num <= -1,
                ;
            }
            Self::make(-n, -d)
        }
    }

    /// Clamp into `[lo, hi]`; the lower bound wins if `lo > hi`.
    pub fn clamp(&self, lo: &Rational, hi: &Rational) -> (r: Rational)
        requires
            self.wf(),
            lo.wf(),
            hi.wf(),
        ensures
            r.wf(),
            r@ == q_clamp(self@, lo@, hi@),
            r == *self || r == *lo || r == *hi,
    {
        lo.max(&self.min(hi))
    }
}

} // verus!
