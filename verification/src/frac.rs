//! Exact rational arithmetic.
//!
//! The view transform must be provably invertible, so the core works with
//! exact rationals instead of machine reals: `Qr` is the specification-level
//! rational (integer numerator and denominator, compared by cross
//! multiplication), and `Frac` is its executable carrier with checked,
//! overflow-aware operations.

use vstd::prelude::*;

verus! {

/// A rational number at the specification level. Values are compared by
/// cross multiplication (`q_eq`), so a `Qr` need not be in lowest terms.
pub struct Qr {
    pub n: int,
    pub d: int,
}

pub open spec fn q_wf(q: Qr) -> bool {
    q.d != 0
}

/// `a` and `b` denote the same rational value.
pub open spec fn q_eq(a: Qr, b: Qr) -> bool {
    a.n * b.d == b.n * a.d
}

pub open spec fn q_add(a: Qr, b: Qr) -> Qr {
    Qr { n: a.n * b.d + b.n * a.d, d: a.d * b.d }
}

pub open spec fn q_sub(a: Qr, b: Qr) -> Qr {
    Qr { n: a.n * b.d - b.n * a.d, d: a.d * b.d }
}

pub open spec fn q_mul(a: Qr, b: Qr) -> Qr {
    Qr { n: a.n * b.n, d: a.d * b.d }
}

pub open spec fn q_div(a: Qr, b: Qr) -> Qr {
    Qr { n: a.n * b.d, d: a.d * b.n }
}

pub open spec fn q_int(i: int) -> Qr {
    Qr { n: i, d: 1 }
}

pub open spec fn q_half() -> Qr {
    Qr { n: 1, d: 2 }
}

/// The rational is strictly positive (sign read off by cross multiplication,
/// valid for either sign of the denominator).
pub open spec fn q_pos(q: Qr) -> bool {
    q.n * q.d > 0
}

/// Flip the representation so that the denominator is positive.
pub open spec fn q_norm(q: Qr) -> Qr {
    if q.d < 0 {
        Qr { n: -q.n, d: -q.d }
    } else {
        q
    }
}

/// Both components of the representation fit an `i64` with a positive
/// denominator, so the value is representable as a `Frac`.
pub open spec fn q_fits(q: Qr) -> bool {
    -0x8000000000000000 <= q.n <= 0x7fffffffffffffff && 1 <= q.d <= 0x7fffffffffffffff
}

pub proof fn lemma_q_eq_refl(a: Qr)
    ensures
        q_eq(a, a),
{
}

pub proof fn lemma_q_eq_symm(a: Qr, b: Qr)
    requires
        q_eq(a, b),
    ensures
        q_eq(b, a),
{
}

pub proof fn lemma_q_eq_trans(a: Qr, b: Qr, c: Qr)
    requires
        q_wf(b),
        q_eq(a, b),
        q_eq(b, c),
    ensures
        q_eq(a, c),
{
    assert(a.n * c.d == c.n * a.d) by (nonlinear_arith)
        requires
            b.d != 0,
            a.n * b.d == b.n * a.d,
            b.n * c.d == c.n * b.d,
    ;
}

pub proof fn lemma_q_add_wf(a: Qr, b: Qr)
    requires
        q_wf(a),
        q_wf(b),
    ensures
        q_wf(q_add(a, b)),
        q_wf(q_sub(a, b)),
        q_wf(q_mul(a, b)),
{
    assert(a.d * b.d != 0) by (nonlinear_arith)
        requires
            a.d != 0,
            b.d != 0,
    ;
}

pub proof fn lemma_q_div_wf(a: Qr, b: Qr)
    requires
        q_wf(a),
        b.n != 0,
    ensures
        q_wf(q_div(a, b)),
{
    assert(a.d * b.n != 0) by (nonlinear_arith)
        requires
            a.d != 0,
            b.n != 0,
    ;
}

/// Congruence: replacing both operands of an addition by equal rationals
/// yields an equal rational.
#[verifier::rlimit(100)]
pub proof fn lemma_q_add_congr(a: Qr, a2: Qr, b: Qr, b2: Qr)
    requires
        q_eq(a, a2),
        q_eq(b, b2),
    ensures
        q_eq(q_add(a, b), q_add(a2, b2)),
{
    let l = q_add(a, b);
    let r = q_add(a2, b2);
    assert((a.n * b.d) * (a2.d * b2.d) == (a2.n * b2.d) * (a.d * b.d)) by (nonlinear_arith)
        requires
            a.n * a2.d == a2.n * a.d,
    ;
    assert((b.n * a.d) * (a2.d * b2.d) == (b2.n * a2.d) * (a.d * b.d)) by (nonlinear_arith)
        requires
            b.n * b2.d == b2.n * b.d,
    ;
    assert(l.n * r.d == r.n * l.d) by (nonlinear_arith)
        requires
            l.n == a.n * b.d + b.n * a.d,
            l.d == a.d * b.d,
            r.n == a2.n * b2.d + b2.n * a2.d,
            r.d == a2.d * b2.d,
            (a.n * b.d) * (a2.d * b2.d) == (a2.n * b2.d) * (a.d * b.d),
            (b.n * a.d) * (a2.d * b2.d) == (b2.n * a2.d) * (a.d * b.d),
    ;
}

/// Congruence for subtraction.
#[verifier::rlimit(100)]
pub proof fn lemma_q_sub_congr(a: Qr, a2: Qr, b: Qr, b2: Qr)
    requires
        q_eq(a, a2),
        q_eq(b, b2),
    ensures
        q_eq(q_sub(a, b), q_sub(a2, b2)),
{
    let l = q_sub(a, b);
    let r = q_sub(a2, b2);
    assert((a.n * b.d) * (a2.d * b2.d) == (a2.n * b2.d) * (a.d * b.d)) by (nonlinear_arith)
        requires
            a.n * a2.d == a2.n * a.d,
    ;
    assert((b.n * a.d) * (a2.d * b2.d) == (b2.n * a2.d) * (a.d * b.d)) by (nonlinear_arith)
        requires
            b.n * b2.d == b2.n * b.d,
    ;
    assert(l.n * r.d == r.n * l.d) by (nonlinear_arith)
        requires
            l.n == a.n * b.d - b.n * a.d,
            l.d == a.d * b.d,
            r.n == a2.n * b2.d - b2.n * a2.d,
            r.d == a2.d * b2.d,
            (a.n * b.d) * (a2.d * b2.d) == (a2.n * b2.d) * (a.d * b.d),
            (b.n * a.d) * (a2.d * b2.d) == (b2.n * a2.d) * (a.d * b.d),
    ;
}

/// Congruence for multiplication.
pub proof fn lemma_q_mul_congr(a: Qr, a2: Qr, b: Qr, b2: Qr)
    requires
        q_eq(a, a2),
        q_eq(b, b2),
    ensures
        q_eq(q_mul(a, b), q_mul(a2, b2)),
{
    let l = q_mul(a, b);
    let r = q_mul(a2, b2);
    assert(l.n * r.d == r.n * l.d) by (nonlinear_arith)
        requires
            a.n * a2.d == a2.n * a.d,
            b.n * b2.d == b2.n * b.d,
            l.n == a.n * b.n,
            l.d == a.d * b.d,
            r.n == a2.n * b2.n,
            r.d == a2.d * b2.d,
    ;
}

/// Congruence for division.
pub proof fn lemma_q_div_congr(a: Qr, a2: Qr, b: Qr, b2: Qr)
    requires
        q_eq(a, a2),
        q_eq(b, b2),
    ensures
        q_eq(q_div(a, b), q_div(a2, b2)),
{
    let l = q_div(a, b);
    let r = q_div(a2, b2);
    assert(l.n * r.d == r.n * l.d) by (nonlinear_arith)
        requires
            a.n * a2.d == a2.n * a.d,
            b.n * b2.d == b2.n * b.d,
            l.n == a.n * b.d,
            l.d == a.d * b.n,
            r.n == a2.n * b2.d,
            r.d == a2.d * b2.n,
    ;
}

/// `(x + y) - y == x`.
pub proof fn lemma_q_sub_add_cancel(x: Qr, y: Qr)
    ensures
        q_eq(q_sub(q_add(x, y), y), x),
{
    let l = q_sub(q_add(x, y), y);
    assert(l.n * x.d == x.n * l.d) by (nonlinear_arith)
        requires
            l.n == (x.n * y.d + y.n * x.d) * y.d - y.n * (x.d * y.d),
            l.d == (x.d * y.d) * y.d,
    ;
}

/// `(x - y) + y == x`.
pub proof fn lemma_q_add_sub_cancel(x: Qr, y: Qr)
    ensures
        q_eq(q_add(q_sub(x, y), y), x),
{
    let l = q_add(q_sub(x, y), y);
    assert(l.n * x.d == x.n * l.d) by (nonlinear_arith)
        requires
            l.n == (x.n * y.d - y.n * x.d) * y.d + y.n * (x.d * y.d),
            l.d == (x.d * y.d) * y.d,
    ;
}

/// `(x / y) * y == x` for `y != 0`.
pub proof fn lemma_q_div_mul_cancel(x: Qr, y: Qr)
    requires
        y.n != 0,
    ensures
        q_eq(q_mul(q_div(x, y), y), x),
{
    let l = q_mul(q_div(x, y), y);
    assert(l.n * x.d == x.n * l.d) by (nonlinear_arith)
        requires
            l.n == (x.n * y.d) * y.n,
            l.d == (x.d * y.n) * y.d,
    ;
}

/// `(x * y) / y == x` for `y != 0`.
pub proof fn lemma_q_mul_div_cancel(x: Qr, y: Qr)
    requires
        y.n != 0,
    ensures
        q_eq(q_div(q_mul(x, y), y), x),
{
    let l = q_div(q_mul(x, y), y);
    assert(l.n * x.d == x.n * l.d) by (nonlinear_arith)
        requires
            l.n == (x.n * y.n) * y.d,
            l.d == (x.d * y.d) * y.n,
    ;
}

/// `x + x * (d - 1) == x * d`: growing a value by the surplus of a factor
/// is the same as scaling by the factor.
pub proof fn lemma_q_scale_split(x: Qr, d: Qr)
    ensures
        q_eq(q_add(x, q_mul(x, q_sub(d, q_int(1)))), q_mul(x, d)),
{
    let s = q_sub(d, q_int(1));
    let m = q_mul(x, s);
    let l = q_add(x, m);
    let r = q_mul(x, d);
    assert(l.n * r.d == r.n * l.d) by (nonlinear_arith)
        requires
            s.n == d.n * 1 - 1 * d.d,
            s.d == d.d * 1,
            m.n == x.n * s.n,
            m.d == x.d * s.d,
            l.n == x.n * m.d + m.n * x.d,
            l.d == x.d * m.d,
            r.n == x.n * d.n,
            r.d == x.d * d.d,
    ;
}

/// `(x * s) / (z * s) == x / z`: a common factor cancels out of a quotient.
pub proof fn lemma_q_common_factor(x: Qr, z: Qr, s: Qr)
    ensures
        q_eq(q_div(q_mul(x, s), q_mul(z, s)), q_div(x, z)),
{
    let l = q_div(q_mul(x, s), q_mul(z, s));
    let r = q_div(x, z);
    assert(l.n * r.d == r.n * l.d) by (nonlinear_arith)
        requires
            l.n == (x.n * s.n) * (z.d * s.d),
            l.d == (x.d * s.d) * (z.n * s.n),
            r.n == x.n * z.d,
            r.d == x.d * z.n,
    ;
}

/// Normalizing the representation does not change the value.
pub proof fn lemma_q_norm_eq(q: Qr)
    ensures
        q_eq(q_norm(q), q),
        q_wf(q) ==> q_wf(q_norm(q)) && q_norm(q).d > 0,
{
    if q.d < 0 {
        assert((-q.n) * q.d == q.n * (-q.d)) by (nonlinear_arith);
    }
}

/// Bound on a product of two `i64`-sized factors, used to justify the
/// `i128` intermediate arithmetic of the checked operations.
proof fn lemma_i64_prod_bound(a: int, b: int) by (nonlinear_arith)
    requires
        -0x8000000000000000 <= a <= 0x7fffffffffffffff,
        -0x8000000000000000 <= b <= 0x7fffffffffffffff,
    ensures
        -0x40000000000000000000000000000000 <= a * b
            <= 0x40000000000000000000000000000000,
{
}

/// Bound on the product of an `i64` with a positive `i64`; tight enough
/// that the sum of two such products still fits an `i128`.
proof fn lemma_i64_by_pos_bound(a: int, b: int) by (nonlinear_arith)
    requires
        -0x8000000000000000 <= a <= 0x7fffffffffffffff,
        1 <= b <= 0x7fffffffffffffff,
    ensures
        -0x3fffffffffffffff8000000000000000 <= a * b
            <= 0x3fffffffffffffff8000000000000000,
{
}

/// The product of two positive `i64` denominators is positive.
proof fn lemma_pos_prod(a: int, b: int) by (nonlinear_arith)
    requires
        1 <= a <= 0x7fffffffffffffff,
        1 <= b <= 0x7fffffffffffffff,
    ensures
        1 <= a * b <= 0x3fffffffffffffff8000000000000000,
{
}

/// Executable rational: an `i64` numerator over a positive `i64`
/// denominator. Arithmetic is checked; an operation yields `None` when the
/// exact result does not fit the representation.
#[derive(Clone, Copy, Debug)]
pub struct Frac {
    pub num: i64,
    pub den: i64,
}

impl View for Frac {
    type V = Qr;

    open spec fn view(&self) -> Qr {
        Qr { n: self.num as int, d: self.den as int }
    }
}

impl Frac {
    pub open spec fn wf(self) -> bool {
        self.den > 0
    }

    /// Build a rational from a numerator and a positive denominator.
    pub fn new(num: i64, den: i64) -> (r: Frac)
        requires
            den > 0,
        ensures
            r.wf(),
            r@ == (Qr { n: num as int, d: den as int }),
    {
        Frac { num, den }
    }

    /// The integer `i` as a rational.
    pub fn from_int(i: i64) -> (r: Frac)
        ensures
            r.wf(),
            r@ == q_int(i as int),
    {
        Frac { num: i, den: 1 }
    }

    pub fn zero() -> (r: Frac)
        ensures
            r.wf(),
            r@ == q_int(0),
    {
        Frac { num: 0, den: 1 }
    }

    pub fn one() -> (r: Frac)
        ensures
            r.wf(),
            r@ == q_int(1),
    {
        Frac { num: 1, den: 1 }
    }

    pub fn half() -> (r: Frac)
        ensures
            r.wf(),
            r@ == q_half(),
    {
        Frac { num: 1, den: 2 }
    }

    /// Exact value equality, decided by cross multiplication.
    pub fn eqv(&self, other: &Frac) -> (r: bool)
        ensures
            r == q_eq(self@, other@),
    {
        proof {
            lemma_i64_prod_bound(self.num as int, other.den as int);
            lemma_i64_prod_bound(other.num as int, self.den as int);
        }
        self.num as i128 * other.den as i128 == other.num as i128 * self.den as i128
    }

    /// The value is strictly positive.
    pub fn is_pos(&self) -> (r: bool)
        requires
            self.wf(),
        ensures
            r == q_pos(self@),
    {
        proof {
            lemma_i64_prod_bound(self.num as int, self.den as int);
        }
        self.num as i128 * self.den as i128 > 0
    }

    /// Checked addition: `Some` exactly when the exact sum fits.
    pub fn add(self, other: Frac) -> (r: Option<Frac>)
        requires
            self.wf(),
            other.wf(),
        ensures
            r matches Some(f) ==> f.wf() && f@ == q_add(self@, other@),
            q_fits(q_add(self@, other@)) ==> r is Some,
    {
        proof {
            lemma_i64_by_pos_bound(self.num as int, other.den as int);
            lemma_i64_by_pos_bound(other.num as int, self.den as int);
            lemma_pos_prod(self.den as int, other.den as int);
        }
        let n: i128 = self.num as i128 * other.den as i128 + other.num as i128 * self.den as i128;
        let d: i128 = self.den as i128 * other.den as i128;
        if n >= -0x8000000000000000i128 && n <= 0x7fffffffffffffffi128 && d
            <= 0x7fffffffffffffffi128 {
            Some(Frac { num: n as i64, den: d as i64 })
        } else {
            None
        }
    }

    /// Checked subtraction: `Some` exactly when the exact difference fits.
    pub fn sub(self, other: Frac) -> (r: Option<Frac>)
        requires
            self.wf(),
            other.wf(),
        ensures
            r matches Some(f) ==> f.wf() && f@ == q_sub(self@, other@),
            q_fits(q_sub(self@, other@)) ==> r is Some,
    {
        proof {
            lemma_i64_by_pos_bound(self.num as int, other.den as int);
            lemma_i64_by_pos_bound(other.num as int, self.den as int);
            lemma_pos_prod(self.den as int, other.den as int);
        }
        let n: i128 = self.num as i128 * other.den as i128 - other.num as i128 * self.den as i128;
        let d: i128 = self.den as i128 * other.den as i128;
        if n >= -0x8000000000000000i128 && n <= 0x7fffffffffffffffi128 && d
            <= 0x7fffffffffffffffi128 {
            Some(Frac { num: n as i64, den: d as i64 })
        } else {
            None
        }
    }

    /// Checked multiplication: `Some` exactly when the exact product fits.
    pub fn mul(self, other: Frac) -> (r: Option<Frac>)
        requires
            self.wf(),
            other.wf(),
        ensures
            r matches Some(f) ==> f.wf() && f@ == q_mul(self@, other@),
            q_fits(q_mul(self@, other@)) ==> r is Some,
    {
        proof {
            lemma_i64_prod_bound(self.num as int, other.num as int);
            lemma_pos_prod(self.den as int, other.den as int);
        }
        let n: i128 = self.num as i128 * other.num as i128;
        let d: i128 = self.den as i128 * other.den as i128;
        if n >= -0x8000000000000000i128 && n <= 0x7fffffffffffffffi128 && d
            <= 0x7fffffffffffffffi128 {
            Some(Frac { num: n as i64, den: d as i64 })
        } else {
            None
        }
    }

    /// Checked division. `None` on a zero divisor (the caller's signal to
    /// skip the frame) or when the exact quotient does not fit.
    pub fn div(self, other: Frac) -> (r: Option<Frac>)
        requires
            self.wf(),
            other.wf(),
        ensures
            r matches Some(f) ==> f.wf() && q_eq(f@, q_div(self@, other@)),
            other@.n > 0 ==> (r matches Some(f) ==> f@ == q_div(self@, other@)),
            other@.n != 0 && q_fits(q_norm(q_div(self@, other@))) ==> r is Some,
            other@.n == 0 ==> r is None,
    {
        proof {
            lemma_i64_prod_bound(self.num as int, other.den as int);
            lemma_i64_prod_bound(self.den as int, other.num as int);
        }
        if other.num == 0 {
            return None;
        }
        proof {
            assert(self.den as int * other.num as int != 0) by (nonlinear_arith)
                requires
                    self.den as int >= 1,
                    other.num as int != 0,
            ;
            assert(other.num as int > 0 ==> self.den as int * other.num as int > 0)
                by (nonlinear_arith)
                requires
                    self.den as int >= 1,
            ;
        }
        let mut n: i128 = self.num as i128 * other.den as i128;
        let mut d: i128 = self.den as i128 * other.num as i128;
        if d < 0 {
            n = -n;
            d = -d;
        }
        assert(n as int == q_norm(q_div(self@, other@)).n);
        assert(d as int == q_norm(q_div(self@, other@)).d);
        assert(d > 0);
        if n >= -0x8000000000000000i128 && n <= 0x7fffffffffffffffi128 && d
            <= 0x7fffffffffffffffi128 {
            proof {
                lemma_q_norm_eq(q_div(self@, other@));
            }
            Some(Frac { num: n as i64, den: d as i64 })
        } else {
            None
        }
    }
}

} // verus!
