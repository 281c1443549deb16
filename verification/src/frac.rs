//! Exact rational scalars.
//!
//! Every coordinate in the viewer core is an exact rational number: an
//! `i128` numerator over a positive `i128` denominator. Exec operations
//! carry explicit range preconditions so that the products they compute
//! fit in `i128`; their postconditions give the result fields exactly,
//! so callers can track magnitudes and rational values precisely.

use vstd::prelude::*;

verus! {

/// Mathematical model of a rational number: an unbounded numerator and
/// denominator. Two models denote the same rational when their cross
/// products agree (see `rat_eqv`).
pub struct Rat {
    pub n: int,
    pub d: int,
}

/// An exact rational scalar. Well-formed values keep `d > 0`.
#[derive(Clone, Copy, Debug, PartialEq, Eq, Structural)]
pub struct Frac {
    pub n: i128,
    pub d: i128,
}

impl View for Frac {
    type V = Rat;

    open spec fn view(&self) -> Rat {
        Rat { n: self.n as int, d: self.d as int }
    }
}

impl Frac {
    pub open spec fn wf(self) -> bool {
        self.d > 0
    }
}

/// The two rationals denote the same value (valid whenever both
/// denominators are nonzero).
pub open spec fn rat_eqv(a: Rat, b: Rat) -> bool {
    a.n * b.d == b.n * a.d
}

/// `a <= b` as rationals; valid whenever both denominators are positive.
pub open spec fn rat_le(a: Rat, b: Rat) -> bool {
    a.n * b.d <= b.n * a.d
}

pub open spec fn rat_mul(a: Rat, b: Rat) -> Rat {
    Rat { n: a.n * b.n, d: a.d * b.d }
}

pub open spec fn rat_sub(a: Rat, b: Rat) -> Rat {
    Rat { n: a.n * b.d - b.n * a.d, d: a.d * b.d }
}

pub open spec fn rat_add(a: Rat, b: Rat) -> Rat {
    Rat { n: a.n * b.d + b.n * a.d, d: a.d * b.d }
}

/// Magnitude of a rational model: the larger of |numerator| and
/// denominator. Used to bound the intermediate products of exec code.
pub open spec fn rat_mag(a: Rat) -> int {
    if iabs(a.n) >= a.d {
        iabs(a.n)
    } else {
        a.d
    }
}

pub open spec fn iabs(x: int) -> int {
    if x >= 0 {
        x
    } else {
        -x
    }
}

pub open spec fn imax(x: int, y: int) -> int {
    if x >= y {
        x
    } else {
        y
    }
}

/// |x * y| <= bx * by whenever |x| <= bx and |y| <= by.
pub proof fn lemma_mul_bounds(x: int, y: int, bx: int, by: int)
    by (nonlinear_arith)
    requires
        -bx <= x <= bx,
        -by <= y <= by,
    ensures
        -(bx * by) <= x * y <= bx * by,
{
}

/// Evaluate a product by substituting known values for its factors:
/// with `vx` or `vy` a literal at the call site, the resulting product
/// term is one the linear solver can use.
pub proof fn lemma_mul_vals(x: int, y: int, vx: int, vy: int)
    by (nonlinear_arith)
    requires
        x == vx,
        y == vy,
    ensures
        x * y == vx * vy,
{
}

/// A product with a zero factor is zero.
pub proof fn lemma_mul_zero(x: int, y: int)
    by (nonlinear_arith)
    requires
        x == 0 || y == 0,
    ensures
        x * y == 0,
{
}

/// The product of two positive integers is positive.
pub proof fn lemma_mul_pos(x: int, y: int)
    by (nonlinear_arith)
    requires
        x > 0,
        y > 0,
    ensures
        x * y > 0,
{
}

/// Multiplication of nonnegative values is monotone in both arguments.
pub proof fn lemma_mul_mono(x: int, y: int, bx: int, by: int)
    by (nonlinear_arith)
    requires
        0 <= x <= bx,
        0 <= y <= by,
    ensures
        x * y <= bx * by,
{
}

/// A nonnegative value does not shrink when multiplied by a factor >= 1.
pub proof fn lemma_mul_ge_one(x: int, y: int)
    by (nonlinear_arith)
    requires
        0 <= x,
        1 <= y,
    ensures
        x <= x * y,
{
}

impl Frac {
    pub fn new(n: i128, d: i128) -> (r: Frac)
        requires
            d > 0,
        ensures
            r.n == n,
            r.d == d,
            r.wf(),
    {
        Frac { n, d }
    }

    pub fn from_int(n: i128) -> (r: Frac)
        ensures
            r.n == n,
            r.d == 1,
            r.wf(),
    {
        Frac { n, d: 1 }
    }

    /// Exact rational product.
    pub fn mul(&self, other: &Frac) -> (r: Frac)
        requires
            self.wf(),
            other.wf(),
            -i128::MAX <= self.n * other.n <= i128::MAX,
            self.d * other.d <= i128::MAX,
        ensures
            r@ == rat_mul(self@, other@),
            r.wf(),
    {
        proof {
            lemma_mul_pos(self.d as int, other.d as int);
        }
        Frac { n: self.n * other.n, d: self.d * other.d }
    }

    /// Exact rational difference.
    pub fn sub(&self, other: &Frac) -> (r: Frac)
        requires
            self.wf(),
            other.wf(),
            -i128::MAX <= self.n * other.d <= i128::MAX,
            -i128::MAX <= other.n * self.d <= i128::MAX,
            -i128::MAX <= self.n * other.d - other.n * self.d <= i128::MAX,
            self.d * other.d <= i128::MAX,
        ensures
            r@ == rat_sub(self@, other@),
            r.wf(),
    {
        proof {
            lemma_mul_pos(self.d as int, other.d as int);
        }
        Frac { n: self.n * other.d - other.n * self.d, d: self.d * other.d }
    }

    /// Exact rational sum.
    pub fn add(&self, other: &Frac) -> (r: Frac)
        requires
            self.wf(),
            other.wf(),
            -i128::MAX <= self.n * other.d <= i128::MAX,
            -i128::MAX <= other.n * self.d <= i128::MAX,
            -i128::MAX <= self.n * other.d + other.n * self.d <= i128::MAX,
            self.d * other.d <= i128::MAX,
        ensures
            r@ == rat_add(self@, other@),
            r.wf(),
    {
        proof {
            lemma_mul_pos(self.d as int, other.d as int);
        }
        Frac { n: self.n * other.d + other.n * self.d, d: self.d * other.d }
    }

    /// Rational comparison by cross multiplication.
    pub fn le(&self, other: &Frac) -> (r: bool)
        requires
            self.wf(),
            other.wf(),
            -i128::MAX <= self.n * other.d <= i128::MAX,
            -i128::MAX <= other.n * self.d <= i128::MAX,
        ensures
            r == rat_le(self@, other@),
    {
        self.n * other.d <= other.n * self.d
    }
}

} // verus!
