//! Exact 2D affine transforms over homogeneous coordinates.
//!
//! A `ViewTransform` is the matrix
//!
//! ```text
//!        1   [ a  b  tx ]
//!       --- .[ c  d  ty ]
//!       den  [ 0  0   1 ]
//! ```
//!
//! with integer entries and a positive common denominator, so every
//! operation is exact. The composition convention is load-bearing:
//! `t.compose(other)` applies `t` first and `other` after it, i.e. the
//! result matrix is `other * t`.

use vstd::prelude::*;
use crate::frac::{
    Frac, Rat, iabs, imax, lemma_mul_bounds, lemma_mul_ge_one, lemma_mul_mono, lemma_mul_pos,
    rat_mag,
};

verus! {

/// Mathematical model of an affine transform: unbounded integer entries
/// over a common denominator.
pub struct TMat {
    pub a: int,
    pub b: int,
    pub c: int,
    pub d: int,
    pub tx: int,
    pub ty: int,
    pub den: int,
}

/// An exact 2D affine transform. Well-formed values keep `den > 0`.
#[derive(Clone, Copy, Debug)]
pub struct ViewTransform {
    pub a: i128,
    pub b: i128,
    pub c: i128,
    pub d: i128,
    pub tx: i128,
    pub ty: i128,
    pub den: i128,
}

impl View for ViewTransform {
    type V = TMat;

    open spec fn view(&self) -> TMat {
        TMat {
            a: self.a as int,
            b: self.b as int,
            c: self.c as int,
            d: self.d as int,
            tx: self.tx as int,
            ty: self.ty as int,
            den: self.den as int,
        }
    }
}

pub open spec fn twf(m: TMat) -> bool {
    m.den > 0
}

/// Determinant of the linear part. The transform is non-degenerate
/// exactly when this is nonzero (the rational determinant is
/// `tdet(m) / den^2`).
pub open spec fn tdet(m: TMat) -> int {
    m.a * m.d - m.b * m.c
}

/// Magnitude of a transform model: the largest of the entry absolute
/// values and the denominator. Bounds every product exec code computes.
pub open spec fn tmag(m: TMat) -> int {
    imax(
        imax(imax(iabs(m.a), iabs(m.b)), imax(iabs(m.c), iabs(m.d))),
        imax(imax(iabs(m.tx), iabs(m.ty)), m.den),
    )
}

/// All entries of `m` lie in `[-bnd, bnd]` and `0 < den <= bnd`.
pub open spec fn tbound(m: TMat, bnd: int) -> bool {
    &&& -bnd <= m.a <= bnd
    &&& -bnd <= m.b <= bnd
    &&& -bnd <= m.c <= bnd
    &&& -bnd <= m.d <= bnd
    &&& -bnd <= m.tx <= bnd
    &&& -bnd <= m.ty <= bnd
    &&& 0 < m.den <= bnd
}

/// Bounds split by role: `bl` bounds the linear entries, `bt` the
/// translation entries, `bd` the denominator. The translation of a
/// composite grows differently from its linear part, so tracking them
/// separately keeps the bounds that overflow proofs need much tighter.
pub open spec fn tbound3(m: TMat, bl: int, bt: int, bd: int) -> bool {
    &&& -bl <= m.a <= bl
    &&& -bl <= m.b <= bl
    &&& -bl <= m.c <= bl
    &&& -bl <= m.d <= bl
    &&& -bt <= m.tx <= bt
    &&& -bt <= m.ty <= bt
    &&& 0 < m.den <= bd
}

pub proof fn lemma_tbound3_mag(m: TMat, bl: int, bt: int, bd: int, b: int)
    requires
        tbound3(m, bl, bt, bd),
        bl <= b,
        bt <= b,
        bd <= b,
    ensures
        tmag(m) <= b,
        tmag(m) >= 1,
        twf(m),
{
}

pub proof fn lemma_compose_bound3(
    s: TMat,
    o: TMat,
    bls: int,
    bts: int,
    bds: int,
    blo: int,
    bto: int,
    bdo: int,
)
    requires
        tbound3(s, bls, bts, bds),
        tbound3(o, blo, bto, bdo),
    ensures
        tbound3(
            spec_compose(s, o),
            2 * (blo * bls),
            2 * (blo * bts) + bto * bds,
            bdo * bds,
        ),
{
    lemma_mul_bounds(o.a, s.a, blo, bls);
    lemma_mul_bounds(o.b, s.c, blo, bls);
    lemma_mul_bounds(o.a, s.b, blo, bls);
    lemma_mul_bounds(o.b, s.d, blo, bls);
    lemma_mul_bounds(o.c, s.a, blo, bls);
    lemma_mul_bounds(o.d, s.c, blo, bls);
    lemma_mul_bounds(o.c, s.b, blo, bls);
    lemma_mul_bounds(o.d, s.d, blo, bls);
    lemma_mul_bounds(o.a, s.tx, blo, bts);
    lemma_mul_bounds(o.b, s.ty, blo, bts);
    lemma_mul_bounds(o.tx, s.den, bto, bds);
    lemma_mul_bounds(o.c, s.tx, blo, bts);
    lemma_mul_bounds(o.d, s.ty, blo, bts);
    lemma_mul_bounds(o.ty, s.den, bto, bds);
    lemma_mul_bounds(o.den, s.den, bdo, bds);
    lemma_mul_pos(o.den, s.den);
}

pub proof fn lemma_tmag_bounds(m: TMat)
    requires
        twf(m),
    ensures
        tbound(m, tmag(m)),
        tmag(m) >= 1,
{
}

pub proof fn lemma_rat_mag_bounds(a: Rat)
    requires
        a.d > 0,
    ensures
        -rat_mag(a) <= a.n <= rat_mag(a),
        0 < a.d <= rat_mag(a),
        rat_mag(a) >= 1,
{
}

pub open spec fn spec_identity() -> TMat {
    TMat { a: 1, b: 0, c: 0, d: 1, tx: 0, ty: 0, den: 1 }
}

/// Scaling by `x` horizontally and `y` vertically. When the two factors
/// share a denominator the matrix keeps that denominator.
pub open spec fn spec_scale(x: Rat, y: Rat) -> TMat {
    if x.d == y.d {
        TMat { a: x.n, b: 0, c: 0, d: y.n, tx: 0, ty: 0, den: x.d }
    } else {
        TMat { a: x.n * y.d, b: 0, c: 0, d: y.n * x.d, tx: 0, ty: 0, den: x.d * y.d }
    }
}

pub open spec fn spec_scale_diag(s: Rat) -> TMat {
    TMat { a: s.n, b: 0, c: 0, d: s.n, tx: 0, ty: 0, den: s.d }
}

/// Translation by `(x, y)`. When the two offsets share a denominator the
/// matrix keeps that denominator.
pub open spec fn spec_translate(x: Rat, y: Rat) -> TMat {
    if x.d == y.d {
        TMat { a: x.d, b: 0, c: 0, d: x.d, tx: x.n, ty: y.n, den: x.d }
    } else {
        TMat {
            a: x.d * y.d,
            b: 0,
            c: 0,
            d: x.d * y.d,
            tx: x.n * y.d,
            ty: y.n * x.d,
            den: x.d * y.d,
        }
    }
}

/// The matrix of "apply `s` first, then `o`": `o * s`.
pub open spec fn spec_compose(s: TMat, o: TMat) -> TMat {
    TMat {
        a: o.a * s.a + o.b * s.c,
        b: o.a * s.b + o.b * s.d,
        c: o.c * s.a + o.d * s.c,
        d: o.c * s.b + o.d * s.d,
        tx: o.a * s.tx + o.b * s.ty + o.tx * s.den,
        ty: o.c * s.tx + o.d * s.ty + o.ty * s.den,
        den: o.den * s.den,
    }
}

/// The inverse transform, with the denominator normalized to stay
/// positive. Meaningful only when `tdet(m) != 0`.
pub open spec fn spec_invert(m: TMat) -> TMat {
    if tdet(m) >= 0 {
        TMat {
            a: m.den * m.d,
            b: -(m.den * m.b),
            c: -(m.den * m.c),
            d: m.den * m.a,
            tx: m.b * m.ty - m.d * m.tx,
            ty: m.c * m.tx - m.a * m.ty,
            den: tdet(m),
        }
    } else {
        TMat {
            a: -(m.den * m.d),
            b: m.den * m.b,
            c: m.den * m.c,
            d: -(m.den * m.a),
            tx: m.d * m.tx - m.b * m.ty,
            ty: m.a * m.ty - m.c * m.tx,
            den: -tdet(m),
        }
    }
}

/// Where `m` sends the point `(x, y)` (a point has implicit homogeneous
/// coordinate 1, so the translation applies).
pub open spec fn spec_apply(m: TMat, x: Rat, y: Rat) -> (Rat, Rat) {
    (
        Rat { n: m.a * x.n * y.d + m.b * (y.n * x.d) + m.tx * (x.d * y.d), d: m.den * (x.d * y.d) },
        Rat { n: m.c * x.n * y.d + m.d * (y.n * x.d) + m.ty * (x.d * y.d), d: m.den * (x.d * y.d) },
    )
}

impl ViewTransform {
    pub fn identity() -> (r: ViewTransform)
        ensures
            r@ == spec_identity(),
            twf(r@),
    {
        ViewTransform { a: 1, b: 0, c: 0, d: 1, tx: 0, ty: 0, den: 1 }
    }

    pub fn scale(x: &Frac, y: &Frac) -> (r: ViewTransform)
        requires
            x.wf(),
            y.wf(),
            -i128::MAX <= x.n * y.d <= i128::MAX,
            -i128::MAX <= y.n * x.d <= i128::MAX,
            x.d * y.d <= i128::MAX,
        ensures
            r@ == spec_scale(x@, y@),
            twf(r@),
    {
        if x.d == y.d {
            ViewTransform { a: x.n, b: 0, c: 0, d: y.n, tx: 0, ty: 0, den: x.d }
        } else {
            proof {
                lemma_mul_pos(x.d as int, y.d as int);
            }
            ViewTransform { a: x.n * y.d, b: 0, c: 0, d: y.n * x.d, tx: 0, ty: 0, den: x.d * y.d }
        }
    }

    pub fn scale_diag(s: &Frac) -> (r: ViewTransform)
        requires
            s.wf(),
        ensures
            r@ == spec_scale_diag(s@),
            twf(r@),
    {
        ViewTransform { a: s.n, b: 0, c: 0, d: s.n, tx: 0, ty: 0, den: s.d }
    }

    pub fn translate(x: &Frac, y: &Frac) -> (r: ViewTransform)
        requires
            x.wf(),
            y.wf(),
            -i128::MAX <= x.n * y.d <= i128::MAX,
            -i128::MAX <= y.n * x.d <= i128::MAX,
            x.d * y.d <= i128::MAX,
        ensures
            r@ == spec_translate(x@, y@),
            twf(r@),
    {
        if x.d == y.d {
            ViewTransform { a: x.d, b: 0, c: 0, d: x.d, tx: x.n, ty: y.n, den: x.d }
        } else {
            proof {
                lemma_mul_pos(x.d as int, y.d as int);
            }
            ViewTransform {
                a: x.d * y.d,
                b: 0,
                c: 0,
                d: x.d * y.d,
                tx: x.n * y.d,
                ty: y.n * x.d,
                den: x.d * y.d,
            }
        }
    }

    /// Apply `self` first, then `other`.
    pub fn compose(&self, other: &ViewTransform) -> (r: ViewTransform)
        requires
            twf(self@),
            twf(other@),
            4 * (tmag(other@) * tmag(self@)) <= i128::MAX,
        ensures
            r@ == spec_compose(self@, other@),
            twf(r@),
    {
        proof {
            let s = self@;
            let o = other@;
            let ms = tmag(s);
            let mo = tmag(o);
            lemma_tmag_bounds(s);
            lemma_tmag_bounds(o);
            lemma_mul_pos(mo, ms);
            lemma_mul_bounds(o.a, s.a, mo, ms);
            lemma_mul_bounds(o.b, s.c, mo, ms);
            lemma_mul_bounds(o.a, s.b, mo, ms);
            lemma_mul_bounds(o.b, s.d, mo, ms);
            lemma_mul_bounds(o.c, s.a, mo, ms);
            lemma_mul_bounds(o.d, s.c, mo, ms);
            lemma_mul_bounds(o.c, s.b, mo, ms);
            lemma_mul_bounds(o.d, s.d, mo, ms);
            lemma_mul_bounds(o.a, s.tx, mo, ms);
            lemma_mul_bounds(o.b, s.ty, mo, ms);
            lemma_mul_bounds(o.tx, s.den, mo, ms);
            lemma_mul_bounds(o.c, s.tx, mo, ms);
            lemma_mul_bounds(o.d, s.ty, mo, ms);
            lemma_mul_bounds(o.ty, s.den, mo, ms);
            lemma_mul_bounds(o.den, s.den, mo, ms);
            lemma_mul_pos(o.den, s.den);
        }
        ViewTransform {
            a: other.a * self.a + other.b * self.c,
            b: other.a * self.b + other.b * self.d,
            c: other.c * self.a + other.d * self.c,
            d: other.c * self.b + other.d * self.d,
            tx: other.a * self.tx + other.b * self.ty + other.tx * self.den,
            ty: other.c * self.tx + other.d * self.ty + other.ty * self.den,
            den: other.den * self.den,
        }
    }

    /// Apply `self` first, then `other`, in place.
    pub fn compose_mut(&mut self, other: &ViewTransform)
        requires
            twf(old(self)@),
            twf(other@),
            4 * (tmag(other@) * tmag(old(self)@)) <= i128::MAX,
        ensures
            final(self)@ == spec_compose(old(self)@, other@),
            twf(final(self)@),
    {
        *self = self.compose(other);
    }

    /// Invert a non-degenerate transform exactly.
    pub fn invert(&self) -> (r: ViewTransform)
        requires
            twf(self@),
            tdet(self@) != 0,
            2 * (tmag(self@) * tmag(self@)) <= i128::MAX,
        ensures
            r@ == spec_invert(self@),
            twf(r@),
    {
        proof {
            let m = self@;
            let mm = tmag(m);
            lemma_tmag_bounds(m);
            lemma_mul_pos(mm, mm);
            lemma_mul_bounds(m.a, m.d, mm, mm);
            lemma_mul_bounds(m.b, m.c, mm, mm);
            lemma_mul_bounds(m.den, m.d, mm, mm);
            lemma_mul_bounds(m.den, m.b, mm, mm);
            lemma_mul_bounds(m.den, m.c, mm, mm);
            lemma_mul_bounds(m.den, m.a, mm, mm);
            lemma_mul_bounds(m.b, m.ty, mm, mm);
            lemma_mul_bounds(m.d, m.tx, mm, mm);
            lemma_mul_bounds(m.c, m.tx, mm, mm);
            lemma_mul_bounds(m.a, m.ty, mm, mm);
        }
        let det = self.a * self.d - self.b * self.c;
        if det >= 0 {
            ViewTransform {
                a: self.den * self.d,
                b: -(self.den * self.b),
                c: -(self.den * self.c),
                d: self.den * self.a,
                tx: self.b * self.ty - self.d * self.tx,
                ty: self.c * self.tx - self.a * self.ty,
                den: det,
            }
        } else {
            ViewTransform {
                a: -(self.den * self.d),
                b: self.den * self.b,
                c: self.den * self.c,
                d: -(self.den * self.a),
                tx: self.d * self.tx - self.b * self.ty,
                ty: self.a * self.ty - self.c * self.tx,
                den: -det,
            }
        }
    }

    /// Map a point through the transform. The result is exact.
    pub fn transform_vertex(&self, x: &Frac, y: &Frac) -> (r: (Frac, Frac))
        requires
            twf(self@),
            x.wf(),
            y.wf(),
            4 * (tmag(self@) * rat_mag(x@) * rat_mag(y@)) <= i128::MAX,
        ensures
            r.0@ == spec_apply(self@, x@, y@).0,
            r.1@ == spec_apply(self@, x@, y@).1,
            r.0.wf(),
            r.1.wf(),
            r.0.d == r.1.d,
    {
        proof {
            let m = self@;
            let mm = tmag(m);
            let fx = rat_mag(x@);
            let fy = rat_mag(y@);
            lemma_tmag_bounds(m);
            lemma_rat_mag_bounds(x@);
            lemma_rat_mag_bounds(y@);
            lemma_mul_pos(mm, fx);
            lemma_mul_pos(mm * fx, fy);
            lemma_mul_ge_one(mm * fx, fy);
            lemma_mul_bounds(m.a, x@.n, mm, fx);
            lemma_mul_bounds(m.a * x@.n, y@.d, mm * fx, fy);
            lemma_mul_bounds(m.c, x@.n, mm, fx);
            lemma_mul_bounds(m.c * x@.n, y@.d, mm * fx, fy);
            lemma_mul_bounds(y@.n, x@.d, fy, fx);
            lemma_mul_bounds(m.b, y@.n * x@.d, mm, fy * fx);
            lemma_mul_bounds(m.d, y@.n * x@.d, mm, fy * fx);
            lemma_mul_bounds(x@.d, y@.d, fx, fy);
            lemma_mul_bounds(m.tx, x@.d * y@.d, mm, fx * fy);
            lemma_mul_bounds(m.ty, x@.d * y@.d, mm, fx * fy);
            lemma_mul_bounds(m.den, x@.d * y@.d, mm, fx * fy);
            assert(mm * (fx * fy) == mm * fx * fy) by (nonlinear_arith);
            assert(mm * (fy * fx) == mm * fx * fy) by (nonlinear_arith);
            assert(fy * fx <= mm * fx * fy) by (nonlinear_arith)
                requires
                    mm >= 1,
                    fx >= 1,
                    fy >= 1,
            ;
            assert(fx * fy <= mm * fx * fy) by (nonlinear_arith)
                requires
                    mm >= 1,
                    fx >= 1,
                    fy >= 1,
            ;
            lemma_mul_pos(x@.d, y@.d);
            lemma_mul_pos(m.den, x@.d * y@.d);
        }
        let yn_xd = y.n * x.d;
        let xd_yd = x.d * y.d;
        let rx = Frac {
            n: self.a * x.n * y.d + self.b * yn_xd + self.tx * xd_yd,
            d: self.den * xd_yd,
        };
        let ry = Frac {
            n: self.c * x.n * y.d + self.d * yn_xd + self.ty * xd_yd,
            d: self.den * xd_yd,
        };
        (rx, ry)
    }
}

/// Composing a non-degenerate transform with its inverse and applying the
/// result to any point returns that point exactly, as rationals.
pub proof fn lemma_compose_invert_round_trip(m: TMat, x: Rat, y: Rat)
    requires
        twf(m),
        tdet(m) != 0,
        x.d > 0,
        y.d > 0,
    ensures
        rat_eqv_holds_after_round_trip(m, x, y),
{
    let u = spec_invert(m);
    let cm = spec_compose(m, u);
    let det = tdet(m);
    if det >= 0 {
        assert(cm.a == m.den * det) by (nonlinear_arith)
            requires
                cm.a == (m.den * m.d) * m.a + (-(m.den * m.b)) * m.c,
                det == m.a * m.d - m.b * m.c,
        ;
        assert(cm.b == 0) by (nonlinear_arith)
            requires
                cm.b == (m.den * m.d) * m.b + (-(m.den * m.b)) * m.d,
        ;
        assert(cm.c == 0) by (nonlinear_arith)
            requires
                cm.c == (-(m.den * m.c)) * m.a + (m.den * m.a) * m.c,
        ;
        assert(cm.d == m.den * det) by (nonlinear_arith)
            requires
                cm.d == (-(m.den * m.c)) * m.b + (m.den * m.a) * m.d,
                det == m.a * m.d - m.b * m.c,
        ;
        assert(cm.tx == 0) by (nonlinear_arith)
            requires
                cm.tx == (m.den * m.d) * m.tx + (-(m.den * m.b)) * m.ty + (m.b * m.ty - m.d * m.tx)
                    * m.den,
        ;
        assert(cm.ty == 0) by (nonlinear_arith)
            requires
                cm.ty == (-(m.den * m.c)) * m.tx + (m.den * m.a) * m.ty + (m.c * m.tx - m.a * m.ty)
                    * m.den,
        ;
        assert(cm.den == det * m.den);
        assert(m.den * det == det * m.den) by (nonlinear_arith);
        lemma_mul_pos(det, m.den);
        lemma_apply_diag_identity(cm, det * m.den, x, y);
    } else {
        assert(cm.a == -(m.den * det)) by (nonlinear_arith)
            requires
                cm.a == (-(m.den * m.d)) * m.a + (m.den * m.b) * m.c,
                det == m.a * m.d - m.b * m.c,
        ;
        assert(cm.b == 0) by (nonlinear_arith)
            requires
                cm.b == (-(m.den * m.d)) * m.b + (m.den * m.b) * m.d,
        ;
        assert(cm.c == 0) by (nonlinear_arith)
            requires
                cm.c == (m.den * m.c) * m.a + (-(m.den * m.a)) * m.c,
        ;
        assert(cm.d == -(m.den * det)) by (nonlinear_arith)
            requires
                cm.d == (m.den * m.c) * m.b + (-(m.den * m.a)) * m.d,
                det == m.a * m.d - m.b * m.c,
        ;
        assert(cm.tx == 0) by (nonlinear_arith)
            requires
                cm.tx == (-(m.den * m.d)) * m.tx + (m.den * m.b) * m.ty + (m.d * m.tx - m.b * m.ty)
                    * m.den,
        ;
        assert(cm.ty == 0) by (nonlinear_arith)
            requires
                cm.ty == (m.den * m.c) * m.tx + (-(m.den * m.a)) * m.ty + (m.a * m.ty - m.c * m.tx)
                    * m.den,
        ;
        assert(cm.den == -det * m.den);
        assert(-(m.den * det) == -det * m.den) by (nonlinear_arith);
        assert(-det * m.den != 0) by (nonlinear_arith)
            requires
                det < 0,
                m.den > 0,
        ;
        lemma_apply_diag_identity(cm, -det * m.den, x, y);
    }
}

/// The round-trip statement: the composed transform sends `(x, y)` to a
/// point rationally equal to `(x, y)`, with a meaningful (nonzero)
/// denominator.
pub open spec fn rat_eqv_holds_after_round_trip(m: TMat, x: Rat, y: Rat) -> bool {
    let r = spec_apply(spec_compose(m, spec_invert(m)), x, y);
    &&& crate::frac::rat_eqv(r.0, x)
    &&& crate::frac::rat_eqv(r.1, y)
    &&& r.0.d != 0
    &&& r.1.d != 0
}

/// A matrix `diag(k, k) / k` with zero off-diagonal entries and zero
/// translation sends `(x, y)` to a point rationally equal to `(x, y)`.
proof fn lemma_apply_diag_identity(cm: TMat, k: int, x: Rat, y: Rat)
    requires
        cm.a == k,
        cm.b == 0,
        cm.c == 0,
        cm.d == k,
        cm.tx == 0,
        cm.ty == 0,
        cm.den == k,
        k != 0,
        x.d > 0,
        y.d > 0,
    ensures
        crate::frac::rat_eqv(spec_apply(cm, x, y).0, x),
        crate::frac::rat_eqv(spec_apply(cm, x, y).1, y),
        spec_apply(cm, x, y).0.d != 0,
        spec_apply(cm, x, y).1.d != 0,
{
    let r = spec_apply(cm, x, y);
    assert(r.0.n == k * x.n * y.d) by (nonlinear_arith)
        requires
            r.0.n == k * x.n * y.d + 0 * (y.n * x.d) + 0 * (x.d * y.d),
    ;
    assert(k * x.n * y.d * x.d == x.n * (k * (x.d * y.d))) by (nonlinear_arith);
    assert(r.1.n == k * (y.n * x.d)) by (nonlinear_arith)
        requires
            r.1.n == 0 * x.n * y.d + k * (y.n * x.d) + 0 * (x.d * y.d),
    ;
    assert(k * (y.n * x.d) * y.d == y.n * (k * (x.d * y.d))) by (nonlinear_arith);
    assert(k * (x.d * y.d) != 0) by (nonlinear_arith)
        requires
            k != 0,
            x.d > 0,
            y.d > 0,
    ;
}

} // verus!
