use quadview::frac::Frac;
use quadview::transform::ViewTransform;

/// `a` and `b` denote the same rational.
fn rat_eq(a: &Frac, b: &Frac) -> bool {
    a.n * b.d == b.n * a.d
}

#[test]
fn identity_fixes_points() {
    let t = ViewTransform::identity();
    let p = t.transform_vertex(&Frac::new(7, 3), &Frac::new(-9, 5));
    assert!(rat_eq(&p.0, &Frac::new(7, 3)));
    assert!(rat_eq(&p.1, &Frac::new(-9, 5)));
}

#[test]
fn scale_and_translate_apply() {
    let s = ViewTransform::scale(&Frac::new(2, 1), &Frac::new(3, 1));
    let p = s.transform_vertex(&Frac::new(5, 1), &Frac::new(7, 1));
    assert!(rat_eq(&p.0, &Frac::new(10, 1)));
    assert!(rat_eq(&p.1, &Frac::new(21, 1)));
    let t = ViewTransform::translate(&Frac::new(-4, 1), &Frac::new(1, 2));
    let q = t.transform_vertex(&Frac::new(5, 1), &Frac::new(7, 1));
    assert!(rat_eq(&q.0, &Frac::new(1, 1)));
    assert!(rat_eq(&q.1, &Frac::new(15, 2)));
}

#[test]
fn compose_applies_self_then_other() {
    // Scale by 2, then translate by 10: x -> 2x + 10.
    let s = ViewTransform::scale_diag(&Frac::new(2, 1));
    let t = ViewTransform::translate(&Frac::new(10, 1), &Frac::new(10, 1));
    let st = s.compose(&t);
    let p = st.transform_vertex(&Frac::new(3, 1), &Frac::new(0, 1));
    assert!(rat_eq(&p.0, &Frac::new(16, 1)));
    // The other order: translate by 10, then scale by 2: x -> 2x + 20.
    let ts = t.compose(&s);
    let q = ts.transform_vertex(&Frac::new(3, 1), &Frac::new(0, 1));
    assert!(rat_eq(&q.0, &Frac::new(26, 1)));
}

#[test]
fn compose_mut_matches_compose() {
    let s = ViewTransform::scale_diag(&Frac::new(3, 2));
    let t = ViewTransform::translate(&Frac::new(1, 4), &Frac::new(-5, 4));
    let both = s.compose(&t);
    let mut m = s;
    m.compose_mut(&t);
    let p = m.transform_vertex(&Frac::new(11, 3), &Frac::new(2, 7));
    let q = both.transform_vertex(&Frac::new(11, 3), &Frac::new(2, 7));
    assert!(rat_eq(&p.0, &q.0));
    assert!(rat_eq(&p.1, &q.1));
}

#[test]
fn invert_round_trips_positive_determinant() {
    // Scale then translate, positive determinant.
    let t = ViewTransform::scale(&Frac::new(2, 3), &Frac::new(5, 4))
        .compose(&ViewTransform::translate(&Frac::new(7, 2), &Frac::new(-3, 5)));
    let rt = t.compose(&t.invert());
    let p = rt.transform_vertex(&Frac::new(13, 7), &Frac::new(9, 11));
    assert!(rat_eq(&p.0, &Frac::new(13, 7)));
    assert!(rat_eq(&p.1, &Frac::new(9, 11)));
}

#[test]
fn invert_round_trips_negative_determinant() {
    // A vertical flip gives a negative determinant.
    let t = ViewTransform::scale(&Frac::new(2, 1), &Frac::new(-3, 1))
        .compose(&ViewTransform::translate(&Frac::new(-1, 2), &Frac::new(4, 3)));
    let rt = t.compose(&t.invert());
    let p = rt.transform_vertex(&Frac::new(-6, 5), &Frac::new(17, 4));
    assert!(rat_eq(&p.0, &Frac::new(-6, 5)));
    assert!(rat_eq(&p.1, &Frac::new(17, 4)));
}

#[test]
fn invert_undoes_apply() {
    let t = ViewTransform::scale_diag(&Frac::new(4, 7))
        .compose(&ViewTransform::translate(&Frac::new(9, 1), &Frac::new(-2, 1)));
    let p = t.transform_vertex(&Frac::new(3, 1), &Frac::new(5, 1));
    let back = t.invert().transform_vertex(&p.0, &p.1);
    assert!(rat_eq(&back.0, &Frac::new(3, 1)));
    assert!(rat_eq(&back.1, &Frac::new(5, 1)));
}

#[test]
fn frac_arithmetic_is_exact() {
    let a = Frac::new(1, 3);
    let b = Frac::new(1, 6);
    let sum = a.add(&b);
    assert!(rat_eq(&sum, &Frac::new(1, 2)));
    let diff = a.sub(&b);
    assert!(rat_eq(&diff, &Frac::new(1, 6)));
    let prod = a.mul(&b);
    assert!(rat_eq(&prod, &Frac::new(1, 18)));
    assert!(b.le(&a));
    assert!(!a.le(&b));
    assert!(a.le(&a));
}
