use simply_2dpga::bivector::Bivector;
use simply_2dpga::k_vector::KVector;
use simply_2dpga::traits::{GeometricProduct, OuterProduct};
use simply_2dpga::trivector::Trivector;
use simply_2dpga::vector::Vector;

#[test]
fn k_vector_casts_succeed_on_matching_grade() {
    let v = Vector { e0: 1, e1: 2, e2: 3 };
    let b = Bivector { e01: 4, e20: 5, e12: 6 };
    let t = Trivector { e012: 7 };
    assert_eq!(KVector::Scalar(9).to_scalar(), Ok(9));
    assert_eq!(v.to_k_vector().to_vector(), Ok(v));
    assert_eq!(b.to_k_vector().to_bivector(), Ok(b));
    assert_eq!(t.to_k_vector().to_trivector(), Ok(t));
}

#[test]
fn k_vector_casts_fail_on_wrong_grade() {
    let v = Vector { e0: 1, e1: 2, e2: 3 };
    assert!(v.to_k_vector().to_scalar().is_err());
    assert!(v.to_k_vector().to_bivector().is_err());
    assert!(v.to_k_vector().to_trivector().is_err());
    assert!(KVector::Scalar(9).to_vector().is_err());
}

#[test]
fn k_vector_geo_dispatches_by_grade() {
    let v = Vector { e0: 2, e1: 3, e2: 4 };
    let w = Vector { e0: 1, e1: 5, e2: 7 };
    // A product of tagged elements matches the product of the bare ones.
    let tagged = v.to_k_vector().geo(&w.to_k_vector());
    assert_eq!(tagged, v.geo(&w));

    // A scalar operand multiplies coefficient-wise, on either side.
    let scaled = KVector::Scalar(3).geo(&v.to_k_vector());
    assert_eq!(scaled.vector, Vector { e0: 6, e1: 9, e2: 12 });
    assert_eq!(scaled.scalar, 0);
    let scaled_right = v.to_k_vector().geo(&KVector::Scalar(3));
    assert_eq!(scaled_right.vector, Vector { e0: 6, e1: 9, e2: 12 });

    let b = Bivector { e01: 1, e20: 2, e12: 3 };
    let bt = b.to_k_vector().geo(&Trivector { e012: 2 }.to_k_vector());
    assert_eq!(bt, b.geo(&Trivector { e012: 2 }));
}

#[test]
fn k_vector_wedge_grade_ceiling() {
    // Any pair whose grades would add past 3 collapses to the zero
    // scalar.
    let v = Vector { e0: 2, e1: 3, e2: 4 };
    let b1 = Bivector { e01: 1, e20: 2, e12: 3 };
    let b2 = Bivector { e01: 4, e20: 5, e12: 6 };
    let t = Trivector { e012: 7 };

    assert_eq!(b1.to_k_vector().wedge(&b2.to_k_vector()), KVector::Scalar(0));
    assert_eq!(v.to_k_vector().wedge(&t.to_k_vector()), KVector::Scalar(0));
    assert_eq!(b1.to_k_vector().wedge(&t.to_k_vector()), KVector::Scalar(0));
    assert_eq!(t.to_k_vector().wedge(&v.to_k_vector()), KVector::Scalar(0));
    assert_eq!(t.to_k_vector().wedge(&t.to_k_vector()), KVector::Scalar(0));
}

#[test]
fn k_vector_wedge_dispatches_by_grade() {
    let v = Vector { e0: 2, e1: 3, e2: 4 };
    let w = Vector { e0: 1, e1: 5, e2: 7 };
    let wedge = v.to_k_vector().wedge(&w.to_k_vector());
    assert_eq!(wedge, KVector::Bivector(Bivector { e01: 7, e20: -10, e12: 1 }));

    // Wedging with a scalar is plain scalar multiplication, and is
    // commutative.
    let b = Bivector { e01: 1, e20: 2, e12: 3 };
    let left = KVector::Scalar(4).wedge(&b.to_k_vector());
    let right = b.to_k_vector().wedge(&KVector::Scalar(4));
    assert_eq!(left, KVector::Bivector(Bivector { e01: 4, e20: 8, e12: 12 }));
    assert_eq!(left, right);
    assert_eq!(
        KVector::Scalar(4).wedge(&KVector::Scalar(-2)),
        KVector::Scalar(-8)
    );
}
