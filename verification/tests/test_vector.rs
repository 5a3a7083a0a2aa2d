use simply_2dpga::bivector::Bivector;
use simply_2dpga::multivector::Multivector;
use simply_2dpga::traits::{Contraction, GeometricProduct, MagnitudeSqr, OuterProduct};
use simply_2dpga::trivector::Trivector;
use simply_2dpga::vector::Vector;

#[test]
fn vector_geometric_product() {
    let v1: Vector = Vector { e0: 2, e1: 3, e2: 4 };
    let v2: Vector = Vector { e0: 1, e1: 5, e2: 7 };

    let result1 = v1.geo(&v2);
    let result2 = v2.geo(&v1);

    let correct_result1: Multivector = Multivector {
        scalar: 43,
        vector: Vector::zero(),
        bivector: Bivector { e01: 7, e20: -10, e12: 1 },
        trivector: Trivector::zero(),
    };
    let correct_result2: Multivector = Multivector {
        scalar: 43,
        vector: Vector::zero(),
        bivector: Bivector { e01: -7, e20: 10, e12: -1 },
        trivector: Trivector::zero(),
    };

    assert_eq!(result1, correct_result1);
    assert_eq!(result2, correct_result2);
}

#[test]
fn vector_products_do_not_commute() {
    // The two orders agree on the scalar part and differ exactly in the
    // sign of the bivector part, so for generic vectors the products
    // differ.
    let v1 = Vector { e0: 2, e1: 3, e2: 4 };
    let v2 = Vector { e0: 1, e1: 5, e2: 7 };
    let p = v1.geo(&v2);
    let q = v2.geo(&v1);
    assert_ne!(p, q);
    assert_eq!(p.scalar, q.scalar);
    assert_eq!(p.bivector.e01, -q.bivector.e01);
    assert_eq!(p.bivector.e20, -q.bivector.e20);
    assert_eq!(p.bivector.e12, -q.bivector.e12);
}

#[test]
fn vector_wedge_product() {
    let v1: Vector = Vector { e0: 2, e1: 3, e2: 4 };
    let v2: Vector = Vector { e0: 1, e1: 5, e2: 7 };

    let meet = v1.wedge(&v2);

    let meet_correct: Bivector = Bivector { e01: 7, e20: -10, e12: 1 };

    assert_eq!(meet, meet_correct);
}

#[test]
fn vector_wedge_bivector_raises_to_trivector() {
    let v = Vector { e0: 2, e1: 3, e2: 4 };
    let bv = Bivector { e01: 1, e20: 2, e12: 3 };
    assert_eq!(v.wedge(&bv), Trivector { e012: 2 * 3 + 3 * 2 + 4 * 1 });
}

#[test]
fn vector_contractions_coincide() {
    let v1 = Vector { e0: 2, e1: 2, e2: 0 };
    let v2 = Vector { e0: 0, e1: 2, e2: 1 };
    let dot = v1.inner(&v2);
    assert_eq!(dot, 2 * 2 + 0 * 1);
    assert_eq!(v1.contract_left(&v2), dot);
    assert_eq!(v1.contract_right(&v2), dot);
}

#[test]
fn euclidean_vector_magnitude() {
    // With no ideal part the square magnitude is the Euclidean one.
    let v = Vector { e0: 0, e1: 3, e2: 4 };
    assert_eq!(v.to_multivector().magnitude_sqr(), 25);
}

#[test]
fn vector_scale_and_conversions() {
    let v = Vector { e0: 1, e1: -2, e2: 3 };
    assert_eq!(v.scale(4), Vector { e0: 4, e1: -8, e2: 12 });
    let mv = v.to_multivector();
    assert_eq!(mv.vector, v);
    assert_eq!(mv.scalar, 0);
    assert_eq!(mv.bivector, Bivector::zero());
    assert_eq!(mv.trivector, Trivector::zero());
    assert_eq!(Vector::new(1, -2, 3), v);
    assert_eq!(Vector::zero(), Vector { e0: 0, e1: 0, e2: 0 });
}
