use simply_2dpga::bivector::Bivector;
use simply_2dpga::multivector::Multivector;
use simply_2dpga::traits::{GeometricProduct, OuterProduct, RegressiveProduct};
use simply_2dpga::trivector::Trivector;
use simply_2dpga::vector::Vector;

#[test]
fn test_regresssive_product() {
    // The join of two points is a line.
    let point1: Bivector = Bivector { e01: 4, e20: 4, e12: 1 };
    let point2: Bivector = Bivector { e01: -1, e20: -4, e12: 1 };

    let join = point1.regressive(&point2);

    let correct_join: Vector = Vector { e0: -12, e1: -5, e2: 8 };

    assert_eq!(join, correct_join);
}

#[test]
fn bivector_geometric_product() {
    let bv1: Bivector = Bivector { e01: 3, e20: 4, e12: 5 };
    let bv2: Bivector = Bivector { e01: 7, e20: 6, e12: 5 };

    let result1 = bv1.geo(&bv2);
    let result2 = bv2.geo(&bv1);

    let correct_result_1: Multivector = Multivector {
        scalar: -25,
        vector: Vector::zero(),
        bivector: Bivector { e01: -10, e20: 20, e12: 0 },
        trivector: Trivector::zero(),
    };
    let correct_result_2: Multivector = Multivector {
        scalar: -25,
        vector: Vector::zero(),
        bivector: Bivector { e01: 10, e20: -20, e12: 0 },
        trivector: Trivector::zero(),
    };

    assert_eq!(result2, correct_result_2);
    assert_eq!(result1, correct_result_1);
}

#[test]
fn bivector_wedge_is_zero_scalar() {
    // No grade-4 element exists, so two points cannot be wedged.
    let bv1 = Bivector { e01: 3, e20: 4, e12: 5 };
    let bv2 = Bivector { e01: 7, e20: 6, e12: 5 };
    assert_eq!(bv1.wedge(&bv2), 0i64);
}

#[test]
fn bivector_wedge_vector_exact() {
    let bv = Bivector { e01: 1, e20: 2, e12: 3 };
    let v = Vector { e0: 2, e1: 3, e2: 4 };
    // The grade-3 part of bv * v.
    let tri = bv.wedge(&v);
    assert_eq!(tri, Trivector { e012: 1 * 4 + 2 * 3 + 3 * 2 });
}

#[test]
fn bivector_scale_and_conversions() {
    let bv = Bivector { e01: 1, e20: -2, e12: 3 };
    assert_eq!(bv.scale(-3), Bivector { e01: -3, e20: 6, e12: -9 });
    let mv = bv.to_multivector();
    assert_eq!(mv.bivector, bv);
    assert_eq!(mv.scalar, 0);
    assert_eq!(mv.vector, Vector::zero());
    assert_eq!(mv.trivector, Trivector::zero());
}
