use simply_2dpga::bivector::Bivector;
use simply_2dpga::k_vector::KVector;
use simply_2dpga::multivector::Multivector;
use simply_2dpga::traits::{Dagger, GeometricProduct, GradeInvolution, GradeProjection, MagnitudeSqr};
use simply_2dpga::trivector::Trivector;
use simply_2dpga::vector::Vector;

#[test]
fn multivector_geometric_product() {
    let mv1: Multivector = Multivector {
        scalar: 1,
        vector: Vector { e0: 2, e1: 3, e2: 4 },
        bivector: Bivector { e01: 5, e20: 6, e12: 7 },
        trivector: Trivector { e012: 8 },
    };
    let mv2: Multivector = Multivector {
        scalar: 2,
        vector: Vector { e0: 1, e1: 2, e2: 3 },
        bivector: Bivector { e01: 3, e20: 2, e12: 1 },
        trivector: Trivector { e012: 2 },
    };

    let correct_result_1: Multivector = Multivector {
        scalar: 13,
        vector: Vector { e0: -26, e1: 25, e2: 0 },
        bivector: Bivector { e01: 38, e20: 50, e12: 16 },
        trivector: Trivector { e012: 72 },
    };
    let correct_result_2: Multivector = Multivector {
        scalar: 13,
        vector: Vector { e0: -8, e1: -9, e2: 22 },
        bivector: Bivector { e01: 52, e20: 22, e12: 14 },
        trivector: Trivector { e012: 72 },
    };

    let result1 = mv1.geo(&mv2);
    let result2 = mv2.geo(&mv1);

    assert_eq!(result1, correct_result_1);
    assert_eq!(result2, correct_result_2);
}

#[test]
fn geometric_product_associativity() {
    // a * (b * c) == (a * b) * c, on concrete values.
    let a = Multivector {
        scalar: 1,
        vector: Vector { e0: 2, e1: -1, e2: 3 },
        bivector: Bivector { e01: 0, e20: 2, e12: 5 },
        trivector: Trivector { e012: -2 },
    };
    let b = Multivector {
        scalar: 2,
        vector: Vector { e0: 0, e1: 1, e2: -3 },
        bivector: Bivector { e01: 4, e20: 1, e12: -1 },
        trivector: Trivector { e012: 3 },
    };
    let c = Multivector {
        scalar: -1,
        vector: Vector { e0: 1, e1: 2, e2: 0 },
        bivector: Bivector { e01: -2, e20: 3, e12: 1 },
        trivector: Trivector { e012: 1 },
    };

    let grouped_left = a.geo(&b).geo(&c);
    let grouped_right = a.geo(&b.geo(&c));

    assert_eq!(grouped_left, grouped_right);

    let expected = Multivector {
        scalar: -32,
        vector: Vector { e0: -23, e1: 8, e2: -30 },
        bivector: Bivector { e01: 3, e20: -61, e12: -10 },
        trivector: Trivector { e012: 11 },
    };
    assert_eq!(grouped_left, expected);
}

#[test]
fn reverse_involution() {
    let mv = Multivector {
        scalar: 3,
        vector: Vector { e0: -2, e1: 5, e2: 7 },
        bivector: Bivector { e01: 11, e20: -4, e12: 6 },
        trivector: Trivector { e012: 9 },
    };
    let reversed = mv.reverse();
    // The reverse negates exactly the bivector and trivector parts.
    assert_eq!(reversed.scalar, 3);
    assert_eq!(reversed.vector, mv.vector);
    assert_eq!(reversed.bivector, Bivector { e01: -11, e20: 4, e12: -6 });
    assert_eq!(reversed.trivector, Trivector { e012: -9 });
    // Applying it twice gives the value back.
    assert_eq!(reversed.reverse(), mv);
}

#[test]
fn grade_involution_negates_odd_grades() {
    let mv = Multivector {
        scalar: 3,
        vector: Vector { e0: -2, e1: 5, e2: 7 },
        bivector: Bivector { e01: 11, e20: -4, e12: 6 },
        trivector: Trivector { e012: 9 },
    };
    let inv = mv.grade_involution();
    assert_eq!(inv.scalar, 3);
    assert_eq!(inv.vector, Vector { e0: 2, e1: -5, e2: -7 });
    assert_eq!(inv.bivector, mv.bivector);
    assert_eq!(inv.trivector, Trivector { e012: -9 });
    assert_eq!(inv.grade_involution(), mv);
}

#[test]
fn magnitude_sqr_ignores_degenerate_blades() {
    // Only the scalar, e1, e2 and e12 coefficients contribute.
    let mv = Multivector {
        scalar: 3,
        vector: Vector { e0: -2, e1: 5, e2: 7 },
        bivector: Bivector { e01: 11, e20: -4, e12: 6 },
        trivector: Trivector { e012: 9 },
    };
    assert_eq!(mv.magnitude_sqr(), 3 * 3 + 5 * 5 + 7 * 7 + 6 * 6);
}

#[test]
fn grade_projection_each_grade() {
    let mv = Multivector {
        scalar: 3,
        vector: Vector { e0: -2, e1: 5, e2: 7 },
        bivector: Bivector { e01: 11, e20: -4, e12: 6 },
        trivector: Trivector { e012: 9 },
    };
    assert_eq!(mv.grade_proj(0), KVector::Scalar(3));
    assert_eq!(mv.grade_proj(1), KVector::Vector(mv.vector));
    assert_eq!(mv.grade_proj(2), KVector::Bivector(mv.bivector));
    assert_eq!(mv.grade_proj(3), KVector::Trivector(mv.trivector));
}

#[test]
fn multivector_constructors() {
    assert_eq!(
        Multivector::zero(),
        Multivector {
            scalar: 0,
            vector: Vector::zero(),
            bivector: Bivector::zero(),
            trivector: Trivector::zero(),
        }
    );
    let s = Multivector::from_scalar(4);
    assert_eq!(s.scalar, 4);
    assert_eq!(s.vector, Vector::zero());
    let v = Vector { e0: 1, e1: 2, e2: 3 };
    assert_eq!(Multivector::from_vector(v).vector, v);
    let b = Bivector { e01: 1, e20: 2, e12: 3 };
    assert_eq!(Multivector::from_bivector(b).bivector, b);
    let t = Trivector { e012: 5 };
    assert_eq!(Multivector::from_trivector(t).trivector, t);
}
