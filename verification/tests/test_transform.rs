use simply_2dpga::bivector::Bivector;
use simply_2dpga::multivector::Multivector;
use simply_2dpga::traits::{Dagger, GeometricProduct};
use simply_2dpga::transformations::{Motor, MultiTransform, RigidTransformation, Rotor, Transformer};
use simply_2dpga::trivector::Trivector;
use simply_2dpga::vector::Vector;

#[test]
fn test_rotor_vector() {}

#[test]
fn test_rotor_multivector() {}

#[test]
fn rotor_zero_angle_is_identity() {
    // Angle zero: the half angle has cosine 1 and sine 0.
    let axis = Bivector { e01: 7, e20: 4, e12: 1 };
    let rotor = Rotor::new(axis, 1, 0);
    let point = Bivector { e01: -2, e20: 3, e12: 1 };
    assert_eq!(rotor.apply(&point), point);

    let mv = Multivector {
        scalar: 3,
        vector: Vector { e0: -2, e1: 5, e2: 7 },
        bivector: Bivector { e01: 11, e20: -4, e12: 6 },
        trivector: Trivector { e012: 9 },
    };
    assert_eq!(rotor.apply(&mv), mv);
}

#[test]
fn rotor_half_turn_about_point() {
    // Half-angle cosine 0 and sine 1 give a half turn: the point (3, -2)
    // rotated about (4, 7) lands on (5, 16).
    let axis = Bivector { e01: 7, e20: 4, e12: 1 };
    let rotor = Rotor::new(axis, 0, 1);
    let point = Bivector { e01: -2, e20: 3, e12: 1 };
    let turned = rotor.apply(&point);
    assert_eq!(turned, Bivector { e01: 16, e20: 5, e12: 1 });
}

#[test]
fn rotor_getters() {
    let axis = Bivector { e01: 7, e20: 4, e12: 1 };
    let rotor = Rotor::new(axis, 0, 1);
    assert_eq!(rotor.get_angle(), (0, 1));
    let mv = rotor.get_transformer().get_multivector();
    assert_eq!(mv.scalar, 0);
    assert_eq!(mv.bivector, axis);
}

#[test]
fn motor_translation() {
    let motor = Motor::new(2, 0, 4);
    let point = Bivector { e01: 5, e20: 3, e12: 1 };
    let moved = motor.apply(&point);
    assert_eq!(moved, Bivector { e01: -3, e20: 3, e12: 1 });
}

#[test]
fn motor_getters() {
    let motor = Motor::new(2, 0, 4);
    assert_eq!(motor.get_direction(), Bivector { e01: 0, e20: 2, e12: 0 });
    assert_eq!(motor.get_displacement(), 4);
    let mv = motor.get_transformer().get_multivector();
    assert_eq!(mv.scalar, 1);
    assert_eq!(mv.bivector, Bivector { e01: 0, e20: 4, e12: 0 });
}

#[test]
fn multi_transform_matches_sequential_application() {
    let first = Motor::new(2, 0, 2);
    let second = Motor::new(0, 3, 2);
    let point = Bivector { e01: 5, e20: 3, e12: 1 };

    let transformers: Vec<&Transformer> =
        vec![first.get_transformer(), second.get_transformer()];
    let combined = MultiTransform::new(transformers);

    let sequential = second.apply(&first.apply(&point));
    let at_once = combined.apply(&point);
    assert_eq!(at_once, sequential);
    assert_eq!(at_once, Bivector { e01: 1, e20: 9, e12: 1 });
}

#[test]
fn composition_order_matters() {
    // A rotation and a translation do not commute.
    let axis = Bivector { e01: 0, e20: 0, e12: 1 };
    let rotor = Rotor::new(axis, 0, 1);
    let motor = Motor::new(1, 0, 2);
    let point = Bivector { e01: 1, e20: 2, e12: 1 };

    let rotate_then_translate =
        MultiTransform::new(vec![rotor.get_transformer(), motor.get_transformer()]);
    let translate_then_rotate =
        MultiTransform::new(vec![motor.get_transformer(), rotor.get_transformer()]);

    assert_ne!(
        rotate_then_translate.apply(&point),
        translate_then_rotate.apply(&point)
    );
}

#[test]
fn reflect_bivector_across_vector() {
    let b = Bivector { e01: 1, e20: 2, e12: 1 };
    let v = Vector { e0: 0, e1: 1, e2: 0 };
    assert_eq!(b.reflect(&v), Bivector { e01: -1, e20: 2, e12: -1 });
}

#[test]
fn reflect_vector_across_vector() {
    let u = Vector { e0: 1, e1: 2, e2: 3 };
    let w = Vector { e0: 0, e1: 1, e2: 1 };
    assert_eq!(u.reflect(&w), Vector { e0: -2, e1: 6, e2: 4 });
}

#[test]
fn reflect_multivector_across_vector() {
    let m = Multivector {
        scalar: 1,
        vector: Vector { e0: 0, e1: 2, e2: 0 },
        bivector: Bivector { e01: 1, e20: 0, e12: 3 },
        trivector: Trivector { e012: 0 },
    };
    let v = Vector { e0: 1, e1: 1, e2: 0 };
    let reflected = m.reflect(&v);
    let expected = Multivector {
        scalar: 4,
        vector: Vector { e0: -12, e1: 14, e2: 0 },
        bivector: Bivector { e01: 4, e20: 12, e12: 12 },
        trivector: Trivector { e012: 6 },
    };
    assert_eq!(reflected, expected);
}

#[test]
fn transformer_sandwich_on_multivector() {
    // Applying a transformer to a full multivector keeps all grades.
    let axis = Bivector { e01: 0, e20: 0, e12: 1 };
    let rotor = Rotor::new(axis, 0, 1);
    let mv = Multivector {
        scalar: 2,
        vector: Vector { e0: 1, e1: 1, e2: 0 },
        bivector: Bivector { e01: 1, e20: 2, e12: 1 },
        trivector: Trivector { e012: 1 },
    };
    let out = rotor.get_transformer().apply(&mv);
    let by_hand = rotor
        .get_transformer()
        .get_multivector()
        .reverse()
        .geo(&mv.geo(rotor.get_transformer().get_multivector()));
    assert_eq!(out, by_hand);
}
