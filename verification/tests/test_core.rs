use simply_2dpga::traits::{Contraction, GeometricProduct};
use simply_2dpga::vector::Vector;

#[test]
fn mod_test_geometric_product() {
    // ...
}

#[test]
fn k_vector_test_geometric_product() {
    let v1 = Vector { e0: 1, e1: 2, e2: 3 };

    let v2 = Vector { e0: 2, e1: 3, e2: 4 };

    let _product = v1.geo(&v2);
}

#[test]
fn mod_test_wedge_product() {}

#[test]
fn test_dot_product() {
    let v1: Vector = Vector { e0: 2, e1: 2, e2: 0 };

    let v2: Vector = Vector { e0: 0, e1: 2, e2: 1 };

    let _dot = v1.inner(&v2);
}
