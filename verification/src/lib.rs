//! A small verified engine for two-dimensional projective geometric
//! algebra: a three-basis graded algebra with a degenerate metric, closed
//! under the geometric, outer and regressive products, with rotors and
//! motors built on top of the sandwich product.
//!
//! Coefficients are exact `i64` integers, and every operation carries a
//! contract that pins its result to the Cayley-table model in [`model`].

pub mod model;

pub mod bivector;
pub mod k_vector;
pub mod laws;
pub mod multivector;
pub mod traits;
pub mod transformations;
pub mod trivector;
pub mod vector;

pub use bivector::Bivector;
pub use k_vector::KVector;
pub use multivector::Multivector;
pub use traits::{
    Contraction, Dagger, GeometricProduct, GradeInvolution, GradeProjection, MagnitudeSqr,
    Normalize, OuterProduct, RegressiveProduct,
};
pub use transformations::{Motor, MultiTransform, RigidTransformation, Rotor, Transformer};
pub use trivector::Trivector;
pub use vector::Vector;
