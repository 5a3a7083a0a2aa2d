//! The grade-1 element. In two-dimensional projective geometric algebra a
//! vector represents a line with an orientation and magnitude.

use vstd::prelude::*;

use crate::bivector::Bivector;
use crate::k_vector::KVector;
use crate::model::{
    biv_in_range, mv_from_bivector, mv_from_trivector, mv_from_vector, mv_geo, mv_in_range,
    tri_in_range, vec_in_range, vec_scale, vec_zero, KVectorModel, MvModel, VectorModel,
};
use crate::multivector::Multivector;
use crate::traits::{Contraction, GeometricProduct, GradeProjection, OuterProduct};
use crate::trivector::Trivector;

verus! {

/// A grade-1 element over the basis `{e0, e1, e2}`; `e0` is the ideal,
/// degenerate direction.
#[derive(Clone, Copy, Debug, PartialEq, Eq, Structural)]
pub struct Vector {
    pub e0: i64,
    pub e1: i64,
    pub e2: i64,
}

impl View for Vector {
    type V = VectorModel;

    open spec fn view(&self) -> VectorModel {
        VectorModel { e0: self.e0 as int, e1: self.e1 as int, e2: self.e2 as int }
    }
}

impl Vector {
    /// The zero vector.
    pub fn zero() -> (r: Vector)
        ensures
            r@ == vec_zero(),
    {
        Vector { e0: 0, e1: 0, e2: 0 }
    }

    /// A vector from its three coefficients.
    pub fn new(e0: i64, e1: i64, e2: i64) -> (r: Vector)
        ensures
            r@ == (VectorModel { e0: e0 as int, e1: e1 as int, e2: e2 as int }),
    {
        Vector { e0, e1, e2 }
    }

    /// Coefficient-wise scalar multiplication.
    pub fn scale(&self, rhs: i64) -> (r: Vector)
        requires
            i64::MIN <= self@.e0 * rhs <= i64::MAX,
            i64::MIN <= self@.e1 * rhs <= i64::MAX,
            i64::MIN <= self@.e2 * rhs <= i64::MAX,
        ensures
            r@ == vec_scale(self@, rhs as int),
    {
        Vector { e0: self.e0 * rhs, e1: self.e1 * rhs, e2: self.e2 * rhs }
    }

    /// This vector in multivector form: the other grades are zero.
    pub fn to_multivector(&self) -> (r: Multivector)
        ensures
            r@ == mv_from_vector(self@),
    {
        Multivector::from_vector(*self)
    }

    /// A tagged single-grade element wrapping this vector.
    pub fn to_k_vector(&self) -> (r: KVector)
        ensures
            r@ == KVectorModel::Vector(self@),
    {
        KVector::Vector(*self)
    }
}

impl GeometricProduct<Multivector> for Vector {
    open spec fn geo_req(&self, other: &Multivector) -> bool {
        vec_in_range((*self)@) && mv_in_range((*other)@)
    }

    open spec fn geo_model(&self, other: &Multivector) -> MvModel {
        mv_geo(mv_from_vector((*self)@), (*other)@)
    }

    /// Promote to a multivector and use the full table.
    fn geo(&self, other: &Multivector) -> (r: Multivector) {
        self.to_multivector().geo(other)
    }
}

impl GeometricProduct<Vector> for Vector {
    open spec fn geo_req(&self, other: &Vector) -> bool {
        vec_in_range((*self)@) && vec_in_range((*other)@)
    }

    open spec fn geo_model(&self, other: &Vector) -> MvModel {
        mv_geo(mv_from_vector((*self)@), mv_from_vector((*other)@))
    }

    /// Promote both operands to multivectors and use the full table.
    fn geo(&self, other: &Vector) -> (r: Multivector) {
        self.to_multivector().geo(&other.to_multivector())
    }
}

impl GeometricProduct<Bivector> for Vector {
    open spec fn geo_req(&self, other: &Bivector) -> bool {
        vec_in_range((*self)@) && biv_in_range((*other)@)
    }

    open spec fn geo_model(&self, other: &Bivector) -> MvModel {
        mv_geo(mv_from_vector((*self)@), mv_from_bivector((*other)@))
    }

    /// Promote both operands to multivectors and use the full table.
    fn geo(&self, other: &Bivector) -> (r: Multivector) {
        self.to_multivector().geo(&other.to_multivector())
    }
}

impl GeometricProduct<Trivector> for Vector {
    open spec fn geo_req(&self, other: &Trivector) -> bool {
        vec_in_range((*self)@) && tri_in_range((*other)@)
    }

    open spec fn geo_model(&self, other: &Trivector) -> MvModel {
        mv_geo(mv_from_vector((*self)@), mv_from_trivector((*other)@))
    }

    /// Promote both operands to multivectors and use the full table.
    fn geo(&self, other: &Trivector) -> (r: Multivector) {
        self.to_multivector().geo(&other.to_multivector())
    }
}

impl OuterProduct<Vector> for Vector {
    // A vector wedged with a vector raises to a bivector.
    type Output = Bivector;

    open spec fn wedge_req(&self, other: &Vector) -> bool {
        vec_in_range((*self)@) && vec_in_range((*other)@)
    }

    open spec fn wedge_post(&self, other: &Vector, r: &Bivector) -> bool {
        (*r)@ == mv_geo(mv_from_vector((*self)@), mv_from_vector((*other)@)).bivector
    }

    /// The grade-2 part of the geometric product.
    fn wedge(&self, other: &Vector) -> (r: Bivector) {
        let product = self.geo(other);
        product.grade_proj(2).to_bivector().unwrap()
    }
}

impl OuterProduct<Bivector> for Vector {
    // A vector wedged with a bivector raises to the trivector.
    type Output = Trivector;

    open spec fn wedge_req(&self, other: &Bivector) -> bool {
        vec_in_range((*self)@) && biv_in_range((*other)@)
    }

    open spec fn wedge_post(&self, other: &Bivector, r: &Trivector) -> bool {
        (*r)@ == mv_geo(mv_from_vector((*self)@), mv_from_bivector((*other)@)).trivector
    }

    /// The grade-3 part of the geometric product.
    fn wedge(&self, other: &Bivector) -> (r: Trivector) {
        let product = self.geo(other);
        product.grade_proj(3).to_trivector().unwrap()
    }
}

impl Contraction<Vector> for Vector {
    open spec fn contraction_req(&self, other: &Vector) -> bool {
        vec_in_range((*self)@) && vec_in_range((*other)@)
    }

    open spec fn contraction_value(&self, other: &Vector) -> int {
        mv_geo(mv_from_vector((*self)@), mv_from_vector((*other)@)).scalar
    }

    /// The scalar part of the geometric product.
    fn inner(&self, other: &Vector) -> (r: i64) {
        self.geo(other).grade_proj(0).to_scalar().unwrap()
    }

    /// Between two vectors the left contraction equals the dot product.
    fn contract_left(&self, other: &Vector) -> (r: i64) {
        self.geo(other).grade_proj(0).to_scalar().unwrap()
    }

    /// Between two vectors the right contraction equals the dot product.
    fn contract_right(&self, other: &Vector) -> (r: i64) {
        self.geo(other).grade_proj(0).to_scalar().unwrap()
    }
}

} // verus!
