//! The grade-3 element: the pseudoscalar of the algebra. It squares to
//! zero because the ideal direction `e0` does.

use vstd::prelude::*;

use crate::bivector::Bivector;
use crate::k_vector::KVector;
use crate::model::{
    biv_in_range, mv_from_bivector, mv_from_trivector, mv_from_vector, mv_geo, tri_in_range,
    tri_scale, tri_zero, vec_in_range, KVectorModel, MvModel, TrivectorModel,
};
use crate::multivector::Multivector;
use crate::traits::{GeometricProduct, OuterProduct};
use crate::vector::Vector;

verus! {

/// The grade-3 element, with its single basis blade `e012`.
#[derive(Clone, Copy, Debug, PartialEq, Eq, Structural)]
pub struct Trivector {
    pub e012: i64,
}

impl View for Trivector {
    type V = TrivectorModel;

    open spec fn view(&self) -> TrivectorModel {
        TrivectorModel { e012: self.e012 as int }
    }
}

impl Trivector {
    /// The zero trivector.
    pub fn zero() -> (r: Trivector)
        ensures
            r@ == tri_zero(),
    {
        Trivector { e012: 0 }
    }

    /// A trivector from its coefficient.
    pub fn new(e012: i64) -> (r: Trivector)
        ensures
            r@ == (TrivectorModel { e012: e012 as int }),
    {
        Trivector { e012 }
    }

    /// Scalar multiplication of the pseudoscalar coefficient.
    pub fn scale(&self, rhs: i64) -> (r: Trivector)
        requires
            i64::MIN <= self@.e012 * rhs <= i64::MAX,
        ensures
            r@ == tri_scale(self@, rhs as int),
    {
        Trivector { e012: self.e012 * rhs }
    }

    /// This trivector in multivector form: the other grades are zero.
    pub fn to_multivector(&self) -> (r: Multivector)
        ensures
            r@ == mv_from_trivector(self@),
    {
        Multivector::from_trivector(*self)
    }

    /// A tagged single-grade element wrapping this trivector.
    pub fn to_k_vector(&self) -> (r: KVector)
        ensures
            r@ == KVectorModel::Trivector(self@),
    {
        KVector::Trivector(*self)
    }
}

impl GeometricProduct<Trivector> for Trivector {
    open spec fn geo_req(&self, other: &Trivector) -> bool {
        tri_in_range((*self)@) && tri_in_range((*other)@)
    }

    open spec fn geo_model(&self, other: &Trivector) -> MvModel {
        mv_geo(mv_from_trivector((*self)@), mv_from_trivector((*other)@))
    }

    /// Promote both operands to multivectors and use the full table.
    fn geo(&self, other: &Trivector) -> (r: Multivector) {
        let self_multivector = self.to_multivector();
        self_multivector.geo(&other.to_multivector())
    }
}

impl GeometricProduct<Vector> for Trivector {
    open spec fn geo_req(&self, other: &Vector) -> bool {
        tri_in_range((*self)@) && vec_in_range((*other)@)
    }

    open spec fn geo_model(&self, other: &Vector) -> MvModel {
        mv_geo(mv_from_trivector((*self)@), mv_from_vector((*other)@))
    }

    /// Promote both operands to multivectors and use the full table.
    fn geo(&self, other: &Vector) -> (r: Multivector) {
        let self_multivector = self.to_multivector();
        self_multivector.geo(&other.to_multivector())
    }
}

impl GeometricProduct<Bivector> for Trivector {
    open spec fn geo_req(&self, other: &Bivector) -> bool {
        tri_in_range((*self)@) && biv_in_range((*other)@)
    }

    open spec fn geo_model(&self, other: &Bivector) -> MvModel {
        mv_geo(mv_from_trivector((*self)@), mv_from_bivector((*other)@))
    }

    /// Promote both operands to multivectors and use the full table.
    fn geo(&self, other: &Bivector) -> (r: Multivector) {
        let self_multivector = self.to_multivector();
        self_multivector.geo(&other.to_multivector())
    }
}

impl OuterProduct<Trivector> for Trivector {
    // Two trivectors would have to wedge to grade 6, which does not exist.
    type Output = i64;

    open spec fn wedge_req(&self, other: &Trivector) -> bool {
        true
    }

    open spec fn wedge_post(&self, other: &Trivector, r: &i64) -> bool {
        *r == 0
    }

    /// The wedge of two trivectors is always the zero scalar.
    fn wedge(&self, other: &Trivector) -> (r: i64) {
        0
    }
}

} // verus!
