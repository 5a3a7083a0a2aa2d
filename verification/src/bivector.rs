//! The grade-2 element. In two-dimensional projective geometric algebra a
//! bivector represents a point.

use vstd::prelude::*;

use crate::k_vector::KVector;
use crate::model::{
    biv_in_range, biv_regressive, biv_scale, biv_zero, lemma_term_bound, mv_from_bivector,
    mv_from_trivector, mv_from_vector, mv_geo, mv_in_range, tri_in_range, vec_in_range,
    BivectorModel, KVectorModel, MvModel,
};
use crate::multivector::Multivector;
use crate::traits::{GeometricProduct, GradeProjection, OuterProduct, RegressiveProduct};
use crate::trivector::Trivector;
use crate::vector::Vector;

verus! {

/// A grade-2 element over the basis `{e01, e20, e12}`. The ordering is
/// fixed and sign-significant: the middle blade is `e20`, not `e02`.
#[derive(Clone, Copy, Debug, PartialEq, Eq, Structural)]
pub struct Bivector {
    pub e01: i64,
    pub e20: i64,
    pub e12: i64,
}

impl View for Bivector {
    type V = BivectorModel;

    open spec fn view(&self) -> BivectorModel {
        BivectorModel { e01: self.e01 as int, e20: self.e20 as int, e12: self.e12 as int }
    }
}

impl Bivector {
    /// The zero bivector.
    pub fn zero() -> (r: Bivector)
        ensures
            r@ == biv_zero(),
    {
        Bivector { e01: 0, e20: 0, e12: 0 }
    }

    /// A bivector from its three coefficients.
    pub fn new(e01: i64, e20: i64, e12: i64) -> (r: Bivector)
        ensures
            r@ == (BivectorModel { e01: e01 as int, e20: e20 as int, e12: e12 as int }),
    {
        Bivector { e01, e20, e12 }
    }

    /// Coefficient-wise scalar multiplication.
    pub fn scale(&self, rhs: i64) -> (r: Bivector)
        requires
            i64::MIN <= self@.e01 * rhs <= i64::MAX,
            i64::MIN <= self@.e20 * rhs <= i64::MAX,
            i64::MIN <= self@.e12 * rhs <= i64::MAX,
        ensures
            r@ == biv_scale(self@, rhs as int),
    {
        Bivector { e01: self.e01 * rhs, e20: self.e20 * rhs, e12: self.e12 * rhs }
    }

    /// This bivector in multivector form: the other grades are zero.
    pub fn to_multivector(&self) -> (r: Multivector)
        ensures
            r@ == mv_from_bivector(self@),
    {
        Multivector::from_bivector(*self)
    }

    /// A tagged single-grade element wrapping this bivector.
    pub fn to_k_vector(&self) -> (r: KVector)
        ensures
            r@ == KVectorModel::Bivector(self@),
    {
        KVector::Bivector(*self)
    }
}

impl GeometricProduct<Multivector> for Bivector {
    open spec fn geo_req(&self, other: &Multivector) -> bool {
        biv_in_range((*self)@) && mv_in_range((*other)@)
    }

    open spec fn geo_model(&self, other: &Multivector) -> MvModel {
        mv_geo(mv_from_bivector((*self)@), (*other)@)
    }

    /// Promote to a multivector and use the full table.
    fn geo(&self, other: &Multivector) -> (r: Multivector) {
        self.to_multivector().geo(other)
    }
}

impl GeometricProduct<Bivector> for Bivector {
    open spec fn geo_req(&self, other: &Bivector) -> bool {
        biv_in_range((*self)@) && biv_in_range((*other)@)
    }

    open spec fn geo_model(&self, other: &Bivector) -> MvModel {
        mv_geo(mv_from_bivector((*self)@), mv_from_bivector((*other)@))
    }

    /// Promote both operands to multivectors and use the full table.
    fn geo(&self, other: &Bivector) -> (r: Multivector) {
        self.to_multivector().geo(&other.to_multivector())
    }
}

impl GeometricProduct<Vector> for Bivector {
    open spec fn geo_req(&self, other: &Vector) -> bool {
        biv_in_range((*self)@) && vec_in_range((*other)@)
    }

    open spec fn geo_model(&self, other: &Vector) -> MvModel {
        mv_geo(mv_from_bivector((*self)@), mv_from_vector((*other)@))
    }

    /// Promote both operands to multivectors and use the full table.
    fn geo(&self, other: &Vector) -> (r: Multivector) {
        self.to_multivector().geo(&other.to_multivector())
    }
}

impl GeometricProduct<Trivector> for Bivector {
    open spec fn geo_req(&self, other: &Trivector) -> bool {
        biv_in_range((*self)@) && tri_in_range((*other)@)
    }

    open spec fn geo_model(&self, other: &Trivector) -> MvModel {
        mv_geo(mv_from_bivector((*self)@), mv_from_trivector((*other)@))
    }

    /// Promote both operands to multivectors and use the full table.
    fn geo(&self, other: &Trivector) -> (r: Multivector) {
        self.to_multivector().geo(&other.to_multivector())
    }
}

impl OuterProduct<Bivector> for Bivector {
    // Two bivectors would have to wedge to grade 4, which does not exist.
    type Output = i64;

    open spec fn wedge_req(&self, other: &Bivector) -> bool {
        true
    }

    open spec fn wedge_post(&self, other: &Bivector, r: &i64) -> bool {
        *r == 0
    }

    /// The wedge of two bivectors is always the zero scalar.
    fn wedge(&self, other: &Bivector) -> (r: i64) {
        0
    }
}

impl OuterProduct<Vector> for Bivector {
    // A bivector wedged with a vector raises to the trivector.
    type Output = Trivector;

    open spec fn wedge_req(&self, other: &Vector) -> bool {
        biv_in_range((*self)@) && vec_in_range((*other)@)
    }

    open spec fn wedge_post(&self, other: &Vector, r: &Trivector) -> bool {
        (*r)@ == mv_geo(mv_from_bivector((*self)@), mv_from_vector((*other)@)).trivector
    }

    /// The grade-3 part of the geometric product.
    fn wedge(&self, other: &Vector) -> (r: Trivector) {
        let product = self.geo(other);
        product.grade_proj(3).to_trivector().unwrap()
    }
}

impl RegressiveProduct<Bivector> for Bivector {
    // The join of two points is the line through them.
    type Output = Vector;

    open spec fn regressive_req(&self, other: &Bivector) -> bool {
        biv_in_range((*self)@) && biv_in_range((*other)@)
    }

    open spec fn regressive_post(&self, other: &Bivector, r: &Vector) -> bool {
        (*r)@ == biv_regressive((*self)@, (*other)@)
    }

    /// The join of two points, written out directly rather than through
    /// the dual of the wedge.
    fn regressive(&self, other: &Bivector) -> (r: Vector) {
        proof {
            lemma_term_bound(self.e01 as int, other.e20 as int);
            lemma_term_bound(self.e20 as int, other.e01 as int);
            lemma_term_bound(self.e01 as int, other.e12 as int);
            lemma_term_bound(self.e12 as int, other.e01 as int);
            lemma_term_bound(self.e20 as int, other.e12 as int);
            lemma_term_bound(self.e12 as int, other.e20 as int);
        }
        Vector {
            e0: self.e01 * other.e20 - self.e20 * other.e01,
            e1: -(self.e01 * other.e12) + self.e12 * other.e01,
            e2: self.e20 * other.e12 - self.e12 * other.e20,
        }
    }
}

} // verus!
