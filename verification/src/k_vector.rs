//! A tagged single-grade element: a runtime dispatch layer for code that
//! does not know the grade of its operands until it runs.

use vstd::prelude::*;

use crate::bivector::Bivector;
use crate::model::{
    kv_as_mv, kv_wedge, lemma_scalar_geo_left, lemma_scalar_geo_right, lemma_term_bound,
    mv_from_bivector, mv_from_scalar, mv_from_trivector, mv_from_vector, mv_geo, mv_in_range,
    COEFF_LIMIT, KVectorModel, MvModel,
};
use crate::multivector::Multivector;
use crate::traits::{GeometricProduct, OuterProduct};
use crate::trivector::Trivector;
use crate::vector::Vector;

verus! {

/// One element of a single grade, tagged with that grade. Casting to the
/// wrong concrete grade is reported as an error, never coerced.
#[derive(Clone, Copy, Debug, PartialEq, Eq, Structural)]
pub enum KVector {
    Scalar(i64),
    Vector(Vector),
    Bivector(Bivector),
    Trivector(Trivector),
}

impl View for KVector {
    type V = KVectorModel;

    open spec fn view(&self) -> KVectorModel {
        match *self {
            KVector::Scalar(s) => KVectorModel::Scalar(s as int),
            KVector::Vector(v) => KVectorModel::Vector(v@),
            KVector::Bivector(b) => KVectorModel::Bivector(b@),
            KVector::Trivector(t) => KVectorModel::Trivector(t@),
        }
    }
}

impl KVector {
    /// Cast to a scalar; fails unless the tag is `Scalar`.
    pub fn to_scalar(&self) -> (r: Result<i64, &'static str>)
        ensures
            self@ is Scalar ==> r is Ok && r->Ok_0 == self@->Scalar_0,
            !(self@ is Scalar) ==> r is Err && r->Err_0@ == "Illegal scalar cast!"@,
    {
        if let KVector::Scalar(s) = *self {
            return Result::Ok(s);
        }
        Result::Err("Illegal scalar cast!")
    }

    /// Cast to a grade-1 vector; fails unless the tag is `Vector`.
    pub fn to_vector(&self) -> (r: Result<Vector, &'static str>)
        ensures
            self@ is Vector ==> r is Ok && r->Ok_0@ == self@->Vector_0,
            !(self@ is Vector) ==> r is Err && r->Err_0@ == "Illegal vector cast!"@,
    {
        if let KVector::Vector(v) = *self {
            return Result::Ok(v);
        }
        Result::Err("Illegal vector cast!")
    }

    /// Cast to a bivector; fails unless the tag is `Bivector`.
    pub fn to_bivector(&self) -> (r: Result<Bivector, &'static str>)
        ensures
            self@ is Bivector ==> r is Ok && r->Ok_0@ == self@->Bivector_0,
            !(self@ is Bivector) ==> r is Err && r->Err_0@ == "Illegal bivector cast!"@,
    {
        if let KVector::Bivector(b) = *self {
            return Result::Ok(b);
        }
        Result::Err("Illegal bivector cast!")
    }

    /// Cast to the trivector; fails unless the tag is `Trivector`.
    pub fn to_trivector(&self) -> (r: Result<Trivector, &'static str>)
        ensures
            self@ is Trivector ==> r is Ok && r->Ok_0@ == self@->Trivector_0,
            !(self@ is Trivector) ==> r is Err && r->Err_0@ == "Illegal trivector cast!"@,
    {
        if let KVector::Trivector(t) = *self {
            return Result::Ok(t);
        }
        Result::Err("Illegal trivector cast!")
    }
}

impl KVector {
    /// Geometric product when this element is a scalar: plain scalar
    /// multiplication of the other operand.
    fn geo_scalar(self_scalar: &i64, other: &KVector) -> (r: Multivector)
        requires
            -COEFF_LIMIT <= *self_scalar <= COEFF_LIMIT,
            mv_in_range(kv_as_mv(other@)),
        ensures
            r@ == mv_geo(mv_from_scalar(*self_scalar as int), kv_as_mv(other@)),
    {
        proof {
            lemma_scalar_geo_left(*self_scalar as int, kv_as_mv(other@));
        }
        match other {
            KVector::Scalar(other_scalar) => {
                proof {
                    lemma_term_bound(*self_scalar as int, *other_scalar as int);
                }
                Multivector::from_scalar((*self_scalar) * (*other_scalar))
            },
            KVector::Vector(other_vec) => {
                proof {
                    lemma_term_bound(other_vec.e0 as int, *self_scalar as int);
                    lemma_term_bound(other_vec.e1 as int, *self_scalar as int);
                    lemma_term_bound(other_vec.e2 as int, *self_scalar as int);
                }
                Multivector::from_vector(other_vec.scale(*self_scalar))
            },
            KVector::Bivector(other_bivec) => {
                proof {
                    lemma_term_bound(other_bivec.e01 as int, *self_scalar as int);
                    lemma_term_bound(other_bivec.e20 as int, *self_scalar as int);
                    lemma_term_bound(other_bivec.e12 as int, *self_scalar as int);
                }
                Multivector::from_bivector(other_bivec.scale(*self_scalar))
            },
            KVector::Trivector(other_trivec) => {
                proof {
                    lemma_term_bound(other_trivec.e012 as int, *self_scalar as int);
                }
                Multivector::from_trivector(other_trivec.scale(*self_scalar))
            },
        }
    }

    /// Geometric product when this element is a vector.
    fn geo_vector(self_vec: &Vector, other: &KVector) -> (r: Multivector)
        requires
            mv_in_range(mv_from_vector(self_vec@)),
            mv_in_range(kv_as_mv(other@)),
        ensures
            r@ == mv_geo(mv_from_vector(self_vec@), kv_as_mv(other@)),
    {
        match other {
            KVector::Scalar(other_scalar) => {
                proof {
                    lemma_scalar_geo_right(mv_from_vector(self_vec@), *other_scalar as int);
                    lemma_term_bound(self_vec.e0 as int, *other_scalar as int);
                    lemma_term_bound(self_vec.e1 as int, *other_scalar as int);
                    lemma_term_bound(self_vec.e2 as int, *other_scalar as int);
                }
                Multivector::from_vector(self_vec.scale(*other_scalar))
            },
            KVector::Vector(other_vec) => self_vec.geo(other_vec),
            KVector::Bivector(other_bivec) => self_vec.geo(other_bivec),
            KVector::Trivector(other_trivec) => self_vec.geo(other_trivec),
        }
    }

    /// Geometric product when this element is a bivector.
    fn geo_bivector(self_bivec: &Bivector, other: &KVector) -> (r: Multivector)
        requires
            mv_in_range(mv_from_bivector(self_bivec@)),
            mv_in_range(kv_as_mv(other@)),
        ensures
            r@ == mv_geo(mv_from_bivector(self_bivec@), kv_as_mv(other@)),
    {
        match other {
            KVector::Scalar(other_scalar) => {
                proof {
                    lemma_scalar_geo_right(mv_from_bivector(self_bivec@), *other_scalar as int);
                    lemma_term_bound(self_bivec.e01 as int, *other_scalar as int);
                    lemma_term_bound(self_bivec.e20 as int, *other_scalar as int);
                    lemma_term_bound(self_bivec.e12 as int, *other_scalar as int);
                }
                Multivector::from_bivector(self_bivec.scale(*other_scalar))
            },
            KVector::Vector(other_vec) => self_bivec.geo(other_vec),
            KVector::Bivector(other_bivec) => self_bivec.geo(other_bivec),
            KVector::Trivector(other_trivec) => self_bivec.geo(other_trivec),
        }
    }

    /// Geometric product when this element is the trivector.
    fn geo_trivector(self_trivec: &Trivector, other: &KVector) -> (r: Multivector)
        requires
            mv_in_range(mv_from_trivector(self_trivec@)),
            mv_in_range(kv_as_mv(other@)),
        ensures
            r@ == mv_geo(mv_from_trivector(self_trivec@), kv_as_mv(other@)),
    {
        match other {
            KVector::Scalar(other_scalar) => {
                proof {
                    lemma_scalar_geo_right(mv_from_trivector(self_trivec@), *other_scalar as int);
                    lemma_term_bound(self_trivec.e012 as int, *other_scalar as int);
                }
                Multivector::from_trivector(self_trivec.scale(*other_scalar))
            },
            KVector::Vector(other_vec) => self_trivec.geo(other_vec),
            KVector::Bivector(other_bivec) => self_trivec.geo(other_bivec),
            KVector::Trivector(other_trivec) => self_trivec.geo(other_trivec),
        }
    }
}

impl GeometricProduct<KVector> for KVector {
    open spec fn geo_req(&self, other: &KVector) -> bool {
        mv_in_range(kv_as_mv((*self)@)) && mv_in_range(kv_as_mv((*other)@))
    }

    open spec fn geo_model(&self, other: &KVector) -> MvModel {
        mv_geo(kv_as_mv((*self)@), kv_as_mv((*other)@))
    }

    /// Dispatch on the grade of this element; the result is a full
    /// multivector even when only one grade of it is populated.
    fn geo(&self, other: &KVector) -> (r: Multivector) {
        match self {
            KVector::Scalar(s) => KVector::geo_scalar(s, other),
            KVector::Vector(vec) => KVector::geo_vector(vec, other),
            KVector::Bivector(bivec) => KVector::geo_bivector(bivec, other),
            KVector::Trivector(e012) => KVector::geo_trivector(e012, other),
        }
    }
}

impl KVector {
    /// Wedge product when this element is a vector.
    fn wedge_vec(self_vec: &Vector, other: &KVector) -> (r: KVector)
        requires
            mv_in_range(mv_from_vector(self_vec@)),
            mv_in_range(kv_as_mv(other@)),
        ensures
            r@ == kv_wedge(KVectorModel::Vector(self_vec@), other@),
    {
        match other {
            KVector::Scalar(other_scalar) => {
                proof {
                    lemma_term_bound(self_vec.e0 as int, *other_scalar as int);
                    lemma_term_bound(self_vec.e1 as int, *other_scalar as int);
                    lemma_term_bound(self_vec.e2 as int, *other_scalar as int);
                }
                KVector::Vector(self_vec.scale(*other_scalar))
            },
            KVector::Vector(other_vec) => self_vec.wedge(other_vec).to_k_vector(),
            KVector::Bivector(other_bivec) => self_vec.wedge(other_bivec).to_k_vector(),
            KVector::Trivector(_other_trivec) => {
                // A vector wedged with the trivector would have to raise to
                // grade 4, which does not exist in this algebra.
                KVector::Scalar(0)
            },
        }
    }

    /// Wedge product when this element is a bivector.
    fn wedge_bivec(self_bivec: &Bivector, other: &KVector) -> (r: KVector)
        requires
            mv_in_range(mv_from_bivector(self_bivec@)),
            mv_in_range(kv_as_mv(other@)),
        ensures
            r@ == kv_wedge(KVectorModel::Bivector(self_bivec@), other@),
    {
        match other {
            KVector::Scalar(other_scalar) => {
                proof {
                    lemma_term_bound(self_bivec.e01 as int, *other_scalar as int);
                    lemma_term_bound(self_bivec.e20 as int, *other_scalar as int);
                    lemma_term_bound(self_bivec.e12 as int, *other_scalar as int);
                }
                KVector::Bivector(self_bivec.scale(*other_scalar))
            },
            KVector::Vector(other_vec) => self_bivec.wedge(other_vec).to_k_vector(),
            // Any higher grade would have to raise past grade 3.
            _ => KVector::Scalar(0),
        }
    }

    /// Wedge product when this element is the trivector.
    fn wedge_trivec(self_trivec: &Trivector, other: &KVector) -> (r: KVector)
        requires
            mv_in_range(mv_from_trivector(self_trivec@)),
            mv_in_range(kv_as_mv(other@)),
        ensures
            r@ == kv_wedge(KVectorModel::Trivector(self_trivec@), other@),
    {
        match other {
            KVector::Scalar(other_scalar) => {
                proof {
                    lemma_term_bound(self_trivec.e012 as int, *other_scalar as int);
                }
                KVector::Trivector(self_trivec.scale(*other_scalar))
            },
            // Any other grade would have to raise past grade 3.
            _ => KVector::Scalar(0),
        }
    }
}

impl OuterProduct<KVector> for KVector {
    // The wedge of two tagged elements is returned tagged, not cast.
    type Output = KVector;

    open spec fn wedge_req(&self, other: &KVector) -> bool {
        mv_in_range(kv_as_mv((*self)@)) && mv_in_range(kv_as_mv((*other)@))
    }

    open spec fn wedge_post(&self, other: &KVector, r: &KVector) -> bool {
        (*r)@ == kv_wedge((*self)@, (*other)@)
    }

    /// Dispatch on the grades of both operands. A pair whose grades would
    /// add past 3 collapses to the zero scalar.
    fn wedge(&self, other: &KVector) -> (r: KVector) {
        match self {
            // Wedging with a scalar is plain scalar multiplication.
            KVector::Scalar(self_scalar) => match other {
                KVector::Scalar(other_scalar) => {
                    proof {
                        lemma_term_bound(*self_scalar as int, *other_scalar as int);
                    }
                    KVector::Scalar((*self_scalar) * (*other_scalar))
                },
                KVector::Vector(other_vec) => {
                    proof {
                        lemma_term_bound(other_vec.e0 as int, *self_scalar as int);
                        lemma_term_bound(other_vec.e1 as int, *self_scalar as int);
                        lemma_term_bound(other_vec.e2 as int, *self_scalar as int);
                    }
                    KVector::Vector(other_vec.scale(*self_scalar))
                },
                KVector::Bivector(other_bivec) => {
                    proof {
                        lemma_term_bound(other_bivec.e01 as int, *self_scalar as int);
                        lemma_term_bound(other_bivec.e20 as int, *self_scalar as int);
                        lemma_term_bound(other_bivec.e12 as int, *self_scalar as int);
                    }
                    KVector::Bivector(other_bivec.scale(*self_scalar))
                },
                KVector::Trivector(other_trivec) => {
                    proof {
                        lemma_term_bound(other_trivec.e012 as int, *self_scalar as int);
                    }
                    KVector::Trivector(other_trivec.scale(*self_scalar))
                },
            },
            KVector::Vector(self_vec) => KVector::wedge_vec(self_vec, other),
            KVector::Bivector(self_bivec) => KVector::wedge_bivec(self_bivec, other),
            KVector::Trivector(self_trivec) => KVector::wedge_trivec(self_trivec, other),
        }
    }
}

} // verus!
