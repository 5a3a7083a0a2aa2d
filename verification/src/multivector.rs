//! The multivector: the universal closure type of every product in the
//! algebra, and the home of the full Cayley-table geometric product.

use vstd::prelude::*;

use crate::bivector::Bivector;
use crate::k_vector::KVector;
use crate::model::{
    lemma_term_bound, mv_from_bivector, mv_from_scalar, mv_from_trivector, mv_from_vector,
    mv_geo, mv_grade_proj, mv_in_range, mv_involution, mv_involution_fits, mv_magnitude_sqr,
    mv_reverse, mv_reverse_fits, mv_zero, KVectorModel, MvModel, TERM_LIMIT,
};
use crate::traits::{Dagger, GeometricProduct, GradeInvolution, GradeProjection, MagnitudeSqr};
use crate::trivector::Trivector;
use crate::vector::Vector;

verus! {

/// A full multivector: one `i64` coefficient for each of the eight basis
/// blades, grouped by grade. Any product of two graded elements yields
/// exactly this type.
#[derive(Clone, Copy, Debug, PartialEq, Eq, Structural)]
pub struct Multivector {
    pub scalar: i64,
    pub vector: Vector,
    pub bivector: Bivector,
    pub trivector: Trivector,
}

impl View for Multivector {
    type V = MvModel;

    open spec fn view(&self) -> MvModel {
        MvModel {
            scalar: self.scalar as int,
            vector: self.vector@,
            bivector: self.bivector@,
            trivector: self.trivector@,
        }
    }
}

impl Multivector {
    /// A multivector with every coefficient zero.
    pub fn zero() -> (r: Multivector)
        ensures
            r@ == mv_zero(),
    {
        Multivector {
            trivector: Trivector::zero(),
            bivector: Bivector::zero(),
            vector: Vector::zero(),
            scalar: 0,
        }
    }

    /// A multivector with only a scalar part.
    pub fn from_scalar(scalar: i64) -> (r: Multivector)
        ensures
            r@ == mv_from_scalar(scalar as int),
    {
        Multivector {
            trivector: Trivector::zero(),
            bivector: Bivector::zero(),
            vector: Vector::zero(),
            scalar,
        }
    }

    /// A multivector with only the given grade-1 part.
    pub fn from_vector(vector: Vector) -> (r: Multivector)
        ensures
            r@ == mv_from_vector(vector@),
    {
        Multivector {
            trivector: Trivector::zero(),
            bivector: Bivector::zero(),
            vector,
            scalar: 0,
        }
    }

    /// A multivector with only the given grade-2 part.
    pub fn from_bivector(bivector: Bivector) -> (r: Multivector)
        ensures
            r@ == mv_from_bivector(bivector@),
    {
        Multivector {
            trivector: Trivector::zero(),
            bivector,
            vector: Vector::zero(),
            scalar: 0,
        }
    }

    /// A multivector with only the given pseudoscalar part.
    pub fn from_trivector(trivector: Trivector) -> (r: Multivector)
        ensures
            r@ == mv_from_trivector(trivector@),
    {
        Multivector {
            trivector,
            bivector: Bivector::zero(),
            vector: Vector::zero(),
            scalar: 0,
        }
    }
}

/// Bounds every product of coefficients that the Cayley table multiplies,
/// so that the executable product can be checked overflow-free by linear
/// reasoning alone.
proof fn lemma_geo_term_bounds(a: Multivector, b: Multivector)
    requires
        mv_in_range(a@),
        mv_in_range(b@),
    ensures
            -TERM_LIMIT <= a.vector.e1 * b.vector.e1 <= TERM_LIMIT,
            -TERM_LIMIT <= a.vector.e2 * b.vector.e2 <= TERM_LIMIT,
            -TERM_LIMIT <= a.bivector.e12 * b.bivector.e12 <= TERM_LIMIT,
            -TERM_LIMIT <= a.scalar * b.scalar <= TERM_LIMIT,
            -TERM_LIMIT <= a.vector.e1 * b.bivector.e01 <= TERM_LIMIT,
            -TERM_LIMIT <= a.vector.e2 * b.bivector.e20 <= TERM_LIMIT,
            -TERM_LIMIT <= a.bivector.e01 * b.vector.e1 <= TERM_LIMIT,
            -TERM_LIMIT <= a.bivector.e20 * b.vector.e2 <= TERM_LIMIT,
            -TERM_LIMIT <= a.bivector.e12 * b.trivector.e012 <= TERM_LIMIT,
            -TERM_LIMIT <= a.trivector.e012 * b.bivector.e12 <= TERM_LIMIT,
            -TERM_LIMIT <= a.scalar * b.vector.e0 <= TERM_LIMIT,
            -TERM_LIMIT <= a.vector.e0 * b.scalar <= TERM_LIMIT,
            -TERM_LIMIT <= a.vector.e2 * b.bivector.e12 <= TERM_LIMIT,
            -TERM_LIMIT <= a.bivector.e12 * b.vector.e2 <= TERM_LIMIT,
            -TERM_LIMIT <= a.scalar * b.vector.e1 <= TERM_LIMIT,
            -TERM_LIMIT <= a.vector.e1 * b.scalar <= TERM_LIMIT,
            -TERM_LIMIT <= a.vector.e1 * b.bivector.e12 <= TERM_LIMIT,
            -TERM_LIMIT <= a.bivector.e12 * b.vector.e1 <= TERM_LIMIT,
            -TERM_LIMIT <= a.scalar * b.vector.e2 <= TERM_LIMIT,
            -TERM_LIMIT <= a.vector.e2 * b.scalar <= TERM_LIMIT,
            -TERM_LIMIT <= a.vector.e0 * b.vector.e1 <= TERM_LIMIT,
            -TERM_LIMIT <= a.vector.e1 * b.vector.e0 <= TERM_LIMIT,
            -TERM_LIMIT <= a.vector.e2 * b.trivector.e012 <= TERM_LIMIT,
            -TERM_LIMIT <= a.bivector.e20 * b.bivector.e12 <= TERM_LIMIT,
            -TERM_LIMIT <= a.bivector.e12 * b.bivector.e20 <= TERM_LIMIT,
            -TERM_LIMIT <= a.trivector.e012 * b.vector.e2 <= TERM_LIMIT,
            -TERM_LIMIT <= a.scalar * b.bivector.e01 <= TERM_LIMIT,
            -TERM_LIMIT <= a.bivector.e01 * b.scalar <= TERM_LIMIT,
            -TERM_LIMIT <= a.vector.e0 * b.vector.e2 <= TERM_LIMIT,
            -TERM_LIMIT <= a.vector.e1 * b.trivector.e012 <= TERM_LIMIT,
            -TERM_LIMIT <= a.vector.e2 * b.vector.e0 <= TERM_LIMIT,
            -TERM_LIMIT <= a.bivector.e01 * b.bivector.e12 <= TERM_LIMIT,
            -TERM_LIMIT <= a.bivector.e12 * b.bivector.e01 <= TERM_LIMIT,
            -TERM_LIMIT <= a.trivector.e012 * b.vector.e1 <= TERM_LIMIT,
            -TERM_LIMIT <= a.scalar * b.bivector.e20 <= TERM_LIMIT,
            -TERM_LIMIT <= a.bivector.e20 * b.scalar <= TERM_LIMIT,
            -TERM_LIMIT <= a.vector.e1 * b.vector.e2 <= TERM_LIMIT,
            -TERM_LIMIT <= a.vector.e2 * b.vector.e1 <= TERM_LIMIT,
            -TERM_LIMIT <= a.scalar * b.bivector.e12 <= TERM_LIMIT,
            -TERM_LIMIT <= a.bivector.e12 * b.scalar <= TERM_LIMIT,
            -TERM_LIMIT <= a.vector.e0 * b.bivector.e12 <= TERM_LIMIT,
            -TERM_LIMIT <= a.vector.e1 * b.bivector.e20 <= TERM_LIMIT,
            -TERM_LIMIT <= a.vector.e2 * b.bivector.e01 <= TERM_LIMIT,
            -TERM_LIMIT <= a.bivector.e01 * b.vector.e2 <= TERM_LIMIT,
            -TERM_LIMIT <= a.bivector.e20 * b.vector.e1 <= TERM_LIMIT,
            -TERM_LIMIT <= a.bivector.e12 * b.vector.e0 <= TERM_LIMIT,
            -TERM_LIMIT <= a.scalar * b.trivector.e012 <= TERM_LIMIT,
            -TERM_LIMIT <= a.trivector.e012 * b.scalar <= TERM_LIMIT,
{
lemma_term_bound(a.vector.e1 as int, b.vector.e1 as int);
        lemma_term_bound(a.vector.e2 as int, b.vector.e2 as int);
        lemma_term_bound(a.bivector.e12 as int, b.bivector.e12 as int);
        lemma_term_bound(a.scalar as int, b.scalar as int);
        lemma_term_bound(a.vector.e1 as int, b.bivector.e01 as int);
        lemma_term_bound(a.vector.e2 as int, b.bivector.e20 as int);
        lemma_term_bound(a.bivector.e01 as int, b.vector.e1 as int);
        lemma_term_bound(a.bivector.e20 as int, b.vector.e2 as int);
        lemma_term_bound(a.bivector.e12 as int, b.trivector.e012 as int);
        lemma_term_bound(a.trivector.e012 as int, b.bivector.e12 as int);
        lemma_term_bound(a.scalar as int, b.vector.e0 as int);
        lemma_term_bound(a.vector.e0 as int, b.scalar as int);
        lemma_term_bound(a.vector.e2 as int, b.bivector.e12 as int);
        lemma_term_bound(a.bivector.e12 as int, b.vector.e2 as int);
        lemma_term_bound(a.scalar as int, b.vector.e1 as int);
        lemma_term_bound(a.vector.e1 as int, b.scalar as int);
        lemma_term_bound(a.vector.e1 as int, b.bivector.e12 as int);
        lemma_term_bound(a.bivector.e12 as int, b.vector.e1 as int);
        lemma_term_bound(a.scalar as int, b.vector.e2 as int);
        lemma_term_bound(a.vector.e2 as int, b.scalar as int);
        lemma_term_bound(a.vector.e0 as int, b.vector.e1 as int);
        lemma_term_bound(a.vector.e1 as int, b.vector.e0 as int);
        lemma_term_bound(a.vector.e2 as int, b.trivector.e012 as int);
        lemma_term_bound(a.bivector.e20 as int, b.bivector.e12 as int);
        lemma_term_bound(a.bivector.e12 as int, b.bivector.e20 as int);
        lemma_term_bound(a.trivector.e012 as int, b.vector.e2 as int);
        lemma_term_bound(a.scalar as int, b.bivector.e01 as int);
        lemma_term_bound(a.bivector.e01 as int, b.scalar as int);
        lemma_term_bound(a.vector.e0 as int, b.vector.e2 as int);
        lemma_term_bound(a.vector.e1 as int, b.trivector.e012 as int);
        lemma_term_bound(a.vector.e2 as int, b.vector.e0 as int);
        lemma_term_bound(a.bivector.e01 as int, b.bivector.e12 as int);
        lemma_term_bound(a.bivector.e12 as int, b.bivector.e01 as int);
        lemma_term_bound(a.trivector.e012 as int, b.vector.e1 as int);
        lemma_term_bound(a.scalar as int, b.bivector.e20 as int);
        lemma_term_bound(a.bivector.e20 as int, b.scalar as int);
        lemma_term_bound(a.vector.e1 as int, b.vector.e2 as int);
        lemma_term_bound(a.vector.e2 as int, b.vector.e1 as int);
        lemma_term_bound(a.scalar as int, b.bivector.e12 as int);
        lemma_term_bound(a.bivector.e12 as int, b.scalar as int);
        lemma_term_bound(a.vector.e0 as int, b.bivector.e12 as int);
        lemma_term_bound(a.vector.e1 as int, b.bivector.e20 as int);
        lemma_term_bound(a.vector.e2 as int, b.bivector.e01 as int);
        lemma_term_bound(a.bivector.e01 as int, b.vector.e2 as int);
        lemma_term_bound(a.bivector.e20 as int, b.vector.e1 as int);
        lemma_term_bound(a.bivector.e12 as int, b.vector.e0 as int);
        lemma_term_bound(a.scalar as int, b.trivector.e012 as int);
        lemma_term_bound(a.trivector.e012 as int, b.scalar as int);
}

impl GeometricProduct<Multivector> for Multivector {
    open spec fn geo_req(&self, other: &Multivector) -> bool {
        mv_in_range((*self)@) && mv_in_range((*other)@)
    }

    open spec fn geo_model(&self, other: &Multivector) -> MvModel {
        mv_geo((*self)@, (*other)@)
    }

    /// The geometric product of two multivectors, written out directly
    /// from the Cayley table of the basis.
    fn geo(&self, other: &Multivector) -> (r: Multivector) {
        proof {
            lemma_geo_term_bounds(*self, *other);
        }
        let scalar: i64 = self.vector.e1 * other.vector.e1 + self.vector.e2 * other.vector.e2
            - self.bivector.e12 * other.bivector.e12 + self.scalar * other.scalar;

        let vector: Vector = Vector {
            e0: -(self.vector.e1 * other.bivector.e01) + self.vector.e2 * other.bivector.e20
                + self.bivector.e01 * other.vector.e1 - self.bivector.e20 * other.vector.e2
                - self.bivector.e12 * other.trivector.e012
                - self.trivector.e012 * other.bivector.e12 + self.scalar * other.vector.e0
                + self.vector.e0 * other.scalar,
            e1: -(self.vector.e2 * other.bivector.e12) + self.bivector.e12 * other.vector.e2
                + self.scalar * other.vector.e1 + self.vector.e1 * other.scalar,
            e2: self.vector.e1 * other.bivector.e12 - self.bivector.e12 * other.vector.e1
                + self.scalar * other.vector.e2 + self.vector.e2 * other.scalar,
        };

        let bivector: Bivector = Bivector {
            e01: self.vector.e0 * other.vector.e1 - self.vector.e1 * other.vector.e0
                + self.vector.e2 * other.trivector.e012 + self.bivector.e20 * other.bivector.e12
                - self.bivector.e12 * other.bivector.e20 + self.trivector.e012 * other.vector.e2
                + self.scalar * other.bivector.e01 + self.bivector.e01 * other.scalar,
            e20: -(self.vector.e0 * other.vector.e2) + self.vector.e1 * other.trivector.e012
                + self.vector.e2 * other.vector.e0 - self.bivector.e01 * other.bivector.e12
                + self.bivector.e12 * other.bivector.e01 + self.trivector.e012 * other.vector.e1
                + self.scalar * other.bivector.e20 + self.bivector.e20 * other.scalar,
            e12: self.vector.e1 * other.vector.e2 - self.vector.e2 * other.vector.e1
                + self.scalar * other.bivector.e12 + self.bivector.e12 * other.scalar,
        };

        let trivector: Trivector = Trivector {
            e012: self.vector.e0 * other.bivector.e12 + self.vector.e1 * other.bivector.e20
                + self.vector.e2 * other.bivector.e01 + self.bivector.e01 * other.vector.e2
                + self.bivector.e20 * other.vector.e1 + self.bivector.e12 * other.vector.e0
                + self.scalar * other.trivector.e012 + self.trivector.e012 * other.scalar,
        };

        Multivector { trivector, bivector, vector, scalar }
    }
}

impl GradeProjection for Multivector {
    open spec fn proj_model(&self, grade: int) -> KVectorModel {
        mv_grade_proj((*self)@, grade)
    }

    /// Extract one grade of this multivector as a tagged element.
    fn grade_proj(&self, grade: u16) -> (r: KVector) {
        match grade {
            0 => KVector::Scalar(self.scalar),
            1 => KVector::Vector(self.vector),
            2 => KVector::Bivector(self.bivector),
            _ => KVector::Trivector(self.trivector),
        }
    }
}

impl Dagger for Multivector {
    open spec fn reverse_req(&self) -> bool {
        mv_reverse_fits((*self)@)
    }

    open spec fn reverse_post(&self, r: &Multivector) -> bool {
        (*r)@ == mv_reverse((*self)@)
    }

    /// The reverse: negate the bivector and trivector parts, keep the
    /// scalar and vector parts.
    fn reverse(&self) -> (r: Multivector) {
        Multivector {
            scalar: self.scalar,
            vector: self.vector,
            bivector: Bivector {
                e01: -self.bivector.e01,
                e20: -self.bivector.e20,
                e12: -self.bivector.e12,
            },
            trivector: Trivector { e012: -self.trivector.e012 },
        }
    }
}

impl GradeInvolution for Multivector {
    open spec fn involution_req(&self) -> bool {
        mv_involution_fits((*self)@)
    }

    open spec fn involution_post(&self, r: &Multivector) -> bool {
        (*r)@ == mv_involution((*self)@)
    }

    /// Grade involution: negate the odd-grade (vector and trivector)
    /// parts.
    fn grade_involution(&self) -> (r: Multivector) {
        Multivector {
            scalar: self.scalar,
            vector: Vector { e0: -self.vector.e0, e1: -self.vector.e1, e2: -self.vector.e2 },
            bivector: self.bivector,
            trivector: Trivector { e012: -self.trivector.e012 },
        }
    }
}

impl MagnitudeSqr for Multivector {
    open spec fn magnitude_req(&self) -> bool {
        mv_in_range((*self)@)
    }

    open spec fn magnitude_model(&self) -> int {
        mv_magnitude_sqr((*self)@)
    }

    /// The square magnitude: the scalar part of `reverse(self) * self`.
    fn magnitude_sqr(&self) -> (r: i64) {
        self.reverse().geo(self).scalar
    }
}

} // verus!
