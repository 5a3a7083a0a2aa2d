//! The mathematical model of the algebra: unbounded-integer images of every
//! graded element, and the Cayley-table products over them.
//!
//! Every executable operation in this crate is specified against the
//! functions in this module, so the whole multiplication table can be
//! audited in one place.

use vstd::prelude::*;

verus! {

/// Model of a grade-1 element (a line). `e0` is the ideal, degenerate
/// direction: `e0 * e0 == 0` in this algebra.
pub ghost struct VectorModel {
    pub e0: int,
    pub e1: int,
    pub e2: int,
}

/// Model of a grade-2 element (a point). The basis ordering `e01, e20, e12`
/// is fixed and sign-significant: `e20`, not `e02`.
pub ghost struct BivectorModel {
    pub e01: int,
    pub e20: int,
    pub e12: int,
}

/// Model of the grade-3 pseudoscalar. It squares to zero because `e0` does.
pub ghost struct TrivectorModel {
    pub e012: int,
}

/// Model of a full multivector: one coefficient for each of the eight basis
/// blades, grouped by grade.
pub ghost struct MvModel {
    pub scalar: int,
    pub vector: VectorModel,
    pub bivector: BivectorModel,
    pub trivector: TrivectorModel,
}

pub open spec fn vec_zero() -> VectorModel {
    VectorModel { e0: 0, e1: 0, e2: 0 }
}

pub open spec fn biv_zero() -> BivectorModel {
    BivectorModel { e01: 0, e20: 0, e12: 0 }
}

pub open spec fn tri_zero() -> TrivectorModel {
    TrivectorModel { e012: 0 }
}

pub open spec fn mv_zero() -> MvModel {
    MvModel {
        scalar: 0,
        vector: vec_zero(),
        bivector: biv_zero(),
        trivector: tri_zero(),
    }
}

pub open spec fn mv_from_scalar(s: int) -> MvModel {
    MvModel {
        scalar: s,
        vector: vec_zero(),
        bivector: biv_zero(),
        trivector: tri_zero(),
    }
}

pub open spec fn mv_from_vector(v: VectorModel) -> MvModel {
    MvModel {
        scalar: 0,
        vector: v,
        bivector: biv_zero(),
        trivector: tri_zero(),
    }
}

pub open spec fn mv_from_bivector(b: BivectorModel) -> MvModel {
    MvModel {
        scalar: 0,
        vector: vec_zero(),
        bivector: b,
        trivector: tri_zero(),
    }
}

pub open spec fn mv_from_trivector(t: TrivectorModel) -> MvModel {
    MvModel {
        scalar: 0,
        vector: vec_zero(),
        bivector: biv_zero(),
        trivector: t,
    }
}

pub open spec fn vec_scale(v: VectorModel, k: int) -> VectorModel {
    VectorModel { e0: v.e0 * k, e1: v.e1 * k, e2: v.e2 * k }
}

pub open spec fn biv_scale(b: BivectorModel, k: int) -> BivectorModel {
    BivectorModel { e01: b.e01 * k, e20: b.e20 * k, e12: b.e12 * k }
}

pub open spec fn tri_scale(t: TrivectorModel, k: int) -> TrivectorModel {
    TrivectorModel { e012: t.e012 * k }
}

/// The geometric product, written out blade by blade.
///
/// This is the single source of truth for the metric `e1*e1 == 1`,
/// `e2*e2 == 1`, `e0*e0 == 0`, the cyclic bivector basis `e1e2 == e12`,
/// `e2e0 == e20`, `e0e1 == e01`, and anti-commutation of distinct basis
/// vectors. Every product operation in the crate reduces to this table.
pub open spec fn mv_geo(a: MvModel, b: MvModel) -> MvModel {
    MvModel {
        scalar: a.vector.e1 * b.vector.e1 + a.vector.e2 * b.vector.e2
            - a.bivector.e12 * b.bivector.e12 + a.scalar * b.scalar,
        vector: VectorModel {
            e0: -(a.vector.e1 * b.bivector.e01) + a.vector.e2 * b.bivector.e20
                + a.bivector.e01 * b.vector.e1 - a.bivector.e20 * b.vector.e2
                - a.bivector.e12 * b.trivector.e012 - a.trivector.e012 * b.bivector.e12
                + a.scalar * b.vector.e0 + a.vector.e0 * b.scalar,
            e1: -(a.vector.e2 * b.bivector.e12) + a.bivector.e12 * b.vector.e2
                + a.scalar * b.vector.e1 + a.vector.e1 * b.scalar,
            e2: a.vector.e1 * b.bivector.e12 - a.bivector.e12 * b.vector.e1
                + a.scalar * b.vector.e2 + a.vector.e2 * b.scalar,
        },
        bivector: BivectorModel {
            e01: a.vector.e0 * b.vector.e1 - a.vector.e1 * b.vector.e0
                + a.vector.e2 * b.trivector.e012 + a.bivector.e20 * b.bivector.e12
                - a.bivector.e12 * b.bivector.e20 + a.trivector.e012 * b.vector.e2
                + a.scalar * b.bivector.e01 + a.bivector.e01 * b.scalar,
            e20: -(a.vector.e0 * b.vector.e2) + a.vector.e1 * b.trivector.e012
                + a.vector.e2 * b.vector.e0 - a.bivector.e01 * b.bivector.e12
                + a.bivector.e12 * b.bivector.e01 + a.trivector.e012 * b.vector.e1
                + a.scalar * b.bivector.e20 + a.bivector.e20 * b.scalar,
            e12: a.vector.e1 * b.vector.e2 - a.vector.e2 * b.vector.e1
                + a.scalar * b.bivector.e12 + a.bivector.e12 * b.scalar,
        },
        trivector: TrivectorModel {
            e012: a.vector.e0 * b.bivector.e12 + a.vector.e1 * b.bivector.e20
                + a.vector.e2 * b.bivector.e01 + a.bivector.e01 * b.vector.e2
                + a.bivector.e20 * b.vector.e1 + a.bivector.e12 * b.vector.e0
                + a.scalar * b.trivector.e012 + a.trivector.e012 * b.scalar,
        },
    }
}

/// The reverse (dagger): the sign flips every two grades, so the bivector
/// and trivector parts are negated and the scalar and vector parts kept.
pub open spec fn mv_reverse(a: MvModel) -> MvModel {
    MvModel {
        scalar: a.scalar,
        vector: a.vector,
        bivector: BivectorModel { e01: -a.bivector.e01, e20: -a.bivector.e20, e12: -a.bivector.e12 },
        trivector: TrivectorModel { e012: -a.trivector.e012 },
    }
}

/// Grade involution: the sign flips every grade, so the odd-grade (vector
/// and trivector) parts are negated.
pub open spec fn mv_involution(a: MvModel) -> MvModel {
    MvModel {
        scalar: a.scalar,
        vector: VectorModel { e0: -a.vector.e0, e1: -a.vector.e1, e2: -a.vector.e2 },
        bivector: a.bivector,
        trivector: TrivectorModel { e012: -a.trivector.e012 },
    }
}

/// The square magnitude: the scalar part of `reverse(a) * a`.
pub open spec fn mv_magnitude_sqr(a: MvModel) -> int {
    mv_geo(mv_reverse(a), a).scalar
}

/// The regressive product (join) of two points: the line through them.
pub open spec fn biv_regressive(a: BivectorModel, b: BivectorModel) -> VectorModel {
    VectorModel {
        e0: a.e01 * b.e20 - a.e20 * b.e01,
        e1: -(a.e01 * b.e12) + a.e12 * b.e01,
        e2: a.e20 * b.e12 - a.e12 * b.e20,
    }
}

/// The sandwich product that applies a rigid transformation held in `m` to
/// the target `t`.
pub open spec fn mv_sandwich(m: MvModel, t: MvModel) -> MvModel {
    mv_geo(mv_reverse(m), mv_geo(t, m))
}

/// Model of a tagged single-grade element: exactly one grade populated.
pub ghost enum KVectorModel {
    Scalar(int),
    Vector(VectorModel),
    Bivector(BivectorModel),
    Trivector(TrivectorModel),
}

/// Promotion of a single-grade element into the full multivector space.
pub open spec fn kv_as_mv(k: KVectorModel) -> MvModel {
    match k {
        KVectorModel::Scalar(s) => mv_from_scalar(s),
        KVectorModel::Vector(v) => mv_from_vector(v),
        KVectorModel::Bivector(b) => mv_from_bivector(b),
        KVectorModel::Trivector(t) => mv_from_trivector(t),
    }
}

/// Grade projection of a multivector: the requested grade, re-tagged.
/// Grades outside 0..=3 do not exist in this algebra; the executable
/// projection rejects them up front, and this function maps them to the
/// trivector arm only to stay total.
pub open spec fn mv_grade_proj(a: MvModel, grade: int) -> KVectorModel {
    if grade == 0 {
        KVectorModel::Scalar(a.scalar)
    } else if grade == 1 {
        KVectorModel::Vector(a.vector)
    } else if grade == 2 {
        KVectorModel::Bivector(a.bivector)
    } else {
        KVectorModel::Trivector(a.trivector)
    }
}

/// The wedge (outer) product over tagged single-grade elements.
///
/// A scalar operand wedges by plain scalar multiplication; two grades that
/// would have to add up beyond grade 3 collapse to the zero scalar, since
/// no grade-4 element exists in this algebra; every other pairing is the
/// grade-(j+k) part of the geometric product.
pub open spec fn kv_wedge(a: KVectorModel, b: KVectorModel) -> KVectorModel {
    match (a, b) {
        (KVectorModel::Scalar(s), KVectorModel::Scalar(t)) => KVectorModel::Scalar(s * t),
        (KVectorModel::Scalar(s), KVectorModel::Vector(v)) => KVectorModel::Vector(vec_scale(v, s)),
        (KVectorModel::Scalar(s), KVectorModel::Bivector(bv)) => KVectorModel::Bivector(
            biv_scale(bv, s),
        ),
        (KVectorModel::Scalar(s), KVectorModel::Trivector(tv)) => KVectorModel::Trivector(
            tri_scale(tv, s),
        ),
        (KVectorModel::Vector(v), KVectorModel::Scalar(s)) => KVectorModel::Vector(vec_scale(v, s)),
        (KVectorModel::Vector(v), KVectorModel::Vector(w)) => KVectorModel::Bivector(
            mv_geo(mv_from_vector(v), mv_from_vector(w)).bivector,
        ),
        (KVectorModel::Vector(v), KVectorModel::Bivector(bv)) => KVectorModel::Trivector(
            mv_geo(mv_from_vector(v), mv_from_bivector(bv)).trivector,
        ),
        (KVectorModel::Vector(_), KVectorModel::Trivector(_)) => KVectorModel::Scalar(0),
        (KVectorModel::Bivector(bv), KVectorModel::Scalar(s)) => KVectorModel::Bivector(
            biv_scale(bv, s),
        ),
        (KVectorModel::Bivector(bv), KVectorModel::Vector(w)) => KVectorModel::Trivector(
            mv_geo(mv_from_bivector(bv), mv_from_vector(w)).trivector,
        ),
        (KVectorModel::Bivector(_), KVectorModel::Bivector(_)) => KVectorModel::Scalar(0),
        (KVectorModel::Bivector(_), KVectorModel::Trivector(_)) => KVectorModel::Scalar(0),
        (KVectorModel::Trivector(tv), KVectorModel::Scalar(s)) => KVectorModel::Trivector(
            tri_scale(tv, s),
        ),
        (KVectorModel::Trivector(_), KVectorModel::Vector(_)) => KVectorModel::Scalar(0),
        (KVectorModel::Trivector(_), KVectorModel::Bivector(_)) => KVectorModel::Scalar(0),
        (KVectorModel::Trivector(_), KVectorModel::Trivector(_)) => KVectorModel::Scalar(0),
    }
}

/// Coefficient-wise scalar multiplication of a whole multivector.
pub open spec fn mv_scale(a: MvModel, k: int) -> MvModel {
    MvModel {
        scalar: a.scalar * k,
        vector: vec_scale(a.vector, k),
        bivector: biv_scale(a.bivector, k),
        trivector: tri_scale(a.trivector, k),
    }
}

/// The multivector a rotor is built from: the cosine of the half angle as
/// the scalar part, plus the axis point scaled by the sine of the half
/// angle as the bivector part.
pub open spec fn rotor_model(axis: BivectorModel, cos_half: int, sin_half: int) -> MvModel {
    MvModel {
        scalar: cos_half,
        vector: vec_zero(),
        bivector: biv_scale(axis, sin_half),
        trivector: tri_zero(),
    }
}

/// The multivector a motor is built from: `1` plus the translation
/// direction scaled by half the displacement, with the pseudoscalar-like
/// `e12` weight of the direction forced to zero.
pub open spec fn motor_model(x: int, y: int, half_d: int) -> MvModel {
    MvModel {
        scalar: 1,
        vector: vec_zero(),
        bivector: BivectorModel { e01: y * half_d, e20: x * half_d, e12: 0 },
        trivector: tri_zero(),
    }
}

/// Model of a rotor: the cosine and sine of the half angle it was built
/// from, and the multivector its sandwich is built around.
pub ghost struct RotorModel {
    pub cos_half: int,
    pub sin_half: int,
    pub mv: MvModel,
}

/// Model of a motor: its direction, its displacement, and the multivector
/// its sandwich is built around.
pub ghost struct MotorModel {
    pub x: int,
    pub y: int,
    pub displacement: int,
    pub mv: MvModel,
}

/// Negating the bivector and trivector parts stays inside `i64`.
pub open spec fn mv_reverse_fits(a: MvModel) -> bool {
    &&& i64::MIN < a.bivector.e01
    &&& i64::MIN < a.bivector.e20
    &&& i64::MIN < a.bivector.e12
    &&& i64::MIN < a.trivector.e012
}

/// Negating the vector and trivector parts stays inside `i64`.
pub open spec fn mv_involution_fits(a: MvModel) -> bool {
    &&& i64::MIN < a.vector.e0
    &&& i64::MIN < a.vector.e1
    &&& i64::MIN < a.vector.e2
    &&& i64::MIN < a.trivector.e012
}

/// Largest coefficient magnitude an operand of a product may carry.
///
/// Each Cayley-table coefficient is a sum of at most eight products of two
/// operand coefficients, so operands bounded by this limit keep every
/// intermediate value of a product inside `i64` (8 * 10^18 < i64::MAX).
pub const COEFF_LIMIT: i64 = 1_000_000_000;

/// Bound on a single product of two in-range coefficients:
/// `COEFF_LIMIT * COEFF_LIMIT`.
pub const TERM_LIMIT: i64 = 1_000_000_000_000_000_000;

pub open spec fn vec_in_range(v: VectorModel) -> bool {
    &&& -COEFF_LIMIT <= v.e0 <= COEFF_LIMIT
    &&& -COEFF_LIMIT <= v.e1 <= COEFF_LIMIT
    &&& -COEFF_LIMIT <= v.e2 <= COEFF_LIMIT
}

pub open spec fn biv_in_range(b: BivectorModel) -> bool {
    &&& -COEFF_LIMIT <= b.e01 <= COEFF_LIMIT
    &&& -COEFF_LIMIT <= b.e20 <= COEFF_LIMIT
    &&& -COEFF_LIMIT <= b.e12 <= COEFF_LIMIT
}

pub open spec fn tri_in_range(t: TrivectorModel) -> bool {
    -COEFF_LIMIT <= t.e012 <= COEFF_LIMIT
}

/// Every one of the eight coefficients is small enough to be an operand of
/// a product without risking `i64` overflow.
pub open spec fn mv_in_range(a: MvModel) -> bool {
    &&& -COEFF_LIMIT <= a.scalar <= COEFF_LIMIT
    &&& vec_in_range(a.vector)
    &&& biv_in_range(a.bivector)
    &&& tri_in_range(a.trivector)
}

/// A geometric product with a pure scalar on the left is coefficient-wise
/// scalar multiplication.
pub proof fn lemma_scalar_geo_left(s: int, m: MvModel)
    ensures
        mv_geo(mv_from_scalar(s), m) == mv_scale(m, s),
{
    assert(s * m.scalar == m.scalar * s) by (nonlinear_arith);
    assert(s * m.vector.e0 == m.vector.e0 * s) by (nonlinear_arith);
    assert(s * m.vector.e1 == m.vector.e1 * s) by (nonlinear_arith);
    assert(s * m.vector.e2 == m.vector.e2 * s) by (nonlinear_arith);
    assert(s * m.bivector.e01 == m.bivector.e01 * s) by (nonlinear_arith);
    assert(s * m.bivector.e20 == m.bivector.e20 * s) by (nonlinear_arith);
    assert(s * m.bivector.e12 == m.bivector.e12 * s) by (nonlinear_arith);
    assert(s * m.trivector.e012 == m.trivector.e012 * s) by (nonlinear_arith);
}

/// A geometric product with a pure scalar on the right is coefficient-wise
/// scalar multiplication.
pub proof fn lemma_scalar_geo_right(m: MvModel, s: int)
    ensures
        mv_geo(m, mv_from_scalar(s)) == mv_scale(m, s),
{
}

/// A product of two coefficients bounded by `COEFF_LIMIT` is bounded by
/// `TERM_LIMIT`.
pub proof fn lemma_term_bound(x: int, y: int)
    by (nonlinear_arith)
    requires
        -COEFF_LIMIT <= x <= COEFF_LIMIT,
        -COEFF_LIMIT <= y <= COEFF_LIMIT,
    ensures
        -TERM_LIMIT <= x * y <= TERM_LIMIT,
{
}

} // verus!
