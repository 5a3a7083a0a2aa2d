//! Rigid transformations built on the sandwich product: reflections,
//! rotors (rotations about a point), motors (translations), and their
//! composition.

use vstd::prelude::*;

use crate::bivector::Bivector;
use crate::model::{
    biv_in_range, lemma_term_bound, motor_model, mv_from_bivector, mv_from_vector, mv_geo,
    mv_in_range, mv_sandwich, rotor_model, vec_in_range, BivectorModel, COEFF_LIMIT, MotorModel,
    MvModel, RotorModel, VectorModel,
};
use crate::multivector::Multivector;
use crate::traits::{Dagger, GeometricProduct};
use crate::trivector::Trivector;
use crate::vector::Vector;

verus! {

impl Multivector {
    /// Reflect this multivector across a vector (a line). The result is
    /// not normalized.
    pub fn reflect(&self, other: &Vector) -> (r: Multivector)
        requires
            mv_in_range(self@),
            vec_in_range(other@),
            mv_in_range(mv_geo(mv_from_vector(other@), self@)),
        ensures
            r@ == mv_geo(self@, mv_geo(mv_from_vector(other@), self@)),
    {
        let a = other.geo(self);
        self.geo(&a)
    }
}

impl Vector {
    /// Reflect this vector (a line) across another vector. The result is
    /// not normalized.
    pub fn reflect(&self, other: &Vector) -> (r: Vector)
        requires
            vec_in_range(self@),
            vec_in_range(other@),
            mv_in_range(mv_geo(mv_from_vector(self@), mv_from_vector(other@))),
        ensures
            r@ == mv_geo(
                mv_from_vector(other@),
                mv_geo(mv_from_vector(self@), mv_from_vector(other@)),
            ).vector,
    {
        other.geo(&self.geo(other)).vector
    }
}

impl Bivector {
    /// Reflect this bivector (a point) across a vector (a line). The
    /// result is not normalized.
    pub fn reflect(&self, other: &Vector) -> (r: Bivector)
        requires
            biv_in_range(self@),
            vec_in_range(other@),
            mv_in_range(mv_geo(mv_from_bivector(self@), mv_from_vector(other@))),
        ensures
            r@ == mv_geo(
                mv_from_vector(other@),
                mv_geo(mv_from_bivector(self@), mv_from_vector(other@)),
            ).bivector,
    {
        other.geo(&self.geo(other)).bivector
    }
}

/// Something that applies a rigid transformation by a sandwich product:
/// the target is sandwiched between the transformation's multivector and
/// its reverse, and projected back to its own grade.
pub trait RigidTransformation<V: View> {
    /// What the transformation and the target must satisfy so the two
    /// chained products stay inside `i64`.
    spec fn apply_req(&self, target: &V) -> bool;

    /// The transformed target, in the model.
    spec fn apply_view(&self, target: &V) -> V::V;

    fn apply(&self, target: &V) -> (r: V)
        requires
            self.apply_req(target),
        ensures
            r@ == self.apply_view(target),
    ;
}

/// A general rigid transformation: a sandwich around one multivector.
pub struct Transformer {
    multivector: Multivector,
}

impl View for Transformer {
    type V = MvModel;

    closed spec fn view(&self) -> MvModel {
        self.multivector@
    }
}

impl Transformer {
    /// The multivector the sandwich is built around.
    pub fn get_multivector(&self) -> (r: &Multivector)
        ensures
            r@ == self@,
    {
        &self.multivector
    }
}

impl RigidTransformation<Multivector> for Transformer {
    open spec fn apply_req(&self, target: &Multivector) -> bool {
        &&& mv_in_range((*self)@)
        &&& mv_in_range((*target)@)
        &&& mv_in_range(mv_geo((*target)@, (*self)@))
    }

    open spec fn apply_view(&self, target: &Multivector) -> MvModel {
        mv_sandwich((*self)@, (*target)@)
    }

    /// The sandwich product, kept as a full multivector.
    fn apply(&self, target: &Multivector) -> (r: Multivector) {
        self.multivector.reverse().geo(&target.geo(&self.multivector))
    }
}

impl RigidTransformation<Vector> for Transformer {
    open spec fn apply_req(&self, target: &Vector) -> bool {
        &&& mv_in_range((*self)@)
        &&& vec_in_range((*target)@)
        &&& mv_in_range(mv_geo(mv_from_vector((*target)@), (*self)@))
    }

    open spec fn apply_view(&self, target: &Vector) -> VectorModel {
        mv_sandwich((*self)@, mv_from_vector((*target)@)).vector
    }

    /// The sandwich product, projected back to grade 1.
    fn apply(&self, target: &Vector) -> (r: Vector) {
        self.multivector.reverse().geo(&target.geo(&self.multivector)).vector
    }
}

impl RigidTransformation<Bivector> for Transformer {
    open spec fn apply_req(&self, target: &Bivector) -> bool {
        &&& mv_in_range((*self)@)
        &&& biv_in_range((*target)@)
        &&& mv_in_range(mv_geo(mv_from_bivector((*target)@), (*self)@))
    }

    open spec fn apply_view(&self, target: &Bivector) -> BivectorModel {
        mv_sandwich((*self)@, mv_from_bivector((*target)@)).bivector
    }

    /// The sandwich product, projected back to grade 2.
    fn apply(&self, target: &Bivector) -> (r: Bivector) {
        self.multivector.reverse().geo(&target.geo(&self.multivector)).bivector
    }
}

/// A rotor: a rigid rotation about an axis point. Its multivector is the
/// cosine of the half angle plus the axis bivector scaled by the sine of
/// the half angle.
pub struct Rotor {
    cos_half: i64,
    sin_half: i64,
    transformer: Transformer,
}

impl View for Rotor {
    type V = RotorModel;

    closed spec fn view(&self) -> RotorModel {
        RotorModel {
            cos_half: self.cos_half as int,
            sin_half: self.sin_half as int,
            mv: self.transformer@,
        }
    }
}

impl Rotor {
    /// A rotor around `axis` (a point, as a bivector). The angle is given
    /// by the cosine and sine of its half; computing those from a radian
    /// or degree measure is the business of a floating-point angle
    /// collaborator.
    pub fn new(axis: Bivector, cos_half: i64, sin_half: i64) -> (r: Rotor)
        requires
            biv_in_range(axis@),
            -COEFF_LIMIT <= cos_half <= COEFF_LIMIT,
            -COEFF_LIMIT <= sin_half <= COEFF_LIMIT,
        ensures
            r@ == (RotorModel {
                cos_half: cos_half as int,
                sin_half: sin_half as int,
                mv: rotor_model(axis@, cos_half as int, sin_half as int),
            }),
    {
        proof {
            lemma_term_bound(axis.e01 as int, sin_half as int);
            lemma_term_bound(axis.e20 as int, sin_half as int);
            lemma_term_bound(axis.e12 as int, sin_half as int);
        }
        let mv = Multivector {
            scalar: cos_half,
            vector: Vector::zero(),
            bivector: axis.scale(sin_half),
            trivector: Trivector::zero(),
        };
        Rotor { cos_half, sin_half, transformer: Transformer { multivector: mv } }
    }

    /// The angle of this rotor, as the cosine and sine of its half: the
    /// exact form in which the rotor carries it.
    pub fn get_angle(&self) -> (r: (i64, i64))
        ensures
            r.0 == self@.cos_half,
            r.1 == self@.sin_half,
    {
        (self.cos_half, self.sin_half)
    }

    /// The underlying transformer.
    pub fn get_transformer(&self) -> (r: &Transformer)
        ensures
            r@ == self@.mv,
    {
        &self.transformer
    }
}

impl RigidTransformation<Multivector> for Rotor {
    open spec fn apply_req(&self, target: &Multivector) -> bool {
        &&& mv_in_range((*self)@.mv)
        &&& mv_in_range((*target)@)
        &&& mv_in_range(mv_geo((*target)@, (*self)@.mv))
    }

    open spec fn apply_view(&self, target: &Multivector) -> MvModel {
        mv_sandwich((*self)@.mv, (*target)@)
    }

    fn apply(&self, target: &Multivector) -> (r: Multivector) {
        self.transformer.apply(target)
    }
}

impl RigidTransformation<Vector> for Rotor {
    open spec fn apply_req(&self, target: &Vector) -> bool {
        &&& mv_in_range((*self)@.mv)
        &&& vec_in_range((*target)@)
        &&& mv_in_range(mv_geo(mv_from_vector((*target)@), (*self)@.mv))
    }

    open spec fn apply_view(&self, target: &Vector) -> VectorModel {
        mv_sandwich((*self)@.mv, mv_from_vector((*target)@)).vector
    }

    fn apply(&self, target: &Vector) -> (r: Vector) {
        self.transformer.apply(target)
    }
}

impl RigidTransformation<Bivector> for Rotor {
    open spec fn apply_req(&self, target: &Bivector) -> bool {
        &&& mv_in_range((*self)@.mv)
        &&& biv_in_range((*target)@)
        &&& mv_in_range(mv_geo(mv_from_bivector((*target)@), (*self)@.mv))
    }

    open spec fn apply_view(&self, target: &Bivector) -> BivectorModel {
        mv_sandwich((*self)@.mv, mv_from_bivector((*target)@)).bivector
    }

    fn apply(&self, target: &Bivector) -> (r: Bivector) {
        self.transformer.apply(target)
    }
}

/// A motor: a rigid translation towards a point at infinity. Its
/// multivector is `1` plus the direction bivector scaled by half the
/// displacement, with the direction's `e12` weight forced to zero.
pub struct Motor {
    x: i64,
    y: i64,
    displacement: i64,
    transformer: Transformer,
}

impl View for Motor {
    type V = MotorModel;

    closed spec fn view(&self) -> MotorModel {
        MotorModel {
            x: self.x as int,
            y: self.y as int,
            displacement: self.displacement as int,
            mv: self.transformer@,
        }
    }
}

impl Motor {
    /// A motor translating towards the direction `(x, y)` by the
    /// displacement `d`. The displacement must be even, since the motor
    /// carries exactly half of it and the coefficients are integers.
    pub fn new(x: i64, y: i64, d: i64) -> (r: Motor)
        requires
            -COEFF_LIMIT <= x <= COEFF_LIMIT,
            -COEFF_LIMIT <= y <= COEFF_LIMIT,
            -COEFF_LIMIT <= d <= COEFF_LIMIT,
            d % 2 == 0,
        ensures
            r@ == (MotorModel {
                x: x as int,
                y: y as int,
                displacement: d as int,
                mv: motor_model(x as int, y as int, d as int / 2),
            }),
    {
        let direction = Bivector { e20: x, e01: y, e12: 0 };
        let half_d = d / 2;
        proof {
            lemma_term_bound(y as int, half_d as int);
            lemma_term_bound(x as int, half_d as int);
        }
        let multivector = Multivector {
            scalar: 1,
            vector: Vector::zero(),
            bivector: direction.scale(half_d),
            trivector: Trivector::zero(),
        };
        Motor { x, y, displacement: d, transformer: Transformer { multivector } }
    }

    /// The point at infinity this motor translates towards.
    pub fn get_direction(&self) -> (r: Bivector)
        ensures
            r@ == (BivectorModel { e01: self@.y, e20: self@.x, e12: 0 }),
    {
        Bivector { e20: self.x, e01: self.y, e12: 0 }
    }

    /// The displacement of this translation.
    pub fn get_displacement(&self) -> (r: i64)
        ensures
            r == self@.displacement,
    {
        self.displacement
    }

    /// The underlying transformer.
    pub fn get_transformer(&self) -> (r: &Transformer)
        ensures
            r@ == self@.mv,
    {
        &self.transformer
    }
}

impl RigidTransformation<Multivector> for Motor {
    open spec fn apply_req(&self, target: &Multivector) -> bool {
        &&& mv_in_range((*self)@.mv)
        &&& mv_in_range((*target)@)
        &&& mv_in_range(mv_geo((*target)@, (*self)@.mv))
    }

    open spec fn apply_view(&self, target: &Multivector) -> MvModel {
        mv_sandwich((*self)@.mv, (*target)@)
    }

    fn apply(&self, target: &Multivector) -> (r: Multivector) {
        self.transformer.apply(target)
    }
}

impl RigidTransformation<Vector> for Motor {
    open spec fn apply_req(&self, target: &Vector) -> bool {
        &&& mv_in_range((*self)@.mv)
        &&& vec_in_range((*target)@)
        &&& mv_in_range(mv_geo(mv_from_vector((*target)@), (*self)@.mv))
    }

    open spec fn apply_view(&self, target: &Vector) -> VectorModel {
        mv_sandwich((*self)@.mv, mv_from_vector((*target)@)).vector
    }

    fn apply(&self, target: &Vector) -> (r: Vector) {
        self.transformer.apply(target)
    }
}

impl RigidTransformation<Bivector> for Motor {
    open spec fn apply_req(&self, target: &Bivector) -> bool {
        &&& mv_in_range((*self)@.mv)
        &&& biv_in_range((*target)@)
        &&& mv_in_range(mv_geo(mv_from_bivector((*target)@), (*self)@.mv))
    }

    open spec fn apply_view(&self, target: &Bivector) -> BivectorModel {
        mv_sandwich((*self)@.mv, mv_from_bivector((*target)@)).bivector
    }

    fn apply(&self, target: &Bivector) -> (r: Bivector) {
        self.transformer.apply(target)
    }
}

/// The views of a sequence of transformers.
pub open spec fn transformer_views(s: Seq<&Transformer>) -> Seq<MvModel> {
    s.map_values(|t: &Transformer| t@)
}

/// The left-to-right geometric-product accumulation of a sequence of
/// multivectors, seeded with the first element.
pub open spec fn mv_compose(s: Seq<MvModel>) -> MvModel
    recommends
        s.len() >= 1,
    decreases s.len(),
{
    if s.len() <= 1 {
        s[0]
    } else {
        mv_geo(mv_compose(s.drop_last()), s.last())
    }
}

/// Every step of the accumulation keeps its operands small enough for the
/// product to stay inside `i64`.
pub open spec fn compose_in_range(s: Seq<MvModel>) -> bool {
    &&& forall|i: int| 1 <= i < s.len() ==> mv_in_range(#[trigger] mv_compose(s.take(i)))
    &&& forall|i: int| 1 <= i < s.len() ==> mv_in_range(#[trigger] s[i])
}

/// Several rigid transformations combined into one by accumulating their
/// multivectors with the geometric product. Order matters: the product is
/// not commutative, exactly as composition of rigid motions is not.
pub struct MultiTransform {
    multivector: Multivector,
}

impl View for MultiTransform {
    type V = MvModel;

    closed spec fn view(&self) -> MvModel {
        self.multivector@
    }
}

impl MultiTransform {
    /// Combine the given transformers, applied left to right. The
    /// sequence must not be empty.
    pub fn new(transformations: Vec<&Transformer>) -> (r: MultiTransform)
        requires
            transformations@.len() >= 1,
            compose_in_range(transformer_views(transformations@)),
        ensures
            r@ == mv_compose(transformer_views(transformations@)),
    {
        let ghost models = transformer_views(transformations@);
        let first: &Transformer = transformations[0];
        let mut mv: Multivector = *first.get_multivector();
        proof {
            assert(models[0] == transformations@[0]@);
            assert(models.take(1) =~= seq![models[0]]);
        }
        let n: usize = transformations.len();
        let mut i: usize = 1;
        while i < n
            invariant
                1 <= i <= n,
                n == transformations@.len(),
                models == transformer_views(transformations@),
                compose_in_range(models),
                mv@ == mv_compose(models.take(i as int)),
            decreases n - i,
        {
            let t: &Transformer = transformations[i];
            proof {
                assert(models[i as int] == transformations@[i as int]@);
            }
            mv = mv.geo(t.get_multivector());
            proof {
                assert(models.take(i as int + 1).drop_last() =~= models.take(i as int));
                assert(models.take(i as int + 1).last() == models[i as int]);
            }
            i = i + 1;
        }
        proof {
            assert(models.take(n as int) =~= models);
        }
        MultiTransform { multivector: mv }
    }
}

impl RigidTransformation<Multivector> for MultiTransform {
    open spec fn apply_req(&self, target: &Multivector) -> bool {
        &&& mv_in_range((*self)@)
        &&& mv_in_range((*target)@)
        &&& mv_in_range(mv_geo((*target)@, (*self)@))
    }

    open spec fn apply_view(&self, target: &Multivector) -> MvModel {
        mv_sandwich((*self)@, (*target)@)
    }

    fn apply(&self, target: &Multivector) -> (r: Multivector) {
        self.multivector.reverse().geo(&target.geo(&self.multivector))
    }
}

impl RigidTransformation<Vector> for MultiTransform {
    open spec fn apply_req(&self, target: &Vector) -> bool {
        &&& mv_in_range((*self)@)
        &&& vec_in_range((*target)@)
        &&& mv_in_range(mv_geo(mv_from_vector((*target)@), (*self)@))
    }

    open spec fn apply_view(&self, target: &Vector) -> VectorModel {
        mv_sandwich((*self)@, mv_from_vector((*target)@)).vector
    }

    fn apply(&self, target: &Vector) -> (r: Vector) {
        self.multivector.reverse().geo(&target.geo(&self.multivector)).vector
    }
}

impl RigidTransformation<Bivector> for MultiTransform {
    open spec fn apply_req(&self, target: &Bivector) -> bool {
        &&& mv_in_range((*self)@)
        &&& biv_in_range((*target)@)
        &&& mv_in_range(mv_geo(mv_from_bivector((*target)@), (*self)@))
    }

    open spec fn apply_view(&self, target: &Bivector) -> BivectorModel {
        mv_sandwich((*self)@, mv_from_bivector((*target)@)).bivector
    }

    fn apply(&self, target: &Bivector) -> (r: Bivector) {
        self.multivector.reverse().geo(&target.geo(&self.multivector)).bivector
    }
}

} // verus!
