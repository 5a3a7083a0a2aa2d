//! The operation traits of the algebra. Each trait carries its contract
//! through two specification hooks: a precondition that keeps the exact
//! integer arithmetic inside `i64`, and a statement of the result in terms
//! of the model in [`crate::model`].

use vstd::prelude::*;

use crate::k_vector::KVector;
use crate::model::{KVectorModel, MvModel};
use crate::multivector::Multivector;

verus! {

/// The geometric product: the fundamental associative, non-commutative
/// product of the algebra. Total over every ordered pair of grades, and
/// always returns the universal closure type, a [`Multivector`].
pub trait GeometricProduct<S> {
    /// What the operands must satisfy so the product stays inside `i64`.
    spec fn geo_req(&self, other: &S) -> bool;

    /// The value of the product in the Cayley-table model.
    spec fn geo_model(&self, other: &S) -> MvModel;

    fn geo(&self, other: &S) -> (r: Multivector)
        requires
            self.geo_req(other),
        ensures
            r@ == self.geo_model(other),
    ;
}

/// The wedge (outer) product: the grade-raising part of the geometric
/// product. Pairs whose grades would add up beyond grade 3 collapse to
/// zero, since no grade-4 element exists in this algebra.
pub trait OuterProduct<S> {
    type Output;

    /// What the operands must satisfy so the product stays inside `i64`.
    spec fn wedge_req(&self, other: &S) -> bool;

    /// How the result relates to the operands, in the model.
    spec fn wedge_post(&self, other: &S, r: &Self::Output) -> bool;

    fn wedge(&self, other: &S) -> (r: Self::Output)
        requires
            self.wedge_req(other),
        ensures
            self.wedge_post(other, &r),
    ;
}

/// The regressive product (join): dual to the wedge. For two points it is
/// the line through them.
pub trait RegressiveProduct<S> {
    type Output;

    /// What the operands must satisfy so the product stays inside `i64`.
    spec fn regressive_req(&self, other: &S) -> bool;

    /// How the result relates to the operands, in the model.
    spec fn regressive_post(&self, other: &S, r: &Self::Output) -> bool;

    fn regressive(&self, other: &S) -> (r: Self::Output)
        requires
            self.regressive_req(other),
        ensures
            self.regressive_post(other, &r),
    ;
}

/// Left and right contraction, and the dot (inner) product. Between two
/// grade-1 vectors the three coincide: each is the scalar part of the
/// geometric product.
pub trait Contraction<S> {
    /// What the operands must satisfy so the products stay inside `i64`.
    spec fn contraction_req(&self, other: &S) -> bool;

    /// The common value of the three contractions, in the model.
    spec fn contraction_value(&self, other: &S) -> int;

    fn inner(&self, other: &S) -> (r: i64)
        requires
            self.contraction_req(other),
        ensures
            r == self.contraction_value(other),
    ;

    fn contract_left(&self, other: &S) -> (r: i64)
        requires
            self.contraction_req(other),
        ensures
            r == self.contraction_value(other),
    ;

    fn contract_right(&self, other: &S) -> (r: i64)
        requires
            self.contraction_req(other),
        ensures
            r == self.contraction_value(other),
    ;
}

/// The dagger (reverse) operator: reverses the order of the basis vectors
/// inside every blade, which flips the sign every two grades.
pub trait Dagger: Sized {
    /// What the value must satisfy so the sign flips stay inside `i64`.
    spec fn reverse_req(&self) -> bool;

    /// How the result relates to the input, in the model.
    spec fn reverse_post(&self, r: &Self) -> bool;

    fn reverse(&self) -> (r: Self)
        requires
            self.reverse_req(),
        ensures
            self.reverse_post(&r),
    ;
}

/// Grade involution: flips the sign of every odd grade.
pub trait GradeInvolution: Sized {
    /// What the value must satisfy so the sign flips stay inside `i64`.
    spec fn involution_req(&self) -> bool;

    /// How the result relates to the input, in the model.
    spec fn involution_post(&self, r: &Self) -> bool;

    fn grade_involution(&self) -> (r: Self)
        requires
            self.involution_req(),
        ensures
            self.involution_post(&r),
    ;
}

/// Grade projection: extract one grade of a multivector as a tagged
/// single-grade element. The algebra has exactly the grades 0 through 3;
/// asking for any other grade is a caller bug and is rejected up front.
pub trait GradeProjection {
    /// The projected grade, in the model.
    spec fn proj_model(&self, grade: int) -> KVectorModel;

    fn grade_proj(&self, grade: u16) -> (r: KVector)
        requires
            grade <= 3,
        ensures
            r@ == self.proj_model(grade as int),
    ;
}

/// The square magnitude: the scalar part of `reverse(self) * self`. Under
/// the degenerate metric this can be zero for ideal elements; it is
/// non-negative for Euclidean ones.
pub trait MagnitudeSqr {
    /// What the value must satisfy so the product stays inside `i64`.
    spec fn magnitude_req(&self) -> bool;

    /// The value of the square magnitude, in the model.
    spec fn magnitude_model(&self) -> int;

    fn magnitude_sqr(&self) -> (r: i64)
        requires
            self.magnitude_req(),
        ensures
            r == self.magnitude_model(),
    ;
}

/// Return a normalized element of the same grade.
///
/// Normalization divides by a weight that is in general irrational (a
/// Euclidean norm) or a quotient of coefficients; neither has an exact
/// image in integer coefficients, so no grade implements this trait here.
/// It is declared as the interface a floating-point collaborator layer
/// implements for its own copies of the graded types.
pub trait Normalize: Sized {
    fn normalized(&self) -> Self;
}

} // verus!
