//! Algebraic laws of the product engine, proved once over the model and
//! available to every caller.
//!
//! The associativity proof is deliberately mechanical. The nonlinear
//! solver cannot swallow the whole degree-3 identity at once, so each
//! coefficient of the grouped products is handled the same way: first
//! every product of a table row with a row polynomial is distributed into
//! signed triple products, then every triple product is reassociated, and
//! the remaining step is linear arithmetic over those monomials.

use vstd::prelude::*;

use crate::model::{
    biv_scale, biv_zero, kv_wedge, lemma_scalar_geo_left, lemma_scalar_geo_right, mv_from_scalar,
    mv_from_vector, mv_geo, mv_magnitude_sqr, mv_reverse, mv_sandwich, mv_scale, rotor_model,
    tri_zero, vec_zero, BivectorModel, KVectorModel, MvModel, TrivectorModel, VectorModel,
};

verus! {

/// Reassociation of every triple product of coefficients that the
/// grouped expansions of the table produce.
proof fn lemma_triple_products(a: MvModel, b: MvModel, c: MvModel)
    ensures
        (a.bivector.e01 * b.bivector.e12) * c.bivector.e12 == a.bivector.e01 * (b.bivector.e12 * c.bivector.e12),
        (a.bivector.e01 * b.bivector.e12) * c.scalar == a.bivector.e01 * (b.bivector.e12 * c.scalar),
        (a.bivector.e01 * b.bivector.e12) * c.vector.e1 == a.bivector.e01 * (b.bivector.e12 * c.vector.e1),
        (a.bivector.e01 * b.bivector.e12) * c.vector.e2 == a.bivector.e01 * (b.bivector.e12 * c.vector.e2),
        (a.bivector.e01 * b.scalar) * c.bivector.e12 == a.bivector.e01 * (b.scalar * c.bivector.e12),
        (a.bivector.e01 * b.scalar) * c.scalar == a.bivector.e01 * (b.scalar * c.scalar),
        (a.bivector.e01 * b.scalar) * c.vector.e1 == a.bivector.e01 * (b.scalar * c.vector.e1),
        (a.bivector.e01 * b.scalar) * c.vector.e2 == a.bivector.e01 * (b.scalar * c.vector.e2),
        (a.bivector.e01 * b.vector.e1) * c.bivector.e12 == a.bivector.e01 * (b.vector.e1 * c.bivector.e12),
        (a.bivector.e01 * b.vector.e1) * c.scalar == a.bivector.e01 * (b.vector.e1 * c.scalar),
        (a.bivector.e01 * b.vector.e1) * c.vector.e1 == a.bivector.e01 * (b.vector.e1 * c.vector.e1),
        (a.bivector.e01 * b.vector.e1) * c.vector.e2 == a.bivector.e01 * (b.vector.e1 * c.vector.e2),
        (a.bivector.e01 * b.vector.e2) * c.bivector.e12 == a.bivector.e01 * (b.vector.e2 * c.bivector.e12),
        (a.bivector.e01 * b.vector.e2) * c.scalar == a.bivector.e01 * (b.vector.e2 * c.scalar),
        (a.bivector.e01 * b.vector.e2) * c.vector.e1 == a.bivector.e01 * (b.vector.e2 * c.vector.e1),
        (a.bivector.e01 * b.vector.e2) * c.vector.e2 == a.bivector.e01 * (b.vector.e2 * c.vector.e2),
        (a.bivector.e12 * b.bivector.e01) * c.bivector.e12 == a.bivector.e12 * (b.bivector.e01 * c.bivector.e12),
        (a.bivector.e12 * b.bivector.e01) * c.scalar == a.bivector.e12 * (b.bivector.e01 * c.scalar),
        (a.bivector.e12 * b.bivector.e01) * c.vector.e1 == a.bivector.e12 * (b.bivector.e01 * c.vector.e1),
        (a.bivector.e12 * b.bivector.e01) * c.vector.e2 == a.bivector.e12 * (b.bivector.e01 * c.vector.e2),
        (a.bivector.e12 * b.bivector.e12) * c.bivector.e01 == a.bivector.e12 * (b.bivector.e12 * c.bivector.e01),
        (a.bivector.e12 * b.bivector.e12) * c.bivector.e12 == a.bivector.e12 * (b.bivector.e12 * c.bivector.e12),
        (a.bivector.e12 * b.bivector.e12) * c.bivector.e20 == a.bivector.e12 * (b.bivector.e12 * c.bivector.e20),
        (a.bivector.e12 * b.bivector.e12) * c.scalar == a.bivector.e12 * (b.bivector.e12 * c.scalar),
        (a.bivector.e12 * b.bivector.e12) * c.trivector.e012 == a.bivector.e12 * (b.bivector.e12 * c.trivector.e012),
        (a.bivector.e12 * b.bivector.e12) * c.vector.e0 == a.bivector.e12 * (b.bivector.e12 * c.vector.e0),
        (a.bivector.e12 * b.bivector.e12) * c.vector.e1 == a.bivector.e12 * (b.bivector.e12 * c.vector.e1),
        (a.bivector.e12 * b.bivector.e12) * c.vector.e2 == a.bivector.e12 * (b.bivector.e12 * c.vector.e2),
        (a.bivector.e12 * b.bivector.e20) * c.bivector.e12 == a.bivector.e12 * (b.bivector.e20 * c.bivector.e12),
        (a.bivector.e12 * b.bivector.e20) * c.scalar == a.bivector.e12 * (b.bivector.e20 * c.scalar),
        (a.bivector.e12 * b.bivector.e20) * c.vector.e1 == a.bivector.e12 * (b.bivector.e20 * c.vector.e1),
        (a.bivector.e12 * b.bivector.e20) * c.vector.e2 == a.bivector.e12 * (b.bivector.e20 * c.vector.e2),
        (a.bivector.e12 * b.scalar) * c.bivector.e01 == a.bivector.e12 * (b.scalar * c.bivector.e01),
        (a.bivector.e12 * b.scalar) * c.bivector.e12 == a.bivector.e12 * (b.scalar * c.bivector.e12),
        (a.bivector.e12 * b.scalar) * c.bivector.e20 == a.bivector.e12 * (b.scalar * c.bivector.e20),
        (a.bivector.e12 * b.scalar) * c.scalar == a.bivector.e12 * (b.scalar * c.scalar),
        (a.bivector.e12 * b.scalar) * c.trivector.e012 == a.bivector.e12 * (b.scalar * c.trivector.e012),
        (a.bivector.e12 * b.scalar) * c.vector.e0 == a.bivector.e12 * (b.scalar * c.vector.e0),
        (a.bivector.e12 * b.scalar) * c.vector.e1 == a.bivector.e12 * (b.scalar * c.vector.e1),
        (a.bivector.e12 * b.scalar) * c.vector.e2 == a.bivector.e12 * (b.scalar * c.vector.e2),
        (a.bivector.e12 * b.trivector.e012) * c.bivector.e12 == a.bivector.e12 * (b.trivector.e012 * c.bivector.e12),
        (a.bivector.e12 * b.trivector.e012) * c.scalar == a.bivector.e12 * (b.trivector.e012 * c.scalar),
        (a.bivector.e12 * b.trivector.e012) * c.vector.e1 == a.bivector.e12 * (b.trivector.e012 * c.vector.e1),
        (a.bivector.e12 * b.trivector.e012) * c.vector.e2 == a.bivector.e12 * (b.trivector.e012 * c.vector.e2),
        (a.bivector.e12 * b.vector.e0) * c.bivector.e12 == a.bivector.e12 * (b.vector.e0 * c.bivector.e12),
        (a.bivector.e12 * b.vector.e0) * c.scalar == a.bivector.e12 * (b.vector.e0 * c.scalar),
        (a.bivector.e12 * b.vector.e0) * c.vector.e1 == a.bivector.e12 * (b.vector.e0 * c.vector.e1),
        (a.bivector.e12 * b.vector.e0) * c.vector.e2 == a.bivector.e12 * (b.vector.e0 * c.vector.e2),
        (a.bivector.e12 * b.vector.e1) * c.bivector.e01 == a.bivector.e12 * (b.vector.e1 * c.bivector.e01),
        (a.bivector.e12 * b.vector.e1) * c.bivector.e12 == a.bivector.e12 * (b.vector.e1 * c.bivector.e12),
        (a.bivector.e12 * b.vector.e1) * c.bivector.e20 == a.bivector.e12 * (b.vector.e1 * c.bivector.e20),
        (a.bivector.e12 * b.vector.e1) * c.scalar == a.bivector.e12 * (b.vector.e1 * c.scalar),
        (a.bivector.e12 * b.vector.e1) * c.trivector.e012 == a.bivector.e12 * (b.vector.e1 * c.trivector.e012),
        (a.bivector.e12 * b.vector.e1) * c.vector.e0 == a.bivector.e12 * (b.vector.e1 * c.vector.e0),
        (a.bivector.e12 * b.vector.e1) * c.vector.e1 == a.bivector.e12 * (b.vector.e1 * c.vector.e1),
        (a.bivector.e12 * b.vector.e1) * c.vector.e2 == a.bivector.e12 * (b.vector.e1 * c.vector.e2),
        (a.bivector.e12 * b.vector.e2) * c.bivector.e01 == a.bivector.e12 * (b.vector.e2 * c.bivector.e01),
        (a.bivector.e12 * b.vector.e2) * c.bivector.e12 == a.bivector.e12 * (b.vector.e2 * c.bivector.e12),
        (a.bivector.e12 * b.vector.e2) * c.bivector.e20 == a.bivector.e12 * (b.vector.e2 * c.bivector.e20),
        (a.bivector.e12 * b.vector.e2) * c.scalar == a.bivector.e12 * (b.vector.e2 * c.scalar),
        (a.bivector.e12 * b.vector.e2) * c.trivector.e012 == a.bivector.e12 * (b.vector.e2 * c.trivector.e012),
        (a.bivector.e12 * b.vector.e2) * c.vector.e0 == a.bivector.e12 * (b.vector.e2 * c.vector.e0),
        (a.bivector.e12 * b.vector.e2) * c.vector.e1 == a.bivector.e12 * (b.vector.e2 * c.vector.e1),
        (a.bivector.e12 * b.vector.e2) * c.vector.e2 == a.bivector.e12 * (b.vector.e2 * c.vector.e2),
        (a.bivector.e20 * b.bivector.e12) * c.bivector.e12 == a.bivector.e20 * (b.bivector.e12 * c.bivector.e12),
        (a.bivector.e20 * b.bivector.e12) * c.scalar == a.bivector.e20 * (b.bivector.e12 * c.scalar),
        (a.bivector.e20 * b.bivector.e12) * c.vector.e1 == a.bivector.e20 * (b.bivector.e12 * c.vector.e1),
        (a.bivector.e20 * b.bivector.e12) * c.vector.e2 == a.bivector.e20 * (b.bivector.e12 * c.vector.e2),
        (a.bivector.e20 * b.scalar) * c.bivector.e12 == a.bivector.e20 * (b.scalar * c.bivector.e12),
        (a.bivector.e20 * b.scalar) * c.scalar == a.bivector.e20 * (b.scalar * c.scalar),
        (a.bivector.e20 * b.scalar) * c.vector.e1 == a.bivector.e20 * (b.scalar * c.vector.e1),
        (a.bivector.e20 * b.scalar) * c.vector.e2 == a.bivector.e20 * (b.scalar * c.vector.e2),
        (a.bivector.e20 * b.vector.e1) * c.bivector.e12 == a.bivector.e20 * (b.vector.e1 * c.bivector.e12),
        (a.bivector.e20 * b.vector.e1) * c.scalar == a.bivector.e20 * (b.vector.e1 * c.scalar),
        (a.bivector.e20 * b.vector.e1) * c.vector.e1 == a.bivector.e20 * (b.vector.e1 * c.vector.e1),
        (a.bivector.e20 * b.vector.e1) * c.vector.e2 == a.bivector.e20 * (b.vector.e1 * c.vector.e2),
        (a.bivector.e20 * b.vector.e2) * c.bivector.e12 == a.bivector.e20 * (b.vector.e2 * c.bivector.e12),
        (a.bivector.e20 * b.vector.e2) * c.scalar == a.bivector.e20 * (b.vector.e2 * c.scalar),
        (a.bivector.e20 * b.vector.e2) * c.vector.e1 == a.bivector.e20 * (b.vector.e2 * c.vector.e1),
        (a.bivector.e20 * b.vector.e2) * c.vector.e2 == a.bivector.e20 * (b.vector.e2 * c.vector.e2),
        (a.scalar * b.bivector.e01) * c.bivector.e12 == a.scalar * (b.bivector.e01 * c.bivector.e12),
        (a.scalar * b.bivector.e01) * c.scalar == a.scalar * (b.bivector.e01 * c.scalar),
        (a.scalar * b.bivector.e01) * c.vector.e1 == a.scalar * (b.bivector.e01 * c.vector.e1),
        (a.scalar * b.bivector.e01) * c.vector.e2 == a.scalar * (b.bivector.e01 * c.vector.e2),
        (a.scalar * b.bivector.e12) * c.bivector.e01 == a.scalar * (b.bivector.e12 * c.bivector.e01),
        (a.scalar * b.bivector.e12) * c.bivector.e12 == a.scalar * (b.bivector.e12 * c.bivector.e12),
        (a.scalar * b.bivector.e12) * c.bivector.e20 == a.scalar * (b.bivector.e12 * c.bivector.e20),
        (a.scalar * b.bivector.e12) * c.scalar == a.scalar * (b.bivector.e12 * c.scalar),
        (a.scalar * b.bivector.e12) * c.trivector.e012 == a.scalar * (b.bivector.e12 * c.trivector.e012),
        (a.scalar * b.bivector.e12) * c.vector.e0 == a.scalar * (b.bivector.e12 * c.vector.e0),
        (a.scalar * b.bivector.e12) * c.vector.e1 == a.scalar * (b.bivector.e12 * c.vector.e1),
        (a.scalar * b.bivector.e12) * c.vector.e2 == a.scalar * (b.bivector.e12 * c.vector.e2),
        (a.scalar * b.bivector.e20) * c.bivector.e12 == a.scalar * (b.bivector.e20 * c.bivector.e12),
        (a.scalar * b.bivector.e20) * c.scalar == a.scalar * (b.bivector.e20 * c.scalar),
        (a.scalar * b.bivector.e20) * c.vector.e1 == a.scalar * (b.bivector.e20 * c.vector.e1),
        (a.scalar * b.bivector.e20) * c.vector.e2 == a.scalar * (b.bivector.e20 * c.vector.e2),
        (a.scalar * b.scalar) * c.bivector.e01 == a.scalar * (b.scalar * c.bivector.e01),
        (a.scalar * b.scalar) * c.bivector.e12 == a.scalar * (b.scalar * c.bivector.e12),
        (a.scalar * b.scalar) * c.bivector.e20 == a.scalar * (b.scalar * c.bivector.e20),
        (a.scalar * b.scalar) * c.scalar == a.scalar * (b.scalar * c.scalar),
        (a.scalar * b.scalar) * c.trivector.e012 == a.scalar * (b.scalar * c.trivector.e012),
        (a.scalar * b.scalar) * c.vector.e0 == a.scalar * (b.scalar * c.vector.e0),
        (a.scalar * b.scalar) * c.vector.e1 == a.scalar * (b.scalar * c.vector.e1),
        (a.scalar * b.scalar) * c.vector.e2 == a.scalar * (b.scalar * c.vector.e2),
        (a.scalar * b.trivector.e012) * c.bivector.e12 == a.scalar * (b.trivector.e012 * c.bivector.e12),
        (a.scalar * b.trivector.e012) * c.scalar == a.scalar * (b.trivector.e012 * c.scalar),
        (a.scalar * b.trivector.e012) * c.vector.e1 == a.scalar * (b.trivector.e012 * c.vector.e1),
        (a.scalar * b.trivector.e012) * c.vector.e2 == a.scalar * (b.trivector.e012 * c.vector.e2),
        (a.scalar * b.vector.e0) * c.bivector.e12 == a.scalar * (b.vector.e0 * c.bivector.e12),
        (a.scalar * b.vector.e0) * c.scalar == a.scalar * (b.vector.e0 * c.scalar),
        (a.scalar * b.vector.e0) * c.vector.e1 == a.scalar * (b.vector.e0 * c.vector.e1),
        (a.scalar * b.vector.e0) * c.vector.e2 == a.scalar * (b.vector.e0 * c.vector.e2),
        (a.scalar * b.vector.e1) * c.bivector.e01 == a.scalar * (b.vector.e1 * c.bivector.e01),
        (a.scalar * b.vector.e1) * c.bivector.e12 == a.scalar * (b.vector.e1 * c.bivector.e12),
        (a.scalar * b.vector.e1) * c.bivector.e20 == a.scalar * (b.vector.e1 * c.bivector.e20),
        (a.scalar * b.vector.e1) * c.scalar == a.scalar * (b.vector.e1 * c.scalar),
        (a.scalar * b.vector.e1) * c.trivector.e012 == a.scalar * (b.vector.e1 * c.trivector.e012),
        (a.scalar * b.vector.e1) * c.vector.e0 == a.scalar * (b.vector.e1 * c.vector.e0),
        (a.scalar * b.vector.e1) * c.vector.e1 == a.scalar * (b.vector.e1 * c.vector.e1),
        (a.scalar * b.vector.e1) * c.vector.e2 == a.scalar * (b.vector.e1 * c.vector.e2),
        (a.scalar * b.vector.e2) * c.bivector.e01 == a.scalar * (b.vector.e2 * c.bivector.e01),
        (a.scalar * b.vector.e2) * c.bivector.e12 == a.scalar * (b.vector.e2 * c.bivector.e12),
        (a.scalar * b.vector.e2) * c.bivector.e20 == a.scalar * (b.vector.e2 * c.bivector.e20),
        (a.scalar * b.vector.e2) * c.scalar == a.scalar * (b.vector.e2 * c.scalar),
        (a.scalar * b.vector.e2) * c.trivector.e012 == a.scalar * (b.vector.e2 * c.trivector.e012),
        (a.scalar * b.vector.e2) * c.vector.e0 == a.scalar * (b.vector.e2 * c.vector.e0),
        (a.scalar * b.vector.e2) * c.vector.e1 == a.scalar * (b.vector.e2 * c.vector.e1),
        (a.scalar * b.vector.e2) * c.vector.e2 == a.scalar * (b.vector.e2 * c.vector.e2),
        (a.trivector.e012 * b.bivector.e12) * c.bivector.e12 == a.trivector.e012 * (b.bivector.e12 * c.bivector.e12),
        (a.trivector.e012 * b.bivector.e12) * c.scalar == a.trivector.e012 * (b.bivector.e12 * c.scalar),
        (a.trivector.e012 * b.bivector.e12) * c.vector.e1 == a.trivector.e012 * (b.bivector.e12 * c.vector.e1),
        (a.trivector.e012 * b.bivector.e12) * c.vector.e2 == a.trivector.e012 * (b.bivector.e12 * c.vector.e2),
        (a.trivector.e012 * b.scalar) * c.bivector.e12 == a.trivector.e012 * (b.scalar * c.bivector.e12),
        (a.trivector.e012 * b.scalar) * c.scalar == a.trivector.e012 * (b.scalar * c.scalar),
        (a.trivector.e012 * b.scalar) * c.vector.e1 == a.trivector.e012 * (b.scalar * c.vector.e1),
        (a.trivector.e012 * b.scalar) * c.vector.e2 == a.trivector.e012 * (b.scalar * c.vector.e2),
        (a.trivector.e012 * b.vector.e1) * c.bivector.e12 == a.trivector.e012 * (b.vector.e1 * c.bivector.e12),
        (a.trivector.e012 * b.vector.e1) * c.scalar == a.trivector.e012 * (b.vector.e1 * c.scalar),
        (a.trivector.e012 * b.vector.e1) * c.vector.e1 == a.trivector.e012 * (b.vector.e1 * c.vector.e1),
        (a.trivector.e012 * b.vector.e1) * c.vector.e2 == a.trivector.e012 * (b.vector.e1 * c.vector.e2),
        (a.trivector.e012 * b.vector.e2) * c.bivector.e12 == a.trivector.e012 * (b.vector.e2 * c.bivector.e12),
        (a.trivector.e012 * b.vector.e2) * c.scalar == a.trivector.e012 * (b.vector.e2 * c.scalar),
        (a.trivector.e012 * b.vector.e2) * c.vector.e1 == a.trivector.e012 * (b.vector.e2 * c.vector.e1),
        (a.trivector.e012 * b.vector.e2) * c.vector.e2 == a.trivector.e012 * (b.vector.e2 * c.vector.e2),
        (a.vector.e0 * b.bivector.e12) * c.bivector.e12 == a.vector.e0 * (b.bivector.e12 * c.bivector.e12),
        (a.vector.e0 * b.bivector.e12) * c.scalar == a.vector.e0 * (b.bivector.e12 * c.scalar),
        (a.vector.e0 * b.bivector.e12) * c.vector.e1 == a.vector.e0 * (b.bivector.e12 * c.vector.e1),
        (a.vector.e0 * b.bivector.e12) * c.vector.e2 == a.vector.e0 * (b.bivector.e12 * c.vector.e2),
        (a.vector.e0 * b.scalar) * c.bivector.e12 == a.vector.e0 * (b.scalar * c.bivector.e12),
        (a.vector.e0 * b.scalar) * c.scalar == a.vector.e0 * (b.scalar * c.scalar),
        (a.vector.e0 * b.scalar) * c.vector.e1 == a.vector.e0 * (b.scalar * c.vector.e1),
        (a.vector.e0 * b.scalar) * c.vector.e2 == a.vector.e0 * (b.scalar * c.vector.e2),
        (a.vector.e0 * b.vector.e1) * c.bivector.e12 == a.vector.e0 * (b.vector.e1 * c.bivector.e12),
        (a.vector.e0 * b.vector.e1) * c.scalar == a.vector.e0 * (b.vector.e1 * c.scalar),
        (a.vector.e0 * b.vector.e1) * c.vector.e1 == a.vector.e0 * (b.vector.e1 * c.vector.e1),
        (a.vector.e0 * b.vector.e1) * c.vector.e2 == a.vector.e0 * (b.vector.e1 * c.vector.e2),
        (a.vector.e0 * b.vector.e2) * c.bivector.e12 == a.vector.e0 * (b.vector.e2 * c.bivector.e12),
        (a.vector.e0 * b.vector.e2) * c.scalar == a.vector.e0 * (b.vector.e2 * c.scalar),
        (a.vector.e0 * b.vector.e2) * c.vector.e1 == a.vector.e0 * (b.vector.e2 * c.vector.e1),
        (a.vector.e0 * b.vector.e2) * c.vector.e2 == a.vector.e0 * (b.vector.e2 * c.vector.e2),
        (a.vector.e1 * b.bivector.e01) * c.bivector.e12 == a.vector.e1 * (b.bivector.e01 * c.bivector.e12),
        (a.vector.e1 * b.bivector.e01) * c.scalar == a.vector.e1 * (b.bivector.e01 * c.scalar),
        (a.vector.e1 * b.bivector.e01) * c.vector.e1 == a.vector.e1 * (b.bivector.e01 * c.vector.e1),
        (a.vector.e1 * b.bivector.e01) * c.vector.e2 == a.vector.e1 * (b.bivector.e01 * c.vector.e2),
        (a.vector.e1 * b.bivector.e12) * c.bivector.e01 == a.vector.e1 * (b.bivector.e12 * c.bivector.e01),
        (a.vector.e1 * b.bivector.e12) * c.bivector.e12 == a.vector.e1 * (b.bivector.e12 * c.bivector.e12),
        (a.vector.e1 * b.bivector.e12) * c.bivector.e20 == a.vector.e1 * (b.bivector.e12 * c.bivector.e20),
        (a.vector.e1 * b.bivector.e12) * c.scalar == a.vector.e1 * (b.bivector.e12 * c.scalar),
        (a.vector.e1 * b.bivector.e12) * c.trivector.e012 == a.vector.e1 * (b.bivector.e12 * c.trivector.e012),
        (a.vector.e1 * b.bivector.e12) * c.vector.e0 == a.vector.e1 * (b.bivector.e12 * c.vector.e0),
        (a.vector.e1 * b.bivector.e12) * c.vector.e1 == a.vector.e1 * (b.bivector.e12 * c.vector.e1),
        (a.vector.e1 * b.bivector.e12) * c.vector.e2 == a.vector.e1 * (b.bivector.e12 * c.vector.e2),
        (a.vector.e1 * b.bivector.e20) * c.bivector.e12 == a.vector.e1 * (b.bivector.e20 * c.bivector.e12),
        (a.vector.e1 * b.bivector.e20) * c.scalar == a.vector.e1 * (b.bivector.e20 * c.scalar),
        (a.vector.e1 * b.bivector.e20) * c.vector.e1 == a.vector.e1 * (b.bivector.e20 * c.vector.e1),
        (a.vector.e1 * b.bivector.e20) * c.vector.e2 == a.vector.e1 * (b.bivector.e20 * c.vector.e2),
        (a.vector.e1 * b.scalar) * c.bivector.e01 == a.vector.e1 * (b.scalar * c.bivector.e01),
        (a.vector.e1 * b.scalar) * c.bivector.e12 == a.vector.e1 * (b.scalar * c.bivector.e12),
        (a.vector.e1 * b.scalar) * c.bivector.e20 == a.vector.e1 * (b.scalar * c.bivector.e20),
        (a.vector.e1 * b.scalar) * c.scalar == a.vector.e1 * (b.scalar * c.scalar),
        (a.vector.e1 * b.scalar) * c.trivector.e012 == a.vector.e1 * (b.scalar * c.trivector.e012),
        (a.vector.e1 * b.scalar) * c.vector.e0 == a.vector.e1 * (b.scalar * c.vector.e0),
        (a.vector.e1 * b.scalar) * c.vector.e1 == a.vector.e1 * (b.scalar * c.vector.e1),
        (a.vector.e1 * b.scalar) * c.vector.e2 == a.vector.e1 * (b.scalar * c.vector.e2),
        (a.vector.e1 * b.trivector.e012) * c.bivector.e12 == a.vector.e1 * (b.trivector.e012 * c.bivector.e12),
        (a.vector.e1 * b.trivector.e012) * c.scalar == a.vector.e1 * (b.trivector.e012 * c.scalar),
        (a.vector.e1 * b.trivector.e012) * c.vector.e1 == a.vector.e1 * (b.trivector.e012 * c.vector.e1),
        (a.vector.e1 * b.trivector.e012) * c.vector.e2 == a.vector.e1 * (b.trivector.e012 * c.vector.e2),
        (a.vector.e1 * b.vector.e0) * c.bivector.e12 == a.vector.e1 * (b.vector.e0 * c.bivector.e12),
        (a.vector.e1 * b.vector.e0) * c.scalar == a.vector.e1 * (b.vector.e0 * c.scalar),
        (a.vector.e1 * b.vector.e0) * c.vector.e1 == a.vector.e1 * (b.vector.e0 * c.vector.e1),
        (a.vector.e1 * b.vector.e0) * c.vector.e2 == a.vector.e1 * (b.vector.e0 * c.vector.e2),
        (a.vector.e1 * b.vector.e1) * c.bivector.e01 == a.vector.e1 * (b.vector.e1 * c.bivector.e01),
        (a.vector.e1 * b.vector.e1) * c.bivector.e12 == a.vector.e1 * (b.vector.e1 * c.bivector.e12),
        (a.vector.e1 * b.vector.e1) * c.bivector.e20 == a.vector.e1 * (b.vector.e1 * c.bivector.e20),
        (a.vector.e1 * b.vector.e1) * c.scalar == a.vector.e1 * (b.vector.e1 * c.scalar),
        (a.vector.e1 * b.vector.e1) * c.trivector.e012 == a.vector.e1 * (b.vector.e1 * c.trivector.e012),
        (a.vector.e1 * b.vector.e1) * c.vector.e0 == a.vector.e1 * (b.vector.e1 * c.vector.e0),
        (a.vector.e1 * b.vector.e1) * c.vector.e1 == a.vector.e1 * (b.vector.e1 * c.vector.e1),
        (a.vector.e1 * b.vector.e1) * c.vector.e2 == a.vector.e1 * (b.vector.e1 * c.vector.e2),
        (a.vector.e1 * b.vector.e2) * c.bivector.e01 == a.vector.e1 * (b.vector.e2 * c.bivector.e01),
        (a.vector.e1 * b.vector.e2) * c.bivector.e12 == a.vector.e1 * (b.vector.e2 * c.bivector.e12),
        (a.vector.e1 * b.vector.e2) * c.bivector.e20 == a.vector.e1 * (b.vector.e2 * c.bivector.e20),
        (a.vector.e1 * b.vector.e2) * c.scalar == a.vector.e1 * (b.vector.e2 * c.scalar),
        (a.vector.e1 * b.vector.e2) * c.trivector.e012 == a.vector.e1 * (b.vector.e2 * c.trivector.e012),
        (a.vector.e1 * b.vector.e2) * c.vector.e0 == a.vector.e1 * (b.vector.e2 * c.vector.e0),
        (a.vector.e1 * b.vector.e2) * c.vector.e1 == a.vector.e1 * (b.vector.e2 * c.vector.e1),
        (a.vector.e1 * b.vector.e2) * c.vector.e2 == a.vector.e1 * (b.vector.e2 * c.vector.e2),
        (a.vector.e2 * b.bivector.e01) * c.bivector.e12 == a.vector.e2 * (b.bivector.e01 * c.bivector.e12),
        (a.vector.e2 * b.bivector.e01) * c.scalar == a.vector.e2 * (b.bivector.e01 * c.scalar),
        (a.vector.e2 * b.bivector.e01) * c.vector.e1 == a.vector.e2 * (b.bivector.e01 * c.vector.e1),
        (a.vector.e2 * b.bivector.e01) * c.vector.e2 == a.vector.e2 * (b.bivector.e01 * c.vector.e2),
        (a.vector.e2 * b.bivector.e12) * c.bivector.e01 == a.vector.e2 * (b.bivector.e12 * c.bivector.e01),
        (a.vector.e2 * b.bivector.e12) * c.bivector.e12 == a.vector.e2 * (b.bivector.e12 * c.bivector.e12),
        (a.vector.e2 * b.bivector.e12) * c.bivector.e20 == a.vector.e2 * (b.bivector.e12 * c.bivector.e20),
        (a.vector.e2 * b.bivector.e12) * c.scalar == a.vector.e2 * (b.bivector.e12 * c.scalar),
        (a.vector.e2 * b.bivector.e12) * c.trivector.e012 == a.vector.e2 * (b.bivector.e12 * c.trivector.e012),
        (a.vector.e2 * b.bivector.e12) * c.vector.e0 == a.vector.e2 * (b.bivector.e12 * c.vector.e0),
        (a.vector.e2 * b.bivector.e12) * c.vector.e1 == a.vector.e2 * (b.bivector.e12 * c.vector.e1),
        (a.vector.e2 * b.bivector.e12) * c.vector.e2 == a.vector.e2 * (b.bivector.e12 * c.vector.e2),
        (a.vector.e2 * b.bivector.e20) * c.bivector.e12 == a.vector.e2 * (b.bivector.e20 * c.bivector.e12),
        (a.vector.e2 * b.bivector.e20) * c.scalar == a.vector.e2 * (b.bivector.e20 * c.scalar),
        (a.vector.e2 * b.bivector.e20) * c.vector.e1 == a.vector.e2 * (b.bivector.e20 * c.vector.e1),
        (a.vector.e2 * b.bivector.e20) * c.vector.e2 == a.vector.e2 * (b.bivector.e20 * c.vector.e2),
        (a.vector.e2 * b.scalar) * c.bivector.e01 == a.vector.e2 * (b.scalar * c.bivector.e01),
        (a.vector.e2 * b.scalar) * c.bivector.e12 == a.vector.e2 * (b.scalar * c.bivector.e12),
        (a.vector.e2 * b.scalar) * c.bivector.e20 == a.vector.e2 * (b.scalar * c.bivector.e20),
        (a.vector.e2 * b.scalar) * c.scalar == a.vector.e2 * (b.scalar * c.scalar),
        (a.vector.e2 * b.scalar) * c.trivector.e012 == a.vector.e2 * (b.scalar * c.trivector.e012),
        (a.vector.e2 * b.scalar) * c.vector.e0 == a.vector.e2 * (b.scalar * c.vector.e0),
        (a.vector.e2 * b.scalar) * c.vector.e1 == a.vector.e2 * (b.scalar * c.vector.e1),
        (a.vector.e2 * b.scalar) * c.vector.e2 == a.vector.e2 * (b.scalar * c.vector.e2),
        (a.vector.e2 * b.trivector.e012) * c.bivector.e12 == a.vector.e2 * (b.trivector.e012 * c.bivector.e12),
        (a.vector.e2 * b.trivector.e012) * c.scalar == a.vector.e2 * (b.trivector.e012 * c.scalar),
        (a.vector.e2 * b.trivector.e012) * c.vector.e1 == a.vector.e2 * (b.trivector.e012 * c.vector.e1),
        (a.vector.e2 * b.trivector.e012) * c.vector.e2 == a.vector.e2 * (b.trivector.e012 * c.vector.e2),
        (a.vector.e2 * b.vector.e0) * c.bivector.e12 == a.vector.e2 * (b.vector.e0 * c.bivector.e12),
        (a.vector.e2 * b.vector.e0) * c.scalar == a.vector.e2 * (b.vector.e0 * c.scalar),
        (a.vector.e2 * b.vector.e0) * c.vector.e1 == a.vector.e2 * (b.vector.e0 * c.vector.e1),
        (a.vector.e2 * b.vector.e0) * c.vector.e2 == a.vector.e2 * (b.vector.e0 * c.vector.e2),
        (a.vector.e2 * b.vector.e1) * c.bivector.e01 == a.vector.e2 * (b.vector.e1 * c.bivector.e01),
        (a.vector.e2 * b.vector.e1) * c.bivector.e12 == a.vector.e2 * (b.vector.e1 * c.bivector.e12),
        (a.vector.e2 * b.vector.e1) * c.bivector.e20 == a.vector.e2 * (b.vector.e1 * c.bivector.e20),
        (a.vector.e2 * b.vector.e1) * c.scalar == a.vector.e2 * (b.vector.e1 * c.scalar),
        (a.vector.e2 * b.vector.e1) * c.trivector.e012 == a.vector.e2 * (b.vector.e1 * c.trivector.e012),
        (a.vector.e2 * b.vector.e1) * c.vector.e0 == a.vector.e2 * (b.vector.e1 * c.vector.e0),
        (a.vector.e2 * b.vector.e1) * c.vector.e1 == a.vector.e2 * (b.vector.e1 * c.vector.e1),
        (a.vector.e2 * b.vector.e1) * c.vector.e2 == a.vector.e2 * (b.vector.e1 * c.vector.e2),
        (a.vector.e2 * b.vector.e2) * c.bivector.e01 == a.vector.e2 * (b.vector.e2 * c.bivector.e01),
        (a.vector.e2 * b.vector.e2) * c.bivector.e12 == a.vector.e2 * (b.vector.e2 * c.bivector.e12),
        (a.vector.e2 * b.vector.e2) * c.bivector.e20 == a.vector.e2 * (b.vector.e2 * c.bivector.e20),
        (a.vector.e2 * b.vector.e2) * c.scalar == a.vector.e2 * (b.vector.e2 * c.scalar),
        (a.vector.e2 * b.vector.e2) * c.trivector.e012 == a.vector.e2 * (b.vector.e2 * c.trivector.e012),
        (a.vector.e2 * b.vector.e2) * c.vector.e0 == a.vector.e2 * (b.vector.e2 * c.vector.e0),
        (a.vector.e2 * b.vector.e2) * c.vector.e1 == a.vector.e2 * (b.vector.e2 * c.vector.e1),
        (a.vector.e2 * b.vector.e2) * c.vector.e2 == a.vector.e2 * (b.vector.e2 * c.vector.e2),
{
    assert((a.bivector.e01 * b.bivector.e12) * c.bivector.e12 == a.bivector.e01 * (b.bivector.e12 * c.bivector.e12)) by (nonlinear_arith);
    assert((a.bivector.e01 * b.bivector.e12) * c.scalar == a.bivector.e01 * (b.bivector.e12 * c.scalar)) by (nonlinear_arith);
    assert((a.bivector.e01 * b.bivector.e12) * c.vector.e1 == a.bivector.e01 * (b.bivector.e12 * c.vector.e1)) by (nonlinear_arith);
    assert((a.bivector.e01 * b.bivector.e12) * c.vector.e2 == a.bivector.e01 * (b.bivector.e12 * c.vector.e2)) by (nonlinear_arith);
    assert((a.bivector.e01 * b.scalar) * c.bivector.e12 == a.bivector.e01 * (b.scalar * c.bivector.e12)) by (nonlinear_arith);
    assert((a.bivector.e01 * b.scalar) * c.scalar == a.bivector.e01 * (b.scalar * c.scalar)) by (nonlinear_arith);
    assert((a.bivector.e01 * b.scalar) * c.vector.e1 == a.bivector.e01 * (b.scalar * c.vector.e1)) by (nonlinear_arith);
    assert((a.bivector.e01 * b.scalar) * c.vector.e2 == a.bivector.e01 * (b.scalar * c.vector.e2)) by (nonlinear_arith);
    assert((a.bivector.e01 * b.vector.e1) * c.bivector.e12 == a.bivector.e01 * (b.vector.e1 * c.bivector.e12)) by (nonlinear_arith);
    assert((a.bivector.e01 * b.vector.e1) * c.scalar == a.bivector.e01 * (b.vector.e1 * c.scalar)) by (nonlinear_arith);
    assert((a.bivector.e01 * b.vector.e1) * c.vector.e1 == a.bivector.e01 * (b.vector.e1 * c.vector.e1)) by (nonlinear_arith);
    assert((a.bivector.e01 * b.vector.e1) * c.vector.e2 == a.bivector.e01 * (b.vector.e1 * c.vector.e2)) by (nonlinear_arith);
    assert((a.bivector.e01 * b.vector.e2) * c.bivector.e12 == a.bivector.e01 * (b.vector.e2 * c.bivector.e12)) by (nonlinear_arith);
    assert((a.bivector.e01 * b.vector.e2) * c.scalar == a.bivector.e01 * (b.vector.e2 * c.scalar)) by (nonlinear_arith);
    assert((a.bivector.e01 * b.vector.e2) * c.vector.e1 == a.bivector.e01 * (b.vector.e2 * c.vector.e1)) by (nonlinear_arith);
    assert((a.bivector.e01 * b.vector.e2) * c.vector.e2 == a.bivector.e01 * (b.vector.e2 * c.vector.e2)) by (nonlinear_arith);
    assert((a.bivector.e12 * b.bivector.e01) * c.bivector.e12 == a.bivector.e12 * (b.bivector.e01 * c.bivector.e12)) by (nonlinear_arith);
    assert((a.bivector.e12 * b.bivector.e01) * c.scalar == a.bivector.e12 * (b.bivector.e01 * c.scalar)) by (nonlinear_arith);
    assert((a.bivector.e12 * b.bivector.e01) * c.vector.e1 == a.bivector.e12 * (b.bivector.e01 * c.vector.e1)) by (nonlinear_arith);
    assert((a.bivector.e12 * b.bivector.e01) * c.vector.e2 == a.bivector.e12 * (b.bivector.e01 * c.vector.e2)) by (nonlinear_arith);
    assert((a.bivector.e12 * b.bivector.e12) * c.bivector.e01 == a.bivector.e12 * (b.bivector.e12 * c.bivector.e01)) by (nonlinear_arith);
    assert((a.bivector.e12 * b.bivector.e12) * c.bivector.e12 == a.bivector.e12 * (b.bivector.e12 * c.bivector.e12)) by (nonlinear_arith);
    assert((a.bivector.e12 * b.bivector.e12) * c.bivector.e20 == a.bivector.e12 * (b.bivector.e12 * c.bivector.e20)) by (nonlinear_arith);
    assert((a.bivector.e12 * b.bivector.e12) * c.scalar == a.bivector.e12 * (b.bivector.e12 * c.scalar)) by (nonlinear_arith);
    assert((a.bivector.e12 * b.bivector.e12) * c.trivector.e012 == a.bivector.e12 * (b.bivector.e12 * c.trivector.e012)) by (nonlinear_arith);
    assert((a.bivector.e12 * b.bivector.e12) * c.vector.e0 == a.bivector.e12 * (b.bivector.e12 * c.vector.e0)) by (nonlinear_arith);
    assert((a.bivector.e12 * b.bivector.e12) * c.vector.e1 == a.bivector.e12 * (b.bivector.e12 * c.vector.e1)) by (nonlinear_arith);
    assert((a.bivector.e12 * b.bivector.e12) * c.vector.e2 == a.bivector.e12 * (b.bivector.e12 * c.vector.e2)) by (nonlinear_arith);
    assert((a.bivector.e12 * b.bivector.e20) * c.bivector.e12 == a.bivector.e12 * (b.bivector.e20 * c.bivector.e12)) by (nonlinear_arith);
    assert((a.bivector.e12 * b.bivector.e20) * c.scalar == a.bivector.e12 * (b.bivector.e20 * c.scalar)) by (nonlinear_arith);
    assert((a.bivector.e12 * b.bivector.e20) * c.vector.e1 == a.bivector.e12 * (b.bivector.e20 * c.vector.e1)) by (nonlinear_arith);
    assert((a.bivector.e12 * b.bivector.e20) * c.vector.e2 == a.bivector.e12 * (b.bivector.e20 * c.vector.e2)) by (nonlinear_arith);
    assert((a.bivector.e12 * b.scalar) * c.bivector.e01 == a.bivector.e12 * (b.scalar * c.bivector.e01)) by (nonlinear_arith);
    assert((a.bivector.e12 * b.scalar) * c.bivector.e12 == a.bivector.e12 * (b.scalar * c.bivector.e12)) by (nonlinear_arith);
    assert((a.bivector.e12 * b.scalar) * c.bivector.e20 == a.bivector.e12 * (b.scalar * c.bivector.e20)) by (nonlinear_arith);
    assert((a.bivector.e12 * b.scalar) * c.scalar == a.bivector.e12 * (b.scalar * c.scalar)) by (nonlinear_arith);
    assert((a.bivector.e12 * b.scalar) * c.trivector.e012 == a.bivector.e12 * (b.scalar * c.trivector.e012)) by (nonlinear_arith);
    assert((a.bivector.e12 * b.scalar) * c.vector.e0 == a.bivector.e12 * (b.scalar * c.vector.e0)) by (nonlinear_arith);
    assert((a.bivector.e12 * b.scalar) * c.vector.e1 == a.bivector.e12 * (b.scalar * c.vector.e1)) by (nonlinear_arith);
    assert((a.bivector.e12 * b.scalar) * c.vector.e2 == a.bivector.e12 * (b.scalar * c.vector.e2)) by (nonlinear_arith);
    assert((a.bivector.e12 * b.trivector.e012) * c.bivector.e12 == a.bivector.e12 * (b.trivector.e012 * c.bivector.e12)) by (nonlinear_arith);
    assert((a.bivector.e12 * b.trivector.e012) * c.scalar == a.bivector.e12 * (b.trivector.e012 * c.scalar)) by (nonlinear_arith);
    assert((a.bivector.e12 * b.trivector.e012) * c.vector.e1 == a.bivector.e12 * (b.trivector.e012 * c.vector.e1)) by (nonlinear_arith);
    assert((a.bivector.e12 * b.trivector.e012) * c.vector.e2 == a.bivector.e12 * (b.trivector.e012 * c.vector.e2)) by (nonlinear_arith);
    assert((a.bivector.e12 * b.vector.e0) * c.bivector.e12 == a.bivector.e12 * (b.vector.e0 * c.bivector.e12)) by (nonlinear_arith);
    assert((a.bivector.e12 * b.vector.e0) * c.scalar == a.bivector.e12 * (b.vector.e0 * c.scalar)) by (nonlinear_arith);
    assert((a.bivector.e12 * b.vector.e0) * c.vector.e1 == a.bivector.e12 * (b.vector.e0 * c.vector.e1)) by (nonlinear_arith);
    assert((a.bivector.e12 * b.vector.e0) * c.vector.e2 == a.bivector.e12 * (b.vector.e0 * c.vector.e2)) by (nonlinear_arith);
    assert((a.bivector.e12 * b.vector.e1) * c.bivector.e01 == a.bivector.e12 * (b.vector.e1 * c.bivector.e01)) by (nonlinear_arith);
    assert((a.bivector.e12 * b.vector.e1) * c.bivector.e12 == a.bivector.e12 * (b.vector.e1 * c.bivector.e12)) by (nonlinear_arith);
    assert((a.bivector.e12 * b.vector.e1) * c.bivector.e20 == a.bivector.e12 * (b.vector.e1 * c.bivector.e20)) by (nonlinear_arith);
    assert((a.bivector.e12 * b.vector.e1) * c.scalar == a.bivector.e12 * (b.vector.e1 * c.scalar)) by (nonlinear_arith);
    assert((a.bivector.e12 * b.vector.e1) * c.trivector.e012 == a.bivector.e12 * (b.vector.e1 * c.trivector.e012)) by (nonlinear_arith);
    assert((a.bivector.e12 * b.vector.e1) * c.vector.e0 == a.bivector.e12 * (b.vector.e1 * c.vector.e0)) by (nonlinear_arith);
    assert((a.bivector.e12 * b.vector.e1) * c.vector.e1 == a.bivector.e12 * (b.vector.e1 * c.vector.e1)) by (nonlinear_arith);
    assert((a.bivector.e12 * b.vector.e1) * c.vector.e2 == a.bivector.e12 * (b.vector.e1 * c.vector.e2)) by (nonlinear_arith);
    assert((a.bivector.e12 * b.vector.e2) * c.bivector.e01 == a.bivector.e12 * (b.vector.e2 * c.bivector.e01)) by (nonlinear_arith);
    assert((a.bivector.e12 * b.vector.e2) * c.bivector.e12 == a.bivector.e12 * (b.vector.e2 * c.bivector.e12)) by (nonlinear_arith);
    assert((a.bivector.e12 * b.vector.e2) * c.bivector.e20 == a.bivector.e12 * (b.vector.e2 * c.bivector.e20)) by (nonlinear_arith);
    assert((a.bivector.e12 * b.vector.e2) * c.scalar == a.bivector.e12 * (b.vector.e2 * c.scalar)) by (nonlinear_arith);
    assert((a.bivector.e12 * b.vector.e2) * c.trivector.e012 == a.bivector.e12 * (b.vector.e2 * c.trivector.e012)) by (nonlinear_arith);
    assert((a.bivector.e12 * b.vector.e2) * c.vector.e0 == a.bivector.e12 * (b.vector.e2 * c.vector.e0)) by (nonlinear_arith);
    assert((a.bivector.e12 * b.vector.e2) * c.vector.e1 == a.bivector.e12 * (b.vector.e2 * c.vector.e1)) by (nonlinear_arith);
    assert((a.bivector.e12 * b.vector.e2) * c.vector.e2 == a.bivector.e12 * (b.vector.e2 * c.vector.e2)) by (nonlinear_arith);
    assert((a.bivector.e20 * b.bivector.e12) * c.bivector.e12 == a.bivector.e20 * (b.bivector.e12 * c.bivector.e12)) by (nonlinear_arith);
    assert((a.bivector.e20 * b.bivector.e12) * c.scalar == a.bivector.e20 * (b.bivector.e12 * c.scalar)) by (nonlinear_arith);
    assert((a.bivector.e20 * b.bivector.e12) * c.vector.e1 == a.bivector.e20 * (b.bivector.e12 * c.vector.e1)) by (nonlinear_arith);
    assert((a.bivector.e20 * b.bivector.e12) * c.vector.e2 == a.bivector.e20 * (b.bivector.e12 * c.vector.e2)) by (nonlinear_arith);
    assert((a.bivector.e20 * b.scalar) * c.bivector.e12 == a.bivector.e20 * (b.scalar * c.bivector.e12)) by (nonlinear_arith);
    assert((a.bivector.e20 * b.scalar) * c.scalar == a.bivector.e20 * (b.scalar * c.scalar)) by (nonlinear_arith);
    assert((a.bivector.e20 * b.scalar) * c.vector.e1 == a.bivector.e20 * (b.scalar * c.vector.e1)) by (nonlinear_arith);
    assert((a.bivector.e20 * b.scalar) * c.vector.e2 == a.bivector.e20 * (b.scalar * c.vector.e2)) by (nonlinear_arith);
    assert((a.bivector.e20 * b.vector.e1) * c.bivector.e12 == a.bivector.e20 * (b.vector.e1 * c.bivector.e12)) by (nonlinear_arith);
    assert((a.bivector.e20 * b.vector.e1) * c.scalar == a.bivector.e20 * (b.vector.e1 * c.scalar)) by (nonlinear_arith);
    assert((a.bivector.e20 * b.vector.e1) * c.vector.e1 == a.bivector.e20 * (b.vector.e1 * c.vector.e1)) by (nonlinear_arith);
    assert((a.bivector.e20 * b.vector.e1) * c.vector.e2 == a.bivector.e20 * (b.vector.e1 * c.vector.e2)) by (nonlinear_arith);
    assert((a.bivector.e20 * b.vector.e2) * c.bivector.e12 == a.bivector.e20 * (b.vector.e2 * c.bivector.e12)) by (nonlinear_arith);
    assert((a.bivector.e20 * b.vector.e2) * c.scalar == a.bivector.e20 * (b.vector.e2 * c.scalar)) by (nonlinear_arith);
    assert((a.bivector.e20 * b.vector.e2) * c.vector.e1 == a.bivector.e20 * (b.vector.e2 * c.vector.e1)) by (nonlinear_arith);
    assert((a.bivector.e20 * b.vector.e2) * c.vector.e2 == a.bivector.e20 * (b.vector.e2 * c.vector.e2)) by (nonlinear_arith);
    assert((a.scalar * b.bivector.e01) * c.bivector.e12 == a.scalar * (b.bivector.e01 * c.bivector.e12)) by (nonlinear_arith);
    assert((a.scalar * b.bivector.e01) * c.scalar == a.scalar * (b.bivector.e01 * c.scalar)) by (nonlinear_arith);
    assert((a.scalar * b.bivector.e01) * c.vector.e1 == a.scalar * (b.bivector.e01 * c.vector.e1)) by (nonlinear_arith);
    assert((a.scalar * b.bivector.e01) * c.vector.e2 == a.scalar * (b.bivector.e01 * c.vector.e2)) by (nonlinear_arith);
    assert((a.scalar * b.bivector.e12) * c.bivector.e01 == a.scalar * (b.bivector.e12 * c.bivector.e01)) by (nonlinear_arith);
    assert((a.scalar * b.bivector.e12) * c.bivector.e12 == a.scalar * (b.bivector.e12 * c.bivector.e12)) by (nonlinear_arith);
    assert((a.scalar * b.bivector.e12) * c.bivector.e20 == a.scalar * (b.bivector.e12 * c.bivector.e20)) by (nonlinear_arith);
    assert((a.scalar * b.bivector.e12) * c.scalar == a.scalar * (b.bivector.e12 * c.scalar)) by (nonlinear_arith);
    assert((a.scalar * b.bivector.e12) * c.trivector.e012 == a.scalar * (b.bivector.e12 * c.trivector.e012)) by (nonlinear_arith);
    assert((a.scalar * b.bivector.e12) * c.vector.e0 == a.scalar * (b.bivector.e12 * c.vector.e0)) by (nonlinear_arith);
    assert((a.scalar * b.bivector.e12) * c.vector.e1 == a.scalar * (b.bivector.e12 * c.vector.e1)) by (nonlinear_arith);
    assert((a.scalar * b.bivector.e12) * c.vector.e2 == a.scalar * (b.bivector.e12 * c.vector.e2)) by (nonlinear_arith);
    assert((a.scalar * b.bivector.e20) * c.bivector.e12 == a.scalar * (b.bivector.e20 * c.bivector.e12)) by (nonlinear_arith);
    assert((a.scalar * b.bivector.e20) * c.scalar == a.scalar * (b.bivector.e20 * c.scalar)) by (nonlinear_arith);
    assert((a.scalar * b.bivector.e20) * c.vector.e1 == a.scalar * (b.bivector.e20 * c.vector.e1)) by (nonlinear_arith);
    assert((a.scalar * b.bivector.e20) * c.vector.e2 == a.scalar * (b.bivector.e20 * c.vector.e2)) by (nonlinear_arith);
    assert((a.scalar * b.scalar) * c.bivector.e01 == a.scalar * (b.scalar * c.bivector.e01)) by (nonlinear_arith);
    assert((a.scalar * b.scalar) * c.bivector.e12 == a.scalar * (b.scalar * c.bivector.e12)) by (nonlinear_arith);
    assert((a.scalar * b.scalar) * c.bivector.e20 == a.scalar * (b.scalar * c.bivector.e20)) by (nonlinear_arith);
    assert((a.scalar * b.scalar) * c.scalar == a.scalar * (b.scalar * c.scalar)) by (nonlinear_arith);
    assert((a.scalar * b.scalar) * c.trivector.e012 == a.scalar * (b.scalar * c.trivector.e012)) by (nonlinear_arith);
    assert((a.scalar * b.scalar) * c.vector.e0 == a.scalar * (b.scalar * c.vector.e0)) by (nonlinear_arith);
    assert((a.scalar * b.scalar) * c.vector.e1 == a.scalar * (b.scalar * c.vector.e1)) by (nonlinear_arith);
    assert((a.scalar * b.scalar) * c.vector.e2 == a.scalar * (b.scalar * c.vector.e2)) by (nonlinear_arith);
    assert((a.scalar * b.trivector.e012) * c.bivector.e12 == a.scalar * (b.trivector.e012 * c.bivector.e12)) by (nonlinear_arith);
    assert((a.scalar * b.trivector.e012) * c.scalar == a.scalar * (b.trivector.e012 * c.scalar)) by (nonlinear_arith);
    assert((a.scalar * b.trivector.e012) * c.vector.e1 == a.scalar * (b.trivector.e012 * c.vector.e1)) by (nonlinear_arith);
    assert((a.scalar * b.trivector.e012) * c.vector.e2 == a.scalar * (b.trivector.e012 * c.vector.e2)) by (nonlinear_arith);
    assert((a.scalar * b.vector.e0) * c.bivector.e12 == a.scalar * (b.vector.e0 * c.bivector.e12)) by (nonlinear_arith);
    assert((a.scalar * b.vector.e0) * c.scalar == a.scalar * (b.vector.e0 * c.scalar)) by (nonlinear_arith);
    assert((a.scalar * b.vector.e0) * c.vector.e1 == a.scalar * (b.vector.e0 * c.vector.e1)) by (nonlinear_arith);
    assert((a.scalar * b.vector.e0) * c.vector.e2 == a.scalar * (b.vector.e0 * c.vector.e2)) by (nonlinear_arith);
    assert((a.scalar * b.vector.e1) * c.bivector.e01 == a.scalar * (b.vector.e1 * c.bivector.e01)) by (nonlinear_arith);
    assert((a.scalar * b.vector.e1) * c.bivector.e12 == a.scalar * (b.vector.e1 * c.bivector.e12)) by (nonlinear_arith);
    assert((a.scalar * b.vector.e1) * c.bivector.e20 == a.scalar * (b.vector.e1 * c.bivector.e20)) by (nonlinear_arith);
    assert((a.scalar * b.vector.e1) * c.scalar == a.scalar * (b.vector.e1 * c.scalar)) by (nonlinear_arith);
    assert((a.scalar * b.vector.e1) * c.trivector.e012 == a.scalar * (b.vector.e1 * c.trivector.e012)) by (nonlinear_arith);
    assert((a.scalar * b.vector.e1) * c.vector.e0 == a.scalar * (b.vector.e1 * c.vector.e0)) by (nonlinear_arith);
    assert((a.scalar * b.vector.e1) * c.vector.e1 == a.scalar * (b.vector.e1 * c.vector.e1)) by (nonlinear_arith);
    assert((a.scalar * b.vector.e1) * c.vector.e2 == a.scalar * (b.vector.e1 * c.vector.e2)) by (nonlinear_arith);
    assert((a.scalar * b.vector.e2) * c.bivector.e01 == a.scalar * (b.vector.e2 * c.bivector.e01)) by (nonlinear_arith);
    assert((a.scalar * b.vector.e2) * c.bivector.e12 == a.scalar * (b.vector.e2 * c.bivector.e12)) by (nonlinear_arith);
    assert((a.scalar * b.vector.e2) * c.bivector.e20 == a.scalar * (b.vector.e2 * c.bivector.e20)) by (nonlinear_arith);
    assert((a.scalar * b.vector.e2) * c.scalar == a.scalar * (b.vector.e2 * c.scalar)) by (nonlinear_arith);
    assert((a.scalar * b.vector.e2) * c.trivector.e012 == a.scalar * (b.vector.e2 * c.trivector.e012)) by (nonlinear_arith);
    assert((a.scalar * b.vector.e2) * c.vector.e0 == a.scalar * (b.vector.e2 * c.vector.e0)) by (nonlinear_arith);
    assert((a.scalar * b.vector.e2) * c.vector.e1 == a.scalar * (b.vector.e2 * c.vector.e1)) by (nonlinear_arith);
    assert((a.scalar * b.vector.e2) * c.vector.e2 == a.scalar * (b.vector.e2 * c.vector.e2)) by (nonlinear_arith);
    assert((a.trivector.e012 * b.bivector.e12) * c.bivector.e12 == a.trivector.e012 * (b.bivector.e12 * c.bivector.e12)) by (nonlinear_arith);
    assert((a.trivector.e012 * b.bivector.e12) * c.scalar == a.trivector.e012 * (b.bivector.e12 * c.scalar)) by (nonlinear_arith);
    assert((a.trivector.e012 * b.bivector.e12) * c.vector.e1 == a.trivector.e012 * (b.bivector.e12 * c.vector.e1)) by (nonlinear_arith);
    assert((a.trivector.e012 * b.bivector.e12) * c.vector.e2 == a.trivector.e012 * (b.bivector.e12 * c.vector.e2)) by (nonlinear_arith);
    assert((a.trivector.e012 * b.scalar) * c.bivector.e12 == a.trivector.e012 * (b.scalar * c.bivector.e12)) by (nonlinear_arith);
    assert((a.trivector.e012 * b.scalar) * c.scalar == a.trivector.e012 * (b.scalar * c.scalar)) by (nonlinear_arith);
    assert((a.trivector.e012 * b.scalar) * c.vector.e1 == a.trivector.e012 * (b.scalar * c.vector.e1)) by (nonlinear_arith);
    assert((a.trivector.e012 * b.scalar) * c.vector.e2 == a.trivector.e012 * (b.scalar * c.vector.e2)) by (nonlinear_arith);
    assert((a.trivector.e012 * b.vector.e1) * c.bivector.e12 == a.trivector.e012 * (b.vector.e1 * c.bivector.e12)) by (nonlinear_arith);
    assert((a.trivector.e012 * b.vector.e1) * c.scalar == a.trivector.e012 * (b.vector.e1 * c.scalar)) by (nonlinear_arith);
    assert((a.trivector.e012 * b.vector.e1) * c.vector.e1 == a.trivector.e012 * (b.vector.e1 * c.vector.e1)) by (nonlinear_arith);
    assert((a.trivector.e012 * b.vector.e1) * c.vector.e2 == a.trivector.e012 * (b.vector.e1 * c.vector.e2)) by (nonlinear_arith);
    assert((a.trivector.e012 * b.vector.e2) * c.bivector.e12 == a.trivector.e012 * (b.vector.e2 * c.bivector.e12)) by (nonlinear_arith);
    assert((a.trivector.e012 * b.vector.e2) * c.scalar == a.trivector.e012 * (b.vector.e2 * c.scalar)) by (nonlinear_arith);
    assert((a.trivector.e012 * b.vector.e2) * c.vector.e1 == a.trivector.e012 * (b.vector.e2 * c.vector.e1)) by (nonlinear_arith);
    assert((a.trivector.e012 * b.vector.e2) * c.vector.e2 == a.trivector.e012 * (b.vector.e2 * c.vector.e2)) by (nonlinear_arith);
    assert((a.vector.e0 * b.bivector.e12) * c.bivector.e12 == a.vector.e0 * (b.bivector.e12 * c.bivector.e12)) by (nonlinear_arith);
    assert((a.vector.e0 * b.bivector.e12) * c.scalar == a.vector.e0 * (b.bivector.e12 * c.scalar)) by (nonlinear_arith);
    assert((a.vector.e0 * b.bivector.e12) * c.vector.e1 == a.vector.e0 * (b.bivector.e12 * c.vector.e1)) by (nonlinear_arith);
    assert((a.vector.e0 * b.bivector.e12) * c.vector.e2 == a.vector.e0 * (b.bivector.e12 * c.vector.e2)) by (nonlinear_arith);
    assert((a.vector.e0 * b.scalar) * c.bivector.e12 == a.vector.e0 * (b.scalar * c.bivector.e12)) by (nonlinear_arith);
    assert((a.vector.e0 * b.scalar) * c.scalar == a.vector.e0 * (b.scalar * c.scalar)) by (nonlinear_arith);
    assert((a.vector.e0 * b.scalar) * c.vector.e1 == a.vector.e0 * (b.scalar * c.vector.e1)) by (nonlinear_arith);
    assert((a.vector.e0 * b.scalar) * c.vector.e2 == a.vector.e0 * (b.scalar * c.vector.e2)) by (nonlinear_arith);
    assert((a.vector.e0 * b.vector.e1) * c.bivector.e12 == a.vector.e0 * (b.vector.e1 * c.bivector.e12)) by (nonlinear_arith);
    assert((a.vector.e0 * b.vector.e1) * c.scalar == a.vector.e0 * (b.vector.e1 * c.scalar)) by (nonlinear_arith);
    assert((a.vector.e0 * b.vector.e1) * c.vector.e1 == a.vector.e0 * (b.vector.e1 * c.vector.e1)) by (nonlinear_arith);
    assert((a.vector.e0 * b.vector.e1) * c.vector.e2 == a.vector.e0 * (b.vector.e1 * c.vector.e2)) by (nonlinear_arith);
    assert((a.vector.e0 * b.vector.e2) * c.bivector.e12 == a.vector.e0 * (b.vector.e2 * c.bivector.e12)) by (nonlinear_arith);
    assert((a.vector.e0 * b.vector.e2) * c.scalar == a.vector.e0 * (b.vector.e2 * c.scalar)) by (nonlinear_arith);
    assert((a.vector.e0 * b.vector.e2) * c.vector.e1 == a.vector.e0 * (b.vector.e2 * c.vector.e1)) by (nonlinear_arith);
    assert((a.vector.e0 * b.vector.e2) * c.vector.e2 == a.vector.e0 * (b.vector.e2 * c.vector.e2)) by (nonlinear_arith);
    assert((a.vector.e1 * b.bivector.e01) * c.bivector.e12 == a.vector.e1 * (b.bivector.e01 * c.bivector.e12)) by (nonlinear_arith);
    assert((a.vector.e1 * b.bivector.e01) * c.scalar == a.vector.e1 * (b.bivector.e01 * c.scalar)) by (nonlinear_arith);
    assert((a.vector.e1 * b.bivector.e01) * c.vector.e1 == a.vector.e1 * (b.bivector.e01 * c.vector.e1)) by (nonlinear_arith);
    assert((a.vector.e1 * b.bivector.e01) * c.vector.e2 == a.vector.e1 * (b.bivector.e01 * c.vector.e2)) by (nonlinear_arith);
    assert((a.vector.e1 * b.bivector.e12) * c.bivector.e01 == a.vector.e1 * (b.bivector.e12 * c.bivector.e01)) by (nonlinear_arith);
    assert((a.vector.e1 * b.bivector.e12) * c.bivector.e12 == a.vector.e1 * (b.bivector.e12 * c.bivector.e12)) by (nonlinear_arith);
    assert((a.vector.e1 * b.bivector.e12) * c.bivector.e20 == a.vector.e1 * (b.bivector.e12 * c.bivector.e20)) by (nonlinear_arith);
    assert((a.vector.e1 * b.bivector.e12) * c.scalar == a.vector.e1 * (b.bivector.e12 * c.scalar)) by (nonlinear_arith);
    assert((a.vector.e1 * b.bivector.e12) * c.trivector.e012 == a.vector.e1 * (b.bivector.e12 * c.trivector.e012)) by (nonlinear_arith);
    assert((a.vector.e1 * b.bivector.e12) * c.vector.e0 == a.vector.e1 * (b.bivector.e12 * c.vector.e0)) by (nonlinear_arith);
    assert((a.vector.e1 * b.bivector.e12) * c.vector.e1 == a.vector.e1 * (b.bivector.e12 * c.vector.e1)) by (nonlinear_arith);
    assert((a.vector.e1 * b.bivector.e12) * c.vector.e2 == a.vector.e1 * (b.bivector.e12 * c.vector.e2)) by (nonlinear_arith);
    assert((a.vector.e1 * b.bivector.e20) * c.bivector.e12 == a.vector.e1 * (b.bivector.e20 * c.bivector.e12)) by (nonlinear_arith);
    assert((a.vector.e1 * b.bivector.e20) * c.scalar == a.vector.e1 * (b.bivector.e20 * c.scalar)) by (nonlinear_arith);
    assert((a.vector.e1 * b.bivector.e20) * c.vector.e1 == a.vector.e1 * (b.bivector.e20 * c.vector.e1)) by (nonlinear_arith);
    assert((a.vector.e1 * b.bivector.e20) * c.vector.e2 == a.vector.e1 * (b.bivector.e20 * c.vector.e2)) by (nonlinear_arith);
    assert((a.vector.e1 * b.scalar) * c.bivector.e01 == a.vector.e1 * (b.scalar * c.bivector.e01)) by (nonlinear_arith);
    assert((a.vector.e1 * b.scalar) * c.bivector.e12 == a.vector.e1 * (b.scalar * c.bivector.e12)) by (nonlinear_arith);
    assert((a.vector.e1 * b.scalar) * c.bivector.e20 == a.vector.e1 * (b.scalar * c.bivector.e20)) by (nonlinear_arith);
    assert((a.vector.e1 * b.scalar) * c.scalar == a.vector.e1 * (b.scalar * c.scalar)) by (nonlinear_arith);
    assert((a.vector.e1 * b.scalar) * c.trivector.e012 == a.vector.e1 * (b.scalar * c.trivector.e012)) by (nonlinear_arith);
    assert((a.vector.e1 * b.scalar) * c.vector.e0 == a.vector.e1 * (b.scalar * c.vector.e0)) by (nonlinear_arith);
    assert((a.vector.e1 * b.scalar) * c.vector.e1 == a.vector.e1 * (b.scalar * c.vector.e1)) by (nonlinear_arith);
    assert((a.vector.e1 * b.scalar) * c.vector.e2 == a.vector.e1 * (b.scalar * c.vector.e2)) by (nonlinear_arith);
    assert((a.vector.e1 * b.trivector.e012) * c.bivector.e12 == a.vector.e1 * (b.trivector.e012 * c.bivector.e12)) by (nonlinear_arith);
    assert((a.vector.e1 * b.trivector.e012) * c.scalar == a.vector.e1 * (b.trivector.e012 * c.scalar)) by (nonlinear_arith);
    assert((a.vector.e1 * b.trivector.e012) * c.vector.e1 == a.vector.e1 * (b.trivector.e012 * c.vector.e1)) by (nonlinear_arith);
    assert((a.vector.e1 * b.trivector.e012) * c.vector.e2 == a.vector.e1 * (b.trivector.e012 * c.vector.e2)) by (nonlinear_arith);
    assert((a.vector.e1 * b.vector.e0) * c.bivector.e12 == a.vector.e1 * (b.vector.e0 * c.bivector.e12)) by (nonlinear_arith);
    assert((a.vector.e1 * b.vector.e0) * c.scalar == a.vector.e1 * (b.vector.e0 * c.scalar)) by (nonlinear_arith);
    assert((a.vector.e1 * b.vector.e0) * c.vector.e1 == a.vector.e1 * (b.vector.e0 * c.vector.e1)) by (nonlinear_arith);
    assert((a.vector.e1 * b.vector.e0) * c.vector.e2 == a.vector.e1 * (b.vector.e0 * c.vector.e2)) by (nonlinear_arith);
    assert((a.vector.e1 * b.vector.e1) * c.bivector.e01 == a.vector.e1 * (b.vector.e1 * c.bivector.e01)) by (nonlinear_arith);
    assert((a.vector.e1 * b.vector.e1) * c.bivector.e12 == a.vector.e1 * (b.vector.e1 * c.bivector.e12)) by (nonlinear_arith);
    assert((a.vector.e1 * b.vector.e1) * c.bivector.e20 == a.vector.e1 * (b.vector.e1 * c.bivector.e20)) by (nonlinear_arith);
    assert((a.vector.e1 * b.vector.e1) * c.scalar == a.vector.e1 * (b.vector.e1 * c.scalar)) by (nonlinear_arith);
    assert((a.vector.e1 * b.vector.e1) * c.trivector.e012 == a.vector.e1 * (b.vector.e1 * c.trivector.e012)) by (nonlinear_arith);
    assert((a.vector.e1 * b.vector.e1) * c.vector.e0 == a.vector.e1 * (b.vector.e1 * c.vector.e0)) by (nonlinear_arith);
    assert((a.vector.e1 * b.vector.e1) * c.vector.e1 == a.vector.e1 * (b.vector.e1 * c.vector.e1)) by (nonlinear_arith);
    assert((a.vector.e1 * b.vector.e1) * c.vector.e2 == a.vector.e1 * (b.vector.e1 * c.vector.e2)) by (nonlinear_arith);
    assert((a.vector.e1 * b.vector.e2) * c.bivector.e01 == a.vector.e1 * (b.vector.e2 * c.bivector.e01)) by (nonlinear_arith);
    assert((a.vector.e1 * b.vector.e2) * c.bivector.e12 == a.vector.e1 * (b.vector.e2 * c.bivector.e12)) by (nonlinear_arith);
    assert((a.vector.e1 * b.vector.e2) * c.bivector.e20 == a.vector.e1 * (b.vector.e2 * c.bivector.e20)) by (nonlinear_arith);
    assert((a.vector.e1 * b.vector.e2) * c.scalar == a.vector.e1 * (b.vector.e2 * c.scalar)) by (nonlinear_arith);
    assert((a.vector.e1 * b.vector.e2) * c.trivector.e012 == a.vector.e1 * (b.vector.e2 * c.trivector.e012)) by (nonlinear_arith);
    assert((a.vector.e1 * b.vector.e2) * c.vector.e0 == a.vector.e1 * (b.vector.e2 * c.vector.e0)) by (nonlinear_arith);
    assert((a.vector.e1 * b.vector.e2) * c.vector.e1 == a.vector.e1 * (b.vector.e2 * c.vector.e1)) by (nonlinear_arith);
    assert((a.vector.e1 * b.vector.e2) * c.vector.e2 == a.vector.e1 * (b.vector.e2 * c.vector.e2)) by (nonlinear_arith);
    assert((a.vector.e2 * b.bivector.e01) * c.bivector.e12 == a.vector.e2 * (b.bivector.e01 * c.bivector.e12)) by (nonlinear_arith);
    assert((a.vector.e2 * b.bivector.e01) * c.scalar == a.vector.e2 * (b.bivector.e01 * c.scalar)) by (nonlinear_arith);
    assert((a.vector.e2 * b.bivector.e01) * c.vector.e1 == a.vector.e2 * (b.bivector.e01 * c.vector.e1)) by (nonlinear_arith);
    assert((a.vector.e2 * b.bivector.e01) * c.vector.e2 == a.vector.e2 * (b.bivector.e01 * c.vector.e2)) by (nonlinear_arith);
    assert((a.vector.e2 * b.bivector.e12) * c.bivector.e01 == a.vector.e2 * (b.bivector.e12 * c.bivector.e01)) by (nonlinear_arith);
    assert((a.vector.e2 * b.bivector.e12) * c.bivector.e12 == a.vector.e2 * (b.bivector.e12 * c.bivector.e12)) by (nonlinear_arith);
    assert((a.vector.e2 * b.bivector.e12) * c.bivector.e20 == a.vector.e2 * (b.bivector.e12 * c.bivector.e20)) by (nonlinear_arith);
    assert((a.vector.e2 * b.bivector.e12) * c.scalar == a.vector.e2 * (b.bivector.e12 * c.scalar)) by (nonlinear_arith);
    assert((a.vector.e2 * b.bivector.e12) * c.trivector.e012 == a.vector.e2 * (b.bivector.e12 * c.trivector.e012)) by (nonlinear_arith);
    assert((a.vector.e2 * b.bivector.e12) * c.vector.e0 == a.vector.e2 * (b.bivector.e12 * c.vector.e0)) by (nonlinear_arith);
    assert((a.vector.e2 * b.bivector.e12) * c.vector.e1 == a.vector.e2 * (b.bivector.e12 * c.vector.e1)) by (nonlinear_arith);
    assert((a.vector.e2 * b.bivector.e12) * c.vector.e2 == a.vector.e2 * (b.bivector.e12 * c.vector.e2)) by (nonlinear_arith);
    assert((a.vector.e2 * b.bivector.e20) * c.bivector.e12 == a.vector.e2 * (b.bivector.e20 * c.bivector.e12)) by (nonlinear_arith);
    assert((a.vector.e2 * b.bivector.e20) * c.scalar == a.vector.e2 * (b.bivector.e20 * c.scalar)) by (nonlinear_arith);
    assert((a.vector.e2 * b.bivector.e20) * c.vector.e1 == a.vector.e2 * (b.bivector.e20 * c.vector.e1)) by (nonlinear_arith);
    assert((a.vector.e2 * b.bivector.e20) * c.vector.e2 == a.vector.e2 * (b.bivector.e20 * c.vector.e2)) by (nonlinear_arith);
    assert((a.vector.e2 * b.scalar) * c.bivector.e01 == a.vector.e2 * (b.scalar * c.bivector.e01)) by (nonlinear_arith);
    assert((a.vector.e2 * b.scalar) * c.bivector.e12 == a.vector.e2 * (b.scalar * c.bivector.e12)) by (nonlinear_arith);
    assert((a.vector.e2 * b.scalar) * c.bivector.e20 == a.vector.e2 * (b.scalar * c.bivector.e20)) by (nonlinear_arith);
    assert((a.vector.e2 * b.scalar) * c.scalar == a.vector.e2 * (b.scalar * c.scalar)) by (nonlinear_arith);
    assert((a.vector.e2 * b.scalar) * c.trivector.e012 == a.vector.e2 * (b.scalar * c.trivector.e012)) by (nonlinear_arith);
    assert((a.vector.e2 * b.scalar) * c.vector.e0 == a.vector.e2 * (b.scalar * c.vector.e0)) by (nonlinear_arith);
    assert((a.vector.e2 * b.scalar) * c.vector.e1 == a.vector.e2 * (b.scalar * c.vector.e1)) by (nonlinear_arith);
    assert((a.vector.e2 * b.scalar) * c.vector.e2 == a.vector.e2 * (b.scalar * c.vector.e2)) by (nonlinear_arith);
    assert((a.vector.e2 * b.trivector.e012) * c.bivector.e12 == a.vector.e2 * (b.trivector.e012 * c.bivector.e12)) by (nonlinear_arith);
    assert((a.vector.e2 * b.trivector.e012) * c.scalar == a.vector.e2 * (b.trivector.e012 * c.scalar)) by (nonlinear_arith);
    assert((a.vector.e2 * b.trivector.e012) * c.vector.e1 == a.vector.e2 * (b.trivector.e012 * c.vector.e1)) by (nonlinear_arith);
    assert((a.vector.e2 * b.trivector.e012) * c.vector.e2 == a.vector.e2 * (b.trivector.e012 * c.vector.e2)) by (nonlinear_arith);
    assert((a.vector.e2 * b.vector.e0) * c.bivector.e12 == a.vector.e2 * (b.vector.e0 * c.bivector.e12)) by (nonlinear_arith);
    assert((a.vector.e2 * b.vector.e0) * c.scalar == a.vector.e2 * (b.vector.e0 * c.scalar)) by (nonlinear_arith);
    assert((a.vector.e2 * b.vector.e0) * c.vector.e1 == a.vector.e2 * (b.vector.e0 * c.vector.e1)) by (nonlinear_arith);
    assert((a.vector.e2 * b.vector.e0) * c.vector.e2 == a.vector.e2 * (b.vector.e0 * c.vector.e2)) by (nonlinear_arith);
    assert((a.vector.e2 * b.vector.e1) * c.bivector.e01 == a.vector.e2 * (b.vector.e1 * c.bivector.e01)) by (nonlinear_arith);
    assert((a.vector.e2 * b.vector.e1) * c.bivector.e12 == a.vector.e2 * (b.vector.e1 * c.bivector.e12)) by (nonlinear_arith);
    assert((a.vector.e2 * b.vector.e1) * c.bivector.e20 == a.vector.e2 * (b.vector.e1 * c.bivector.e20)) by (nonlinear_arith);
    assert((a.vector.e2 * b.vector.e1) * c.scalar == a.vector.e2 * (b.vector.e1 * c.scalar)) by (nonlinear_arith);
    assert((a.vector.e2 * b.vector.e1) * c.trivector.e012 == a.vector.e2 * (b.vector.e1 * c.trivector.e012)) by (nonlinear_arith);
    assert((a.vector.e2 * b.vector.e1) * c.vector.e0 == a.vector.e2 * (b.vector.e1 * c.vector.e0)) by (nonlinear_arith);
    assert((a.vector.e2 * b.vector.e1) * c.vector.e1 == a.vector.e2 * (b.vector.e1 * c.vector.e1)) by (nonlinear_arith);
    assert((a.vector.e2 * b.vector.e1) * c.vector.e2 == a.vector.e2 * (b.vector.e1 * c.vector.e2)) by (nonlinear_arith);
    assert((a.vector.e2 * b.vector.e2) * c.bivector.e01 == a.vector.e2 * (b.vector.e2 * c.bivector.e01)) by (nonlinear_arith);
    assert((a.vector.e2 * b.vector.e2) * c.bivector.e12 == a.vector.e2 * (b.vector.e2 * c.bivector.e12)) by (nonlinear_arith);
    assert((a.vector.e2 * b.vector.e2) * c.bivector.e20 == a.vector.e2 * (b.vector.e2 * c.bivector.e20)) by (nonlinear_arith);
    assert((a.vector.e2 * b.vector.e2) * c.scalar == a.vector.e2 * (b.vector.e2 * c.scalar)) by (nonlinear_arith);
    assert((a.vector.e2 * b.vector.e2) * c.trivector.e012 == a.vector.e2 * (b.vector.e2 * c.trivector.e012)) by (nonlinear_arith);
    assert((a.vector.e2 * b.vector.e2) * c.vector.e0 == a.vector.e2 * (b.vector.e2 * c.vector.e0)) by (nonlinear_arith);
    assert((a.vector.e2 * b.vector.e2) * c.vector.e1 == a.vector.e2 * (b.vector.e2 * c.vector.e1)) by (nonlinear_arith);
    assert((a.vector.e2 * b.vector.e2) * c.vector.e2 == a.vector.e2 * (b.vector.e2 * c.vector.e2)) by (nonlinear_arith);
}

/// One coefficient of the associativity identity: both groupings of the
/// product expand to the same polynomial in the operands' coefficients.
proof fn lemma_assoc_scalar(a: MvModel, b: MvModel, c: MvModel)
    ensures
        mv_geo(mv_geo(a, b), c).scalar == mv_geo(a, mv_geo(b, c)).scalar,
{
    let ab = mv_geo(a, b);
    let bc = mv_geo(b, c);
    lemma_triple_products(a, b, c);
    assert(ab.vector.e1 * c.vector.e1 == -((a.vector.e2 * b.bivector.e12) * c.vector.e1) + (a.bivector.e12 * b.vector.e2) * c.vector.e1 + (a.scalar * b.vector.e1) * c.vector.e1 + (a.vector.e1 * b.scalar) * c.vector.e1) by (nonlinear_arith)
        requires
            ab.vector.e1 == -(a.vector.e2 * b.bivector.e12) + a.bivector.e12 * b.vector.e2 + a.scalar * b.vector.e1 + a.vector.e1 * b.scalar,
    ;
    assert(ab.vector.e2 * c.vector.e2 == (a.vector.e1 * b.bivector.e12) * c.vector.e2 - (a.bivector.e12 * b.vector.e1) * c.vector.e2 + (a.scalar * b.vector.e2) * c.vector.e2 + (a.vector.e2 * b.scalar) * c.vector.e2) by (nonlinear_arith)
        requires
            ab.vector.e2 == a.vector.e1 * b.bivector.e12 - a.bivector.e12 * b.vector.e1 + a.scalar * b.vector.e2 + a.vector.e2 * b.scalar,
    ;
    assert(ab.bivector.e12 * c.bivector.e12 == (a.vector.e1 * b.vector.e2) * c.bivector.e12 - (a.vector.e2 * b.vector.e1) * c.bivector.e12 + (a.scalar * b.bivector.e12) * c.bivector.e12 + (a.bivector.e12 * b.scalar) * c.bivector.e12) by (nonlinear_arith)
        requires
            ab.bivector.e12 == a.vector.e1 * b.vector.e2 - a.vector.e2 * b.vector.e1 + a.scalar * b.bivector.e12 + a.bivector.e12 * b.scalar,
    ;
    assert(ab.scalar * c.scalar == (a.vector.e1 * b.vector.e1) * c.scalar + (a.vector.e2 * b.vector.e2) * c.scalar - (a.bivector.e12 * b.bivector.e12) * c.scalar + (a.scalar * b.scalar) * c.scalar) by (nonlinear_arith)
        requires
            ab.scalar == a.vector.e1 * b.vector.e1 + a.vector.e2 * b.vector.e2 - a.bivector.e12 * b.bivector.e12 + a.scalar * b.scalar,
    ;
    assert(a.vector.e1 * bc.vector.e1 == -(a.vector.e1 * (b.vector.e2 * c.bivector.e12)) + a.vector.e1 * (b.bivector.e12 * c.vector.e2) + a.vector.e1 * (b.scalar * c.vector.e1) + a.vector.e1 * (b.vector.e1 * c.scalar)) by (nonlinear_arith)
        requires
            bc.vector.e1 == -(b.vector.e2 * c.bivector.e12) + b.bivector.e12 * c.vector.e2 + b.scalar * c.vector.e1 + b.vector.e1 * c.scalar,
    ;
    assert(a.vector.e2 * bc.vector.e2 == a.vector.e2 * (b.vector.e1 * c.bivector.e12) - a.vector.e2 * (b.bivector.e12 * c.vector.e1) + a.vector.e2 * (b.scalar * c.vector.e2) + a.vector.e2 * (b.vector.e2 * c.scalar)) by (nonlinear_arith)
        requires
            bc.vector.e2 == b.vector.e1 * c.bivector.e12 - b.bivector.e12 * c.vector.e1 + b.scalar * c.vector.e2 + b.vector.e2 * c.scalar,
    ;
    assert(a.bivector.e12 * bc.bivector.e12 == a.bivector.e12 * (b.vector.e1 * c.vector.e2) - a.bivector.e12 * (b.vector.e2 * c.vector.e1) + a.bivector.e12 * (b.scalar * c.bivector.e12) + a.bivector.e12 * (b.bivector.e12 * c.scalar)) by (nonlinear_arith)
        requires
            bc.bivector.e12 == b.vector.e1 * c.vector.e2 - b.vector.e2 * c.vector.e1 + b.scalar * c.bivector.e12 + b.bivector.e12 * c.scalar,
    ;
    assert(a.scalar * bc.scalar == a.scalar * (b.vector.e1 * c.vector.e1) + a.scalar * (b.vector.e2 * c.vector.e2) - a.scalar * (b.bivector.e12 * c.bivector.e12) + a.scalar * (b.scalar * c.scalar)) by (nonlinear_arith)
        requires
            bc.scalar == b.vector.e1 * c.vector.e1 + b.vector.e2 * c.vector.e2 - b.bivector.e12 * c.bivector.e12 + b.scalar * c.scalar,
    ;
}

/// One coefficient of the associativity identity: both groupings of the
/// product expand to the same polynomial in the operands' coefficients.
proof fn lemma_assoc_vector_e0(a: MvModel, b: MvModel, c: MvModel)
    ensures
        mv_geo(mv_geo(a, b), c).vector.e0 == mv_geo(a, mv_geo(b, c)).vector.e0,
{
    let ab = mv_geo(a, b);
    let bc = mv_geo(b, c);
    lemma_triple_products(a, b, c);
    assert(ab.vector.e1 * c.bivector.e01 == -((a.vector.e2 * b.bivector.e12) * c.bivector.e01) + (a.bivector.e12 * b.vector.e2) * c.bivector.e01 + (a.scalar * b.vector.e1) * c.bivector.e01 + (a.vector.e1 * b.scalar) * c.bivector.e01) by (nonlinear_arith)
        requires
            ab.vector.e1 == -(a.vector.e2 * b.bivector.e12) + a.bivector.e12 * b.vector.e2 + a.scalar * b.vector.e1 + a.vector.e1 * b.scalar,
    ;
    assert(ab.vector.e2 * c.bivector.e20 == (a.vector.e1 * b.bivector.e12) * c.bivector.e20 - (a.bivector.e12 * b.vector.e1) * c.bivector.e20 + (a.scalar * b.vector.e2) * c.bivector.e20 + (a.vector.e2 * b.scalar) * c.bivector.e20) by (nonlinear_arith)
        requires
            ab.vector.e2 == a.vector.e1 * b.bivector.e12 - a.bivector.e12 * b.vector.e1 + a.scalar * b.vector.e2 + a.vector.e2 * b.scalar,
    ;
    assert(ab.bivector.e01 * c.vector.e1 == (a.vector.e0 * b.vector.e1) * c.vector.e1 - (a.vector.e1 * b.vector.e0) * c.vector.e1 + (a.vector.e2 * b.trivector.e012) * c.vector.e1 + (a.bivector.e20 * b.bivector.e12) * c.vector.e1 - (a.bivector.e12 * b.bivector.e20) * c.vector.e1 + (a.trivector.e012 * b.vector.e2) * c.vector.e1 + (a.scalar * b.bivector.e01) * c.vector.e1 + (a.bivector.e01 * b.scalar) * c.vector.e1) by (nonlinear_arith)
        requires
            ab.bivector.e01 == a.vector.e0 * b.vector.e1 - a.vector.e1 * b.vector.e0 + a.vector.e2 * b.trivector.e012 + a.bivector.e20 * b.bivector.e12 - a.bivector.e12 * b.bivector.e20 + a.trivector.e012 * b.vector.e2 + a.scalar * b.bivector.e01 + a.bivector.e01 * b.scalar,
    ;
    assert(ab.bivector.e20 * c.vector.e2 == -((a.vector.e0 * b.vector.e2) * c.vector.e2) + (a.vector.e1 * b.trivector.e012) * c.vector.e2 + (a.vector.e2 * b.vector.e0) * c.vector.e2 - (a.bivector.e01 * b.bivector.e12) * c.vector.e2 + (a.bivector.e12 * b.bivector.e01) * c.vector.e2 + (a.trivector.e012 * b.vector.e1) * c.vector.e2 + (a.scalar * b.bivector.e20) * c.vector.e2 + (a.bivector.e20 * b.scalar) * c.vector.e2) by (nonlinear_arith)
        requires
            ab.bivector.e20 == -(a.vector.e0 * b.vector.e2) + a.vector.e1 * b.trivector.e012 + a.vector.e2 * b.vector.e0 - a.bivector.e01 * b.bivector.e12 + a.bivector.e12 * b.bivector.e01 + a.trivector.e012 * b.vector.e1 + a.scalar * b.bivector.e20 + a.bivector.e20 * b.scalar,
    ;
    assert(ab.bivector.e12 * c.trivector.e012 == (a.vector.e1 * b.vector.e2) * c.trivector.e012 - (a.vector.e2 * b.vector.e1) * c.trivector.e012 + (a.scalar * b.bivector.e12) * c.trivector.e012 + (a.bivector.e12 * b.scalar) * c.trivector.e012) by (nonlinear_arith)
        requires
            ab.bivector.e12 == a.vector.e1 * b.vector.e2 - a.vector.e2 * b.vector.e1 + a.scalar * b.bivector.e12 + a.bivector.e12 * b.scalar,
    ;
    assert(ab.trivector.e012 * c.bivector.e12 == (a.vector.e0 * b.bivector.e12) * c.bivector.e12 + (a.vector.e1 * b.bivector.e20) * c.bivector.e12 + (a.vector.e2 * b.bivector.e01) * c.bivector.e12 + (a.bivector.e01 * b.vector.e2) * c.bivector.e12 + (a.bivector.e20 * b.vector.e1) * c.bivector.e12 + (a.bivector.e12 * b.vector.e0) * c.bivector.e12 + (a.scalar * b.trivector.e012) * c.bivector.e12 + (a.trivector.e012 * b.scalar) * c.bivector.e12) by (nonlinear_arith)
        requires
            ab.trivector.e012 == a.vector.e0 * b.bivector.e12 + a.vector.e1 * b.bivector.e20 + a.vector.e2 * b.bivector.e01 + a.bivector.e01 * b.vector.e2 + a.bivector.e20 * b.vector.e1 + a.bivector.e12 * b.vector.e0 + a.scalar * b.trivector.e012 + a.trivector.e012 * b.scalar,
    ;
    assert(ab.scalar * c.vector.e0 == (a.vector.e1 * b.vector.e1) * c.vector.e0 + (a.vector.e2 * b.vector.e2) * c.vector.e0 - (a.bivector.e12 * b.bivector.e12) * c.vector.e0 + (a.scalar * b.scalar) * c.vector.e0) by (nonlinear_arith)
        requires
            ab.scalar == a.vector.e1 * b.vector.e1 + a.vector.e2 * b.vector.e2 - a.bivector.e12 * b.bivector.e12 + a.scalar * b.scalar,
    ;
    assert(ab.vector.e0 * c.scalar == -((a.vector.e1 * b.bivector.e01) * c.scalar) + (a.vector.e2 * b.bivector.e20) * c.scalar + (a.bivector.e01 * b.vector.e1) * c.scalar - (a.bivector.e20 * b.vector.e2) * c.scalar - (a.bivector.e12 * b.trivector.e012) * c.scalar - (a.trivector.e012 * b.bivector.e12) * c.scalar + (a.scalar * b.vector.e0) * c.scalar + (a.vector.e0 * b.scalar) * c.scalar) by (nonlinear_arith)
        requires
            ab.vector.e0 == -(a.vector.e1 * b.bivector.e01) + a.vector.e2 * b.bivector.e20 + a.bivector.e01 * b.vector.e1 - a.bivector.e20 * b.vector.e2 - a.bivector.e12 * b.trivector.e012 - a.trivector.e012 * b.bivector.e12 + a.scalar * b.vector.e0 + a.vector.e0 * b.scalar,
    ;
    assert(a.vector.e1 * bc.bivector.e01 == a.vector.e1 * (b.vector.e0 * c.vector.e1) - a.vector.e1 * (b.vector.e1 * c.vector.e0) + a.vector.e1 * (b.vector.e2 * c.trivector.e012) + a.vector.e1 * (b.bivector.e20 * c.bivector.e12) - a.vector.e1 * (b.bivector.e12 * c.bivector.e20) + a.vector.e1 * (b.trivector.e012 * c.vector.e2) + a.vector.e1 * (b.scalar * c.bivector.e01) + a.vector.e1 * (b.bivector.e01 * c.scalar)) by (nonlinear_arith)
        requires
            bc.bivector.e01 == b.vector.e0 * c.vector.e1 - b.vector.e1 * c.vector.e0 + b.vector.e2 * c.trivector.e012 + b.bivector.e20 * c.bivector.e12 - b.bivector.e12 * c.bivector.e20 + b.trivector.e012 * c.vector.e2 + b.scalar * c.bivector.e01 + b.bivector.e01 * c.scalar,
    ;
    assert(a.vector.e2 * bc.bivector.e20 == -(a.vector.e2 * (b.vector.e0 * c.vector.e2)) + a.vector.e2 * (b.vector.e1 * c.trivector.e012) + a.vector.e2 * (b.vector.e2 * c.vector.e0) - a.vector.e2 * (b.bivector.e01 * c.bivector.e12) + a.vector.e2 * (b.bivector.e12 * c.bivector.e01) + a.vector.e2 * (b.trivector.e012 * c.vector.e1) + a.vector.e2 * (b.scalar * c.bivector.e20) + a.vector.e2 * (b.bivector.e20 * c.scalar)) by (nonlinear_arith)
        requires
            bc.bivector.e20 == -(b.vector.e0 * c.vector.e2) + b.vector.e1 * c.trivector.e012 + b.vector.e2 * c.vector.e0 - b.bivector.e01 * c.bivector.e12 + b.bivector.e12 * c.bivector.e01 + b.trivector.e012 * c.vector.e1 + b.scalar * c.bivector.e20 + b.bivector.e20 * c.scalar,
    ;
    assert(a.bivector.e01 * bc.vector.e1 == -(a.bivector.e01 * (b.vector.e2 * c.bivector.e12)) + a.bivector.e01 * (b.bivector.e12 * c.vector.e2) + a.bivector.e01 * (b.scalar * c.vector.e1) + a.bivector.e01 * (b.vector.e1 * c.scalar)) by (nonlinear_arith)
        requires
            bc.vector.e1 == -(b.vector.e2 * c.bivector.e12) + b.bivector.e12 * c.vector.e2 + b.scalar * c.vector.e1 + b.vector.e1 * c.scalar,
    ;
    assert(a.bivector.e20 * bc.vector.e2 == a.bivector.e20 * (b.vector.e1 * c.bivector.e12) - a.bivector.e20 * (b.bivector.e12 * c.vector.e1) + a.bivector.e20 * (b.scalar * c.vector.e2) + a.bivector.e20 * (b.vector.e2 * c.scalar)) by (nonlinear_arith)
        requires
            bc.vector.e2 == b.vector.e1 * c.bivector.e12 - b.bivector.e12 * c.vector.e1 + b.scalar * c.vector.e2 + b.vector.e2 * c.scalar,
    ;
    assert(a.bivector.e12 * bc.trivector.e012 == a.bivector.e12 * (b.vector.e0 * c.bivector.e12) + a.bivector.e12 * (b.vector.e1 * c.bivector.e20) + a.bivector.e12 * (b.vector.e2 * c.bivector.e01) + a.bivector.e12 * (b.bivector.e01 * c.vector.e2) + a.bivector.e12 * (b.bivector.e20 * c.vector.e1) + a.bivector.e12 * (b.bivector.e12 * c.vector.e0) + a.bivector.e12 * (b.scalar * c.trivector.e012) + a.bivector.e12 * (b.trivector.e012 * c.scalar)) by (nonlinear_arith)
        requires
            bc.trivector.e012 == b.vector.e0 * c.bivector.e12 + b.vector.e1 * c.bivector.e20 + b.vector.e2 * c.bivector.e01 + b.bivector.e01 * c.vector.e2 + b.bivector.e20 * c.vector.e1 + b.bivector.e12 * c.vector.e0 + b.scalar * c.trivector.e012 + b.trivector.e012 * c.scalar,
    ;
    assert(a.trivector.e012 * bc.bivector.e12 == a.trivector.e012 * (b.vector.e1 * c.vector.e2) - a.trivector.e012 * (b.vector.e2 * c.vector.e1) + a.trivector.e012 * (b.scalar * c.bivector.e12) + a.trivector.e012 * (b.bivector.e12 * c.scalar)) by (nonlinear_arith)
        requires
            bc.bivector.e12 == b.vector.e1 * c.vector.e2 - b.vector.e2 * c.vector.e1 + b.scalar * c.bivector.e12 + b.bivector.e12 * c.scalar,
    ;
    assert(a.scalar * bc.vector.e0 == -(a.scalar * (b.vector.e1 * c.bivector.e01)) + a.scalar * (b.vector.e2 * c.bivector.e20) + a.scalar * (b.bivector.e01 * c.vector.e1) - a.scalar * (b.bivector.e20 * c.vector.e2) - a.scalar * (b.bivector.e12 * c.trivector.e012) - a.scalar * (b.trivector.e012 * c.bivector.e12) + a.scalar * (b.scalar * c.vector.e0) + a.scalar * (b.vector.e0 * c.scalar)) by (nonlinear_arith)
        requires
            bc.vector.e0 == -(b.vector.e1 * c.bivector.e01) + b.vector.e2 * c.bivector.e20 + b.bivector.e01 * c.vector.e1 - b.bivector.e20 * c.vector.e2 - b.bivector.e12 * c.trivector.e012 - b.trivector.e012 * c.bivector.e12 + b.scalar * c.vector.e0 + b.vector.e0 * c.scalar,
    ;
    assert(a.vector.e0 * bc.scalar == a.vector.e0 * (b.vector.e1 * c.vector.e1) + a.vector.e0 * (b.vector.e2 * c.vector.e2) - a.vector.e0 * (b.bivector.e12 * c.bivector.e12) + a.vector.e0 * (b.scalar * c.scalar)) by (nonlinear_arith)
        requires
            bc.scalar == b.vector.e1 * c.vector.e1 + b.vector.e2 * c.vector.e2 - b.bivector.e12 * c.bivector.e12 + b.scalar * c.scalar,
    ;
}

/// One coefficient of the associativity identity: both groupings of the
/// product expand to the same polynomial in the operands' coefficients.
proof fn lemma_assoc_vector_e1(a: MvModel, b: MvModel, c: MvModel)
    ensures
        mv_geo(mv_geo(a, b), c).vector.e1 == mv_geo(a, mv_geo(b, c)).vector.e1,
{
    let ab = mv_geo(a, b);
    let bc = mv_geo(b, c);
    lemma_triple_products(a, b, c);
    assert(ab.vector.e2 * c.bivector.e12 == (a.vector.e1 * b.bivector.e12) * c.bivector.e12 - (a.bivector.e12 * b.vector.e1) * c.bivector.e12 + (a.scalar * b.vector.e2) * c.bivector.e12 + (a.vector.e2 * b.scalar) * c.bivector.e12) by (nonlinear_arith)
        requires
            ab.vector.e2 == a.vector.e1 * b.bivector.e12 - a.bivector.e12 * b.vector.e1 + a.scalar * b.vector.e2 + a.vector.e2 * b.scalar,
    ;
    assert(ab.bivector.e12 * c.vector.e2 == (a.vector.e1 * b.vector.e2) * c.vector.e2 - (a.vector.e2 * b.vector.e1) * c.vector.e2 + (a.scalar * b.bivector.e12) * c.vector.e2 + (a.bivector.e12 * b.scalar) * c.vector.e2) by (nonlinear_arith)
        requires
            ab.bivector.e12 == a.vector.e1 * b.vector.e2 - a.vector.e2 * b.vector.e1 + a.scalar * b.bivector.e12 + a.bivector.e12 * b.scalar,
    ;
    assert(ab.scalar * c.vector.e1 == (a.vector.e1 * b.vector.e1) * c.vector.e1 + (a.vector.e2 * b.vector.e2) * c.vector.e1 - (a.bivector.e12 * b.bivector.e12) * c.vector.e1 + (a.scalar * b.scalar) * c.vector.e1) by (nonlinear_arith)
        requires
            ab.scalar == a.vector.e1 * b.vector.e1 + a.vector.e2 * b.vector.e2 - a.bivector.e12 * b.bivector.e12 + a.scalar * b.scalar,
    ;
    assert(ab.vector.e1 * c.scalar == -((a.vector.e2 * b.bivector.e12) * c.scalar) + (a.bivector.e12 * b.vector.e2) * c.scalar + (a.scalar * b.vector.e1) * c.scalar + (a.vector.e1 * b.scalar) * c.scalar) by (nonlinear_arith)
        requires
            ab.vector.e1 == -(a.vector.e2 * b.bivector.e12) + a.bivector.e12 * b.vector.e2 + a.scalar * b.vector.e1 + a.vector.e1 * b.scalar,
    ;
    assert(a.vector.e2 * bc.bivector.e12 == a.vector.e2 * (b.vector.e1 * c.vector.e2) - a.vector.e2 * (b.vector.e2 * c.vector.e1) + a.vector.e2 * (b.scalar * c.bivector.e12) + a.vector.e2 * (b.bivector.e12 * c.scalar)) by (nonlinear_arith)
        requires
            bc.bivector.e12 == b.vector.e1 * c.vector.e2 - b.vector.e2 * c.vector.e1 + b.scalar * c.bivector.e12 + b.bivector.e12 * c.scalar,
    ;
    assert(a.bivector.e12 * bc.vector.e2 == a.bivector.e12 * (b.vector.e1 * c.bivector.e12) - a.bivector.e12 * (b.bivector.e12 * c.vector.e1) + a.bivector.e12 * (b.scalar * c.vector.e2) + a.bivector.e12 * (b.vector.e2 * c.scalar)) by (nonlinear_arith)
        requires
            bc.vector.e2 == b.vector.e1 * c.bivector.e12 - b.bivector.e12 * c.vector.e1 + b.scalar * c.vector.e2 + b.vector.e2 * c.scalar,
    ;
    assert(a.scalar * bc.vector.e1 == -(a.scalar * (b.vector.e2 * c.bivector.e12)) + a.scalar * (b.bivector.e12 * c.vector.e2) + a.scalar * (b.scalar * c.vector.e1) + a.scalar * (b.vector.e1 * c.scalar)) by (nonlinear_arith)
        requires
            bc.vector.e1 == -(b.vector.e2 * c.bivector.e12) + b.bivector.e12 * c.vector.e2 + b.scalar * c.vector.e1 + b.vector.e1 * c.scalar,
    ;
    assert(a.vector.e1 * bc.scalar == a.vector.e1 * (b.vector.e1 * c.vector.e1) + a.vector.e1 * (b.vector.e2 * c.vector.e2) - a.vector.e1 * (b.bivector.e12 * c.bivector.e12) + a.vector.e1 * (b.scalar * c.scalar)) by (nonlinear_arith)
        requires
            bc.scalar == b.vector.e1 * c.vector.e1 + b.vector.e2 * c.vector.e2 - b.bivector.e12 * c.bivector.e12 + b.scalar * c.scalar,
    ;
}

/// One coefficient of the associativity identity: both groupings of the
/// product expand to the same polynomial in the operands' coefficients.
proof fn lemma_assoc_vector_e2(a: MvModel, b: MvModel, c: MvModel)
    ensures
        mv_geo(mv_geo(a, b), c).vector.e2 == mv_geo(a, mv_geo(b, c)).vector.e2,
{
    let ab = mv_geo(a, b);
    let bc = mv_geo(b, c);
    lemma_triple_products(a, b, c);
    assert(ab.vector.e1 * c.bivector.e12 == -((a.vector.e2 * b.bivector.e12) * c.bivector.e12) + (a.bivector.e12 * b.vector.e2) * c.bivector.e12 + (a.scalar * b.vector.e1) * c.bivector.e12 + (a.vector.e1 * b.scalar) * c.bivector.e12) by (nonlinear_arith)
        requires
            ab.vector.e1 == -(a.vector.e2 * b.bivector.e12) + a.bivector.e12 * b.vector.e2 + a.scalar * b.vector.e1 + a.vector.e1 * b.scalar,
    ;
    assert(ab.bivector.e12 * c.vector.e1 == (a.vector.e1 * b.vector.e2) * c.vector.e1 - (a.vector.e2 * b.vector.e1) * c.vector.e1 + (a.scalar * b.bivector.e12) * c.vector.e1 + (a.bivector.e12 * b.scalar) * c.vector.e1) by (nonlinear_arith)
        requires
            ab.bivector.e12 == a.vector.e1 * b.vector.e2 - a.vector.e2 * b.vector.e1 + a.scalar * b.bivector.e12 + a.bivector.e12 * b.scalar,
    ;
    assert(ab.scalar * c.vector.e2 == (a.vector.e1 * b.vector.e1) * c.vector.e2 + (a.vector.e2 * b.vector.e2) * c.vector.e2 - (a.bivector.e12 * b.bivector.e12) * c.vector.e2 + (a.scalar * b.scalar) * c.vector.e2) by (nonlinear_arith)
        requires
            ab.scalar == a.vector.e1 * b.vector.e1 + a.vector.e2 * b.vector.e2 - a.bivector.e12 * b.bivector.e12 + a.scalar * b.scalar,
    ;
    assert(ab.vector.e2 * c.scalar == (a.vector.e1 * b.bivector.e12) * c.scalar - (a.bivector.e12 * b.vector.e1) * c.scalar + (a.scalar * b.vector.e2) * c.scalar + (a.vector.e2 * b.scalar) * c.scalar) by (nonlinear_arith)
        requires
            ab.vector.e2 == a.vector.e1 * b.bivector.e12 - a.bivector.e12 * b.vector.e1 + a.scalar * b.vector.e2 + a.vector.e2 * b.scalar,
    ;
    assert(a.vector.e1 * bc.bivector.e12 == a.vector.e1 * (b.vector.e1 * c.vector.e2) - a.vector.e1 * (b.vector.e2 * c.vector.e1) + a.vector.e1 * (b.scalar * c.bivector.e12) + a.vector.e1 * (b.bivector.e12 * c.scalar)) by (nonlinear_arith)
        requires
            bc.bivector.e12 == b.vector.e1 * c.vector.e2 - b.vector.e2 * c.vector.e1 + b.scalar * c.bivector.e12 + b.bivector.e12 * c.scalar,
    ;
    assert(a.bivector.e12 * bc.vector.e1 == -(a.bivector.e12 * (b.vector.e2 * c.bivector.e12)) + a.bivector.e12 * (b.bivector.e12 * c.vector.e2) + a.bivector.e12 * (b.scalar * c.vector.e1) + a.bivector.e12 * (b.vector.e1 * c.scalar)) by (nonlinear_arith)
        requires
            bc.vector.e1 == -(b.vector.e2 * c.bivector.e12) + b.bivector.e12 * c.vector.e2 + b.scalar * c.vector.e1 + b.vector.e1 * c.scalar,
    ;
    assert(a.scalar * bc.vector.e2 == a.scalar * (b.vector.e1 * c.bivector.e12) - a.scalar * (b.bivector.e12 * c.vector.e1) + a.scalar * (b.scalar * c.vector.e2) + a.scalar * (b.vector.e2 * c.scalar)) by (nonlinear_arith)
        requires
            bc.vector.e2 == b.vector.e1 * c.bivector.e12 - b.bivector.e12 * c.vector.e1 + b.scalar * c.vector.e2 + b.vector.e2 * c.scalar,
    ;
    assert(a.vector.e2 * bc.scalar == a.vector.e2 * (b.vector.e1 * c.vector.e1) + a.vector.e2 * (b.vector.e2 * c.vector.e2) - a.vector.e2 * (b.bivector.e12 * c.bivector.e12) + a.vector.e2 * (b.scalar * c.scalar)) by (nonlinear_arith)
        requires
            bc.scalar == b.vector.e1 * c.vector.e1 + b.vector.e2 * c.vector.e2 - b.bivector.e12 * c.bivector.e12 + b.scalar * c.scalar,
    ;
}

/// One coefficient of the associativity identity: both groupings of the
/// product expand to the same polynomial in the operands' coefficients.
proof fn lemma_assoc_bivector_e01(a: MvModel, b: MvModel, c: MvModel)
    ensures
        mv_geo(mv_geo(a, b), c).bivector.e01 == mv_geo(a, mv_geo(b, c)).bivector.e01,
{
    let ab = mv_geo(a, b);
    let bc = mv_geo(b, c);
    lemma_triple_products(a, b, c);
    assert(ab.vector.e0 * c.vector.e1 == -((a.vector.e1 * b.bivector.e01) * c.vector.e1) + (a.vector.e2 * b.bivector.e20) * c.vector.e1 + (a.bivector.e01 * b.vector.e1) * c.vector.e1 - (a.bivector.e20 * b.vector.e2) * c.vector.e1 - (a.bivector.e12 * b.trivector.e012) * c.vector.e1 - (a.trivector.e012 * b.bivector.e12) * c.vector.e1 + (a.scalar * b.vector.e0) * c.vector.e1 + (a.vector.e0 * b.scalar) * c.vector.e1) by (nonlinear_arith)
        requires
            ab.vector.e0 == -(a.vector.e1 * b.bivector.e01) + a.vector.e2 * b.bivector.e20 + a.bivector.e01 * b.vector.e1 - a.bivector.e20 * b.vector.e2 - a.bivector.e12 * b.trivector.e012 - a.trivector.e012 * b.bivector.e12 + a.scalar * b.vector.e0 + a.vector.e0 * b.scalar,
    ;
    assert(ab.vector.e1 * c.vector.e0 == -((a.vector.e2 * b.bivector.e12) * c.vector.e0) + (a.bivector.e12 * b.vector.e2) * c.vector.e0 + (a.scalar * b.vector.e1) * c.vector.e0 + (a.vector.e1 * b.scalar) * c.vector.e0) by (nonlinear_arith)
        requires
            ab.vector.e1 == -(a.vector.e2 * b.bivector.e12) + a.bivector.e12 * b.vector.e2 + a.scalar * b.vector.e1 + a.vector.e1 * b.scalar,
    ;
    assert(ab.vector.e2 * c.trivector.e012 == (a.vector.e1 * b.bivector.e12) * c.trivector.e012 - (a.bivector.e12 * b.vector.e1) * c.trivector.e012 + (a.scalar * b.vector.e2) * c.trivector.e012 + (a.vector.e2 * b.scalar) * c.trivector.e012) by (nonlinear_arith)
        requires
            ab.vector.e2 == a.vector.e1 * b.bivector.e12 - a.bivector.e12 * b.vector.e1 + a.scalar * b.vector.e2 + a.vector.e2 * b.scalar,
    ;
    assert(ab.bivector.e20 * c.bivector.e12 == -((a.vector.e0 * b.vector.e2) * c.bivector.e12) + (a.vector.e1 * b.trivector.e012) * c.bivector.e12 + (a.vector.e2 * b.vector.e0) * c.bivector.e12 - (a.bivector.e01 * b.bivector.e12) * c.bivector.e12 + (a.bivector.e12 * b.bivector.e01) * c.bivector.e12 + (a.trivector.e012 * b.vector.e1) * c.bivector.e12 + (a.scalar * b.bivector.e20) * c.bivector.e12 + (a.bivector.e20 * b.scalar) * c.bivector.e12) by (nonlinear_arith)
        requires
            ab.bivector.e20 == -(a.vector.e0 * b.vector.e2) + a.vector.e1 * b.trivector.e012 + a.vector.e2 * b.vector.e0 - a.bivector.e01 * b.bivector.e12 + a.bivector.e12 * b.bivector.e01 + a.trivector.e012 * b.vector.e1 + a.scalar * b.bivector.e20 + a.bivector.e20 * b.scalar,
    ;
    assert(ab.bivector.e12 * c.bivector.e20 == (a.vector.e1 * b.vector.e2) * c.bivector.e20 - (a.vector.e2 * b.vector.e1) * c.bivector.e20 + (a.scalar * b.bivector.e12) * c.bivector.e20 + (a.bivector.e12 * b.scalar) * c.bivector.e20) by (nonlinear_arith)
        requires
            ab.bivector.e12 == a.vector.e1 * b.vector.e2 - a.vector.e2 * b.vector.e1 + a.scalar * b.bivector.e12 + a.bivector.e12 * b.scalar,
    ;
    assert(ab.trivector.e012 * c.vector.e2 == (a.vector.e0 * b.bivector.e12) * c.vector.e2 + (a.vector.e1 * b.bivector.e20) * c.vector.e2 + (a.vector.e2 * b.bivector.e01) * c.vector.e2 + (a.bivector.e01 * b.vector.e2) * c.vector.e2 + (a.bivector.e20 * b.vector.e1) * c.vector.e2 + (a.bivector.e12 * b.vector.e0) * c.vector.e2 + (a.scalar * b.trivector.e012) * c.vector.e2 + (a.trivector.e012 * b.scalar) * c.vector.e2) by (nonlinear_arith)
        requires
            ab.trivector.e012 == a.vector.e0 * b.bivector.e12 + a.vector.e1 * b.bivector.e20 + a.vector.e2 * b.bivector.e01 + a.bivector.e01 * b.vector.e2 + a.bivector.e20 * b.vector.e1 + a.bivector.e12 * b.vector.e0 + a.scalar * b.trivector.e012 + a.trivector.e012 * b.scalar,
    ;
    assert(ab.scalar * c.bivector.e01 == (a.vector.e1 * b.vector.e1) * c.bivector.e01 + (a.vector.e2 * b.vector.e2) * c.bivector.e01 - (a.bivector.e12 * b.bivector.e12) * c.bivector.e01 + (a.scalar * b.scalar) * c.bivector.e01) by (nonlinear_arith)
        requires
            ab.scalar == a.vector.e1 * b.vector.e1 + a.vector.e2 * b.vector.e2 - a.bivector.e12 * b.bivector.e12 + a.scalar * b.scalar,
    ;
    assert(ab.bivector.e01 * c.scalar == (a.vector.e0 * b.vector.e1) * c.scalar - (a.vector.e1 * b.vector.e0) * c.scalar + (a.vector.e2 * b.trivector.e012) * c.scalar + (a.bivector.e20 * b.bivector.e12) * c.scalar - (a.bivector.e12 * b.bivector.e20) * c.scalar + (a.trivector.e012 * b.vector.e2) * c.scalar + (a.scalar * b.bivector.e01) * c.scalar + (a.bivector.e01 * b.scalar) * c.scalar) by (nonlinear_arith)
        requires
            ab.bivector.e01 == a.vector.e0 * b.vector.e1 - a.vector.e1 * b.vector.e0 + a.vector.e2 * b.trivector.e012 + a.bivector.e20 * b.bivector.e12 - a.bivector.e12 * b.bivector.e20 + a.trivector.e012 * b.vector.e2 + a.scalar * b.bivector.e01 + a.bivector.e01 * b.scalar,
    ;
    assert(a.vector.e0 * bc.vector.e1 == -(a.vector.e0 * (b.vector.e2 * c.bivector.e12)) + a.vector.e0 * (b.bivector.e12 * c.vector.e2) + a.vector.e0 * (b.scalar * c.vector.e1) + a.vector.e0 * (b.vector.e1 * c.scalar)) by (nonlinear_arith)
        requires
            bc.vector.e1 == -(b.vector.e2 * c.bivector.e12) + b.bivector.e12 * c.vector.e2 + b.scalar * c.vector.e1 + b.vector.e1 * c.scalar,
    ;
    assert(a.vector.e1 * bc.vector.e0 == -(a.vector.e1 * (b.vector.e1 * c.bivector.e01)) + a.vector.e1 * (b.vector.e2 * c.bivector.e20) + a.vector.e1 * (b.bivector.e01 * c.vector.e1) - a.vector.e1 * (b.bivector.e20 * c.vector.e2) - a.vector.e1 * (b.bivector.e12 * c.trivector.e012) - a.vector.e1 * (b.trivector.e012 * c.bivector.e12) + a.vector.e1 * (b.scalar * c.vector.e0) + a.vector.e1 * (b.vector.e0 * c.scalar)) by (nonlinear_arith)
        requires
            bc.vector.e0 == -(b.vector.e1 * c.bivector.e01) + b.vector.e2 * c.bivector.e20 + b.bivector.e01 * c.vector.e1 - b.bivector.e20 * c.vector.e2 - b.bivector.e12 * c.trivector.e012 - b.trivector.e012 * c.bivector.e12 + b.scalar * c.vector.e0 + b.vector.e0 * c.scalar,
    ;
    assert(a.vector.e2 * bc.trivector.e012 == a.vector.e2 * (b.vector.e0 * c.bivector.e12) + a.vector.e2 * (b.vector.e1 * c.bivector.e20) + a.vector.e2 * (b.vector.e2 * c.bivector.e01) + a.vector.e2 * (b.bivector.e01 * c.vector.e2) + a.vector.e2 * (b.bivector.e20 * c.vector.e1) + a.vector.e2 * (b.bivector.e12 * c.vector.e0) + a.vector.e2 * (b.scalar * c.trivector.e012) + a.vector.e2 * (b.trivector.e012 * c.scalar)) by (nonlinear_arith)
        requires
            bc.trivector.e012 == b.vector.e0 * c.bivector.e12 + b.vector.e1 * c.bivector.e20 + b.vector.e2 * c.bivector.e01 + b.bivector.e01 * c.vector.e2 + b.bivector.e20 * c.vector.e1 + b.bivector.e12 * c.vector.e0 + b.scalar * c.trivector.e012 + b.trivector.e012 * c.scalar,
    ;
    assert(a.bivector.e20 * bc.bivector.e12 == a.bivector.e20 * (b.vector.e1 * c.vector.e2) - a.bivector.e20 * (b.vector.e2 * c.vector.e1) + a.bivector.e20 * (b.scalar * c.bivector.e12) + a.bivector.e20 * (b.bivector.e12 * c.scalar)) by (nonlinear_arith)
        requires
            bc.bivector.e12 == b.vector.e1 * c.vector.e2 - b.vector.e2 * c.vector.e1 + b.scalar * c.bivector.e12 + b.bivector.e12 * c.scalar,
    ;
    assert(a.bivector.e12 * bc.bivector.e20 == -(a.bivector.e12 * (b.vector.e0 * c.vector.e2)) + a.bivector.e12 * (b.vector.e1 * c.trivector.e012) + a.bivector.e12 * (b.vector.e2 * c.vector.e0) - a.bivector.e12 * (b.bivector.e01 * c.bivector.e12) + a.bivector.e12 * (b.bivector.e12 * c.bivector.e01) + a.bivector.e12 * (b.trivector.e012 * c.vector.e1) + a.bivector.e12 * (b.scalar * c.bivector.e20) + a.bivector.e12 * (b.bivector.e20 * c.scalar)) by (nonlinear_arith)
        requires
            bc.bivector.e20 == -(b.vector.e0 * c.vector.e2) + b.vector.e1 * c.trivector.e012 + b.vector.e2 * c.vector.e0 - b.bivector.e01 * c.bivector.e12 + b.bivector.e12 * c.bivector.e01 + b.trivector.e012 * c.vector.e1 + b.scalar * c.bivector.e20 + b.bivector.e20 * c.scalar,
    ;
    assert(a.trivector.e012 * bc.vector.e2 == a.trivector.e012 * (b.vector.e1 * c.bivector.e12) - a.trivector.e012 * (b.bivector.e12 * c.vector.e1) + a.trivector.e012 * (b.scalar * c.vector.e2) + a.trivector.e012 * (b.vector.e2 * c.scalar)) by (nonlinear_arith)
        requires
            bc.vector.e2 == b.vector.e1 * c.bivector.e12 - b.bivector.e12 * c.vector.e1 + b.scalar * c.vector.e2 + b.vector.e2 * c.scalar,
    ;
    assert(a.scalar * bc.bivector.e01 == a.scalar * (b.vector.e0 * c.vector.e1) - a.scalar * (b.vector.e1 * c.vector.e0) + a.scalar * (b.vector.e2 * c.trivector.e012) + a.scalar * (b.bivector.e20 * c.bivector.e12) - a.scalar * (b.bivector.e12 * c.bivector.e20) + a.scalar * (b.trivector.e012 * c.vector.e2) + a.scalar * (b.scalar * c.bivector.e01) + a.scalar * (b.bivector.e01 * c.scalar)) by (nonlinear_arith)
        requires
            bc.bivector.e01 == b.vector.e0 * c.vector.e1 - b.vector.e1 * c.vector.e0 + b.vector.e2 * c.trivector.e012 + b.bivector.e20 * c.bivector.e12 - b.bivector.e12 * c.bivector.e20 + b.trivector.e012 * c.vector.e2 + b.scalar * c.bivector.e01 + b.bivector.e01 * c.scalar,
    ;
    assert(a.bivector.e01 * bc.scalar == a.bivector.e01 * (b.vector.e1 * c.vector.e1) + a.bivector.e01 * (b.vector.e2 * c.vector.e2) - a.bivector.e01 * (b.bivector.e12 * c.bivector.e12) + a.bivector.e01 * (b.scalar * c.scalar)) by (nonlinear_arith)
        requires
            bc.scalar == b.vector.e1 * c.vector.e1 + b.vector.e2 * c.vector.e2 - b.bivector.e12 * c.bivector.e12 + b.scalar * c.scalar,
    ;
}

/// One coefficient of the associativity identity: both groupings of the
/// product expand to the same polynomial in the operands' coefficients.
proof fn lemma_assoc_bivector_e20(a: MvModel, b: MvModel, c: MvModel)
    ensures
        mv_geo(mv_geo(a, b), c).bivector.e20 == mv_geo(a, mv_geo(b, c)).bivector.e20,
{
    let ab = mv_geo(a, b);
    let bc = mv_geo(b, c);
    lemma_triple_products(a, b, c);
    assert(ab.vector.e0 * c.vector.e2 == -((a.vector.e1 * b.bivector.e01) * c.vector.e2) + (a.vector.e2 * b.bivector.e20) * c.vector.e2 + (a.bivector.e01 * b.vector.e1) * c.vector.e2 - (a.bivector.e20 * b.vector.e2) * c.vector.e2 - (a.bivector.e12 * b.trivector.e012) * c.vector.e2 - (a.trivector.e012 * b.bivector.e12) * c.vector.e2 + (a.scalar * b.vector.e0) * c.vector.e2 + (a.vector.e0 * b.scalar) * c.vector.e2) by (nonlinear_arith)
        requires
            ab.vector.e0 == -(a.vector.e1 * b.bivector.e01) + a.vector.e2 * b.bivector.e20 + a.bivector.e01 * b.vector.e1 - a.bivector.e20 * b.vector.e2 - a.bivector.e12 * b.trivector.e012 - a.trivector.e012 * b.bivector.e12 + a.scalar * b.vector.e0 + a.vector.e0 * b.scalar,
    ;
    assert(ab.vector.e1 * c.trivector.e012 == -((a.vector.e2 * b.bivector.e12) * c.trivector.e012) + (a.bivector.e12 * b.vector.e2) * c.trivector.e012 + (a.scalar * b.vector.e1) * c.trivector.e012 + (a.vector.e1 * b.scalar) * c.trivector.e012) by (nonlinear_arith)
        requires
            ab.vector.e1 == -(a.vector.e2 * b.bivector.e12) + a.bivector.e12 * b.vector.e2 + a.scalar * b.vector.e1 + a.vector.e1 * b.scalar,
    ;
    assert(ab.vector.e2 * c.vector.e0 == (a.vector.e1 * b.bivector.e12) * c.vector.e0 - (a.bivector.e12 * b.vector.e1) * c.vector.e0 + (a.scalar * b.vector.e2) * c.vector.e0 + (a.vector.e2 * b.scalar) * c.vector.e0) by (nonlinear_arith)
        requires
            ab.vector.e2 == a.vector.e1 * b.bivector.e12 - a.bivector.e12 * b.vector.e1 + a.scalar * b.vector.e2 + a.vector.e2 * b.scalar,
    ;
    assert(ab.bivector.e01 * c.bivector.e12 == (a.vector.e0 * b.vector.e1) * c.bivector.e12 - (a.vector.e1 * b.vector.e0) * c.bivector.e12 + (a.vector.e2 * b.trivector.e012) * c.bivector.e12 + (a.bivector.e20 * b.bivector.e12) * c.bivector.e12 - (a.bivector.e12 * b.bivector.e20) * c.bivector.e12 + (a.trivector.e012 * b.vector.e2) * c.bivector.e12 + (a.scalar * b.bivector.e01) * c.bivector.e12 + (a.bivector.e01 * b.scalar) * c.bivector.e12) by (nonlinear_arith)
        requires
            ab.bivector.e01 == a.vector.e0 * b.vector.e1 - a.vector.e1 * b.vector.e0 + a.vector.e2 * b.trivector.e012 + a.bivector.e20 * b.bivector.e12 - a.bivector.e12 * b.bivector.e20 + a.trivector.e012 * b.vector.e2 + a.scalar * b.bivector.e01 + a.bivector.e01 * b.scalar,
    ;
    assert(ab.bivector.e12 * c.bivector.e01 == (a.vector.e1 * b.vector.e2) * c.bivector.e01 - (a.vector.e2 * b.vector.e1) * c.bivector.e01 + (a.scalar * b.bivector.e12) * c.bivector.e01 + (a.bivector.e12 * b.scalar) * c.bivector.e01) by (nonlinear_arith)
        requires
            ab.bivector.e12 == a.vector.e1 * b.vector.e2 - a.vector.e2 * b.vector.e1 + a.scalar * b.bivector.e12 + a.bivector.e12 * b.scalar,
    ;
    assert(ab.trivector.e012 * c.vector.e1 == (a.vector.e0 * b.bivector.e12) * c.vector.e1 + (a.vector.e1 * b.bivector.e20) * c.vector.e1 + (a.vector.e2 * b.bivector.e01) * c.vector.e1 + (a.bivector.e01 * b.vector.e2) * c.vector.e1 + (a.bivector.e20 * b.vector.e1) * c.vector.e1 + (a.bivector.e12 * b.vector.e0) * c.vector.e1 + (a.scalar * b.trivector.e012) * c.vector.e1 + (a.trivector.e012 * b.scalar) * c.vector.e1) by (nonlinear_arith)
        requires
            ab.trivector.e012 == a.vector.e0 * b.bivector.e12 + a.vector.e1 * b.bivector.e20 + a.vector.e2 * b.bivector.e01 + a.bivector.e01 * b.vector.e2 + a.bivector.e20 * b.vector.e1 + a.bivector.e12 * b.vector.e0 + a.scalar * b.trivector.e012 + a.trivector.e012 * b.scalar,
    ;
    assert(ab.scalar * c.bivector.e20 == (a.vector.e1 * b.vector.e1) * c.bivector.e20 + (a.vector.e2 * b.vector.e2) * c.bivector.e20 - (a.bivector.e12 * b.bivector.e12) * c.bivector.e20 + (a.scalar * b.scalar) * c.bivector.e20) by (nonlinear_arith)
        requires
            ab.scalar == a.vector.e1 * b.vector.e1 + a.vector.e2 * b.vector.e2 - a.bivector.e12 * b.bivector.e12 + a.scalar * b.scalar,
    ;
    assert(ab.bivector.e20 * c.scalar == -((a.vector.e0 * b.vector.e2) * c.scalar) + (a.vector.e1 * b.trivector.e012) * c.scalar + (a.vector.e2 * b.vector.e0) * c.scalar - (a.bivector.e01 * b.bivector.e12) * c.scalar + (a.bivector.e12 * b.bivector.e01) * c.scalar + (a.trivector.e012 * b.vector.e1) * c.scalar + (a.scalar * b.bivector.e20) * c.scalar + (a.bivector.e20 * b.scalar) * c.scalar) by (nonlinear_arith)
        requires
            ab.bivector.e20 == -(a.vector.e0 * b.vector.e2) + a.vector.e1 * b.trivector.e012 + a.vector.e2 * b.vector.e0 - a.bivector.e01 * b.bivector.e12 + a.bivector.e12 * b.bivector.e01 + a.trivector.e012 * b.vector.e1 + a.scalar * b.bivector.e20 + a.bivector.e20 * b.scalar,
    ;
    assert(a.vector.e0 * bc.vector.e2 == a.vector.e0 * (b.vector.e1 * c.bivector.e12) - a.vector.e0 * (b.bivector.e12 * c.vector.e1) + a.vector.e0 * (b.scalar * c.vector.e2) + a.vector.e0 * (b.vector.e2 * c.scalar)) by (nonlinear_arith)
        requires
            bc.vector.e2 == b.vector.e1 * c.bivector.e12 - b.bivector.e12 * c.vector.e1 + b.scalar * c.vector.e2 + b.vector.e2 * c.scalar,
    ;
    assert(a.vector.e1 * bc.trivector.e012 == a.vector.e1 * (b.vector.e0 * c.bivector.e12) + a.vector.e1 * (b.vector.e1 * c.bivector.e20) + a.vector.e1 * (b.vector.e2 * c.bivector.e01) + a.vector.e1 * (b.bivector.e01 * c.vector.e2) + a.vector.e1 * (b.bivector.e20 * c.vector.e1) + a.vector.e1 * (b.bivector.e12 * c.vector.e0) + a.vector.e1 * (b.scalar * c.trivector.e012) + a.vector.e1 * (b.trivector.e012 * c.scalar)) by (nonlinear_arith)
        requires
            bc.trivector.e012 == b.vector.e0 * c.bivector.e12 + b.vector.e1 * c.bivector.e20 + b.vector.e2 * c.bivector.e01 + b.bivector.e01 * c.vector.e2 + b.bivector.e20 * c.vector.e1 + b.bivector.e12 * c.vector.e0 + b.scalar * c.trivector.e012 + b.trivector.e012 * c.scalar,
    ;
    assert(a.vector.e2 * bc.vector.e0 == -(a.vector.e2 * (b.vector.e1 * c.bivector.e01)) + a.vector.e2 * (b.vector.e2 * c.bivector.e20) + a.vector.e2 * (b.bivector.e01 * c.vector.e1) - a.vector.e2 * (b.bivector.e20 * c.vector.e2) - a.vector.e2 * (b.bivector.e12 * c.trivector.e012) - a.vector.e2 * (b.trivector.e012 * c.bivector.e12) + a.vector.e2 * (b.scalar * c.vector.e0) + a.vector.e2 * (b.vector.e0 * c.scalar)) by (nonlinear_arith)
        requires
            bc.vector.e0 == -(b.vector.e1 * c.bivector.e01) + b.vector.e2 * c.bivector.e20 + b.bivector.e01 * c.vector.e1 - b.bivector.e20 * c.vector.e2 - b.bivector.e12 * c.trivector.e012 - b.trivector.e012 * c.bivector.e12 + b.scalar * c.vector.e0 + b.vector.e0 * c.scalar,
    ;
    assert(a.bivector.e01 * bc.bivector.e12 == a.bivector.e01 * (b.vector.e1 * c.vector.e2) - a.bivector.e01 * (b.vector.e2 * c.vector.e1) + a.bivector.e01 * (b.scalar * c.bivector.e12) + a.bivector.e01 * (b.bivector.e12 * c.scalar)) by (nonlinear_arith)
        requires
            bc.bivector.e12 == b.vector.e1 * c.vector.e2 - b.vector.e2 * c.vector.e1 + b.scalar * c.bivector.e12 + b.bivector.e12 * c.scalar,
    ;
    assert(a.bivector.e12 * bc.bivector.e01 == a.bivector.e12 * (b.vector.e0 * c.vector.e1) - a.bivector.e12 * (b.vector.e1 * c.vector.e0) + a.bivector.e12 * (b.vector.e2 * c.trivector.e012) + a.bivector.e12 * (b.bivector.e20 * c.bivector.e12) - a.bivector.e12 * (b.bivector.e12 * c.bivector.e20) + a.bivector.e12 * (b.trivector.e012 * c.vector.e2) + a.bivector.e12 * (b.scalar * c.bivector.e01) + a.bivector.e12 * (b.bivector.e01 * c.scalar)) by (nonlinear_arith)
        requires
            bc.bivector.e01 == b.vector.e0 * c.vector.e1 - b.vector.e1 * c.vector.e0 + b.vector.e2 * c.trivector.e012 + b.bivector.e20 * c.bivector.e12 - b.bivector.e12 * c.bivector.e20 + b.trivector.e012 * c.vector.e2 + b.scalar * c.bivector.e01 + b.bivector.e01 * c.scalar,
    ;
    assert(a.trivector.e012 * bc.vector.e1 == -(a.trivector.e012 * (b.vector.e2 * c.bivector.e12)) + a.trivector.e012 * (b.bivector.e12 * c.vector.e2) + a.trivector.e012 * (b.scalar * c.vector.e1) + a.trivector.e012 * (b.vector.e1 * c.scalar)) by (nonlinear_arith)
        requires
            bc.vector.e1 == -(b.vector.e2 * c.bivector.e12) + b.bivector.e12 * c.vector.e2 + b.scalar * c.vector.e1 + b.vector.e1 * c.scalar,
    ;
    assert(a.scalar * bc.bivector.e20 == -(a.scalar * (b.vector.e0 * c.vector.e2)) + a.scalar * (b.vector.e1 * c.trivector.e012) + a.scalar * (b.vector.e2 * c.vector.e0) - a.scalar * (b.bivector.e01 * c.bivector.e12) + a.scalar * (b.bivector.e12 * c.bivector.e01) + a.scalar * (b.trivector.e012 * c.vector.e1) + a.scalar * (b.scalar * c.bivector.e20) + a.scalar * (b.bivector.e20 * c.scalar)) by (nonlinear_arith)
        requires
            bc.bivector.e20 == -(b.vector.e0 * c.vector.e2) + b.vector.e1 * c.trivector.e012 + b.vector.e2 * c.vector.e0 - b.bivector.e01 * c.bivector.e12 + b.bivector.e12 * c.bivector.e01 + b.trivector.e012 * c.vector.e1 + b.scalar * c.bivector.e20 + b.bivector.e20 * c.scalar,
    ;
    assert(a.bivector.e20 * bc.scalar == a.bivector.e20 * (b.vector.e1 * c.vector.e1) + a.bivector.e20 * (b.vector.e2 * c.vector.e2) - a.bivector.e20 * (b.bivector.e12 * c.bivector.e12) + a.bivector.e20 * (b.scalar * c.scalar)) by (nonlinear_arith)
        requires
            bc.scalar == b.vector.e1 * c.vector.e1 + b.vector.e2 * c.vector.e2 - b.bivector.e12 * c.bivector.e12 + b.scalar * c.scalar,
    ;
}

/// One coefficient of the associativity identity: both groupings of the
/// product expand to the same polynomial in the operands' coefficients.
proof fn lemma_assoc_bivector_e12(a: MvModel, b: MvModel, c: MvModel)
    ensures
        mv_geo(mv_geo(a, b), c).bivector.e12 == mv_geo(a, mv_geo(b, c)).bivector.e12,
{
    let ab = mv_geo(a, b);
    let bc = mv_geo(b, c);
    lemma_triple_products(a, b, c);
    assert(ab.vector.e1 * c.vector.e2 == -((a.vector.e2 * b.bivector.e12) * c.vector.e2) + (a.bivector.e12 * b.vector.e2) * c.vector.e2 + (a.scalar * b.vector.e1) * c.vector.e2 + (a.vector.e1 * b.scalar) * c.vector.e2) by (nonlinear_arith)
        requires
            ab.vector.e1 == -(a.vector.e2 * b.bivector.e12) + a.bivector.e12 * b.vector.e2 + a.scalar * b.vector.e1 + a.vector.e1 * b.scalar,
    ;
    assert(ab.vector.e2 * c.vector.e1 == (a.vector.e1 * b.bivector.e12) * c.vector.e1 - (a.bivector.e12 * b.vector.e1) * c.vector.e1 + (a.scalar * b.vector.e2) * c.vector.e1 + (a.vector.e2 * b.scalar) * c.vector.e1) by (nonlinear_arith)
        requires
            ab.vector.e2 == a.vector.e1 * b.bivector.e12 - a.bivector.e12 * b.vector.e1 + a.scalar * b.vector.e2 + a.vector.e2 * b.scalar,
    ;
    assert(ab.scalar * c.bivector.e12 == (a.vector.e1 * b.vector.e1) * c.bivector.e12 + (a.vector.e2 * b.vector.e2) * c.bivector.e12 - (a.bivector.e12 * b.bivector.e12) * c.bivector.e12 + (a.scalar * b.scalar) * c.bivector.e12) by (nonlinear_arith)
        requires
            ab.scalar == a.vector.e1 * b.vector.e1 + a.vector.e2 * b.vector.e2 - a.bivector.e12 * b.bivector.e12 + a.scalar * b.scalar,
    ;
    assert(ab.bivector.e12 * c.scalar == (a.vector.e1 * b.vector.e2) * c.scalar - (a.vector.e2 * b.vector.e1) * c.scalar + (a.scalar * b.bivector.e12) * c.scalar + (a.bivector.e12 * b.scalar) * c.scalar) by (nonlinear_arith)
        requires
            ab.bivector.e12 == a.vector.e1 * b.vector.e2 - a.vector.e2 * b.vector.e1 + a.scalar * b.bivector.e12 + a.bivector.e12 * b.scalar,
    ;
    assert(a.vector.e1 * bc.vector.e2 == a.vector.e1 * (b.vector.e1 * c.bivector.e12) - a.vector.e1 * (b.bivector.e12 * c.vector.e1) + a.vector.e1 * (b.scalar * c.vector.e2) + a.vector.e1 * (b.vector.e2 * c.scalar)) by (nonlinear_arith)
        requires
            bc.vector.e2 == b.vector.e1 * c.bivector.e12 - b.bivector.e12 * c.vector.e1 + b.scalar * c.vector.e2 + b.vector.e2 * c.scalar,
    ;
    assert(a.vector.e2 * bc.vector.e1 == -(a.vector.e2 * (b.vector.e2 * c.bivector.e12)) + a.vector.e2 * (b.bivector.e12 * c.vector.e2) + a.vector.e2 * (b.scalar * c.vector.e1) + a.vector.e2 * (b.vector.e1 * c.scalar)) by (nonlinear_arith)
        requires
            bc.vector.e1 == -(b.vector.e2 * c.bivector.e12) + b.bivector.e12 * c.vector.e2 + b.scalar * c.vector.e1 + b.vector.e1 * c.scalar,
    ;
    assert(a.scalar * bc.bivector.e12 == a.scalar * (b.vector.e1 * c.vector.e2) - a.scalar * (b.vector.e2 * c.vector.e1) + a.scalar * (b.scalar * c.bivector.e12) + a.scalar * (b.bivector.e12 * c.scalar)) by (nonlinear_arith)
        requires
            bc.bivector.e12 == b.vector.e1 * c.vector.e2 - b.vector.e2 * c.vector.e1 + b.scalar * c.bivector.e12 + b.bivector.e12 * c.scalar,
    ;
    assert(a.bivector.e12 * bc.scalar == a.bivector.e12 * (b.vector.e1 * c.vector.e1) + a.bivector.e12 * (b.vector.e2 * c.vector.e2) - a.bivector.e12 * (b.bivector.e12 * c.bivector.e12) + a.bivector.e12 * (b.scalar * c.scalar)) by (nonlinear_arith)
        requires
            bc.scalar == b.vector.e1 * c.vector.e1 + b.vector.e2 * c.vector.e2 - b.bivector.e12 * c.bivector.e12 + b.scalar * c.scalar,
    ;
}

/// One coefficient of the associativity identity: both groupings of the
/// product expand to the same polynomial in the operands' coefficients.
proof fn lemma_assoc_trivector_e012(a: MvModel, b: MvModel, c: MvModel)
    ensures
        mv_geo(mv_geo(a, b), c).trivector.e012 == mv_geo(a, mv_geo(b, c)).trivector.e012,
{
    let ab = mv_geo(a, b);
    let bc = mv_geo(b, c);
    lemma_triple_products(a, b, c);
    assert(ab.vector.e0 * c.bivector.e12 == -((a.vector.e1 * b.bivector.e01) * c.bivector.e12) + (a.vector.e2 * b.bivector.e20) * c.bivector.e12 + (a.bivector.e01 * b.vector.e1) * c.bivector.e12 - (a.bivector.e20 * b.vector.e2) * c.bivector.e12 - (a.bivector.e12 * b.trivector.e012) * c.bivector.e12 - (a.trivector.e012 * b.bivector.e12) * c.bivector.e12 + (a.scalar * b.vector.e0) * c.bivector.e12 + (a.vector.e0 * b.scalar) * c.bivector.e12) by (nonlinear_arith)
        requires
            ab.vector.e0 == -(a.vector.e1 * b.bivector.e01) + a.vector.e2 * b.bivector.e20 + a.bivector.e01 * b.vector.e1 - a.bivector.e20 * b.vector.e2 - a.bivector.e12 * b.trivector.e012 - a.trivector.e012 * b.bivector.e12 + a.scalar * b.vector.e0 + a.vector.e0 * b.scalar,
    ;
    assert(ab.vector.e1 * c.bivector.e20 == -((a.vector.e2 * b.bivector.e12) * c.bivector.e20) + (a.bivector.e12 * b.vector.e2) * c.bivector.e20 + (a.scalar * b.vector.e1) * c.bivector.e20 + (a.vector.e1 * b.scalar) * c.bivector.e20) by (nonlinear_arith)
        requires
            ab.vector.e1 == -(a.vector.e2 * b.bivector.e12) + a.bivector.e12 * b.vector.e2 + a.scalar * b.vector.e1 + a.vector.e1 * b.scalar,
    ;
    assert(ab.vector.e2 * c.bivector.e01 == (a.vector.e1 * b.bivector.e12) * c.bivector.e01 - (a.bivector.e12 * b.vector.e1) * c.bivector.e01 + (a.scalar * b.vector.e2) * c.bivector.e01 + (a.vector.e2 * b.scalar) * c.bivector.e01) by (nonlinear_arith)
        requires
            ab.vector.e2 == a.vector.e1 * b.bivector.e12 - a.bivector.e12 * b.vector.e1 + a.scalar * b.vector.e2 + a.vector.e2 * b.scalar,
    ;
    assert(ab.bivector.e01 * c.vector.e2 == (a.vector.e0 * b.vector.e1) * c.vector.e2 - (a.vector.e1 * b.vector.e0) * c.vector.e2 + (a.vector.e2 * b.trivector.e012) * c.vector.e2 + (a.bivector.e20 * b.bivector.e12) * c.vector.e2 - (a.bivector.e12 * b.bivector.e20) * c.vector.e2 + (a.trivector.e012 * b.vector.e2) * c.vector.e2 + (a.scalar * b.bivector.e01) * c.vector.e2 + (a.bivector.e01 * b.scalar) * c.vector.e2) by (nonlinear_arith)
        requires
            ab.bivector.e01 == a.vector.e0 * b.vector.e1 - a.vector.e1 * b.vector.e0 + a.vector.e2 * b.trivector.e012 + a.bivector.e20 * b.bivector.e12 - a.bivector.e12 * b.bivector.e20 + a.trivector.e012 * b.vector.e2 + a.scalar * b.bivector.e01 + a.bivector.e01 * b.scalar,
    ;
    assert(ab.bivector.e20 * c.vector.e1 == -((a.vector.e0 * b.vector.e2) * c.vector.e1) + (a.vector.e1 * b.trivector.e012) * c.vector.e1 + (a.vector.e2 * b.vector.e0) * c.vector.e1 - (a.bivector.e01 * b.bivector.e12) * c.vector.e1 + (a.bivector.e12 * b.bivector.e01) * c.vector.e1 + (a.trivector.e012 * b.vector.e1) * c.vector.e1 + (a.scalar * b.bivector.e20) * c.vector.e1 + (a.bivector.e20 * b.scalar) * c.vector.e1) by (nonlinear_arith)
        requires
            ab.bivector.e20 == -(a.vector.e0 * b.vector.e2) + a.vector.e1 * b.trivector.e012 + a.vector.e2 * b.vector.e0 - a.bivector.e01 * b.bivector.e12 + a.bivector.e12 * b.bivector.e01 + a.trivector.e012 * b.vector.e1 + a.scalar * b.bivector.e20 + a.bivector.e20 * b.scalar,
    ;
    assert(ab.bivector.e12 * c.vector.e0 == (a.vector.e1 * b.vector.e2) * c.vector.e0 - (a.vector.e2 * b.vector.e1) * c.vector.e0 + (a.scalar * b.bivector.e12) * c.vector.e0 + (a.bivector.e12 * b.scalar) * c.vector.e0) by (nonlinear_arith)
        requires
            ab.bivector.e12 == a.vector.e1 * b.vector.e2 - a.vector.e2 * b.vector.e1 + a.scalar * b.bivector.e12 + a.bivector.e12 * b.scalar,
    ;
    assert(ab.scalar * c.trivector.e012 == (a.vector.e1 * b.vector.e1) * c.trivector.e012 + (a.vector.e2 * b.vector.e2) * c.trivector.e012 - (a.bivector.e12 * b.bivector.e12) * c.trivector.e012 + (a.scalar * b.scalar) * c.trivector.e012) by (nonlinear_arith)
        requires
            ab.scalar == a.vector.e1 * b.vector.e1 + a.vector.e2 * b.vector.e2 - a.bivector.e12 * b.bivector.e12 + a.scalar * b.scalar,
    ;
    assert(ab.trivector.e012 * c.scalar == (a.vector.e0 * b.bivector.e12) * c.scalar + (a.vector.e1 * b.bivector.e20) * c.scalar + (a.vector.e2 * b.bivector.e01) * c.scalar + (a.bivector.e01 * b.vector.e2) * c.scalar + (a.bivector.e20 * b.vector.e1) * c.scalar + (a.bivector.e12 * b.vector.e0) * c.scalar + (a.scalar * b.trivector.e012) * c.scalar + (a.trivector.e012 * b.scalar) * c.scalar) by (nonlinear_arith)
        requires
            ab.trivector.e012 == a.vector.e0 * b.bivector.e12 + a.vector.e1 * b.bivector.e20 + a.vector.e2 * b.bivector.e01 + a.bivector.e01 * b.vector.e2 + a.bivector.e20 * b.vector.e1 + a.bivector.e12 * b.vector.e0 + a.scalar * b.trivector.e012 + a.trivector.e012 * b.scalar,
    ;
    assert(a.vector.e0 * bc.bivector.e12 == a.vector.e0 * (b.vector.e1 * c.vector.e2) - a.vector.e0 * (b.vector.e2 * c.vector.e1) + a.vector.e0 * (b.scalar * c.bivector.e12) + a.vector.e0 * (b.bivector.e12 * c.scalar)) by (nonlinear_arith)
        requires
            bc.bivector.e12 == b.vector.e1 * c.vector.e2 - b.vector.e2 * c.vector.e1 + b.scalar * c.bivector.e12 + b.bivector.e12 * c.scalar,
    ;
    assert(a.vector.e1 * bc.bivector.e20 == -(a.vector.e1 * (b.vector.e0 * c.vector.e2)) + a.vector.e1 * (b.vector.e1 * c.trivector.e012) + a.vector.e1 * (b.vector.e2 * c.vector.e0) - a.vector.e1 * (b.bivector.e01 * c.bivector.e12) + a.vector.e1 * (b.bivector.e12 * c.bivector.e01) + a.vector.e1 * (b.trivector.e012 * c.vector.e1) + a.vector.e1 * (b.scalar * c.bivector.e20) + a.vector.e1 * (b.bivector.e20 * c.scalar)) by (nonlinear_arith)
        requires
            bc.bivector.e20 == -(b.vector.e0 * c.vector.e2) + b.vector.e1 * c.trivector.e012 + b.vector.e2 * c.vector.e0 - b.bivector.e01 * c.bivector.e12 + b.bivector.e12 * c.bivector.e01 + b.trivector.e012 * c.vector.e1 + b.scalar * c.bivector.e20 + b.bivector.e20 * c.scalar,
    ;
    assert(a.vector.e2 * bc.bivector.e01 == a.vector.e2 * (b.vector.e0 * c.vector.e1) - a.vector.e2 * (b.vector.e1 * c.vector.e0) + a.vector.e2 * (b.vector.e2 * c.trivector.e012) + a.vector.e2 * (b.bivector.e20 * c.bivector.e12) - a.vector.e2 * (b.bivector.e12 * c.bivector.e20) + a.vector.e2 * (b.trivector.e012 * c.vector.e2) + a.vector.e2 * (b.scalar * c.bivector.e01) + a.vector.e2 * (b.bivector.e01 * c.scalar)) by (nonlinear_arith)
        requires
            bc.bivector.e01 == b.vector.e0 * c.vector.e1 - b.vector.e1 * c.vector.e0 + b.vector.e2 * c.trivector.e012 + b.bivector.e20 * c.bivector.e12 - b.bivector.e12 * c.bivector.e20 + b.trivector.e012 * c.vector.e2 + b.scalar * c.bivector.e01 + b.bivector.e01 * c.scalar,
    ;
    assert(a.bivector.e01 * bc.vector.e2 == a.bivector.e01 * (b.vector.e1 * c.bivector.e12) - a.bivector.e01 * (b.bivector.e12 * c.vector.e1) + a.bivector.e01 * (b.scalar * c.vector.e2) + a.bivector.e01 * (b.vector.e2 * c.scalar)) by (nonlinear_arith)
        requires
            bc.vector.e2 == b.vector.e1 * c.bivector.e12 - b.bivector.e12 * c.vector.e1 + b.scalar * c.vector.e2 + b.vector.e2 * c.scalar,
    ;
    assert(a.bivector.e20 * bc.vector.e1 == -(a.bivector.e20 * (b.vector.e2 * c.bivector.e12)) + a.bivector.e20 * (b.bivector.e12 * c.vector.e2) + a.bivector.e20 * (b.scalar * c.vector.e1) + a.bivector.e20 * (b.vector.e1 * c.scalar)) by (nonlinear_arith)
        requires
            bc.vector.e1 == -(b.vector.e2 * c.bivector.e12) + b.bivector.e12 * c.vector.e2 + b.scalar * c.vector.e1 + b.vector.e1 * c.scalar,
    ;
    assert(a.bivector.e12 * bc.vector.e0 == -(a.bivector.e12 * (b.vector.e1 * c.bivector.e01)) + a.bivector.e12 * (b.vector.e2 * c.bivector.e20) + a.bivector.e12 * (b.bivector.e01 * c.vector.e1) - a.bivector.e12 * (b.bivector.e20 * c.vector.e2) - a.bivector.e12 * (b.bivector.e12 * c.trivector.e012) - a.bivector.e12 * (b.trivector.e012 * c.bivector.e12) + a.bivector.e12 * (b.scalar * c.vector.e0) + a.bivector.e12 * (b.vector.e0 * c.scalar)) by (nonlinear_arith)
        requires
            bc.vector.e0 == -(b.vector.e1 * c.bivector.e01) + b.vector.e2 * c.bivector.e20 + b.bivector.e01 * c.vector.e1 - b.bivector.e20 * c.vector.e2 - b.bivector.e12 * c.trivector.e012 - b.trivector.e012 * c.bivector.e12 + b.scalar * c.vector.e0 + b.vector.e0 * c.scalar,
    ;
    assert(a.scalar * bc.trivector.e012 == a.scalar * (b.vector.e0 * c.bivector.e12) + a.scalar * (b.vector.e1 * c.bivector.e20) + a.scalar * (b.vector.e2 * c.bivector.e01) + a.scalar * (b.bivector.e01 * c.vector.e2) + a.scalar * (b.bivector.e20 * c.vector.e1) + a.scalar * (b.bivector.e12 * c.vector.e0) + a.scalar * (b.scalar * c.trivector.e012) + a.scalar * (b.trivector.e012 * c.scalar)) by (nonlinear_arith)
        requires
            bc.trivector.e012 == b.vector.e0 * c.bivector.e12 + b.vector.e1 * c.bivector.e20 + b.vector.e2 * c.bivector.e01 + b.bivector.e01 * c.vector.e2 + b.bivector.e20 * c.vector.e1 + b.bivector.e12 * c.vector.e0 + b.scalar * c.trivector.e012 + b.trivector.e012 * c.scalar,
    ;
    assert(a.trivector.e012 * bc.scalar == a.trivector.e012 * (b.vector.e1 * c.vector.e1) + a.trivector.e012 * (b.vector.e2 * c.vector.e2) - a.trivector.e012 * (b.bivector.e12 * c.bivector.e12) + a.trivector.e012 * (b.scalar * c.scalar)) by (nonlinear_arith)
        requires
            bc.scalar == b.vector.e1 * c.vector.e1 + b.vector.e2 * c.vector.e2 - b.bivector.e12 * c.bivector.e12 + b.scalar * c.scalar,
    ;
}

/// The geometric product is associative: grouping does not matter.
pub proof fn lemma_geo_associative(a: MvModel, b: MvModel, c: MvModel)
    ensures
        mv_geo(mv_geo(a, b), c) == mv_geo(a, mv_geo(b, c)),
{
    lemma_assoc_scalar(a, b, c);
    lemma_assoc_vector_e0(a, b, c);
    lemma_assoc_vector_e1(a, b, c);
    lemma_assoc_vector_e2(a, b, c);
    lemma_assoc_bivector_e01(a, b, c);
    lemma_assoc_bivector_e20(a, b, c);
    lemma_assoc_bivector_e12(a, b, c);
    lemma_assoc_trivector_e012(a, b, c);
    assert(mv_geo(mv_geo(a, b), c) == mv_geo(a, mv_geo(b, c)));
}

/// Multiplication of coefficients is commutative.
proof fn lemma_mul_comm(x: int, y: int)
    by (nonlinear_arith)
    ensures
        x * y == y * x,
{
}

/// The product of two grade-1 vectors taken in either order has the same
/// scalar part, opposite bivector parts, and no vector or trivector part.
/// In general the two products therefore differ exactly in the sign of
/// the bivector.
pub proof fn lemma_vector_product_symmetry(v: VectorModel, w: VectorModel)
    ensures
        mv_geo(mv_from_vector(v), mv_from_vector(w)).scalar == mv_geo(
            mv_from_vector(w),
            mv_from_vector(v),
        ).scalar,
        mv_geo(mv_from_vector(v), mv_from_vector(w)).bivector.e01 == -mv_geo(
            mv_from_vector(w),
            mv_from_vector(v),
        ).bivector.e01,
        mv_geo(mv_from_vector(v), mv_from_vector(w)).bivector.e20 == -mv_geo(
            mv_from_vector(w),
            mv_from_vector(v),
        ).bivector.e20,
        mv_geo(mv_from_vector(v), mv_from_vector(w)).bivector.e12 == -mv_geo(
            mv_from_vector(w),
            mv_from_vector(v),
        ).bivector.e12,
        mv_geo(mv_from_vector(v), mv_from_vector(w)).vector == vec_zero(),
        mv_geo(mv_from_vector(v), mv_from_vector(w)).trivector == tri_zero(),
{
    lemma_mul_comm(v.e1, w.e1);
    lemma_mul_comm(v.e2, w.e2);
    lemma_mul_comm(v.e0, w.e1);
    lemma_mul_comm(v.e1, w.e0);
    lemma_mul_comm(v.e0, w.e2);
    lemma_mul_comm(v.e2, w.e0);
    lemma_mul_comm(v.e1, w.e2);
    lemma_mul_comm(v.e2, w.e1);
}

/// The reverse is an involution: applying it twice gives the value back.
pub proof fn lemma_reverse_involution(a: MvModel)
    ensures
        mv_reverse(mv_reverse(a)) == a,
{
}

/// The square magnitude of any multivector is the sum of the squares of
/// its Euclidean coefficients: the degenerate blades `e0`, `e01`, `e20`
/// and `e012` contribute nothing.
pub proof fn lemma_magnitude_expansion(a: MvModel)
    ensures
        mv_magnitude_sqr(a) == a.scalar * a.scalar + a.vector.e1 * a.vector.e1 + a.vector.e2
            * a.vector.e2 + a.bivector.e12 * a.bivector.e12,
{
    assert((-a.bivector.e12) * a.bivector.e12 == -(a.bivector.e12 * a.bivector.e12))
        by (nonlinear_arith);
}

/// For a vector with no ideal part the square magnitude is the Euclidean
/// one, `e1 * e1 + e2 * e2`, and in particular it is never negative.
pub proof fn lemma_euclidean_vector_magnitude(v: VectorModel)
    requires
        v.e0 == 0,
    ensures
        mv_magnitude_sqr(mv_from_vector(v)) == v.e1 * v.e1 + v.e2 * v.e2,
        mv_magnitude_sqr(mv_from_vector(v)) >= 0,
{
    assert(v.e1 * v.e1 >= 0) by (nonlinear_arith);
    assert(v.e2 * v.e2 >= 0) by (nonlinear_arith);
}

/// No element of grade 4 or higher exists in this algebra: the wedge of
/// two bivectors, and of a vector with the trivector, collapses to the
/// zero scalar.
pub proof fn lemma_wedge_grade_ceiling(
    b1: BivectorModel,
    b2: BivectorModel,
    v: VectorModel,
    t: TrivectorModel,
)
    ensures
        kv_wedge(KVectorModel::Bivector(b1), KVectorModel::Bivector(b2)) == KVectorModel::Scalar(
            0,
        ),
        kv_wedge(KVectorModel::Vector(v), KVectorModel::Trivector(t)) == KVectorModel::Scalar(0),
{
}

/// A rotor built with angle zero (half-angle cosine one, sine zero)
/// leaves every target unchanged under its sandwich product.
pub proof fn lemma_rotor_identity(axis: BivectorModel, target: MvModel)
    ensures
        mv_sandwich(rotor_model(axis, 1, 0), target) == target,
{
    let m = rotor_model(axis, 1, 0);
    assert(biv_scale(axis, 0) == biv_zero());
    assert(m == mv_from_scalar(1));
    lemma_scalar_geo_right(target, 1);
    assert(mv_scale(target, 1) == target);
    assert(mv_geo(target, m) == target);
    assert(mv_reverse(m) == m);
    lemma_scalar_geo_left(1, target);
}

} // verus!
