//! Trusted view of the algebraic substrate.
//!
//! The scheme works in the scalar field `substrate_bn::Fr` and the elliptic-curve group
//! `substrate_bn::G1` of the Barreto-Naehrig curve.  Both have the same prime order.
//! The verifier models a scalar by its canonical residue (`fr_val`) and a
//! group element by its discrete logarithm with respect to the standard
//! generator (`g1_dlog`); both views live in `[0, group_order())`.  Because
//! the group is cyclic of prime order, every element has exactly one such
//! logarithm, group addition adds logarithms and scalar multiplication
//! multiplies them, modulo the order.  Each wrapper below states exactly that
//! correspondence for one operation of the curve library.

use vstd::prelude::*;
use substrate_bn::{Fr, G1};

verus! {

/// Order of the scalar field `substrate_bn::Fr` and of the group `substrate_bn::G1`: the prime
/// `r` of the Barreto-Naehrig curve used by the `substrate_bn` crate.
pub open spec fn group_order() -> int {
    21888242871839275222246405745257275088548364400416034343698204186575808495617int
}

/// The canonical residue a scalar stands for: `substrate_bn::Fr` holds an integer
/// reduced modulo `group_order()`.
pub uninterp spec fn fr_val(a: Fr) -> int;

/// The discrete logarithm of a group element with respect to the standard
/// generator.  `substrate_bn::G1` is cyclic of prime order, so the logarithm is unique
/// in `[0, group_order())`.
pub uninterp spec fn g1_dlog(p: G1) -> int;

/// A value either view can take: a residue modulo the group order.
pub open spec fn fe_valid(a: int) -> bool {
    0 <= a < group_order()
}

/// Field addition on residues.
pub open spec fn fe_add(a: int, b: int) -> int {
    (a + b) % group_order()
}

/// Field subtraction on residues.
pub open spec fn fe_sub(a: int, b: int) -> int {
    (a - b) % group_order()
}

/// Field multiplication on residues.
pub open spec fn fe_mul(a: int, b: int) -> int {
    (a * b) % group_order()
}

#[verifier::external_type_specification]
#[verifier::external_body]
pub struct ExFr(Fr);

#[verifier::external_type_specification]
#[verifier::external_body]
pub struct ExG1(G1);

#[verifier::external_type_specification]
#[verifier::external_body]
pub struct ExThreadRng(rand::rngs::ThreadRng);

/// Relies on `Fr::random`: a scalar drawn uniformly below the field
/// order, so its residue is canonical.  Nothing relates two draws.
#[verifier::external_body]
pub(crate) fn fr_random(rng: &mut rand::rngs::ThreadRng) -> (r: Fr)
    ensures
        fe_valid(fr_val(r)),
{
    Fr::random(rng)
}

/// Relies on `substrate_bn::Group::random` for `substrate_bn::G1`: the standard generator times a
/// uniformly drawn scalar, so the result has some canonical discrete
/// logarithm.  Nothing relates two draws.
#[verifier::external_body]
pub(crate) fn g1_random(rng: &mut rand::rngs::ThreadRng) -> (p: G1)
    ensures
        fe_valid(g1_dlog(p)),
{
    <G1 as substrate_bn::Group>::random(rng)
}

/// Relies on the `Add` impl of `substrate_bn::Fr`: addition in the scalar field.
#[verifier::external_body]
pub(crate) fn fr_add(a: &Fr, b: &Fr) -> (r: Fr)
    ensures
        fr_val(r) == fe_add(fr_val(*a), fr_val(*b)),
{
    *a + *b
}

/// Relies on the `Sub` impl of `substrate_bn::Fr`: subtraction in the scalar field.
#[verifier::external_body]
pub(crate) fn fr_sub(a: &Fr, b: &Fr) -> (r: Fr)
    ensures
        fr_val(r) == fe_sub(fr_val(*a), fr_val(*b)),
{
    *a - *b
}

/// Relies on the `Mul` impl of `substrate_bn::Fr`: multiplication in the scalar field.
#[verifier::external_body]
pub(crate) fn fr_mul(a: &Fr, b: &Fr) -> (r: Fr)
    ensures
        fr_val(r) == fe_mul(fr_val(*a), fr_val(*b)),
{
    *a * *b
}

/// Relies on the `Add` impl of `substrate_bn::G1`: the group operation, which adds
/// discrete logarithms.
#[verifier::external_body]
pub(crate) fn g1_add(p: &G1, q: &G1) -> (r: G1)
    ensures
        g1_dlog(r) == fe_add(g1_dlog(*p), g1_dlog(*q)),
{
    *p + *q
}

/// Relies on the `Sub` impl of `substrate_bn::G1`: the group operation with the second
/// element negated, which subtracts discrete logarithms.
#[verifier::external_body]
pub(crate) fn g1_sub(p: &G1, q: &G1) -> (r: G1)
    ensures
        g1_dlog(r) == fe_sub(g1_dlog(*p), g1_dlog(*q)),
{
    *p - *q
}

/// Relies on the `Mul<Fr>` impl of `substrate_bn::G1`: scalar multiplication, which
/// multiplies the discrete logarithm by the scalar's residue.
#[verifier::external_body]
pub(crate) fn g1_mul(p: &G1, k: &Fr) -> (r: G1)
    ensures
        g1_dlog(r) == fe_mul(g1_dlog(*p), fr_val(*k)),
{
    *p * *k
}

} // verus!
