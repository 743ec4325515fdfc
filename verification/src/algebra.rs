//! Proved facts about the residue arithmetic of `substrate`.

use vstd::prelude::*;
use crate::substrate::{group_order, fe_add, fe_sub, fe_mul};
use vstd::arithmetic::div_mod::{lemma_add_mod_noop, lemma_sub_mod_noop, lemma_mul_mod_noop_right};
use vstd::arithmetic::mul::{lemma_mul_is_distributive_add, lemma_mul_is_distributive_sub};

verus! {

/// Residue addition of two sums may be regrouped pairwise.
pub proof fn lemma_fe_add_exchange(a: int, b: int, c: int, d: int)
    ensures
        fe_add(fe_add(a, b), fe_add(c, d)) == fe_add(fe_add(a, c), fe_add(b, d)),
{
    lemma_add_mod_noop(a + b, c + d, group_order());
    lemma_add_mod_noop(a + c, b + d, group_order());
}

/// Subtracting two residue sums with the same second summand cancels it.
pub proof fn lemma_fe_sub_cancel(a: int, b: int, c: int)
    ensures
        fe_sub(fe_add(a, b), fe_add(c, b)) == fe_sub(a, c),
{
    lemma_sub_mod_noop(a + b, c + b, group_order());
    lemma_sub_mod_noop(a, c, group_order());
    lemma_add_mod_noop(a, b, group_order());
    lemma_add_mod_noop(c, b, group_order());
    assert(fe_sub(fe_add(a, b), fe_add(c, b)) == ((a + b) - (c + b)) % group_order());
    assert(((a + b) - (c + b)) % group_order() == (a - c) % group_order());
}

/// A common residue factor distributes over residue addition.
pub proof fn lemma_fe_factor_add(g: int, u: int, v: int)
    ensures
        fe_add(fe_mul(g, u), fe_mul(g, v)) == fe_mul(g, fe_add(u, v)),
{
    lemma_add_mod_noop(g * u, g * v, group_order());
    lemma_mul_mod_noop_right(g, u + v, group_order());
    lemma_mul_is_distributive_add(g, u, v);
}

/// A common residue factor distributes over residue subtraction.
pub proof fn lemma_fe_factor_sub(g: int, u: int, v: int)
    ensures
        fe_sub(fe_mul(g, u), fe_mul(g, v)) == fe_mul(g, fe_sub(u, v)),
{
    lemma_sub_mod_noop(g * u, g * v, group_order());
    lemma_mul_mod_noop_right(g, u - v, group_order());
    lemma_mul_is_distributive_sub(g, u, v);
}

} // verus!
