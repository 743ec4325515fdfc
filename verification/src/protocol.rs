//! The commitment builders and the Sigma-protocol prover.

use vstd::prelude::*;
use substrate_bn::{Fr, G1};
use crate::substrate::{fr_val, g1_dlog, fe_add, fe_sub, fe_mul, fe_valid};
use crate::substrate::{fr_random, g1_random, fr_add, fr_sub, fr_mul, g1_add, g1_sub, g1_mul};
use crate::algebra::{lemma_fe_add_exchange, lemma_fe_sub_cancel, lemma_fe_factor_add, lemma_fe_factor_sub};

verus! {

/// The prover's secret: four scalars.  `b` is the vote bit; it is logically
/// constrained to 0 or 1, but only the proof, checked by an external
/// verifier, enforces that.
pub struct Witness {
    pub x0: Fr,
    pub x1: Fr,
    pub x2: Fr,
    pub b: Fr,
}

/// Public parameters of one protocol instance: five independently sampled
/// generators with no known discrete-log relation among them.
pub struct Statement {
    pub g0: G1,
    pub g1: G1,
    pub h0: G1,
    pub h1: G1,
    pub y: G1,
}

/// Draws a fresh witness.  Every scalar is an independent uniform draw.
pub fn genwitness(rng: &mut rand::rngs::ThreadRng) -> (w: Witness)
    ensures
        fe_valid(fr_val(w.x0)),
        fe_valid(fr_val(w.x1)),
        fe_valid(fr_val(w.x2)),
        fe_valid(fr_val(w.b)),
{
    let x0 = fr_random(rng);
    let x1 = fr_random(rng);
    let x2 = fr_random(rng);
    let b = fr_random(rng);
    Witness { x0, x1, x2, b }
}

/// Draws the public parameters: five independent uniform generators.
pub fn genstatement(rng: &mut rand::rngs::ThreadRng) -> (ps: Statement)
    ensures
        fe_valid(g1_dlog(ps.g0)),
        fe_valid(g1_dlog(ps.g1)),
        fe_valid(g1_dlog(ps.h0)),
        fe_valid(g1_dlog(ps.h1)),
        fe_valid(g1_dlog(ps.y)),
{
    let g0 = g1_random(rng);
    let g1 = g1_random(rng);
    let h0 = g1_random(rng);
    let h1 = g1_random(rng);
    let y = g1_random(rng);
    Statement { g0, g1, h0, h1, y }
}

/// The discrete logarithm of a Pedersen commitment `g^v + h^r`, on the views
/// of its generators, value and blinding.
pub open spec fn pedersen(g: int, v: int, h: int, r: int) -> int {
    fe_add(fe_mul(g, v), fe_mul(h, r))
}

/// Any five group elements a verifier has received: the deposit commitment
/// and the pieces of the two vote rounds, concatenated.
pub struct Commitments {
    pub c0: G1,
    pub c1: G1,
    pub c2: G1,
    pub c3: G1,
    pub c4: G1,
}

/// The six linear combinations of a bundle that stand on one side of the
/// verification equations.
pub struct Computed {
    pub A0: G1,
    pub A1: G1,
    pub A2: G1,
    pub A3: G1,
    pub A4: G1,
    pub A5: G1,
}

/// Evaluates the fixed linear combinations of a commitment bundle that an
/// external verifier compares against values reconstructed from a proof.
/// Pure and total; it performs no comparison.
///
/// The last two clauses state the bundle-independent identities
/// `A3 == A1 - A2` and `A4 == A3 + c4` on the returned values themselves.
pub fn make_commitments(c: Commitments) -> (out: Computed)
    ensures
        g1_dlog(out.A0) == g1_dlog(c.c0),
        g1_dlog(out.A1) == g1_dlog(c.c1),
        g1_dlog(out.A2) == g1_dlog(c.c2),
        g1_dlog(out.A3) == fe_sub(g1_dlog(c.c1), g1_dlog(c.c2)),
        g1_dlog(out.A4) == fe_add(fe_sub(g1_dlog(c.c1), g1_dlog(c.c2)), g1_dlog(c.c4)),
        g1_dlog(out.A5) == g1_dlog(c.c3),
        g1_dlog(out.A3) == fe_sub(g1_dlog(out.A1), g1_dlog(out.A2)),
        g1_dlog(out.A4) == fe_add(g1_dlog(out.A3), g1_dlog(c.c4)),
{
    let A0 = c.c0;
    let A1 = c.c1;
    let A2 = c.c2;
    let A3 = g1_sub(&c.c1, &c.c2);
    let A4 = g1_add(&A3, &c.c4);
    let A5 = c.c3;
    Computed { A0, A1, A2, A3, A4, A5 }
}

/// The shape of a deposit: for amount `amt` and residues `r` (blinding),
/// `a` (auxiliary randomness) and `c` (challenge), the output triple is
/// `(g1^amt + h0^r, h0^a, c*amt + r)` on the views.
pub open spec fn deposit_rel(
    out: (G1, G1, Fr),
    ps: Statement,
    amt: Fr,
    r: int,
    a: int,
    c: int,
) -> bool {
    &&& g1_dlog(out.0) == pedersen(g1_dlog(ps.g1), fr_val(amt), g1_dlog(ps.h0), r)
    &&& g1_dlog(out.1) == fe_mul(g1_dlog(ps.h0), a)
    &&& fr_val(out.2) == fe_add(fe_mul(c, fr_val(amt)), r)
}

/// Deposit commitment from explicit randomness: commits to `amt` under the
/// blinding `r`, and derives the auxiliary pair `(A, z)` from `a` and the
/// challenge `c`.  Deterministic; `deposit` supplies fresh draws.
pub fn deposit_with(amt: &Fr, r: &Fr, a: &Fr, c: &Fr, ps: &Statement) -> (out: (G1, G1, Fr))
    ensures
        deposit_rel(out, *ps, *amt, fr_val(*r), fr_val(*a), fr_val(*c)),
{
    let gv = g1_mul(&ps.g1, amt);
    let hr = g1_mul(&ps.h0, r);
    let C = g1_add(&gv, &hr);
    let A = g1_mul(&ps.h0, a);
    let ca = fr_mul(c, amt);
    let z = fr_add(&ca, r);
    (C, A, z)
}

/// Builds a deposit commitment `(C, A, z)` to `amt` with a fresh uniform
/// blinding, auxiliary randomness and challenge.
///
/// The challenge is sampled locally rather than derived from a transcript
/// hash, so the auxiliary pair is not by itself a non-interactive knowledge
/// proof; a deployment needs a Fiat-Shamir challenge convention fixed
/// elsewhere.
pub fn deposit(rng: &mut rand::rngs::ThreadRng, amt: Fr, ps: &Statement) -> (out: (G1, G1, Fr))
    ensures
        exists|r: int, a: int, c: int|
            fe_valid(r) && fe_valid(a) && fe_valid(c) && #[trigger] deposit_rel(
                out,
                *ps,
                amt,
                r,
                a,
                c,
            ),
{
    let r = fr_random(rng);
    let a = fr_random(rng);
    let c = fr_random(rng);
    let out = deposit_with(&amt, &r, &a, &c, ps);
    proof {
        assert(deposit_rel(out, *ps, amt, fr_val(r), fr_val(a), fr_val(c)));
    }
    out
}

/// The shape of a round-1 vote: for the vote value, blinding residue `x`,
/// auxiliary randomness `a` and challenge `c`, the output quadruple is
/// `(g0^x, g1^vote + h0^x, g0^a, c*x + a)` on the views.
pub open spec fn vote1_rel(
    out: (G1, G1, G1, Fr),
    ps: Statement,
    vote: Fr,
    x: int,
    a: int,
    c: int,
) -> bool {
    &&& g1_dlog(out.0) == fe_mul(g1_dlog(ps.g0), x)
    &&& g1_dlog(out.1) == pedersen(g1_dlog(ps.g1), fr_val(vote), g1_dlog(ps.h0), x)
    &&& g1_dlog(out.2) == fe_mul(g1_dlog(ps.g0), a)
    &&& fr_val(out.3) == fe_add(fe_mul(c, x), a)
}

/// Round-1 vote commitment from an explicit blinding `x`: the pair
/// `(c0, c1)` and the auxiliary pair `(A, z)` over `x`.  The caller keeps
/// `x`; it is the secret that links round 1 to round 2.
pub fn vote1_with(vote: &Fr, x: &Fr, a: &Fr, c: &Fr, ps: &Statement) -> (out: (G1, G1, G1, Fr))
    ensures
        vote1_rel(out, *ps, *vote, fr_val(*x), fr_val(*a), fr_val(*c)),
{
    let c0 = g1_mul(&ps.g0, x);
    let gv = g1_mul(&ps.g1, vote);
    let hx = g1_mul(&ps.h0, x);
    let c1 = g1_add(&gv, &hx);
    let A = g1_mul(&ps.g0, a);
    let cx = fr_mul(c, x);
    let z = fr_add(&cx, a);
    (c0, c1, A, z)
}

/// Builds the round-1 vote commitment with a fresh uniform blinding,
/// auxiliary randomness and challenge.
///
/// The weight `wgt` is accepted but enters no equation: the weighting
/// relation is an open design point, deliberately not invented here.  The
/// blinding behind the returned commitments is not returned; a prover that
/// must run round 2 derives its commitments through `vote1_with`, keeping
/// `x`.  As in `deposit`, the challenge is sampled locally, not derived from
/// a transcript.
#[allow(unused_variables)]
pub fn vote1(rng: &mut rand::rngs::ThreadRng, vote: Fr, wgt: Fr, ps: &Statement) -> (out: (
    G1,
    G1,
    G1,
    Fr,
))
    ensures
        exists|x: int, a: int, c: int|
            fe_valid(x) && fe_valid(a) && fe_valid(c) && #[trigger] vote1_rel(
                out,
                *ps,
                vote,
                x,
                a,
                c,
            ),
{
    let x = fr_random(rng);
    let a = fr_random(rng);
    let c = fr_random(rng);
    let out = vote1_with(&vote, &x, &a, &c, ps);
    proof {
        assert(vote1_rel(out, *ps, vote, fr_val(x), fr_val(a), fr_val(c)));
    }
    out
}

/// The shape of a round-2 vote: for the vote value, round-1 blinding `x`,
/// fresh blinding residue `s` and ephemeral generator with view `y`, the
/// output triple is `(g1^vote + Y^x, g0^s, (Y - h0)^x + h1^s)`.
pub open spec fn vote2_rel(out: (G1, G1, G1), ps: Statement, vote: Fr, x: Fr, s: int, y: int) -> bool {
    &&& g1_dlog(out.0) == fe_add(fe_mul(g1_dlog(ps.g1), fr_val(vote)), fe_mul(y, fr_val(x)))
    &&& g1_dlog(out.1) == fe_mul(g1_dlog(ps.g0), s)
    &&& g1_dlog(out.2) == fe_add(
        fe_mul(fe_sub(y, g1_dlog(ps.h0)), fr_val(x)),
        fe_mul(g1_dlog(ps.h1), s),
    )
}

/// Round-2 vote commitment from an explicit blinding `s` and ephemeral
/// generator `ygen`: re-exponentiates the round-1 secret `x` against `ygen`,
/// linking the rounds.  Deterministic; `vote2` supplies fresh draws.
pub fn vote2_with(vote: &Fr, x: &Fr, s: &Fr, ygen: &G1, ps: &Statement) -> (out: (G1, G1, G1))
    ensures
        vote2_rel(out, *ps, *vote, *x, fr_val(*s), g1_dlog(*ygen)),
{
    let gv = g1_mul(&ps.g1, vote);
    let yx = g1_mul(ygen, x);
    let c2 = g1_add(&gv, &yx);
    let c3 = g1_mul(&ps.g0, s);
    let yh = g1_sub(ygen, &ps.h0);
    let yhx = g1_mul(&yh, x);
    let hs = g1_mul(&ps.h1, s);
    let c4 = g1_add(&yhx, &hs);
    (c2, c3, c4)
}

/// Builds the round-2 vote commitment `(c2, c3, c4)` for the round-1
/// blinding `x`, with a fresh uniform blinding `s` and a fresh ephemeral
/// generator `Y`.  `Y` must never be reused across invocations; reuse would
/// leak relations between rounds.
pub fn vote2(rng: &mut rand::rngs::ThreadRng, vote: Fr, x: Fr, ps: &Statement) -> (out: (
    G1,
    G1,
    G1,
))
    ensures
        exists|s: int, y: int|
            fe_valid(s) && fe_valid(y) && #[trigger] vote2_rel(out, *ps, vote, x, s, y),
{
    let s = fr_random(rng);
    let ygen = g1_random(rng);
    let out = vote2_with(&vote, &x, &s, &ygen, ps);
    proof {
        assert(vote2_rel(out, *ps, vote, x, fr_val(s), g1_dlog(ygen)));
    }
    out
}

/// Homomorphism of the deposit commitment: the sum of the commitments to
/// two amounts is the commitment to the sum of the amounts under the sum of
/// the blindings.  Holds for every pair of deposits over one statement,
/// whatever their auxiliary randomness and challenges.
pub proof fn lemma_deposit_homomorphic(
    outa: (G1, G1, Fr),
    outb: (G1, G1, Fr),
    ps: Statement,
    amta: Fr,
    amtb: Fr,
    ra: int,
    rb: int,
    aa: int,
    ab: int,
    ca: int,
    cb: int,
)
    requires
        deposit_rel(outa, ps, amta, ra, aa, ca),
        deposit_rel(outb, ps, amtb, rb, ab, cb),
    ensures
        fe_add(g1_dlog(outa.0), g1_dlog(outb.0)) == pedersen(
            g1_dlog(ps.g1),
            fe_add(fr_val(amta), fr_val(amtb)),
            g1_dlog(ps.h0),
            fe_add(ra, rb),
        ),
{
    let g = g1_dlog(ps.g1);
    let h = g1_dlog(ps.h0);
    lemma_fe_add_exchange(
        fe_mul(g, fr_val(amta)),
        fe_mul(h, ra),
        fe_mul(g, fr_val(amtb)),
        fe_mul(h, rb),
    );
    lemma_fe_factor_add(g, fr_val(amta), fr_val(amtb));
    lemma_fe_factor_add(h, ra, rb);
}

/// Round-1/round-2 linkage: with the linking blinding `x` and the ephemeral
/// generator fixed, the first round-2 components of two votes differ exactly
/// by `g1` raised to the difference of the votes, whatever the fresh
/// blindings of the two calls were.
pub proof fn lemma_vote2_linkage(
    outa: (G1, G1, G1),
    outb: (G1, G1, G1),
    ps: Statement,
    va: Fr,
    vb: Fr,
    x: Fr,
    sa: int,
    sb: int,
    y: int,
)
    requires
        vote2_rel(outa, ps, va, x, sa, y),
        vote2_rel(outb, ps, vb, x, sb, y),
    ensures
        fe_sub(g1_dlog(outa.0), g1_dlog(outb.0)) == fe_mul(
            g1_dlog(ps.g1),
            fe_sub(fr_val(va), fr_val(vb)),
        ),
{
    let g = g1_dlog(ps.g1);
    lemma_fe_sub_cancel(fe_mul(g, fr_val(va)), fe_mul(y, fr_val(x)), fe_mul(g, fr_val(vb)));
    lemma_fe_factor_sub(g, fr_val(va), fr_val(vb));
}

/// The compound non-interactive proof: seven first-message group elements
/// and five response scalars, generated atomically from one witness and
/// statement.  An external verifier recomputes the first message from the
/// responses and challenges and compares.
pub struct Proof {
    pub R0: G1,
    pub R1: G1,
    pub R2: G1,
    pub R3: G1,
    pub S0: G1,
    pub S1: G1,
    pub T: G1,
    pub d0: Fr,
    pub d1: Fr,
    pub u: Fr,
    pub v: Fr,
    pub w: Fr,
}

/// The eight scalars a prover draws for one proof: five blindings for the
/// first message and three challenge-like scalars for the responses.
pub struct SigmaRandomness {
    pub r0: Fr,
    pub r1: Fr,
    pub s0: Fr,
    pub s1: Fr,
    pub s2: Fr,
    pub a0: Fr,
    pub a1: Fr,
    pub a2: Fr,
}

/// The algebra that ties a proof to its witness, statement and randomness:
/// the six first-message elements are the stated exponentials of the blinds,
/// and the five responses are the stated linear combinations of blinds,
/// challenges and witness scalars.  Any deviation would silently break a
/// verifier built against these equations.
pub open spec fn proof_rel(
    p: Proof,
    pw: Witness,
    ps: Statement,
    r0: int,
    r1: int,
    s0: int,
    s1: int,
    s2: int,
    a0: int,
    a1: int,
    a2: int,
) -> bool {
    &&& g1_dlog(p.R0) == fe_mul(g1_dlog(ps.g0), r0)
    &&& g1_dlog(p.R1) == fe_mul(fe_sub(g1_dlog(ps.h0), g1_dlog(ps.y)), r0)
    &&& g1_dlog(p.R2) == fe_mul(g1_dlog(ps.h1), r1)
    &&& g1_dlog(p.R3) == fe_mul(g1_dlog(ps.g0), r1)
    &&& g1_dlog(p.S0) == fe_add(fe_mul(g1_dlog(ps.g1), s0), fe_mul(g1_dlog(ps.h0), s1))
    &&& g1_dlog(p.S1) == fe_add(fe_mul(g1_dlog(ps.g1), s0), fe_mul(g1_dlog(ps.y), s1))
    &&& g1_dlog(p.T) == fe_add(
        fe_mul(g1_dlog(ps.g1), fe_mul(s0, fr_val(pw.b))),
        fe_mul(g1_dlog(ps.h0), s2),
    )
    &&& fr_val(p.d0) == fe_add(r0, fe_mul(a0, fr_val(pw.x0)))
    &&& fr_val(p.d1) == fe_add(r1, fe_mul(a1, fr_val(pw.x2)))
    &&& fr_val(p.u) == fe_add(s0, fe_mul(a2, fr_val(pw.b)))
    &&& fr_val(p.v) == fe_add(s1, fe_mul(a2, fr_val(pw.x1)))
    &&& fr_val(p.w) == fe_add(s2, fe_mul(fr_val(pw.x1), fe_sub(a2, fr_val(p.u))))
}

/// The proof is determined, in its algebraic view, by the witness, the
/// statement and the drawn scalars: two proofs tied to the same triple by
/// `proof_rel` agree on the views of all seven first-message elements and
/// all five responses.
pub proof fn lemma_proof_determined(
    p: Proof,
    q: Proof,
    pw: Witness,
    ps: Statement,
    r0: int,
    r1: int,
    s0: int,
    s1: int,
    s2: int,
    a0: int,
    a1: int,
    a2: int,
)
    requires
        proof_rel(p, pw, ps, r0, r1, s0, s1, s2, a0, a1, a2),
        proof_rel(q, pw, ps, r0, r1, s0, s1, s2, a0, a1, a2),
    ensures
        g1_dlog(p.R0) == g1_dlog(q.R0),
        g1_dlog(p.R1) == g1_dlog(q.R1),
        g1_dlog(p.R2) == g1_dlog(q.R2),
        g1_dlog(p.R3) == g1_dlog(q.R3),
        g1_dlog(p.S0) == g1_dlog(q.S0),
        g1_dlog(p.S1) == g1_dlog(q.S1),
        g1_dlog(p.T) == g1_dlog(q.T),
        fr_val(p.d0) == fr_val(q.d0),
        fr_val(p.d1) == fr_val(q.d1),
        fr_val(p.u) == fr_val(q.u),
        fr_val(p.v) == fr_val(q.v),
        fr_val(p.w) == fr_val(q.w),
{
}

/// Sigma-protocol prover from explicit randomness: every output is a pure
/// function of the witness, the statement and the given scalars, pinned by
/// `proof_rel`.  Total: any witness is accepted, including a vote scalar
/// outside {0, 1}; enforcing the bit constraint is the verifier's task.
pub fn genproof_with(pw: &Witness, ps: &Statement, rnd: &SigmaRandomness) -> (p: Proof)
    ensures
        proof_rel(
            p,
            *pw,
            *ps,
            fr_val(rnd.r0),
            fr_val(rnd.r1),
            fr_val(rnd.s0),
            fr_val(rnd.s1),
            fr_val(rnd.s2),
            fr_val(rnd.a0),
            fr_val(rnd.a1),
            fr_val(rnd.a2),
        ),
{
    let R0 = g1_mul(&ps.g0, &rnd.r0);
    let h0y = g1_sub(&ps.h0, &ps.y);
    let R1 = g1_mul(&h0y, &rnd.r0);
    let R2 = g1_mul(&ps.h1, &rnd.r1);
    let R3 = g1_mul(&ps.g0, &rnd.r1);
    let gs0 = g1_mul(&ps.g1, &rnd.s0);
    let hs1 = g1_mul(&ps.h0, &rnd.s1);
    let S0 = g1_add(&gs0, &hs1);
    let ys1 = g1_mul(&ps.y, &rnd.s1);
    let S1 = g1_add(&gs0, &ys1);
    let s0b = fr_mul(&rnd.s0, &pw.b);
    let gs0b = g1_mul(&ps.g1, &s0b);
    let hs2 = g1_mul(&ps.h0, &rnd.s2);
    let T = g1_add(&gs0b, &hs2);

    let a0x0 = fr_mul(&rnd.a0, &pw.x0);
    let d0 = fr_add(&rnd.r0, &a0x0);
    let a1x2 = fr_mul(&rnd.a1, &pw.x2);
    let d1 = fr_add(&rnd.r1, &a1x2);
    let a2b = fr_mul(&rnd.a2, &pw.b);
    let u = fr_add(&rnd.s0, &a2b);
    let a2x1 = fr_mul(&rnd.a2, &pw.x1);
    let v = fr_add(&rnd.s1, &a2x1);
    let a2u = fr_sub(&rnd.a2, &u);
    let x1a2u = fr_mul(&pw.x1, &a2u);
    let w = fr_add(&rnd.s2, &x1a2u);

    Proof { R0, R1, R2, R3, S0, S1, T, d0, d1, u, v, w }
}

/// Produces the compound proof with eight fresh uniform scalars.
///
/// In a sound non-interactive instantiation the three challenge-like
/// scalars must instead be a single Fiat-Shamir challenge hashed from the
/// statement and the first message; deriving it is a convention this core
/// leaves to the surrounding system.
pub fn genproof(rng: &mut rand::rngs::ThreadRng, pw: &Witness, ps: &Statement) -> (p: Proof)
    ensures
        exists|r0: int, r1: int, s0: int, s1: int, s2: int, a0: int, a1: int, a2: int|
            {
                &&& fe_valid(r0)
                &&& fe_valid(r1)
                &&& fe_valid(s0)
                &&& fe_valid(s1)
                &&& fe_valid(s2)
                &&& fe_valid(a0)
                &&& fe_valid(a1)
                &&& fe_valid(a2)
                &&& #[trigger] proof_rel(p, *pw, *ps, r0, r1, s0, s1, s2, a0, a1, a2)
            },
{
    let r0 = fr_random(rng);
    let r1 = fr_random(rng);
    let s0 = fr_random(rng);
    let s1 = fr_random(rng);
    let s2 = fr_random(rng);
    let a0 = fr_random(rng);
    let a1 = fr_random(rng);
    let a2 = fr_random(rng);
    let rnd = SigmaRandomness { r0, r1, s0, s1, s2, a0, a1, a2 };
    let p = genproof_with(pw, ps, &rnd);
    proof {
        assert(proof_rel(
            p,
            *pw,
            *ps,
            fr_val(rnd.r0),
            fr_val(rnd.r1),
            fr_val(rnd.s0),
            fr_val(rnd.s1),
            fr_val(rnd.s2),
            fr_val(rnd.a0),
            fr_val(rnd.a1),
            fr_val(rnd.a2),
        ));
    }
    p
}

} // verus!
