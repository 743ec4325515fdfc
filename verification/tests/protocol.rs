use direct_tcr::protocol::{
    deposit, deposit_with, genproof, genproof_with, genstatement, genwitness, make_commitments,
    vote1, vote1_with, vote2, vote2_with, Commitments, SigmaRandomness, Statement, Witness,
};
use substrate_bn::{Fr, Group, G1};

fn fr(s: &str) -> Fr {
    Fr::from_str(s).expect("decimal scalar")
}

fn sample_statement() -> Statement {
    let rng = &mut rand::thread_rng();
    genstatement(rng)
}

#[test]
fn deposit_follows_its_equations() {
    let ps = sample_statement();
    let amt = fr("41");
    let r = fr("977");
    let a = fr("5");
    let c = fr("123456789");
    let (big_c, big_a, z) = deposit_with(&amt, &r, &a, &c, &ps);
    assert!(big_c == ps.g1 * amt + ps.h0 * r);
    assert!(big_a == ps.h0 * a);
    assert!(z == c * amt + r);
}

#[test]
fn deposit_hides_the_amount() {
    let rng = &mut rand::thread_rng();
    let ps = genstatement(rng);
    let amt = fr("1000");
    let (c_first, _, _) = deposit(rng, amt, &ps);
    let (c_second, _, _) = deposit(rng, amt, &ps);
    assert!(c_first != c_second);
}

#[test]
fn deposit_commitments_add_homomorphically() {
    let ps = sample_statement();
    let a1 = fr("11");
    let a2 = fr("31");
    let r1 = fr("5150");
    let r2 = fr("11161");
    let aux = fr("3");
    let ch = fr("7");
    let (c1, _, _) = deposit_with(&a1, &r1, &aux, &ch, &ps);
    let (c2, _, _) = deposit_with(&a2, &r2, &aux, &ch, &ps);
    let (c12, _, _) = deposit_with(&(a1 + a2), &(r1 + r2), &aux, &ch, &ps);
    assert!(c1 + c2 == c12);
}

#[test]
fn vote1_follows_its_equations() {
    let ps = sample_statement();
    let vote = fr("1");
    let x = fr("424242");
    let a = fr("99");
    let c = fr("17");
    let (c0, c1, big_a, z) = vote1_with(&vote, &x, &a, &c, &ps);
    assert!(c0 == ps.g0 * x);
    assert!(c1 == ps.g1 * vote + ps.h0 * x);
    assert!(big_a == ps.g0 * a);
    assert!(z == c * x + a);
}

#[test]
fn vote1_accepts_any_weight() {
    let rng = &mut rand::thread_rng();
    let ps = genstatement(rng);
    let weight = Fr::random(rng);
    let (c0, c1, _, _) = vote1(rng, Fr::one(), weight, &ps);
    assert!(c0 != c1);
}

#[test]
fn vote2_follows_its_equations() {
    let rng = &mut rand::thread_rng();
    let ps = genstatement(rng);
    let vote = fr("0");
    let x = fr("31337");
    let s = fr("271828");
    let ygen = G1::random(rng);
    let (c2, c3, c4) = vote2_with(&vote, &x, &s, &ygen, &ps);
    assert!(c2 == ps.g1 * vote + ygen * x);
    assert!(c3 == ps.g0 * s);
    assert!(c4 == (ygen - ps.h0) * x + ps.h1 * s);
}

#[test]
fn vote2_links_rounds_through_x() {
    let rng = &mut rand::thread_rng();
    let ps = genstatement(rng);
    let x = Fr::random(rng);
    let ygen = G1::random(rng);
    let va = fr("1");
    let vb = fr("0");
    let sa = Fr::random(rng);
    let sb = Fr::random(rng);
    let (c2a, _, _) = vote2_with(&va, &x, &sa, &ygen, &ps);
    let (c2b, _, _) = vote2_with(&vb, &x, &sb, &ygen, &ps);
    assert!(c2a - c2b == ps.g1 * (va - vb));
}

#[test]
fn vote2_runs_on_fresh_randomness() {
    let rng = &mut rand::thread_rng();
    let ps = genstatement(rng);
    let x = Fr::random(rng);
    let (c2, c3, c4) = vote2(rng, Fr::one(), x, &ps);
    let (d2, d3, d4) = vote2(rng, Fr::one(), x, &ps);
    // Fresh ephemeral generator and blinding: all three pieces differ.
    assert!(c2 != d2 && c3 != d3 && c4 != d4);
}

#[test]
fn relation_values_follow_the_bundle() {
    let rng = &mut rand::thread_rng();
    let bundle = Commitments {
        c0: G1::random(rng),
        c1: G1::random(rng),
        c2: G1::random(rng),
        c3: G1::random(rng),
        c4: G1::random(rng),
    };
    let copy = Commitments { ..bundle };
    let out = make_commitments(bundle);
    assert!(out.A0 == copy.c0);
    assert!(out.A1 == copy.c1);
    assert!(out.A2 == copy.c2);
    assert!(out.A3 == copy.c1 - copy.c2);
    assert!(out.A4 == copy.c1 - copy.c2 + copy.c4);
    assert!(out.A5 == copy.c3);
}

#[test]
fn relation_identities_hold_for_any_bundle() {
    let rng = &mut rand::thread_rng();
    for _ in 0..8 {
        let bundle = Commitments {
            c0: G1::random(rng),
            c1: G1::random(rng),
            c2: G1::random(rng),
            c3: G1::random(rng),
            c4: G1::random(rng),
        };
        let c4 = bundle.c4;
        let out = make_commitments(bundle);
        assert!(out.A3 == out.A1 - out.A2);
        assert!(out.A4 == out.A1 - out.A2 + c4);
    }
}

fn fixed_randomness() -> SigmaRandomness {
    SigmaRandomness {
        r0: fr("101"),
        r1: fr("103"),
        s0: fr("107"),
        s1: fr("109"),
        s2: fr("113"),
        a0: fr("127"),
        a1: fr("131"),
        a2: fr("137"),
    }
}

#[test]
fn proof_is_determined_by_its_blinds() {
    let ps = sample_statement();
    let pw = Witness { x0: fr("3"), x1: fr("5"), x2: fr("7"), b: fr("1") };
    let rnd = fixed_randomness();
    let p = genproof_with(&pw, &ps, &rnd);
    assert!(p.R0 == ps.g0 * rnd.r0);
    assert!(p.R1 == (ps.h0 - ps.y) * rnd.r0);
    assert!(p.R2 == ps.h1 * rnd.r1);
    assert!(p.R3 == ps.g0 * rnd.r1);
    assert!(p.S0 == ps.g1 * rnd.s0 + ps.h0 * rnd.s1);
    assert!(p.S1 == ps.g1 * rnd.s0 + ps.y * rnd.s1);
    assert!(p.T == ps.g1 * (rnd.s0 * pw.b) + ps.h0 * rnd.s2);
    assert!(p.d0 == rnd.r0 + rnd.a0 * pw.x0);
    assert!(p.d1 == rnd.r1 + rnd.a1 * pw.x2);
    assert!(p.u == rnd.s0 + rnd.a2 * pw.b);
    assert!(p.v == rnd.s1 + rnd.a2 * pw.x1);
    assert!(p.w == rnd.s2 + pw.x1 * (rnd.a2 - p.u));
}

#[test]
fn proof_generator_accepts_bit_zero_one_and_beyond() {
    let rng = &mut rand::thread_rng();
    let ps = genstatement(rng);
    // b = 0, b = 1 and even b = 2 all yield structurally valid proofs: the
    // bit constraint is enforced only by an external verifier.
    for b in ["0", "1", "2"] {
        let pw = Witness {
            x0: Fr::random(rng),
            x1: Fr::random(rng),
            x2: Fr::random(rng),
            b: fr(b),
        };
        let p = genproof(rng, &pw, &ps);
        let rnd = fixed_randomness();
        let q = genproof_with(&pw, &ps, &rnd);
        assert!(q.T == ps.g1 * (rnd.s0 * pw.b) + ps.h0 * rnd.s2);
        assert!(q.u == rnd.s0 + rnd.a2 * pw.b);
        // Two proofs over the same witness still differ in their blinds.
        assert!(p.R0 != q.R0 || p.S0 != q.S0 || p.T != q.T);
    }
}

#[test]
fn sampled_witness_feeds_the_prover() {
    let rng = &mut rand::thread_rng();
    let pw = genwitness(rng);
    let ps = genstatement(rng);
    let p = genproof(rng, &pw, &ps);
    let q = genproof(rng, &pw, &ps);
    // Independent draws of the Sigma blinds make the first messages differ.
    assert!(p.R0 != q.R0);
}
