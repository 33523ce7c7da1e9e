//! The laws of the scheme, proved once and for all inputs: an honest
//! signature verifies; an honest join request is accepted and an honest
//! response yields a valid credential; a revocation entry taken from a
//! signer's own pseudonym pair is detected, and entries of other signers are
//! passed.

use vstd::prelude::*;

use crate::field::fadd;
use crate::field::fmul;
use crate::field::fneg;
use crate::field::fr_order;
use crate::field::lemma_add_multiple_of_zero;
use crate::field::lemma_congruent_diff_zero;
use crate::field::lemma_fadd_mod;
use crate::field::lemma_fmul_mod;
use crate::field::lemma_fneg_mod;
use crate::groups::G1Elem;
use crate::groups::GtElem;
use crate::join::join_request_ok;
use crate::join::join_response_wf;
use crate::join::JrView;
use crate::platform::pa_model;
use crate::platform::sig_model;
use crate::platform::ur_model;
use crate::platform::SKView;
use crate::platform::UrRands;
use crate::types::credential_valid;
use crate::types::GPKView;
use crate::types::PaView;
use crate::types::RevView;
use crate::types::UrView;
use crate::verify::sub1_view;
use crate::verify::sub2_view;
use crate::verify::ur_entry_check;
use crate::verify::ur_list_check;
use crate::verify::verify_challenge;
use crate::verify::verify_model;
use crate::verify::VerifyError;
use crate::zpk::lemma_zpk_completeness;
use crate::zpk::zpk_sign_model;

verus! {

/// The first commitment recomputes: `B^s_f * K^{-c} = B^r_f` whenever
/// `K = B^f` and `s_f = r_f + c * f`.
proof fn lemma_r1_recompute(lb: int, f: int, rf: int, c: int)
    ensures
        fadd(fmul(lb, fadd(rf, fmul(c, f))), fmul(fmul(lb, f), fneg(c))) == fmul(lb, rf),
{
    let p = fr_order();
    assert(fmul(lb, fadd(rf, fmul(c, f))) == (lb * (rf + c * f)) % p) by {
        lemma_fadd_mod(rf, c * f);
        lemma_fmul_mod(lb, rf + c * f);
    };
    assert(fmul(fmul(lb, f), fneg(c)) == ((lb * f) * (-c)) % p) by {
        lemma_fmul_mod(lb * f, -c);
    };
    assert(fadd((lb * (rf + c * f)) % p, ((lb * f) * (-c)) % p) == (lb * (rf + c * f) + (lb * f)
        * (-c)) % p) by {
        lemma_fadd_mod(lb * (rf + c * f), (lb * f) * (-c));
    };
    assert(lb * (rf + c * f) + (lb * f) * (-c) == lb * rf) by (nonlinear_arith);
}

/// A response shifts a commitment term by the challenge times the secret,
/// under a negated exponent.
proof fn lemma_shift_neg(t: int, r0: int, c: int, z: int)
    ensures
        t * (-(r0 + c * z)) == t * (-r0) + c * (-(t * z)),
{
    assert(t * (-(r0 + c * z)) == t * (-r0) + c * (-(t * z))) by (nonlinear_arith);
}

/// A response shifts a commitment term by the challenge times the secret.
proof fn lemma_shift(t: int, r0: int, c: int, z: int)
    ensures
        t * (r0 + c * z) == t * r0 + c * (t * z),
{
    assert(t * (r0 + c * z) == t * r0 + c * (t * z)) by (nonlinear_arith);
}

/// The challenge-degree part of the recomputed second commitment is exactly
/// the difference of the two sides of the credential relation.
proof fn lemma_correction(
    la: int,
    g1: int,
    g2: int,
    h1: int,
    h2: int,
    w: int,
    x: int,
    y: int,
    f: int,
    a: int,
)
    ensures
        -(((la + h2 * a) * g2) * x) + (h1 * g2) * f + (h2 * g2) * (y + a * x) + (h2 * w) * a + (g1
            * g2 - (la + h2 * a) * w) == (g1 + h1 * f + h2 * y) * g2 - la * (w + g2 * x),
{
    assert(((la + h2 * a) * g2) * x == la * (g2 * x) + (h2 * g2) * (a * x)) by (nonlinear_arith);
    assert((la + h2 * a) * w == la * w + (h2 * w) * a) by (nonlinear_arith);
    assert((h2 * g2) * (y + a * x) == (h2 * g2) * y + (h2 * g2) * (a * x)) by (nonlinear_arith);
    assert((g1 + h1 * f + h2 * y) * g2 == g1 * g2 + (h1 * f) * g2 + (h2 * y) * g2)
        by (nonlinear_arith);
    assert((h1 * f) * g2 == (h1 * g2) * f) by (nonlinear_arith);
    assert((h2 * y) * g2 == (h2 * g2) * y) by (nonlinear_arith);
    assert(la * (w + g2 * x) == la * w + la * (g2 * x)) by (nonlinear_arith);
}

/// Multiplication distributes over a five-term sum.
proof fn lemma_distribute5(c: int, e1: int, e2: int, e3: int, e4: int, e5: int)
    ensures
        c * (e1 + e2 + e3 + e4 + e5) == c * e1 + c * e2 + c * e3 + c * e4 + c * e5,
{
    assert(c * (e1 + e2 + e3 + e4 + e5) == c * e1 + c * e2 + c * e3 + c * e4 + c * e5)
        by (nonlinear_arith);
}

/// The second commitment recomputes from the responses and the correction
/// term, given the credential relation.
proof fn lemma_r2_recompute(
    gpk: GPKView,
    la: int,
    x: int,
    y: int,
    f: int,
    a: int,
    rx: int,
    rf: int,
    ra: int,
    rb: int,
    c: int,
)
    requires
        credential_valid(gpk, la, x, y, f),
    ensures
        ({
            let lt = fadd(la, fmul(gpk.h2, a));
            let bl = fadd(y, fmul(a, x));
            let sx = fadd(rx, fmul(c, x));
            let sf = fadd(rf, fmul(c, f));
            let sa = fadd(ra, fmul(c, a));
            let sb = fadd(rb, fmul(c, bl));
            fadd(
                fadd(
                    fadd(
                        fadd(fmul(fmul(lt, gpk.g2), fneg(sx)), fmul(fmul(gpk.h1, gpk.g2), sf)),
                        fmul(fmul(gpk.h2, gpk.g2), sb),
                    ),
                    fmul(fmul(gpk.h2, gpk.w), sa),
                ),
                fmul(fadd(fmul(gpk.g1, gpk.g2), fneg(fmul(lt, gpk.w))), c),
            ) == fadd(
                fadd(
                    fadd(fmul(fmul(lt, gpk.g2), fneg(rx)), fmul(fmul(gpk.h1, gpk.g2), rf)),
                    fmul(fmul(gpk.h2, gpk.g2), rb),
                ),
                fmul(fmul(gpk.h2, gpk.w), ra),
            )
        }),
{
    let p = fr_order();
    let g1 = gpk.g1;
    let g2 = gpk.g2;
    let h1 = gpk.h1;
    let h2 = gpk.h2;
    let w = gpk.w;

    let lt = fadd(la, fmul(h2, a));
    let bl = fadd(y, fmul(a, x));
    let sx = fadd(rx, fmul(c, x));
    let sf = fadd(rf, fmul(c, f));
    let sa = fadd(ra, fmul(c, a));
    let sb = fadd(rb, fmul(c, bl));

    let ltr = la + h2 * a;
    let tg = ltr * g2;
    let tw = ltr * w;

    // Flatten the rerandomized base, its two pairings and the responses.
    assert(lt == ltr % p) by {
        lemma_fadd_mod(la, h2 * a);
    };
    assert(fmul(lt, g2) == tg % p) by {
        lemma_fmul_mod(ltr, g2);
    };
    assert(fmul(lt, w) == tw % p) by {
        lemma_fmul_mod(ltr, w);
    };
    assert(sx == (rx + c * x) % p) by {
        lemma_fadd_mod(rx, c * x);
    };
    assert(sf == (rf + c * f) % p) by {
        lemma_fadd_mod(rf, c * f);
    };
    assert(sa == (ra + c * a) % p) by {
        lemma_fadd_mod(ra, c * a);
    };
    assert(sb == (rb + c * (y + a * x)) % p) by {
        lemma_fadd_mod(y, a * x);
        lemma_fmul_mod(c, y + a * x);
        lemma_fadd_mod(rb, c * (y + a * x));
    };

    // Flatten the five recomputed terms.
    let u1 = tg * (-(rx + c * x));
    let u2 = (h1 * g2) * (rf + c * f);
    let u3 = (h2 * g2) * (rb + c * (y + a * x));
    let u4 = (h2 * w) * (ra + c * a);
    let u5 = (g1 * g2 - tw) * c;

    assert(fmul(fmul(lt, g2), fneg(sx)) == u1 % p) by {
        lemma_fneg_mod(rx + c * x);
        lemma_fmul_mod(tg, -(rx + c * x));
    };
    assert(fmul(fmul(h1, g2), sf) == u2 % p) by {
        lemma_fmul_mod(h1 * g2, rf + c * f);
    };
    assert(fmul(fmul(h2, g2), sb) == u3 % p) by {
        lemma_fmul_mod(h2 * g2, rb + c * (y + a * x));
    };
    assert(fmul(fmul(h2, w), sa) == u4 % p) by {
        lemma_fmul_mod(h2 * w, ra + c * a);
    };
    assert(fmul(fadd(fmul(g1, g2), fneg(fmul(lt, w))), c) == u5 % p) by {
        lemma_fneg_mod(tw);
        lemma_fadd_mod(g1 * g2, -tw);
        lemma_fmul_mod(g1 * g2 - tw, c);
    };
    let lhs = fadd(
        fadd(
            fadd(fadd(fmul(fmul(lt, g2), fneg(sx)), fmul(fmul(h1, g2), sf)), fmul(
                fmul(h2, g2),
                sb,
            )),
            fmul(fmul(h2, w), sa),
        ),
        fmul(fadd(fmul(g1, g2), fneg(fmul(lt, w))), c),
    );
    assert(lhs == (u1 + u2 + u3 + u4 + u5) % p) by {
        lemma_fadd_mod(u1, u2);
        lemma_fadd_mod(u1 + u2, u3);
        lemma_fadd_mod(u1 + u2 + u3, u4);
        lemma_fadd_mod(u1 + u2 + u3 + u4, u5);
    };

    // Flatten the signer's four commitment terms.
    let v1 = tg * (-rx);
    let v2 = (h1 * g2) * rf;
    let v3 = (h2 * g2) * rb;
    let v4 = (h2 * w) * ra;

    assert(fmul(fmul(lt, g2), fneg(rx)) == v1 % p) by {
        lemma_fmul_mod(tg, fneg(rx));
        lemma_fmul_mod(tg, -rx);
    };
    assert(fmul(fmul(h1, g2), rf) == v2 % p) by {
        lemma_fmul_mod(h1 * g2, rf);
    };
    assert(fmul(fmul(h2, g2), rb) == v3 % p) by {
        lemma_fmul_mod(h2 * g2, rb);
    };
    assert(fmul(fmul(h2, w), ra) == v4 % p) by {
        lemma_fmul_mod(h2 * w, ra);
    };
    let rhs = fadd(
        fadd(fadd(fmul(fmul(lt, g2), fneg(rx)), fmul(fmul(h1, g2), rf)), fmul(fmul(h2, g2), rb)),
        fmul(fmul(h2, w), ra),
    );
    assert(rhs == (v1 + v2 + v3 + v4) % p) by {
        lemma_fadd_mod(v1, v2);
        lemma_fadd_mod(v1 + v2, v3);
        lemma_fadd_mod(v1 + v2 + v3, v4);
    };

    // The credential relation, flattened.
    let m1 = la * (w + g2 * x);
    let m2 = (g1 + h1 * f + h2 * y) * g2;
    assert(fmul(la, fadd(w, fmul(g2, x))) == m1 % p) by {
        lemma_fadd_mod(w, g2 * x);
        lemma_fmul_mod(la, w + g2 * x);
    };
    assert(fmul(fadd(fadd(g1, fmul(h1, f)), fmul(h2, y)), g2) == m2 % p) by {
        lemma_fadd_mod(g1, h1 * f);
        lemma_fadd_mod(g1 + h1 * f, h2 * y);
        lemma_fmul_mod(g1 + h1 * f + h2 * y, g2);
    };

    // The recomputed sum differs from the signer's by `c` times the
    // difference of the two sides of the credential relation.
    lemma_shift_neg(tg, rx, c, x);
    lemma_shift(h1 * g2, rf, c, f);
    lemma_shift(h2 * g2, rb, c, y + a * x);
    lemma_shift(h2 * w, ra, c, a);
    lemma_correction(la, g1, g2, h1, h2, w, x, y, f, a);
    lemma_distribute5(
        c,
        -(tg * x),
        (h1 * g2) * f,
        (h2 * g2) * (y + a * x),
        (h2 * w) * a,
        g1 * g2 - tw,
    );
    assert(u1 + u2 + u3 + u4 + u5 == (v1 + v2 + v3 + v4) + c * (m2 - m1));

    lemma_congruent_diff_zero(m2, m1);
    lemma_add_multiple_of_zero(v1 + v2 + v3 + v4, c, m2 - m1);
}

/// The verifier's recomputed challenge of an honestly produced attestation
/// is the attestation's own challenge.
proof fn lemma_pa_recompute(
    gpk: GPKView,
    sk: SKView,
    msg: Seq<u8>,
    r: int,
    a: int,
    rx: int,
    rf: int,
    ra: int,
    rb: int,
)
    requires
        credential_valid(gpk, sk.large_a, sk.x, sk.y, sk.f),
    ensures
        ({
            let pa = pa_model(gpk, sk, msg, r, a, rx, rf, ra, rb);
            verify_challenge(gpk, pa, msg) == pa.c
        }),
{
    let pa = pa_model(gpk, sk, msg, r, a, rx, rf, ra, rb);
    lemma_r1_recompute(pa.large_b, sk.f, rf, pa.c);
    lemma_r2_recompute(gpk, sk.large_a, sk.x, sk.y, sk.f, a, rx, rf, ra, rb, pa.c);
}

/// Completeness: an honestly produced signature over any message and the
/// empty revocation list is accepted, whatever the random draws were.
pub proof fn lemma_sign_verify_completeness(
    gpk: GPKView,
    sk: SKView,
    msg: Seq<u8>,
    r: int,
    a: int,
    rx: int,
    rf: int,
    ra: int,
    rb: int,
)
    requires
        credential_valid(gpk, sk.large_a, sk.x, sk.y, sk.f),
    ensures
        verify_model(
            gpk,
            sig_model(gpk, sk, msg, Seq::empty(), r, a, rx, rf, ra, rb, Seq::empty()),
            msg,
            Seq::empty(),
        ) == Ok::<(), VerifyError>(()),
{
    lemma_pa_recompute(gpk, sk, msg, r, a, rx, rf, ra, rb);
    let sig = sig_model(gpk, sk, msg, Seq::empty(), r, a, rx, rf, ra, rb, Seq::empty());
    assert(sig.ur =~= Seq::<UrView>::empty());
    assert(ur_list_check(sig.pa, Seq::empty(), sig.ur, 0) == Ok::<(), VerifyError>(()));
}

/// An honest join request is accepted by the issuer: the proof of knowledge
/// of the commitment's opening checks out, whatever the randomness.
pub proof fn lemma_join_request_accepted(
    gpk: GPKView,
    f: int,
    y_dash: int,
    t: int,
    r1: int,
    r2: int,
)
    requires
        t == fadd(fmul(gpk.h1, f), fmul(gpk.h2, y_dash)),
    ensures
        join_request_ok(
            gpk,
            t,
            zpk_sign_model::<G1Elem>(f, y_dash, gpk.h1, gpk.h2, t, r1, r2),
        ),
{
    lemma_zpk_completeness::<G1Elem>(f, y_dash, gpk.h1, gpk.h2, t, r1, r2);
}

/// Join completeness: an honest issuer's response to an honest request
/// yields a credential that satisfies the credential relation for the
/// committed secret — so the platform's final check accepts it.
pub proof fn lemma_join_response_gives_credential(
    gpk: GPKView,
    gamma: int,
    f: int,
    y_dash: int,
    t: int,
    resp: JrView,
)
    requires
        gpk.w == fmul(gpk.g2, gamma),
        t == fadd(fmul(gpk.h1, f), fmul(gpk.h2, y_dash)),
        join_response_wf(gpk, gamma, t, resp),
    ensures
        credential_valid(gpk, resp.large_a, resp.x, fadd(y_dash, resp.y_dash_dash), f),
{
    let p = fr_order();
    let g1 = gpk.g1;
    let g2 = gpk.g2;
    let h1 = gpk.h1;
    let h2 = gpk.h2;
    let x = resp.x;
    let ydd = resp.y_dash_dash;

    let i = choose|i: int|
        fmul(fadd(resp.x, gamma), i) == 1 && resp.large_a == fmul(
            fadd(fadd(gpk.g1, t), fmul(gpk.h2, resp.y_dash_dash)),
            i,
        );

    let s_raw = g1 + h1 * f + h2 * y_dash + h2 * ydd;
    let r_raw = (g1 + h1 * f + h2 * (y_dash + ydd)) * g2;
    let e_raw = (x + gamma) * i;

    // Flatten the base handed out by the issuer.
    assert(fadd(fadd(g1, t), fmul(h2, ydd)) == s_raw % p) by {
        lemma_fadd_mod(h1 * f, h2 * y_dash);
        lemma_fadd_mod(g1, h1 * f + h2 * y_dash);
        lemma_fadd_mod(g1 + h1 * f + h2 * y_dash, h2 * ydd);
    };
    assert(resp.large_a == (s_raw * i) % p) by {
        lemma_fmul_mod(s_raw, i);
    };
    assert(e_raw % p == 1) by {
        lemma_fmul_mod(x + gamma, i);
    };

    // Flatten the left side of the credential relation.
    assert(fadd(gpk.w, fmul(g2, x)) == (g2 * gamma + g2 * x) % p) by {
        lemma_fadd_mod(g2 * gamma, g2 * x);
    };
    assert(fmul(resp.large_a, fadd(gpk.w, fmul(g2, x))) == (s_raw * i * (g2 * gamma + g2 * x))
        % p) by {
        lemma_fmul_mod(s_raw * i, g2 * gamma + g2 * x);
    };

    // Flatten the right side.
    assert(fmul(fadd(fadd(g1, fmul(h1, f)), fmul(h2, fadd(y_dash, ydd))), g2) == r_raw % p) by {
        lemma_fadd_mod(y_dash, ydd);
        lemma_fmul_mod(h2, y_dash + ydd);
        lemma_fadd_mod(g1, h1 * f);
        lemma_fadd_mod(g1 + h1 * f, h2 * (y_dash + ydd));
        lemma_fmul_mod(g1 + h1 * f + h2 * (y_dash + ydd), g2);
    };

    // The left side is the right side times `(x + gamma) * i`, which
    // reduces to one.
    assert(s_raw * i * (g2 * gamma + g2 * x) == r_raw * e_raw) by {
        lemma_regroup_join(g1, g2, h1, h2, f, y_dash, ydd, x, gamma, i);
    };
    assert((r_raw * e_raw) % p == r_raw % p) by {
        vstd::arithmetic::div_mod::lemma_mul_mod_noop_right(r_raw, e_raw, p);
    };
}

/// Regrouping of the join product: the issued base times the pairing
/// exponent is the credential's right side times `(x + gamma) * i`.
proof fn lemma_regroup_join(
    g1: int,
    g2: int,
    h1: int,
    h2: int,
    f: int,
    y_dash: int,
    ydd: int,
    x: int,
    gamma: int,
    i: int,
)
    ensures
        (g1 + h1 * f + h2 * y_dash + h2 * ydd) * i * (g2 * gamma + g2 * x) == ((g1 + h1 * f + h2
            * (y_dash + ydd)) * g2) * ((x + gamma) * i),
{
    let s: int = g1 + h1 * f + h2 * y_dash + h2 * ydd;
    assert(g1 + h1 * f + h2 * (y_dash + ydd) == g1 + h1 * f + h2 * y_dash + h2 * ydd)
        by (nonlinear_arith);
    assert(s * i * (g2 * gamma + g2 * x) == (s * g2) * ((x + gamma) * i)) by (nonlinear_arith);
}

/// When an honest signer with secret `f` and blinding `zb` proves
/// non-revocation against an entry, the payload of its first proof is away
/// from the identity exactly when this predicate holds.  It holds in
/// particular when the entry stems from a different secret, the entry's
/// base is not the identity, and the blinding is nonzero; the model states
/// the product directly, since it does not carry the primality of the group
/// order.
pub open spec fn separates(f: int, entry: RevView, zb: int) -> bool {
    fmul(fadd(fmul(entry.large_b, f), fneg(entry.large_k)), zb) != 0
}

/// The payload of an honest first non-revocation proof is the statement's
/// combination of its bases and witness.
proof fn lemma_beta1_relation(bi: int, ki: int, f: int, zb: int)
    ensures
        fmul(fadd(fmul(bi, f), fneg(ki)), zb) == fadd(
            fmul(bi, fmul(zb, f)),
            fmul(fneg(ki), zb),
        ),
{
    let p = fr_order();
    assert(fmul(fadd(fmul(bi, f), fneg(ki)), zb) == ((bi * f - ki) * zb) % p) by {
        lemma_fadd_mod(bi * f, -ki);
        lemma_fmul_mod(bi * f - ki, zb);
    };
    assert(fadd(fmul(bi, fmul(zb, f)), fmul(fneg(ki), zb)) == (bi * (zb * f) + (-ki) * zb)
        % p) by {
        lemma_fmul_mod(bi, zb * f);
        lemma_fmul_mod(-ki, zb);
        lemma_fadd_mod(bi * (zb * f), (-ki) * zb);
    };
    assert((bi * f - ki) * zb == bi * (zb * f) + (-ki) * zb) by (nonlinear_arith);
}

/// An honest second non-revocation proof's statement combines to the
/// identity: the signer's own pseudonym pair satisfies `K = B^f`.
proof fn lemma_beta2_zero(lb: int, f: int, zb: int)
    ensures
        fadd(fmul(lb, fmul(zb, f)), fmul(fneg(fmul(lb, f)), zb)) == 0,
{
    let p = fr_order();
    assert(fmul(fneg(fmul(lb, f)), zb) == ((-(lb * f)) * zb) % p) by {
        lemma_fneg_mod(lb * f);
        lemma_fmul_mod(-(lb * f), zb);
    };
    assert(fmul(lb, fmul(zb, f)) == (lb * (zb * f)) % p) by {
        lemma_fmul_mod(lb, zb * f);
    };
    assert(fadd((lb * (zb * f)) % p, ((-(lb * f)) * zb) % p) == (lb * (zb * f) + (-(lb * f)) * zb)
        % p) by {
        lemma_fadd_mod(lb * (zb * f), (-(lb * f)) * zb);
    };
    assert(lb * (zb * f) + (-(lb * f)) * zb == 0) by (nonlinear_arith);
}

/// An entry whose pair stems from the signer's own secret never separates:
/// the first proof's payload is forced to the identity.
proof fn lemma_matching_not_separating(f: int, entry: RevView, zb: int)
    requires
        entry.large_k == fmul(entry.large_b, f),
    ensures
        !separates(f, entry, zb),
{
    let p = fr_order();
    let xx = fmul(entry.large_b, f);
    assert(fadd(xx, fneg(xx)) == 0) by {
        lemma_fneg_mod(entry.large_b * f);
        lemma_fadd_mod(entry.large_b * f, -(entry.large_b * f));
    };
    assert(fmul(0, zb) == 0);
}

/// The verifier's decision on one honest non-revocation proof: accepted
/// when the entry separates from the signer's secret, and rejected as
/// revoked when it does not.
proof fn lemma_ur_entry_honest(pa: PaView, f: int, entry: RevView, u: UrRands)
    requires
        pa.large_k == fmul(pa.large_b, f),
    ensures
        ur_entry_check(pa, entry, ur_model(f, pa.large_b, pa.large_k, entry, u)) == (
        if separates(f, entry, u.zb) {
            Ok::<(), VerifyError>(())
        } else {
            Err::<(), VerifyError>(VerifyError::RevokedSigner)
        }),
{
    reveal(ur_entry_check);
    let ur = ur_model(f, pa.large_b, pa.large_k, entry, u);
    let za = fmul(u.zb, f);
    let beta1 = fmul(fadd(fmul(entry.large_b, f), fneg(entry.large_k)), u.zb);

    assert(sub1_view(entry, ur.proof1) == ur.proof1);
    lemma_beta1_relation(entry.large_b, entry.large_k, f, u.zb);
    lemma_zpk_completeness::<GtElem>(
        za,
        u.zb,
        entry.large_b,
        fneg(entry.large_k),
        beta1,
        u.r11,
        u.r12,
    );

    assert(sub2_view(pa, ur.proof2) == ur.proof2);
    lemma_beta2_zero(pa.large_b, f, u.zb);
    lemma_zpk_completeness::<GtElem>(za, u.zb, pa.large_b, fneg(pa.large_k), 0, u.r21, u.r22);
}

/// The verifier's decision on a suffix of honest non-revocation proofs for
/// entries that all separate from the signer's secret: accepted.
proof fn lemma_ur_list_honest_ok(
    pa: PaView,
    f: int,
    rl: Seq<RevView>,
    urr: Seq<UrRands>,
    urs: Seq<UrView>,
    i: int,
)
    requires
        pa.large_k == fmul(pa.large_b, f),
        urs.len() == rl.len(),
        urr.len() == rl.len(),
        0 <= i <= rl.len(),
        forall|j: int|
            0 <= j < rl.len() ==> urs[j] == ur_model(f, pa.large_b, pa.large_k, rl[j], urr[j]),
        forall|j: int| i <= j < rl.len() ==> separates(f, rl[j], urr[j].zb),
    ensures
        ur_list_check(pa, rl, urs, i) == Ok::<(), VerifyError>(()),
    decreases rl.len() - i,
{
    if i < rl.len() {
        lemma_ur_entry_honest(pa, f, rl[i], urr[i]);
        lemma_ur_list_honest_ok(pa, f, rl, urr, urs, i + 1);
    }
}

/// The verifier's decision on honest non-revocation proofs when the entry
/// at `k` does not separate and every entry before it does: the signer is
/// reported revoked.
proof fn lemma_ur_list_honest_revoked(
    pa: PaView,
    f: int,
    rl: Seq<RevView>,
    urr: Seq<UrRands>,
    urs: Seq<UrView>,
    i: int,
    k: int,
)
    requires
        pa.large_k == fmul(pa.large_b, f),
        urs.len() == rl.len(),
        urr.len() == rl.len(),
        0 <= i <= k < rl.len(),
        forall|j: int|
            0 <= j < rl.len() ==> urs[j] == ur_model(f, pa.large_b, pa.large_k, rl[j], urr[j]),
        forall|j: int| i <= j < k ==> separates(f, rl[j], urr[j].zb),
        !separates(f, rl[k], urr[k].zb),
    ensures
        ur_list_check(pa, rl, urs, i) == Err::<(), VerifyError>(VerifyError::RevokedSigner),
    decreases k - i,
{
    lemma_ur_entry_honest(pa, f, rl[i], urr[i]);
    if i < k {
        lemma_ur_list_honest_revoked(pa, f, rl, urr, urs, i + 1, k);
    }
}

/// Revocation spares the innocent: an honest signature against a revocation
/// list every entry of which separates from the signer's secret — in
/// particular, a list of entries taken from other members' signatures, with
/// nonzero blinding draws — is accepted.
pub proof fn lemma_sign_verify_accepts_unrevoked(
    gpk: GPKView,
    sk: SKView,
    msg: Seq<u8>,
    rl: Seq<RevView>,
    r: int,
    a: int,
    rx: int,
    rf: int,
    ra: int,
    rb: int,
    urr: Seq<UrRands>,
)
    requires
        credential_valid(gpk, sk.large_a, sk.x, sk.y, sk.f),
        urr.len() == rl.len(),
        forall|j: int| 0 <= j < rl.len() ==> separates(sk.f, rl[j], urr[j].zb),
    ensures
        verify_model(
            gpk,
            sig_model(gpk, sk, msg, rl, r, a, rx, rf, ra, rb, urr),
            msg,
            rl,
        ) == Ok::<(), VerifyError>(()),
{
    lemma_pa_recompute(gpk, sk, msg, r, a, rx, rf, ra, rb);
    let sig = sig_model(gpk, sk, msg, rl, r, a, rx, rf, ra, rb, urr);
    lemma_ur_list_honest_ok(sig.pa, sk.f, rl, urr, sig.ur, 0);
}

/// Revocation detects the revoked: an honest signature against a revocation
/// list that holds an entry from the signer's own pseudonym pair — `K_i`
/// equal to `B_i` raised to the signer's secret — is rejected as revoked,
/// provided the entries before it separate.
pub proof fn lemma_sign_verify_detects_revoked(
    gpk: GPKView,
    sk: SKView,
    msg: Seq<u8>,
    rl: Seq<RevView>,
    r: int,
    a: int,
    rx: int,
    rf: int,
    ra: int,
    rb: int,
    urr: Seq<UrRands>,
    k: int,
)
    requires
        credential_valid(gpk, sk.large_a, sk.x, sk.y, sk.f),
        urr.len() == rl.len(),
        0 <= k < rl.len(),
        rl[k].large_k == fmul(rl[k].large_b, sk.f),
        forall|j: int| 0 <= j < k ==> separates(sk.f, rl[j], urr[j].zb),
    ensures
        verify_model(
            gpk,
            sig_model(gpk, sk, msg, rl, r, a, rx, rf, ra, rb, urr),
            msg,
            rl,
        ) == Err::<(), VerifyError>(VerifyError::RevokedSigner),
{
    lemma_pa_recompute(gpk, sk, msg, r, a, rx, rf, ra, rb);
    let sig = sig_model(gpk, sk, msg, rl, r, a, rx, rf, ra, rb, urr);
    lemma_matching_not_separating(sk.f, rl[k], urr[k].zb);
    lemma_ur_list_honest_revoked(sig.pa, sk.f, rl, urr, sig.ur, 0, k);
}

} // verus!
