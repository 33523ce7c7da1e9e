//! The platform: holds a credential and produces group signatures.

use vstd::prelude::*;

use crate::field::fadd;
use crate::field::fmul;
use crate::field::fneg;
use crate::field::fr_add;
use crate::field::fr_mul;
use crate::field::fr_neg;
use crate::field::Fr;
use crate::groups::g1_add;
use crate::groups::g1_enc;
use crate::groups::g1_mul;
use crate::groups::g1_to_bytes;
use crate::groups::gt_enc;
use crate::groups::gt_add;
use crate::groups::gt_identity;
use crate::groups::gt_mul;
use crate::groups::gt_neg;
use crate::groups::gt_to_bytes;
use crate::groups::G1Elem;
use crate::types::attestation_challenge;
use crate::types::rev_views;
use crate::types::PaView;
use crate::types::PlatformAttestation;
use crate::types::RevView;
use crate::types::Revocation;
use crate::types::SigView;
use crate::types::Signature;
use crate::types::UnRevokedAttestation;
use crate::types::UrView;
use crate::types::GPK;
use crate::types::GPKView;
use crate::utils::append_bytes;
use crate::utils::calc_sha256_scalar;
use crate::utils::gen_rand_scalar;
use crate::utils::pj_pairing;
use crate::utils::RngSource;
use crate::zpk::zpk_sign;
use crate::zpk::zpk_sign_model;
use crate::groups::GtElem;

verus! {

/// The platform's credential: the issuer-signed tuple `(A, x, y, f)`.
#[derive(Clone, Copy)]
pub struct SK {
    pub large_a: G1Elem,
    pub x: Fr,
    pub y: Fr,
    pub f: Fr,
}

/// The discrete-log model of a credential.
pub struct SKView {
    pub large_a: int,
    pub x: int,
    pub y: int,
    pub f: int,
}

impl View for SK {
    type V = SKView;

    open spec fn view(&self) -> SKView {
        SKView { large_a: self.large_a@, x: self.x@, y: self.y@, f: self.f@ }
    }
}

/// A member: the public parameters together with a credential.
pub struct Platform {
    pub gpk: GPK,
    pub sk: SK,
}

/// The attestation an honest platform produces for message `msg` with
/// randomness `r` (signature base), `a` (credential blinding) and the four
/// commitment scalars.
pub open spec fn pa_model(
    gpk: GPKView,
    sk: SKView,
    msg: Seq<u8>,
    r: int,
    a: int,
    rx: int,
    rf: int,
    ra: int,
    rb: int,
) -> PaView {
    let large_b = fmul(gpk.g3, r);
    let large_k = fmul(large_b, sk.f);
    let bl = fadd(sk.y, fmul(a, sk.x));
    let large_t = fadd(sk.large_a, fmul(gpk.h2, a));
    let large_r1 = fmul(large_b, rf);
    let large_r2 = fadd(
        fadd(
            fadd(fmul(fmul(large_t, gpk.g2), fneg(rx)), fmul(fmul(gpk.h1, gpk.g2), rf)),
            fmul(fmul(gpk.h2, gpk.g2), rb),
        ),
        fmul(fmul(gpk.h2, gpk.w), ra),
    );
    let c = attestation_challenge(large_b, large_k, large_t, large_r1, large_r2, msg);
    PaView {
        large_b,
        large_k,
        large_t,
        s_x: fadd(rx, fmul(c, sk.x)),
        s_f: fadd(rf, fmul(c, sk.f)),
        s_a: fadd(ra, fmul(c, a)),
        s_b: fadd(rb, fmul(c, bl)),
        c,
    }
}

/// The randomness a non-revocation proof consumes: the blinding `zb` and
/// the commitment scalars of its two compound proofs.
pub struct UrRands {
    pub zb: int,
    pub r11: int,
    pub r12: int,
    pub r21: int,
    pub r22: int,
}

/// The non-revocation proof an honest platform with secret `f` and pseudonym
/// pair `(lb, lk)` produces for a revocation entry.
pub open spec fn ur_model(f: int, lb: int, lk: int, entry: RevView, u: UrRands) -> UrView {
    let za = fmul(u.zb, f);
    let beta1 = fmul(fadd(fmul(entry.large_b, f), fneg(entry.large_k)), u.zb);
    UrView {
        proof1: zpk_sign_model::<GtElem>(
            za,
            u.zb,
            entry.large_b,
            fneg(entry.large_k),
            beta1,
            u.r11,
            u.r12,
        ),
        proof2: zpk_sign_model::<GtElem>(za, u.zb, lb, fneg(lk), 0, u.r21, u.r22),
    }
}

/// The signature an honest platform produces: the attestation and one
/// non-revocation proof per revocation entry, in order.
pub open spec fn sig_model(
    gpk: GPKView,
    sk: SKView,
    msg: Seq<u8>,
    rl: Seq<RevView>,
    r: int,
    a: int,
    rx: int,
    rf: int,
    ra: int,
    rb: int,
    urr: Seq<UrRands>,
) -> SigView {
    let pa = pa_model(gpk, sk, msg, r, a, rx, rf, ra, rb);
    SigView {
        pa,
        ur: Seq::new(rl.len(), |i: int| ur_model(sk.f, pa.large_b, pa.large_k, rl[i], urr[i])),
    }
}

impl Platform {
    /// Assembles a member from the public parameters and a credential.
    pub fn new(gpk: GPK, sk: SK) -> (r: Platform)
        ensures
            r.gpk@ == gpk@,
            r.sk@ == sk@,
    {
        Self { gpk, sk }
    }

    /// Signs a message against a revocation list: draws a fresh signature
    /// base and blinding, attests possession of the credential, and proves
    /// non-revocation against every entry of the list, in order.
    pub fn sign(&self, msg: &[u8], rl: &[Revocation], rng: &mut RngSource) -> (sig: Signature)
        ensures
            exists|r: int, a: int, rx: int, rf: int, ra: int, rb: int, urr: Seq<UrRands>|
                urr.len() == rl@.len() && sig@ == sig_model(
                    self.gpk@,
                    self.sk@,
                    msg@,
                    rev_views(rl@),
                    r,
                    a,
                    rx,
                    rf,
                    ra,
                    rb,
                    urr,
                ),
    {
        let r = gen_rand_scalar(rng);
        let large_b = gt_mul(&self.gpk.g3, &r);
        let large_k = gt_mul(&large_b, &self.sk.f);

        let a = gen_rand_scalar(rng);
        let b = fr_add(&self.sk.y, &fr_mul(&a, &self.sk.x));
        let large_t = g1_add(&self.sk.large_a, &g1_mul(&self.gpk.h2, &a));

        let r_x = gen_rand_scalar(rng);
        let r_f = gen_rand_scalar(rng);
        let r_a = gen_rand_scalar(rng);
        let r_b = gen_rand_scalar(rng);

        let large_r1 = gt_mul(&large_b, &r_f);
        let large_r2_1 = gt_mul(&pj_pairing(&large_t, &self.gpk.g2), &fr_neg(&r_x));
        let large_r2_2 = gt_mul(&pj_pairing(&self.gpk.h1, &self.gpk.g2), &r_f);
        let large_r2_3 = gt_mul(&pj_pairing(&self.gpk.h2, &self.gpk.g2), &r_b);
        let large_r2_4 = gt_mul(&pj_pairing(&self.gpk.h2, &self.gpk.w), &r_a);
        let large_r2 = gt_add(&gt_add(&gt_add(&large_r2_1, &large_r2_2), &large_r2_3), &large_r2_4);

        let mut vec: Vec<u8> = Vec::new();
        let part_b = gt_to_bytes(&large_b);
        append_bytes(&mut vec, part_b.as_slice());
        let part_k = gt_to_bytes(&large_k);
        append_bytes(&mut vec, part_k.as_slice());
        let part_t = g1_to_bytes(&large_t);
        append_bytes(&mut vec, part_t.as_slice());
        let part_r1 = gt_to_bytes(&large_r1);
        append_bytes(&mut vec, part_r1.as_slice());
        let part_r2 = gt_to_bytes(&large_r2);
        append_bytes(&mut vec, part_r2.as_slice());
        append_bytes(&mut vec, msg);

        let c = calc_sha256_scalar(vec.as_slice());

        let s_x = fr_add(&r_x, &fr_mul(&c, &self.sk.x));
        let s_f = fr_add(&r_f, &fr_mul(&c, &self.sk.f));
        let s_a = fr_add(&r_a, &fr_mul(&c, &a));
        let s_b = fr_add(&r_b, &fr_mul(&c, &b));

        let mut unrevoked_attestations: Vec<UnRevokedAttestation<GtElem>> = Vec::new();
        let ghost mut urr: Seq<UrRands> = Seq::empty();
        let mut i: usize = 0;
        while i < rl.len()
            invariant
                i <= rl.len(),
                unrevoked_attestations.len() == i,
                urr.len() == i as int,
                forall|j: int|
                    0 <= j < i ==> unrevoked_attestations@[j]@ == ur_model(
                        self.sk@.f,
                        large_b@,
                        large_k@,
                        rl@[j]@,
                        urr[j],
                    ),
            decreases rl.len() - i,
        {
            let entry = &rl[i];
            let zpk_b = gen_rand_scalar(rng);
            let zpk_a = fr_mul(&zpk_b, &self.sk.f);

            let large_c = gt_mul(
                &gt_add(&gt_mul(&entry.large_b, &self.sk.f), &gt_neg(&entry.large_k)),
                &zpk_b,
            );

            let neg_ek = gt_neg(&entry.large_k);
            let proof1 = zpk_sign(&zpk_a, &zpk_b, &entry.large_b, &neg_ek, &large_c, rng);

            let one = gt_identity();
            let neg_k = gt_neg(&large_k);
            let proof2 = zpk_sign(&zpk_a, &zpk_b, &large_b, &neg_k, &one, rng);

            proof {
                let (s11, s12) = choose|r1: int, r2: int|
                    proof1@ == zpk_sign_model::<GtElem>(
                        zpk_a@,
                        zpk_b@,
                        entry.large_b@,
                        neg_ek@,
                        large_c@,
                        r1,
                        r2,
                    );
                let (s21, s22) = choose|r1: int, r2: int|
                    proof2@ == zpk_sign_model::<GtElem>(
                        zpk_a@,
                        zpk_b@,
                        large_b@,
                        neg_k@,
                        one@,
                        r1,
                        r2,
                    );
                urr = urr.push(UrRands { zb: zpk_b@, r11: s11, r12: s12, r21: s21, r22: s22 });
            }
            unrevoked_attestations.push(UnRevokedAttestation { proof1, proof2 });
            i += 1;
        }

        let platform_attestation = PlatformAttestation {
            large_b,
            large_k,
            large_t,
            s_x,
            s_f,
            s_a,
            s_b,
            c,
        };
        let sig = Signature { platform_attestation, unrevoked_attestations };
        proof {
            let m = sig_model(
                self.gpk@,
                self.sk@,
                msg@,
                rev_views(rl@),
                r@,
                a@,
                r_x@,
                r_f@,
                r_a@,
                r_b@,
                urr,
            );
            assert(vec@ == gt_enc(large_b@) + gt_enc(large_k@) + g1_enc(large_t@) + gt_enc(
                large_r1@,
            ) + gt_enc(large_r2@) + msg@);
            assert(sig@.pa == m.pa);
            assert(sig@.ur =~= m.ur);
            assert(sig@ =~= m);
        }
        sig
    }
}

} // verus!
