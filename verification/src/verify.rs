//! The verifier: checks a signature against a message and a revocation
//! list, holding only the public parameters.

use vstd::prelude::*;

use crate::field::fadd;
use crate::field::fmul;
use crate::field::fneg;
use crate::field::fr_eq;
use crate::field::fr_neg;
use crate::groups::g1_to_bytes;
use crate::groups::gt_add;
use crate::groups::gt_eq;
use crate::groups::gt_identity;
use crate::groups::gt_mul;
use crate::groups::gt_neg;
use crate::groups::gt_to_bytes;
use crate::groups::GtElem;
use crate::types::attestation_challenge;
use crate::types::rev_views;
use crate::types::PaView;
use crate::types::RevView;
use crate::types::Revocation;
use crate::types::PlatformAttestation;
use crate::types::SigView;
use crate::types::Signature;
use crate::types::UnRevokedAttestation;
use crate::types::UrView;
use crate::types::GPK;
use crate::types::GPKView;
use crate::utils::append_bytes;
use crate::utils::calc_sha256_scalar;
use crate::utils::pj_pairing;
use crate::zpk::zpk_accepts;
use crate::zpk::zpk_verify;
use crate::zpk::ZPKSignature;
use crate::zpk::ZpkView;

verus! {

/// The terminal reject outcomes of verification, distinguished only for
/// diagnostics: a challenge that does not recompute, a non-revocation proof
/// that does not check out, and a signer whose secret matches a revocation
/// entry.
#[derive(Clone, Copy, Debug, PartialEq, Eq)]
pub enum VerifyError {
    ChallengeMismatch,
    NonRevocationProof1Invalid,
    NonRevocationProof2Invalid,
    RevokedSigner,
}

/// The challenge the verifier recomputes from an attestation: the first
/// commitment from `B^s_f * K^{-c}`, the second from the four pairing terms
/// at the responses plus the correction term
/// `(e(g1, g2) * e(T, w)^{-1})^c`.
pub open spec fn verify_challenge(gpk: GPKView, pa: PaView, msg: Seq<u8>) -> int {
    let lr1 = fadd(fmul(pa.large_b, pa.s_f), fmul(pa.large_k, fneg(pa.c)));
    let r2_1 = fmul(fmul(pa.large_t, gpk.g2), fneg(pa.s_x));
    let r2_2 = fmul(fmul(gpk.h1, gpk.g2), pa.s_f);
    let r2_3 = fmul(fmul(gpk.h2, gpk.g2), pa.s_b);
    let r2_4 = fmul(fmul(gpk.h2, gpk.w), pa.s_a);
    let r2_5 = fmul(fadd(fmul(gpk.g1, gpk.g2), fneg(fmul(pa.large_t, gpk.w))), pa.c);
    let lr2 = fadd(fadd(fadd(fadd(r2_1, r2_2), r2_3), r2_4), r2_5);
    attestation_challenge(pa.large_b, pa.large_k, pa.large_t, lr1, lr2, msg)
}

/// The first proof of a non-revocation pair, with its bases replaced by the
/// revocation entry's `(B_i, -K_i)`.
pub open spec fn sub1_view(entry: RevView, p: ZpkView) -> ZpkView {
    ZpkView {
        y1: p.y1,
        y2: p.y2,
        a1: entry.large_b,
        a2: fneg(entry.large_k),
        ly1: p.ly1,
        ly2: p.ly2,
        beta: p.beta,
    }
}

/// The second proof of a non-revocation pair, with its bases replaced by the
/// signature's own `(B, -K)` and its payload by the identity.
pub open spec fn sub2_view(pa: PaView, p: ZpkView) -> ZpkView {
    ZpkView {
        y1: p.y1,
        y2: p.y2,
        a1: pa.large_b,
        a2: fneg(pa.large_k),
        ly1: p.ly1,
        ly2: p.ly2,
        beta: 0,
    }
}

/// The verifier's decision on one revocation entry: both compound proofs
/// must check out over the substituted bases, and the first proof's payload
/// must differ from the identity — a payload forced to the identity is
/// exactly what a revoked signer would produce.
#[verifier::opaque]
pub open spec fn ur_entry_check(pa: PaView, entry: RevView, ur: UrView) -> Result<
    (),
    VerifyError,
> {
    if !zpk_accepts::<GtElem>(sub1_view(entry, ur.proof1)) {
        Err(VerifyError::NonRevocationProof1Invalid)
    } else if !zpk_accepts::<GtElem>(sub2_view(pa, ur.proof2)) {
        Err(VerifyError::NonRevocationProof2Invalid)
    } else if ur.proof1.beta == 0 {
        Err(VerifyError::RevokedSigner)
    } else {
        Ok(())
    }
}

/// The verifier's decision on the revocation entries from index `i` on: the
/// first failing entry decides.
pub open spec fn ur_list_check(
    pa: PaView,
    rl: Seq<RevView>,
    urs: Seq<UrView>,
    i: int,
) -> Result<(), VerifyError>
    decreases rl.len() - i,
{
    if i >= rl.len() {
        Ok(())
    } else {
        match ur_entry_check(pa, rl[i], urs[i]) {
            Ok(u) => ur_list_check(pa, rl, urs, i + 1),
            Err(e) => Err(e),
        }
    }
}

/// The verifier's whole decision: a signature must carry exactly one
/// non-revocation proof per entry, its challenge must recompute, and every
/// entry must pass.  A wrong number of non-revocation proofs is rejected as
/// an invalid first non-revocation proof.
pub open spec fn verify_model(
    gpk: GPKView,
    sig: SigView,
    msg: Seq<u8>,
    rl: Seq<RevView>,
) -> Result<(), VerifyError> {
    if sig.ur.len() != rl.len() {
        Err(VerifyError::NonRevocationProof1Invalid)
    } else if sig.pa.c != verify_challenge(gpk, sig.pa, msg) {
        Err(VerifyError::ChallengeMismatch)
    } else {
        ur_list_check(sig.pa, rl, sig.ur, 0)
    }
}

/// A prefix of entries that all pass does not change the decision on the
/// rest.
pub proof fn lemma_ur_list_skip(pa: PaView, rl: Seq<RevView>, urs: Seq<UrView>, i: int)
    requires
        0 <= i <= rl.len(),
        forall|j: int| 0 <= j < i ==> ur_entry_check(pa, rl[j], urs[j]) is Ok,
    ensures
        ur_list_check(pa, rl, urs, 0) == ur_list_check(pa, rl, urs, i),
    decreases i,
{
    if i > 0 {
        lemma_ur_list_skip(pa, rl, urs, i - 1);
    }
}

/// Checks one non-revocation proof pair against its revocation entry, as
/// `ur_entry_check` decides: the first proof over the entry's bases, the
/// second over the signature's own pseudonym pair with the identity as
/// payload, and the first proof's payload away from the identity.
fn check_ur_entry(
    pa: &PlatformAttestation,
    entry: &Revocation,
    ua: &UnRevokedAttestation<GtElem>,
) -> (r: Result<(), VerifyError>)
    ensures
        r == ur_entry_check(pa@, entry@, ua@),
{
    proof {
        reveal(ur_entry_check);
    }
    let p1 = ZPKSignature {
        y1: ua.proof1.y1,
        y2: ua.proof1.y2,
        large_a1: entry.large_b,
        large_a2: gt_neg(&entry.large_k),
        large_y1: ua.proof1.large_y1,
        large_y2: ua.proof1.large_y2,
        large_beta: ua.proof1.large_beta,
    };
    proof {
        assert(p1@ == sub1_view(entry@, ua@.proof1));
    }
    if zpk_verify(&p1).is_err() {
        return Err(VerifyError::NonRevocationProof1Invalid);
    }

    let p2 = ZPKSignature {
        y1: ua.proof2.y1,
        y2: ua.proof2.y2,
        large_a1: pa.large_b,
        large_a2: gt_neg(&pa.large_k),
        large_y1: ua.proof2.large_y1,
        large_y2: ua.proof2.large_y2,
        large_beta: gt_identity(),
    };
    proof {
        assert(p2@ == sub2_view(pa@, ua@.proof2));
    }
    if zpk_verify(&p2).is_err() {
        return Err(VerifyError::NonRevocationProof2Invalid);
    }

    let one = gt_identity();
    if gt_eq(&ua.proof1.large_beta, &one) {
        return Err(VerifyError::RevokedSigner);
    }

    Ok(())
}

/// The verifier: holds only the public parameters.
pub struct Verifier {
    pub gpk: GPK,
}

impl Verifier {
    /// A verifier for the given public parameters.
    pub fn new(gpk: GPK) -> (r: Verifier)
        ensures
            r.gpk@ == gpk@,
    {
        Self { gpk }
    }

    /// Checks a signature against a message and a revocation list; the
    /// decision is exactly `verify_model`.
    #[verifier::rlimit(50)]
    #[verifier::loop_isolation(true)]
    pub fn verify(&self, signature: &Signature, msg: &[u8], rl: &[Revocation]) -> (r: Result<
        (),
        VerifyError,
    >)
        ensures
            r == verify_model(self.gpk@, signature@, msg@, rev_views(rl@)),
    {
        let pa = &signature.platform_attestation;

        if signature.unrevoked_attestations.len() != rl.len() {
            return Err(VerifyError::NonRevocationProof1Invalid);
        }

        let large_r1 = gt_add(
            &gt_mul(&pa.large_b, &pa.s_f),
            &gt_mul(&pa.large_k, &fr_neg(&pa.c)),
        );

        let large_r2_1 = gt_mul(&pj_pairing(&pa.large_t, &self.gpk.g2), &fr_neg(&pa.s_x));
        let large_r2_2 = gt_mul(&pj_pairing(&self.gpk.h1, &self.gpk.g2), &pa.s_f);
        let large_r2_3 = gt_mul(&pj_pairing(&self.gpk.h2, &self.gpk.g2), &pa.s_b);
        let large_r2_4 = gt_mul(&pj_pairing(&self.gpk.h2, &self.gpk.w), &pa.s_a);
        let large_r2_5 = gt_mul(
            &gt_add(
                &pj_pairing(&self.gpk.g1, &self.gpk.g2),
                &gt_neg(&pj_pairing(&pa.large_t, &self.gpk.w)),
            ),
            &pa.c,
        );
        let large_r2 = gt_add(
            &gt_add(&gt_add(&gt_add(&large_r2_1, &large_r2_2), &large_r2_3), &large_r2_4),
            &large_r2_5,
        );

        let mut vec: Vec<u8> = Vec::new();
        let part_b = gt_to_bytes(&pa.large_b);
        append_bytes(&mut vec, part_b.as_slice());
        let part_k = gt_to_bytes(&pa.large_k);
        append_bytes(&mut vec, part_k.as_slice());
        let part_t = g1_to_bytes(&pa.large_t);
        append_bytes(&mut vec, part_t.as_slice());
        let part_r1 = gt_to_bytes(&large_r1);
        append_bytes(&mut vec, part_r1.as_slice());
        let part_r2 = gt_to_bytes(&large_r2);
        append_bytes(&mut vec, part_r2.as_slice());
        append_bytes(&mut vec, msg);

        let c_dash = calc_sha256_scalar(vec.as_slice());

        if !fr_eq(&pa.c, &c_dash) {
            return Err(VerifyError::ChallengeMismatch);
        }

        let ghost rlv = rev_views(rl@);
        let ghost pav = signature@.pa;
        let ghost urs = signature@.ur;

        let mut i: usize = 0;
        while i < rl.len()
            invariant
                i <= rl.len(),
                rl@.len() == signature.unrevoked_attestations@.len(),
                rlv == rev_views(rl@),
                pav == signature@.pa,
                pa@ == pav,
                urs == signature@.ur,
                urs.len() == rlv.len(),
                rlv.len() == rl@.len(),
                pav.c == verify_challenge(self.gpk@, pav, msg@),
                forall|j: int| 0 <= j < i ==> ur_entry_check(pav, rlv[j], urs[j]) is Ok,
            decreases rl.len() - i,
        {
            let ua = &signature.unrevoked_attestations[i];
            let entry = &rl[i];
            proof {
                assert(rlv[i as int] == rl@[i as int]@);
                assert(urs[i as int] == ua@);
            }

            if let Err(e) = check_ur_entry(pa, entry, ua) {
                proof {
                    assert(ur_entry_check(pav, rlv[i as int], urs[i as int]) == Err::<
                        (),
                        VerifyError,
                    >(e));
                    lemma_ur_list_skip(pav, rlv, urs, i as int);
                }
                return Err(e);
            }

            proof {
                assert(ur_entry_check(pav, rlv[i as int], urs[i as int]) is Ok);
            }
            i += 1;
        }
        proof {
            lemma_ur_list_skip(pav, rlv, urs, rlv.len() as int);
        }
        Ok(())
    }
}

} // verus!
