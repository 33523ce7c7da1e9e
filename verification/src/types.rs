//! The scheme's data model: public parameters, issuer secret, signatures and
//! revocation entries, each with its discrete-log view.

use vstd::prelude::*;

use crate::field::fadd;
use crate::field::fmul;
use crate::field::Fr;
use crate::groups::g1_enc;
use crate::groups::gt_enc;
use crate::groups::G1Elem;
use crate::groups::G2Elem;
use crate::groups::GroupVal;
use crate::groups::GtElem;
use crate::utils::hash_scalar;
use crate::zpk::ZPKSignature;
use crate::zpk::ZpkView;

verus! {

/// The public parameters of the scheme, shared by every role.
#[derive(Clone, Copy)]
pub struct GPK {
    pub g1: G1Elem,
    pub g2: G2Elem,
    pub g3: GtElem,
    pub h1: G1Elem,
    pub h2: G1Elem,
    pub w: G2Elem,
}

/// The discrete-log model of the public parameters.
pub struct GPKView {
    pub g1: int,
    pub g2: int,
    pub g3: int,
    pub h1: int,
    pub h2: int,
    pub w: int,
}

impl View for GPK {
    type V = GPKView;

    open spec fn view(&self) -> GPKView {
        GPKView {
            g1: self.g1@,
            g2: self.g2@,
            g3: self.g3@,
            h1: self.h1@,
            h2: self.h2@,
            w: self.w@,
        }
    }
}

/// The issuer's secret: the exponent that links `w` to `g2`.
#[derive(Clone, Copy)]
pub struct ISK {
    pub gamma: Fr,
}

/// The credential relation: `e(A, w * g2^x) = e(g1 * h1^f * h2^y, g2)`,
/// on the discrete logarithms of both pairings.
pub open spec fn credential_valid(gpk: GPKView, a: int, x: int, y: int, f: int) -> bool {
    fmul(a, fadd(gpk.w, fmul(gpk.g2, x))) == fmul(
        fadd(fadd(gpk.g1, fmul(gpk.h1, f)), fmul(gpk.h2, y)),
        gpk.g2,
    )
}

/// The Fiat-Shamir challenge of a platform attestation: the hash of the
/// canonical encodings of `B`, `K`, `T` and the two commitments, followed by
/// the message.
pub open spec fn attestation_challenge(
    lb: int,
    lk: int,
    lt: int,
    lr1: int,
    lr2: int,
    msg: Seq<u8>,
) -> int {
    hash_scalar(gt_enc(lb) + gt_enc(lk) + g1_enc(lt) + gt_enc(lr1) + gt_enc(lr2) + msg)
}

/// The randomized proof of credential possession inside a signature.
pub struct PlatformAttestation {
    pub large_b: GtElem,
    pub large_k: GtElem,
    pub large_t: G1Elem,
    pub s_x: Fr,
    pub s_f: Fr,
    pub s_a: Fr,
    pub s_b: Fr,
    pub c: Fr,
}

/// The discrete-log model of a platform attestation.
pub struct PaView {
    pub large_b: int,
    pub large_k: int,
    pub large_t: int,
    pub s_x: int,
    pub s_f: int,
    pub s_a: int,
    pub s_b: int,
    pub c: int,
}

impl View for PlatformAttestation {
    type V = PaView;

    open spec fn view(&self) -> PaView {
        PaView {
            large_b: self.large_b@,
            large_k: self.large_k@,
            large_t: self.large_t@,
            s_x: self.s_x@,
            s_f: self.s_f@,
            s_a: self.s_a@,
            s_b: self.s_b@,
            c: self.c@,
        }
    }
}

/// The non-revocation proof for one revocation-list entry.
pub struct UnRevokedAttestation<C: GroupVal + Copy> {
    pub proof1: ZPKSignature<C>,
    pub proof2: ZPKSignature<C>,
}

/// The model of a non-revocation proof.
pub struct UrView {
    pub proof1: ZpkView,
    pub proof2: ZpkView,
}

impl<C: GroupVal + Copy> View for UnRevokedAttestation<C> {
    type V = UrView;

    open spec fn view(&self) -> UrView {
        UrView { proof1: self.proof1@, proof2: self.proof2@ }
    }
}

/// A group signature: the attestation of credential possession and one
/// non-revocation proof per revocation-list entry, in the list's order.
pub struct Signature {
    pub platform_attestation: PlatformAttestation,
    pub unrevoked_attestations: Vec<UnRevokedAttestation<GtElem>>,
}

/// The model of a signature.
#[verifier::ext_equal]
pub struct SigView {
    pub pa: PaView,
    pub ur: Seq<UrView>,
}

impl View for Signature {
    type V = SigView;

    open spec fn view(&self) -> SigView {
        SigView {
            pa: self.platform_attestation@,
            ur: Seq::new(
                self.unrevoked_attestations@.len(),
                |i: int| self.unrevoked_attestations@[i]@,
            ),
        }
    }
}

/// A revocation entry: the pseudonym pair `(B, K)` taken from a valid
/// signature of the member being revoked.
pub struct Revocation {
    pub large_b: GtElem,
    pub large_k: GtElem,
}

/// The model of a revocation entry.
pub struct RevView {
    pub large_b: int,
    pub large_k: int,
}

impl View for Revocation {
    type V = RevView;

    open spec fn view(&self) -> RevView {
        RevView { large_b: self.large_b@, large_k: self.large_k@ }
    }
}

/// The models of a sequence of revocation entries, in order.
pub open spec fn rev_views(rl: Seq<Revocation>) -> Seq<RevView> {
    Seq::new(rl.len(), |i: int| rl[i]@)
}

} // verus!
