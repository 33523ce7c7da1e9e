//! The compound proof engine: a non-interactive two-secret Schnorr-style
//! proof of knowledge over any group with the `GroupVal` capability set.
//!
//! A proof attests knowledge of scalars `(x1, x2)` with
//! `A1^x1 * A2^x2 = Beta`; the challenge is the Fiat-Shamir hash of the
//! commitment pair and the payload `Beta`.  On the discrete-log model the
//! statement and the verifier's acceptance test are linear relations modulo
//! the group order, stated by `zpk_sign_model` and `zpk_accepts`.

use vstd::arithmetic::div_mod::lemma_add_mod_noop;
use vstd::arithmetic::div_mod::lemma_add_mod_noop_right;
use vstd::arithmetic::div_mod::lemma_mul_mod_noop_left;
use vstd::arithmetic::div_mod::lemma_mul_mod_noop_right;
use vstd::prelude::*;

use crate::field::fadd;
use crate::field::fmul;
use crate::field::fr_add;
use crate::field::fr_mul;
use crate::field::fr_order;
use crate::field::Fr;
use crate::groups::GroupVal;
use crate::utils::calc_sha256_scalar;
use crate::utils::gen_rand_scalar;
use crate::utils::hash_scalar;
use crate::utils::RngSource;

verus! {

/// The failure of the compound proof engine: the linear relation does not
/// hold at the recomputed challenge.
#[derive(Clone, Copy, Debug, PartialEq, Eq)]
pub enum ProofError {
    ChallengeMismatch,
}

/// A non-interactive compound proof of knowledge of two scalars.
#[derive(Clone, Copy)]
pub struct ZPKSignature<C: GroupVal + Copy> {
    pub y1: Fr,
    pub y2: Fr,
    pub large_a1: C,
    pub large_a2: C,
    pub large_y1: C,
    pub large_y2: C,
    pub large_beta: C,
}

/// The discrete-log model of a compound proof.
pub struct ZpkView {
    pub y1: int,
    pub y2: int,
    pub a1: int,
    pub a2: int,
    pub ly1: int,
    pub ly2: int,
    pub beta: int,
}

impl<C: GroupVal + Copy> View for ZPKSignature<C> {
    type V = ZpkView;

    open spec fn view(&self) -> ZpkView {
        ZpkView {
            y1: self.y1@,
            y2: self.y2@,
            a1: self.large_a1.dlog(),
            a2: self.large_a2.dlog(),
            ly1: self.large_y1.dlog(),
            ly2: self.large_y2.dlog(),
            beta: self.large_beta.dlog(),
        }
    }
}

/// The Fiat-Shamir challenge of a compound proof: the hash of the canonical
/// encodings of the commitment pair and the payload.
pub open spec fn zpk_challenge<C: GroupVal>(ly1: int, ly2: int, beta: int) -> int {
    hash_scalar(C::enc(ly1) + C::enc(ly2) + C::enc(beta))
}

/// The proof that an honest prover with witness `(x1, x2)` and randomness
/// `(r1, r2)` produces for the statement `(a1, a2, beta)`.
pub open spec fn zpk_sign_model<C: GroupVal>(
    x1: int,
    x2: int,
    a1: int,
    a2: int,
    beta: int,
    r1: int,
    r2: int,
) -> ZpkView {
    let ly1 = fmul(a1, r1);
    let ly2 = fmul(a2, r2);
    let b = zpk_challenge::<C>(ly1, ly2, beta);
    ZpkView {
        y1: fadd(r1, fmul(b, x1)),
        y2: fadd(r2, fmul(b, x2)),
        a1,
        a2,
        ly1,
        ly2,
        beta,
    }
}

/// When the verifier accepts a compound proof: the linear relation
/// `A1^y1 * A2^y2 = Y1 * Y2 * Beta^b` holds at the recomputed challenge.
pub open spec fn zpk_accepts<C: GroupVal>(s: ZpkView) -> bool {
    let b = zpk_challenge::<C>(s.ly1, s.ly2, s.beta);
    fadd(fmul(s.a1, s.y1), fmul(s.a2, s.y2)) == fadd(fadd(s.ly1, s.ly2), fmul(s.beta, b))
}

/// The transcript that the challenge is computed over.
fn zpk_challenge_bytes<C: GroupVal + Copy>(ly1: &C, ly2: &C, beta: &C) -> (r: Vec<u8>)
    ensures
        r@ == C::enc(ly1.dlog()) + C::enc(ly2.dlog()) + C::enc(beta.dlog()),
{
    let mut v = ly1.encode();
    let mut v2 = ly2.encode();
    let mut v3 = beta.encode();
    v.append(&mut v2);
    v.append(&mut v3);
    v
}

/// Produces a compound proof of knowledge of `(x1, x2)` for the statement
/// `(large_a1, large_a2, large_beta)`, using fresh randomness.
pub fn zpk_sign<C: GroupVal + Copy>(
    x1: &Fr,
    x2: &Fr,
    large_a1: &C,
    large_a2: &C,
    large_beta: &C,
    rng: &mut RngSource,
) -> (sig: ZPKSignature<C>)
    ensures
        exists|r1: int, r2: int|
            sig@ == zpk_sign_model::<C>(
                x1@,
                x2@,
                large_a1.dlog(),
                large_a2.dlog(),
                large_beta.dlog(),
                r1,
                r2,
            ),
{
    let r1 = gen_rand_scalar(rng);
    let r2 = gen_rand_scalar(rng);

    let large_y1 = large_a1.mul_scalar(&r1);
    let large_y2 = large_a2.mul_scalar(&r2);

    let tbytes = zpk_challenge_bytes(&large_y1, &large_y2, large_beta);
    let b = calc_sha256_scalar(tbytes.as_slice());

    let y1 = fr_add(&r1, &fr_mul(&b, x1));
    let y2 = fr_add(&r2, &fr_mul(&b, x2));

    let sig = ZPKSignature {
        y1,
        y2,
        large_a1: *large_a1,
        large_a2: *large_a2,
        large_y1,
        large_y2,
        large_beta: *large_beta,
    };
    proof {
        assert(sig@ == zpk_sign_model::<C>(
            x1@,
            x2@,
            large_a1.dlog(),
            large_a2.dlog(),
            large_beta.dlog(),
            r1@,
            r2@,
        ));
    }
    sig
}

/// Checks a compound proof: recomputes the challenge and tests the linear
/// relation; accepts exactly when `zpk_accepts` holds of the proof's model.
pub fn zpk_verify<C: GroupVal + Copy>(signature: &ZPKSignature<C>) -> (r: Result<(), ProofError>)
    ensures
        r is Ok <==> zpk_accepts::<C>(signature@),
{
    let tbytes = zpk_challenge_bytes(
        &signature.large_y1,
        &signature.large_y2,
        &signature.large_beta,
    );
    let b = calc_sha256_scalar(tbytes.as_slice());

    let left = signature.large_a1.mul_scalar(&signature.y1).add_el(
        &signature.large_a2.mul_scalar(&signature.y2),
    );
    let right = signature.large_y1.add_el(&signature.large_y2).add_el(
        &signature.large_beta.mul_scalar(&b),
    );

    if left.eq_el(&right) {
        Ok(())
    } else {
        Err(ProofError::ChallengeMismatch)
    }
}

/// Completeness of the proof engine: a proof produced honestly from a
/// witness `(x1, x2)` of the statement — a payload whose logarithm is
/// `a1 * x1 + a2 * x2` — is accepted, whatever the randomness and the
/// challenge come out as.
pub proof fn lemma_zpk_completeness<C: GroupVal>(
    x1: int,
    x2: int,
    a1: int,
    a2: int,
    beta: int,
    r1: int,
    r2: int,
)
    requires
        beta == fadd(fmul(a1, x1), fmul(a2, x2)),
    ensures
        zpk_accepts::<C>(zpk_sign_model::<C>(x1, x2, a1, a2, beta, r1, r2)),
{
    let p = fr_order();
    let s = zpk_sign_model::<C>(x1, x2, a1, a2, beta, r1, r2);
    let b = zpk_challenge::<C>(s.ly1, s.ly2, s.beta);

    assert(fmul(a1, s.y1) == (a1 * (r1 + b * x1)) % p) by {
        lemma_add_mod_noop_right(r1, b * x1, p);
        lemma_mul_mod_noop_right(a1, r1 + b * x1, p);
    };
    assert(fmul(a2, s.y2) == (a2 * (r2 + b * x2)) % p) by {
        lemma_add_mod_noop_right(r2, b * x2, p);
        lemma_mul_mod_noop_right(a2, r2 + b * x2, p);
    };
    assert(fadd(fmul(s.a1, s.y1), fmul(s.a2, s.y2)) == (a1 * (r1 + b * x1) + a2 * (r2 + b
        * x2)) % p) by {
        lemma_add_mod_noop(a1 * (r1 + b * x1), a2 * (r2 + b * x2), p);
    };

    assert(fmul(s.beta, b) == ((a1 * x1 + a2 * x2) * b) % p) by {
        lemma_add_mod_noop(a1 * x1, a2 * x2, p);
        lemma_mul_mod_noop_left(a1 * x1 + a2 * x2, b, p);
    };
    assert(fadd(s.ly1, s.ly2) == (a1 * r1 + a2 * r2) % p) by {
        lemma_add_mod_noop(a1 * r1, a2 * r2, p);
    };
    assert(fadd(fadd(s.ly1, s.ly2), fmul(s.beta, b)) == (a1 * r1 + a2 * r2 + (a1 * x1 + a2
        * x2) * b) % p) by {
        lemma_add_mod_noop(a1 * r1 + a2 * r2, (a1 * x1 + a2 * x2) * b, p);
    };

    assert(a1 * (r1 + b * x1) + a2 * (r2 + b * x2) == a1 * r1 + a2 * r2 + (a1 * x1 + a2 * x2)
        * b) by (nonlinear_arith);
}

} // verus!
