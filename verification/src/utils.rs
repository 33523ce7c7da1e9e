//! Randomness, hashing and the pairing: the scheme's remaining outside
//! capabilities, together with a small verified transcript helper.

use ff::Field;
use group::Curve;
use sha2::Digest;
use vstd::prelude::*;
use vstd::slice::slice_to_vec;

use crate::field::fmul;
use crate::field::fr_order;
use crate::field::Fr;
use crate::groups::G1Elem;
use crate::groups::G2Elem;
use crate::groups::GtElem;

verus! {

#[verifier::external_type_specification]
#[verifier::external_body]
pub struct ExThreadRng(rand::rngs::ThreadRng);

/// A handle on the process's cryptographically secure random number source.
pub struct RngSource {
    pub(crate) inner: rand::rngs::ThreadRng,
}

impl RngSource {
    /// Relies on `rand::thread_rng`.
    #[verifier::external_body]
    pub fn new() -> RngSource {
        RngSource { inner: rand::thread_rng() }
    }
}

/// Relies on `ff::Field::random` for `bls12_381::Scalar`: a scalar drawn
/// from the secure random source.  Nothing is promised of the value drawn.
#[verifier::external_body]
pub fn gen_rand_scalar(rng: &mut RngSource) -> Fr {
    Fr { inner: bls12_381::Scalar::random(&mut rng.inner), rep: Ghost(arbitrary()) }
}

/// The value of the Fiat-Shamir hash of a byte string, before reduction.
pub uninterp spec fn hash_fr(bytes: Seq<u8>) -> int;

/// The Fiat-Shamir hash of a byte string, reduced to a scalar.
pub open spec fn hash_scalar(bytes: Seq<u8>) -> int {
    hash_fr(bytes) % fr_order()
}

/// Relies on `sha2::Sha256` and `bls12_381::Scalar::from_bytes_wide`: the
/// digest of the input, reduced to a scalar — a function of the bytes alone.
#[verifier::external_body]
pub fn calc_sha256_scalar(vec: &[u8]) -> (r: Fr)
    ensures
        r@ == hash_fr(vec@) % fr_order(),
{
    let mut hasher = sha2::Sha256::new();
    hasher.update(vec);
    let digest = hasher.finalize();
    let mut wide = [0u8; 64];
    wide[..32].copy_from_slice(&digest);
    Fr { inner: bls12_381::Scalar::from_bytes_wide(&wide), rep: Ghost(arbitrary()) }
}

/// Relies on `bls12_381::pairing` (with `group::Curve::to_affine`): the
/// pairing is bilinear and takes the pair of curve generators to the target
/// group's generator, so it multiplies discrete logarithms.
#[verifier::external_body]
pub fn pj_pairing(g1: &G1Elem, g2: &G2Elem) -> (r: GtElem)
    ensures
        r@ == fmul(g1@, g2@),
{
    GtElem {
        inner: bls12_381::pairing(&g1.inner.to_affine(), &g2.inner.to_affine()),
        rep: Ghost(arbitrary()),
    }
}

/// Appends a byte string to a transcript.
pub fn append_bytes(out: &mut Vec<u8>, part: &[u8])
    ensures
        final(out)@ == old(out)@ + part@,
{
    let mut copy = slice_to_vec(part);
    out.append(&mut copy);
}

} // verus!
