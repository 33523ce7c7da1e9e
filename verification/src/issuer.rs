//! The issuer: creates the scheme's public parameters and holds the secret
//! exponent `gamma` that links `w` to `g2`.

use vstd::prelude::*;

use crate::field::fmul;
use crate::field::Fr;
use crate::groups::g1_generator;
use crate::groups::g1_mul;
use crate::groups::g2_generator;
use crate::groups::g2_mul;
use crate::groups::gt_generator;
use crate::groups::G1Elem;
use crate::groups::G2Elem;
use crate::groups::GtElem;
use crate::types::GPK;
use crate::types::GPKView;
use crate::types::ISK;
use crate::utils::gen_rand_scalar;
use crate::utils::RngSource;

verus! {

/// The issuer's key pair: the public parameters and the secret exponent.
#[derive(Clone, Copy)]
pub struct Issuer {
    pub gpk: GPK,
    pub isk: ISK,
}

impl Issuer {
    /// Creates a fresh issuer: the three fixed generators, two random
    /// generators `h1`, `h2` of the first group, and a random secret `gamma`
    /// with `w = g2^gamma`.  A zero draw of `gamma` is never rejected here —
    /// its chance is negligible, and the one operation that needs an inverse
    /// involving `gamma` guards against it during the join.
    pub fn random(rng: &mut RngSource) -> (r: Issuer)
        ensures
            r.gpk@.g1 == 1,
            r.gpk@.g2 == 1,
            r.gpk@.g3 == 1,
            r.gpk@.w == fmul(r.gpk@.g2, r.isk.gamma@),
    {
        let g1 = g1_generator();
        let g2 = g2_generator();
        let g3 = gt_generator();

        let h1 = g1_mul(&g1_generator(), &gen_rand_scalar(rng));
        let h2 = g1_mul(&g1_generator(), &gen_rand_scalar(rng));

        let gamma = gen_rand_scalar(rng);
        let w = g2_mul(&g2, &gamma);

        Self::new(g1, g2, g3, h1, h2, gamma, w)
    }

    /// Assembles an issuer from its parts.
    pub fn new(
        g1: G1Elem,
        g2: G2Elem,
        g3: GtElem,
        h1: G1Elem,
        h2: G1Elem,
        gamma: Fr,
        w: G2Elem,
    ) -> (r: Issuer)
        ensures
            r.gpk@ == (GPKView { g1: g1@, g2: g2@, g3: g3@, h1: h1@, h2: h2@, w: w@ }),
            r.isk.gamma@ == gamma@,
    {
        let gpk = GPK { g1, g2, g3, h1, h2, w };
        let isk = ISK { gamma };

        Self { gpk, isk }
    }
}

} // verus!
