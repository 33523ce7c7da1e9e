//! The two-party join protocol.
//!
//! The platform commits to a fresh secret `f` and blinding `y'` in
//! `T = h1^f * h2^y'` and proves knowledge of the opening; the issuer checks
//! the proof and answers with a blinded credential base
//! `A = (g1 * T * h2^y'')^(1/(x + gamma))`; the platform completes `y` and
//! accepts only if the credential relation holds — which guards it against a
//! faulty or malicious issuer.

use vstd::arithmetic::div_mod::lemma_add_mod_noop_right;
use vstd::prelude::*;

use crate::field::fadd;
use crate::field::fmul;
use crate::field::fr_add;
use crate::field::fr_invert;
use crate::field::fr_one;
use crate::field::fr_order;
use crate::field::Fr;
use crate::groups::g1_add;
use crate::groups::g1_eq;
use crate::groups::g1_mul;
use crate::groups::g2_add;
use crate::groups::g2_mul;
use crate::groups::gt_eq;
use crate::groups::G1Elem;
use crate::issuer::Issuer;
use crate::platform::Platform;
use crate::platform::SK;
use crate::platform::SKView;
use crate::types::credential_valid;
use crate::types::GPK;
use crate::types::GPKView;
use crate::utils::gen_rand_scalar;
use crate::utils::pj_pairing;
use crate::utils::RngSource;
use crate::zpk::zpk_sign;
use crate::zpk::zpk_sign_model;
use crate::zpk::zpk_verify;
use crate::zpk::zpk_accepts;
use crate::zpk::ZPKSignature;
use crate::zpk::ZpkView;

verus! {

/// The failures of the join protocol: the issuer rejects a request whose
/// proof of knowledge does not check out; the platform rejects a response
/// that does not satisfy the credential relation.
#[derive(Clone, Copy, Debug, PartialEq, Eq)]
pub enum JoinError {
    InvalidJoinProof,
    CredentialVerificationFailed,
}

/// The platform's half of the exchange: the commitment `T` and the proof of
/// knowledge of its opening, with `T` as the proof's payload.
pub struct JoinRequest {
    pub large_t: G1Elem,
    pub signature: ZPKSignature<G1Elem>,
}

/// The issuer's half of the exchange.
pub struct JoinResponse {
    pub large_a: G1Elem,
    pub x: Fr,
    pub y_dash_dash: Fr,
}

/// The model of a join response.
pub struct JrView {
    pub large_a: int,
    pub x: int,
    pub y_dash_dash: int,
}

impl View for JoinResponse {
    type V = JrView;

    open spec fn view(&self) -> JrView {
        JrView { large_a: self.large_a@, x: self.x@, y_dash_dash: self.y_dash_dash@ }
    }
}

/// When the issuer accepts a join request: the proof's bases are `h1`, `h2`,
/// its payload is the request's commitment, and the proof checks out.
pub open spec fn join_request_ok(gpk: GPKView, t: int, prf: ZpkView) -> bool {
    prf.a1 == gpk.h1 && prf.a2 == gpk.h2 && prf.beta == t && zpk_accepts::<G1Elem>(prf)
}

/// What the issuer promises of a response to a request with commitment `t`:
/// the base `A` is `(g1 * T * h2^y'')` raised to the inverse of `x + gamma`.
pub open spec fn join_response_wf(gpk: GPKView, gamma: int, t: int, resp: JrView) -> bool {
    exists|i: int|
        fmul(fadd(resp.x, gamma), i) == 1 && resp.large_a == fmul(
            fadd(fadd(gpk.g1, t), fmul(gpk.h2, resp.y_dash_dash)),
            i,
        )
}

/// The platform's join state: idle, or waiting for the issuer's response
/// while remembering the committed secret and blinding.
enum JoinState {
    Idle,
    AwaitingResponse { f: Fr, y_dash: Fr },
}

/// The platform's side of the join protocol: a small state machine that is
/// mutated once when the request is generated and read once when the
/// response is consumed.
pub struct PlatformJoinProcess {
    gpk: GPK,
    state: JoinState,
}

impl PlatformJoinProcess {
    /// The public parameters this join runs against.
    pub closed spec fn gpk_view(&self) -> GPKView {
        self.gpk@
    }

    /// Whether a request was generated and its response is still awaited.
    pub closed spec fn is_awaiting(&self) -> bool {
        self.state is AwaitingResponse
    }

    /// The secret `f` committed in the pending request.
    pub closed spec fn stored_f(&self) -> int {
        match self.state {
            JoinState::AwaitingResponse { f, .. } => f@,
            JoinState::Idle => 0,
        }
    }

    /// The blinding `y'` committed in the pending request.
    pub closed spec fn stored_y(&self) -> int {
        match self.state {
            JoinState::AwaitingResponse { y_dash, .. } => y_dash@,
            JoinState::Idle => 0,
        }
    }

    /// Begins a join against the given public parameters.
    pub fn new(gpk: GPK) -> (r: PlatformJoinProcess)
        ensures
            r.gpk_view() == gpk@,
            !r.is_awaiting(),
    {
        Self { gpk, state: JoinState::Idle }
    }

    /// Draws a fresh secret `f` and blinding `y'`, commits to them in
    /// `T = h1^f * h2^y'`, proves knowledge of the opening, and remembers
    /// the pair for the second half of the join.
    pub fn gen_request(&mut self, rng: &mut RngSource) -> (req: JoinRequest)
        ensures
            final(self).gpk_view() == old(self).gpk_view(),
            final(self).is_awaiting(),
            req.large_t@ == fadd(
                fmul(old(self).gpk_view().h1, final(self).stored_f()),
                fmul(old(self).gpk_view().h2, final(self).stored_y()),
            ),
            exists|r1: int, r2: int|
                req.signature@ == zpk_sign_model::<G1Elem>(
                    final(self).stored_f(),
                    final(self).stored_y(),
                    old(self).gpk_view().h1,
                    old(self).gpk_view().h2,
                    req.large_t@,
                    r1,
                    r2,
                ),
    {
        let f = gen_rand_scalar(rng);
        let y_dash = gen_rand_scalar(rng);
        let large_t = g1_add(&g1_mul(&self.gpk.h1, &f), &g1_mul(&self.gpk.h2, &y_dash));

        let signature = zpk_sign(&f, &y_dash, &self.gpk.h1, &self.gpk.h2, &large_t, rng);

        self.state = JoinState::AwaitingResponse { f, y_dash };

        proof {
            let (r1, r2) = choose|r1: int, r2: int|
                signature@ == zpk_sign_model::<G1Elem>(
                    f@,
                    y_dash@,
                    self.gpk@.h1,
                    self.gpk@.h2,
                    large_t@,
                    r1,
                    r2,
                );
            assert(signature@ == zpk_sign_model::<G1Elem>(
                self.stored_f(),
                self.stored_y(),
                self.gpk@.h1,
                self.gpk@.h2,
                large_t@,
                r1,
                r2,
            ));
        }

        JoinRequest { large_t, signature }
    }

    /// Completes the join: computes `y = y' + y''`, accepts the credential
    /// exactly when it satisfies the credential relation for the committed
    /// secret, and rejects it otherwise.
    pub fn gen_platform(&self, resp: &JoinResponse) -> (r: Result<Platform, JoinError>)
        requires
            self.is_awaiting(),
        ensures
            r is Ok <==> credential_valid(
                self.gpk_view(),
                resp.large_a@,
                resp.x@,
                fadd(self.stored_y(), resp.y_dash_dash@),
                self.stored_f(),
            ),
            r is Ok ==> (r->Ok_0).gpk@ == self.gpk_view() && (r->Ok_0).sk@ == (SKView {
                large_a: resp.large_a@,
                x: resp.x@,
                y: fadd(self.stored_y(), resp.y_dash_dash@),
                f: self.stored_f(),
            }),
            r is Err ==> r->Err_0 == JoinError::CredentialVerificationFailed,
    {
        let (f, y_dash) = match &self.state {
            JoinState::AwaitingResponse { f, y_dash } => (*f, *y_dash),
            JoinState::Idle => unreached(),
        };
        let y = fr_add(&y_dash, &resp.y_dash_dash);

        if let Err(e) = self.check_resp(resp, &y, &f) {
            return Err(e);
        }

        let sk = SK { large_a: resp.large_a, x: resp.x, y, f };

        Ok(Platform::new(self.gpk, sk))
    }

    /// Checks the credential relation
    /// `e(A, w * g2^x) = e(g1 * h1^f * h2^y, g2)` for the given opening.
    fn check_resp(&self, resp: &JoinResponse, y: &Fr, f: &Fr) -> (r: Result<(), JoinError>)
        ensures
            r is Ok <==> credential_valid(self.gpk_view(), resp.large_a@, resp.x@, y@, f@),
            r is Err ==> r->Err_0 == JoinError::CredentialVerificationFailed,
    {
        let left1 = &resp.large_a;
        let left2 = g2_add(&self.gpk.w, &g2_mul(&self.gpk.g2, &resp.x));

        let right1 = g1_add(
            &g1_add(&self.gpk.g1, &g1_mul(&self.gpk.h1, f)),
            &g1_mul(&self.gpk.h2, y),
        );
        let right2 = &self.gpk.g2;

        if gt_eq(&pj_pairing(left1, &left2), &pj_pairing(&right1, right2)) {
            Ok(())
        } else {
            Err(JoinError::CredentialVerificationFailed)
        }
    }
}

/// The issuer's side of the join protocol: the issuer's keys and the request
/// under consideration.
pub struct IssuerJoinProcess {
    issuer: Issuer,
    req: JoinRequest,
}

impl IssuerJoinProcess {
    /// The public parameters this join runs against.
    pub closed spec fn gpk_view(&self) -> GPKView {
        self.issuer.gpk@
    }

    /// The issuer secret behind `w`.
    pub closed spec fn gamma(&self) -> int {
        self.issuer.isk.gamma@
    }

    /// The commitment of the request under consideration.
    pub closed spec fn req_t(&self) -> int {
        self.req.large_t@
    }

    /// The model of the request's proof of knowledge.
    pub closed spec fn req_proof(&self) -> ZpkView {
        self.req.signature@
    }

    /// Takes a join request under consideration.
    pub fn new(issuer: Issuer, req: JoinRequest) -> (r: IssuerJoinProcess)
        ensures
            r.gpk_view() == issuer.gpk@,
            r.gamma() == issuer.isk.gamma@,
            r.req_t() == req.large_t@,
            r.req_proof() == req.signature@,
    {
        Self { issuer, req }
    }

    /// Answers a join request: rejects it unless its proof of knowledge
    /// opens the request's commitment over the bases `h1`, `h2`; otherwise
    /// draws `x` and `y''` and issues the blinded credential base
    /// `A = (g1 * T * h2^y'')^(1/(x + gamma))`.  The single draw of `x` that
    /// would make `x + gamma` zero is replaced by its successor, which keeps
    /// the exponent invertible.
    pub fn gen_join_response(&self, rng: &mut RngSource) -> (r: Result<JoinResponse, JoinError>)
        ensures
            r is Ok <==> join_request_ok(self.gpk_view(), self.req_t(), self.req_proof()),
            r is Err ==> r->Err_0 == JoinError::InvalidJoinProof,
            r is Ok ==> join_response_wf(self.gpk_view(), self.gamma(), self.req_t(), (r->Ok_0)@),
    {
        if !g1_eq(&self.req.signature.large_a1, &self.issuer.gpk.h1) {
            return Err(JoinError::InvalidJoinProof);
        }
        if !g1_eq(&self.req.signature.large_a2, &self.issuer.gpk.h2) {
            return Err(JoinError::InvalidJoinProof);
        }
        if !g1_eq(&self.req.signature.large_beta, &self.req.large_t) {
            return Err(JoinError::InvalidJoinProof);
        }
        if zpk_verify(&self.req.signature).is_err() {
            return Err(JoinError::InvalidJoinProof);
        }

        let mut x = gen_rand_scalar(rng);
        let y_dash_dash = gen_rand_scalar(rng);

        let mut inv = fr_invert(&fr_add(&x, &self.issuer.isk.gamma));
        if inv.is_none() {
            proof {
                lemma_add_mod_noop_right(self.issuer.isk.gamma@, x@ + 1, fr_order());
                lemma_add_mod_noop_right(1, x@ + self.issuer.isk.gamma@, fr_order());
            }
            x = fr_add(&x, &fr_one());
            inv = fr_invert(&fr_add(&x, &self.issuer.isk.gamma));
        }
        let exp = inv.unwrap();

        let base = g1_add(
            &g1_add(&self.issuer.gpk.g1, &self.req.large_t),
            &g1_mul(&self.issuer.gpk.h2, &y_dash_dash),
        );
        let large_a = g1_mul(&base, &exp);

        let resp = JoinResponse { large_a, x, y_dash_dash };
        proof {
            assert(fmul(fadd(resp@.x, self.gamma()), exp@) == 1 && resp@.large_a == fmul(
                fadd(fadd(self.gpk_view().g1, self.req_t()), fmul(
                    self.gpk_view().h2,
                    resp@.y_dash_dash,
                )),
                exp@,
            ));
        }
        Ok(resp)
    }
}

} // verus!
