use epid::issuer::Issuer;
use epid::join::IssuerJoinProcess;
use epid::join::JoinError;
use epid::join::JoinRequest;
use epid::join::JoinResponse;
use epid::join::PlatformJoinProcess;
use epid::platform::Platform;
use epid::types::Revocation;
use epid::types::Signature;
use epid::utils::calc_sha256_scalar;
use epid::utils::gen_rand_scalar;
use epid::utils::RngSource;
use epid::verify::Verifier;
use epid::verify::VerifyError;

fn join_platform(issuer: Issuer, rng: &mut RngSource) -> Platform {
    let mut platform_join = PlatformJoinProcess::new(issuer.gpk);
    let join_req = platform_join.gen_request(rng);
    let issuer_join = IssuerJoinProcess::new(issuer, join_req);
    let join_resp = issuer_join
        .gen_join_response(rng)
        .expect("genjoin resp error");
    platform_join
        .gen_platform(&join_resp)
        .expect("gen platform error")
}

#[test]
fn test_random() {
    let mut rng = RngSource::new();
    Issuer::random(&mut rng);
}

#[test]
fn test_all() {
    let mut rng = RngSource::new();
    let issuer = Issuer::random(&mut rng);

    let gpk = issuer.gpk;

    /* make revocation list */

    let mut rl_platform_join = PlatformJoinProcess::new(gpk);
    let rl_join_req = rl_platform_join.gen_request(&mut rng);
    let rl_issuer_join = IssuerJoinProcess::new(issuer, rl_join_req);
    let rl_join_resp = rl_issuer_join
        .gen_join_response(&mut rng)
        .expect("genjoin resp error");

    let rl_platform = rl_platform_join
        .gen_platform(&rl_join_resp)
        .expect("gen platform error");

    let msg = vec![1, 2, 3];
    let rl_signature = rl_platform.sign(&msg, &vec![], &mut rng);

    let rl = vec![Revocation {
        large_k: rl_signature.platform_attestation.large_k,
        large_b: rl_signature.platform_attestation.large_b,
    }];

    let mut platform_join = PlatformJoinProcess::new(gpk);
    let join_req = platform_join.gen_request(&mut rng);
    let issuer_join = IssuerJoinProcess::new(issuer, join_req);
    let join_resp = issuer_join
        .gen_join_response(&mut rng)
        .expect("genjoin resp error");
    let platform = platform_join
        .gen_platform(&join_resp)
        .expect("gen platform error");

    let signature = platform.sign(&msg, &rl, &mut rng);

    let verifier = Verifier::new(gpk);
    verifier.verify(&signature, &msg, &rl).unwrap();

    let signature = rl_platform.sign(&msg, &rl, &mut rng);
    match verifier.verify(&signature, &msg, &rl) {
        Ok(_) => assert!(false),
        Err(_) => assert!(true),
    }
}

#[test]
fn scenario_revocation_roundtrip() {
    let mut rng = RngSource::new();
    let issuer = Issuer::random(&mut rng);
    let verifier = Verifier::new(issuer.gpk);

    let platform_a = join_platform(issuer, &mut rng);

    let msg = vec![1u8, 2, 3];
    let sig1 = platform_a.sign(&msg, &[], &mut rng);
    assert_eq!(verifier.verify(&sig1, &msg, &[]), Ok(()));

    let sig2 = platform_a.sign(&msg, &[], &mut rng);
    let rl = vec![Revocation {
        large_b: sig2.platform_attestation.large_b,
        large_k: sig2.platform_attestation.large_k,
    }];

    let msg3 = vec![7u8, 8, 9];
    let sig3 = platform_a.sign(&msg3, &rl, &mut rng);
    assert_eq!(
        verifier.verify(&sig3, &msg3, &rl),
        Err(VerifyError::RevokedSigner)
    );

    let platform_b = join_platform(issuer, &mut rng);
    let sig_b = platform_b.sign(&msg3, &rl, &mut rng);
    assert_eq!(verifier.verify(&sig_b, &msg3, &rl), Ok(()));
}

#[test]
fn challenge_mismatch_on_message_flip() {
    let mut rng = RngSource::new();
    let issuer = Issuer::random(&mut rng);
    let verifier = Verifier::new(issuer.gpk);
    let platform = join_platform(issuer, &mut rng);

    let msg = vec![1u8, 2, 3];
    let sig = platform.sign(&msg, &[], &mut rng);

    // Last bit of the last byte flipped.
    let flipped = vec![1u8, 2, 2];
    assert_eq!(
        verifier.verify(&sig, &flipped, &[]),
        Err(VerifyError::ChallengeMismatch)
    );
}

#[test]
fn challenge_mismatch_on_attestation_tamper() {
    let mut rng = RngSource::new();
    let issuer = Issuer::random(&mut rng);
    let verifier = Verifier::new(issuer.gpk);
    let platform = join_platform(issuer, &mut rng);

    let msg = vec![1u8, 2, 3];

    // A different response scalar.
    let sig = platform.sign(&msg, &[], &mut rng);
    let mut pa = sig.platform_attestation;
    pa.s_x = calc_sha256_scalar(b"tamper");
    let tampered = Signature {
        platform_attestation: pa,
        unrevoked_attestations: vec![],
    };
    assert_eq!(
        verifier.verify(&tampered, &msg, &[]),
        Err(VerifyError::ChallengeMismatch)
    );

    // A different challenge.
    let sig = platform.sign(&msg, &[], &mut rng);
    let mut pa = sig.platform_attestation;
    pa.c = calc_sha256_scalar(b"tamper");
    let tampered = Signature {
        platform_attestation: pa,
        unrevoked_attestations: vec![],
    };
    assert_eq!(
        verifier.verify(&tampered, &msg, &[]),
        Err(VerifyError::ChallengeMismatch)
    );

    // A different signature base, taken from another signature.
    let sig = platform.sign(&msg, &[], &mut rng);
    let other = platform.sign(&msg, &[], &mut rng);
    let mut pa = sig.platform_attestation;
    pa.large_b = other.platform_attestation.large_b;
    let tampered = Signature {
        platform_attestation: pa,
        unrevoked_attestations: vec![],
    };
    assert_eq!(
        verifier.verify(&tampered, &msg, &[]),
        Err(VerifyError::ChallengeMismatch)
    );

    // A different rerandomized credential base.
    let sig = platform.sign(&msg, &[], &mut rng);
    let mut pa = sig.platform_attestation;
    pa.large_t = issuer.gpk.h1;
    let tampered = Signature {
        platform_attestation: pa,
        unrevoked_attestations: vec![],
    };
    assert_eq!(
        verifier.verify(&tampered, &msg, &[]),
        Err(VerifyError::ChallengeMismatch)
    );
}

#[test]
fn zpk_rejects_tuples_without_witness() {
    let mut rng = RngSource::new();
    let issuer = Issuer::random(&mut rng);
    let gpk = issuer.gpk;

    let a1 = epid::utils::pj_pairing(&gpk.h1, &gpk.g2);
    let a2 = epid::utils::pj_pairing(&gpk.h2, &gpk.g2);
    let y1 = epid::utils::pj_pairing(&gpk.h1, &gpk.w);
    let y2 = epid::utils::pj_pairing(&gpk.h2, &gpk.w);
    let beta = gpk.g3;

    for _ in 0..32 {
        let candidate = epid::zpk::ZPKSignature {
            y1: gen_rand_scalar(&mut rng),
            y2: gen_rand_scalar(&mut rng),
            large_a1: a1,
            large_a2: a2,
            large_y1: y1,
            large_y2: y2,
            large_beta: beta,
        };
        assert!(epid::zpk::zpk_verify(&candidate).is_err());
    }
}

#[test]
fn issuer_rejects_tampered_request() {
    let mut rng = RngSource::new();
    let issuer = Issuer::random(&mut rng);

    let mut platform_join = PlatformJoinProcess::new(issuer.gpk);
    let req = platform_join.gen_request(&mut rng);

    // The commitment no longer matches the proof's payload.
    let tampered = JoinRequest {
        large_t: issuer.gpk.h1,
        signature: req.signature,
    };
    let issuer_join = IssuerJoinProcess::new(issuer, tampered);
    assert_eq!(
        issuer_join.gen_join_response(&mut rng).err(),
        Some(JoinError::InvalidJoinProof)
    );
}

#[test]
fn platform_rejects_bad_response() {
    let mut rng = RngSource::new();
    let issuer = Issuer::random(&mut rng);

    let mut platform_join = PlatformJoinProcess::new(issuer.gpk);
    let req = platform_join.gen_request(&mut rng);
    let issuer_join = IssuerJoinProcess::new(issuer, req);
    let resp = issuer_join
        .gen_join_response(&mut rng)
        .expect("genjoin resp error");

    // A response blinding that does not match the issued base.
    let bad = JoinResponse {
        large_a: resp.large_a,
        x: resp.x,
        y_dash_dash: gen_rand_scalar(&mut rng),
    };
    assert_eq!(
        platform_join.gen_platform(&bad).err(),
        Some(JoinError::CredentialVerificationFailed)
    );

    // A credential base that was not issued.
    let bad = JoinResponse {
        large_a: issuer.gpk.h1,
        x: resp.x,
        y_dash_dash: resp.y_dash_dash,
    };
    assert_eq!(
        platform_join.gen_platform(&bad).err(),
        Some(JoinError::CredentialVerificationFailed)
    );

    // The untampered response still passes.
    assert!(platform_join.gen_platform(&resp).is_ok());
}

#[test]
fn nonrevocation_proof_tamper_is_detected() {
    let mut rng = RngSource::new();
    let issuer = Issuer::random(&mut rng);
    let verifier = Verifier::new(issuer.gpk);

    let platform_a = join_platform(issuer, &mut rng);
    let platform_b = join_platform(issuer, &mut rng);

    let msg = vec![1u8, 2, 3];
    let sig_a = platform_a.sign(&msg, &[], &mut rng);
    let rl = vec![Revocation {
        large_b: sig_a.platform_attestation.large_b,
        large_k: sig_a.platform_attestation.large_k,
    }];

    // The first proof's response no longer opens the entry's bases.
    let sig = platform_b.sign(&msg, &rl, &mut rng);
    let mut ur = sig.unrevoked_attestations;
    ur[0].proof1.y1 = calc_sha256_scalar(b"tamper");
    let tampered = Signature {
        platform_attestation: sig.platform_attestation,
        unrevoked_attestations: ur,
    };
    assert_eq!(
        verifier.verify(&tampered, &msg, &rl),
        Err(VerifyError::NonRevocationProof1Invalid)
    );

    // The second proof's response no longer opens the signer's own pair.
    let sig = platform_b.sign(&msg, &rl, &mut rng);
    let mut ur = sig.unrevoked_attestations;
    ur[0].proof2.y1 = calc_sha256_scalar(b"tamper");
    let tampered = Signature {
        platform_attestation: sig.platform_attestation,
        unrevoked_attestations: ur,
    };
    assert_eq!(
        verifier.verify(&tampered, &msg, &rl),
        Err(VerifyError::NonRevocationProof2Invalid)
    );

    // A signature without non-revocation proofs fails against a nonempty
    // list.
    let sig = platform_b.sign(&msg, &[], &mut rng);
    assert_eq!(
        verifier.verify(&sig, &msg, &rl),
        Err(VerifyError::NonRevocationProof1Invalid)
    );
}
