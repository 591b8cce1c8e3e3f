use ecdsa::u256::U256;
use ecdsa::curve::generator;
use ecdsa::ecdsa::{derive_public_key, generate_signing_witness, sign};
use ecdsa::ecdsa_circuit::{TestCircuitEcdsaVerify, WitnessValue};
use ecdsa::lifecycle::{
    create_proof, keygen_pk, keygen_vk, mock_prove, setup, verify_proof, ProofError,
    VerificationResult,
};

fn honest_circuit(window_size: u32) -> TestCircuitEcdsaVerify {
    let w = generate_signing_witness();
    let (r, s) = sign(&w.secret_key, &w.nonce, &w.msg_hash).expect("random nonce is nonzero");
    let pk = derive_public_key(&w.secret_key);
    TestCircuitEcdsaVerify::with_witness(pk, (r, s), w.msg_hash, window_size)
}

fn unknown_circuit(window_size: u32) -> TestCircuitEcdsaVerify {
    TestCircuitEcdsaVerify {
        public_key: WitnessValue::Unknown,
        signature: WitnessValue::Unknown,
        msg_hash: WitnessValue::Unknown,
        aux_generator: generator(),
        window_size,
    }
}

#[test]
fn prove_verify_roundtrip_accepts() {
    let params = setup(20);
    let circuit = honest_circuit(2);
    let vk = keygen_vk(&params, &circuit).expect("key generation succeeds");
    let pk = keygen_pk(&params, vk, &circuit).expect("proving-key derivation succeeds");
    // one proof covers two instances jointly
    let batch = vec![circuit, circuit];
    let rng = U256::from_u64(42);
    let proof = create_proof(&params, &pk, &batch, &rng).expect("honest witnesses prove");
    let public_inputs = vec![vec![], vec![]];
    assert_eq!(verify_proof(&params, &vk, &proof, &public_inputs), VerificationResult::Accept);
}

#[test]
fn proofs_differ_per_rng_but_both_verify() {
    let params = setup(20);
    let circuit = honest_circuit(2);
    let vk = keygen_vk(&params, &circuit).unwrap();
    let pk = keygen_pk(&params, vk, &circuit).unwrap();
    let batch = vec![circuit];
    let p1 = create_proof(&params, &pk, &batch, &U256::from_u64(1)).unwrap();
    let p2 = create_proof(&params, &pk, &batch, &U256::from_u64(2)).unwrap();
    assert_ne!(p1, p2);
    let public_inputs = vec![vec![]];
    assert_eq!(verify_proof(&params, &vk, &p1, &public_inputs), VerificationResult::Accept);
    assert_eq!(verify_proof(&params, &vk, &p2, &public_inputs), VerificationResult::Accept);
}

#[test]
fn keygen_is_idempotent_and_keys_interchange() {
    let params = setup(20);
    let circuit = unknown_circuit(2);
    let vk1 = keygen_vk(&params, &circuit).unwrap();
    let vk2 = keygen_vk(&params, &circuit).unwrap();
    assert_eq!(vk1, vk2);
    let pk1 = keygen_pk(&params, vk1, &circuit).unwrap();
    let pk2 = keygen_pk(&params, vk2, &circuit).unwrap();
    assert_eq!(pk1, pk2);
    // a proof made under the first key pair verifies under the second
    let concrete = honest_circuit(2);
    let proof = create_proof(&params, &pk1, &vec![concrete], &U256::from_u64(9)).unwrap();
    assert_eq!(verify_proof(&params, &vk2, &proof, &vec![vec![]]), VerificationResult::Accept);
}

#[test]
fn mismatched_window_size_is_rejected() {
    let params = setup(20);
    let vk2 = keygen_vk(&params, &unknown_circuit(2)).unwrap();
    // a proof from a window-3 circuit, keyed consistently for window 3
    let c3 = honest_circuit(3);
    let vk3 = keygen_vk(&params, &c3).unwrap();
    let pk3 = keygen_pk(&params, vk3, &c3).unwrap();
    let proof3 = create_proof(&params, &pk3, &vec![c3], &U256::from_u64(5)).unwrap();
    assert_eq!(verify_proof(&params, &vk3, &proof3, &vec![vec![]]), VerificationResult::Accept);
    assert_eq!(verify_proof(&params, &vk2, &proof3, &vec![vec![]]), VerificationResult::Reject);
}

#[test]
fn create_proof_rejects_foreign_shape() {
    let params = setup(20);
    let c2 = unknown_circuit(2);
    let vk = keygen_vk(&params, &c2).unwrap();
    let pk = keygen_pk(&params, vk, &c2).unwrap();
    let c3 = honest_circuit(3);
    assert_eq!(create_proof(&params, &pk, &vec![c3], &U256::zero()), Err(ProofError::ShapeMismatch));
}

#[test]
fn create_proof_rejects_bad_witness() {
    let params = setup(20);
    let circuit = honest_circuit(2);
    let vk = keygen_vk(&params, &circuit).unwrap();
    let pk = keygen_pk(&params, vk, &circuit).unwrap();
    let w = generate_signing_witness();
    let bad = TestCircuitEcdsaVerify::with_witness(
        derive_public_key(&w.secret_key),
        (U256::from_u64(1), U256::from_u64(1)),
        w.msg_hash,
        2,
    );
    assert_eq!(
        create_proof(&params, &pk, &vec![bad], &U256::zero()),
        Err(ProofError::UnsatisfiableWitness)
    );
}

#[test]
fn undersized_parameters_fail_keygen() {
    // 2^4 rows cannot hold the range tables
    let params = setup(4);
    assert_eq!(keygen_vk(&params, &unknown_circuit(2)), Err(ProofError::UndersizedParameters));
}

#[test]
fn bad_window_fails_keygen() {
    let params = setup(20);
    assert_eq!(keygen_vk(&params, &unknown_circuit(0)), Err(ProofError::Configuration));
    assert_eq!(keygen_vk(&params, &unknown_circuit(21)), Err(ProofError::Configuration));
}

#[test]
fn verify_rejects_nonempty_public_inputs() {
    let params = setup(20);
    let circuit = honest_circuit(2);
    let vk = keygen_vk(&params, &circuit).unwrap();
    let pk = keygen_pk(&params, vk, &circuit).unwrap();
    let proof = create_proof(&params, &pk, &vec![circuit], &U256::zero()).unwrap();
    // wrong instance count
    assert_eq!(verify_proof(&params, &vk, &proof, &vec![]), VerificationResult::Reject);
    // a declared public value where none is exposed
    assert_eq!(
        verify_proof(&params, &vk, &proof, &vec![vec![U256::from_u64(1)]]),
        VerificationResult::Reject
    );
}

#[test]
fn verify_rejects_foreign_parameters() {
    let params = setup(20);
    let circuit = honest_circuit(2);
    let vk = keygen_vk(&params, &circuit).unwrap();
    let pk = keygen_pk(&params, vk, &circuit).unwrap();
    let proof = create_proof(&params, &pk, &vec![circuit], &U256::zero()).unwrap();
    let other_params = setup(19);
    assert_eq!(
        verify_proof(&other_params, &vk, &proof, &vec![vec![]]),
        VerificationResult::Reject
    );
}

#[test]
fn keygen_pk_rejects_foreign_verifying_key() {
    let params = setup(20);
    let vk3 = keygen_vk(&params, &unknown_circuit(3)).unwrap();
    assert_eq!(
        keygen_pk(&params, vk3, &unknown_circuit(2)),
        Err(ProofError::ShapeMismatch)
    );
}

#[test]
fn dry_run_accepts_honest_secp256k1_witness() {
    // the full scenario: random secret key and hash on secp256k1, a
    // signature from the standard signing equation, one circuit instance
    let w = generate_signing_witness();
    let (r, s) = sign(&w.secret_key, &w.nonce, &w.msg_hash).expect("random nonce is nonzero");
    let pk = derive_public_key(&w.secret_key);
    let circuit = TestCircuitEcdsaVerify::with_witness(pk, (r, s), w.msg_hash, 2);
    assert_eq!(mock_prove(20, &circuit, &vec![vec![]]), Ok(()));
}

#[test]
fn dry_run_rejects_flipped_r_bit() {
    let w = generate_signing_witness();
    let (r, s) = sign(&w.secret_key, &w.nonce, &w.msg_hash).expect("random nonce is nonzero");
    let pk = derive_public_key(&w.secret_key);
    let bad_r = U256 { l0: r.l0 ^ 1, l1: r.l1, l2: r.l2, l3: r.l3 };
    let circuit = TestCircuitEcdsaVerify::with_witness(pk, (bad_r, s), w.msg_hash, 2);
    assert_eq!(
        mock_prove(20, &circuit, &vec![vec![]]),
        Err(ProofError::UnsatisfiableWitness)
    );
}

#[test]
fn dry_run_rejects_undersized_parameters() {
    let circuit = honest_circuit(2);
    assert_eq!(
        mock_prove(4, &circuit, &vec![vec![]]),
        Err(ProofError::UndersizedParameters)
    );
}

#[test]
fn dry_run_rejects_declared_public_values() {
    let circuit = honest_circuit(2);
    assert_eq!(
        mock_prove(20, &circuit, &vec![vec![U256::from_u64(1)]]),
        Err(ProofError::Configuration)
    );
}
